//! Motion tokens: the field updates that a motion stream delivers, and the
//! reading of a coordinate out of a double-precision number.
//!
//! Coordinates arrive as IEEE 754 binary64 numbers. They are carried by their
//! bit pattern (what `f64::to_bits` gives), so that cutting one down to the
//! plotter's unsigned steps is ordinary integer work.

use vstd::arithmetic::power2::{lemma_pow2_pos, pow2};
use vstd::bits::lemma_u64_shr_is_div;
use vstd::prelude::*;
use vstd::string::StrSliceExecFns;

verus! {

/// The sign bit of a binary64 bit pattern is set.
pub open spec fn sign(bits: u64) -> bool {
    bits >= 0x8000_0000_0000_0000
}

/// The biased exponent of a binary64 bit pattern: eleven bits.
pub open spec fn exponent(bits: u64) -> nat {
    ((bits / 0x10_0000_0000_0000) % 0x800) as nat
}

/// The fraction of a binary64 bit pattern: the low fifty-two bits.
pub open spec fn fraction(bits: u64) -> nat {
    (bits % 0x10_0000_0000_0000) as nat
}

/// The whole part of the magnitude of a finite binary64 number. A normal
/// number is `(2^52 + fraction) * 2^(exponent - 1075)`; zero, the subnormal
/// numbers and every exponent under 1023 lie below one.
pub open spec fn whole_part(bits: u64) -> nat {
    let e = exponent(bits);
    let significand = 0x10_0000_0000_0000 + fraction(bits);
    if e < 1023 {
        0
    } else if e <= 1075 {
        significand / pow2((1075 - e) as nat)
    } else {
        significand * pow2((e - 1075) as nat)
    }
}

/// The coordinate that a binary64 number stands for: its value cut off
/// towards zero and held to the range of `u32`. Negative numbers and NaN
/// give 0, numbers past the range (positive infinity too) give `u32::MAX`.
pub open spec fn truncated(bits: u64) -> u32 {
    if sign(bits) {
        0
    } else if exponent(bits) == 0x7ff {
        if fraction(bits) != 0 {
            0
        } else {
            u32::MAX
        }
    } else if whole_part(bits) > u32::MAX {
        u32::MAX
    } else {
        whole_part(bits) as u32
    }
}

/// Cuts a binary64 number, given by its bit pattern, down to a coordinate.
pub fn truncate(bits: u64) -> (value: u32)
    ensures
        value == truncated(bits),
{
    let e: u64 = (bits >> 52) & 0x7ff;
    let f: u64 = bits & 0xf_ffff_ffff_ffff;
    assert(e == (bits / 0x10_0000_0000_0000) % 0x800) by (bit_vector)
        requires
            e == (bits >> 52) & 0x7ff,
    ;
    assert(f == bits % 0x10_0000_0000_0000) by (bit_vector)
        requires
            f == bits & 0xf_ffff_ffff_ffff,
    ;
    if bits >= 0x8000_0000_0000_0000 {
        return 0;
    }
    if e == 0x7ff {
        return if f != 0 {
            0
        } else {
            u32::MAX
        };
    }
    if e < 1023 {
        return 0;
    }
    let significand: u64 = f | 0x10_0000_0000_0000;
    assert(significand == 0x10_0000_0000_0000 + f) by (bit_vector)
        requires
            significand == f | 0x10_0000_0000_0000,
            f < 0x10_0000_0000_0000,
    ;
    if e > 1075 {
        proof {
            lemma_pow2_pos((e - 1075) as nat);
            assert(significand * pow2((e - 1075) as nat) >= significand) by (nonlinear_arith)
                requires
                    pow2((e - 1075) as nat) > 0,
            ;
        }
        return u32::MAX;
    }
    let shift: u64 = 1075 - e;
    let whole: u64 = significand >> shift;
    proof {
        lemma_u64_shr_is_div(significand, shift);
    }
    if e >= 1055 {
        assert(whole >= 0x1_0000_0000) by (bit_vector)
            requires
                whole == significand >> shift,
                shift <= 20,
                significand >= 0x10_0000_0000_0000,
        ;
        return u32::MAX;
    }
    assert(whole < 0x1_0000_0000) by (bit_vector)
        requires
            whole == significand >> shift,
            21 <= shift <= 52,
            significand < 0x20_0000_0000_0000,
    ;
    whole as u32
}

/// The tool state that lowers the pen: what follows is drawn.
pub const TOOL_DRAW: usize = 0;

/// The tool state that lifts the pen: what follows is travelled.
pub const TOOL_MOVE: usize = 1;

/// What a field of the motion stream carries behind its letters.
#[derive(Clone, Copy, Debug, PartialEq, Eq)]
pub enum Value {
    /// A binary64 number, by its bit pattern.
    Float(u64),
    /// An unsigned whole number.
    Integer(usize),
    /// Anything else: a decimal fraction, a string.
    Other,
}

/// One update from the motion stream.
#[derive(Clone, Copy, Debug, PartialEq, Eq)]
pub enum MotionToken {
    /// A new x coordinate: a binary64 number, by its bit pattern.
    X(u64),
    /// A new y coordinate: a binary64 number, by its bit pattern.
    Y(u64),
    /// A change of the tool state: 0 lowers the pen, 1 lifts it.
    ToolState(usize),
    /// A token that the plotter has no use for.
    Other,
}

impl MotionToken {
    /// The plotter can follow the token: it is not a change to a tool state
    /// that the plotter does not have.
    pub open spec fn recognised(self) -> bool {
        self matches MotionToken::ToolState(state) ==> state == TOOL_DRAW || state == TOOL_MOVE
    }

    /// The token sets a coordinate.
    pub open spec fn is_coordinate(self) -> bool {
        self is X || self is Y
    }

    /// The token that a field with these letters and this value stands for:
    /// `X` and `Y` count with a number, `Z` with a whole number, and nothing
    /// else counts.
    pub open spec fn of_field(letters: Seq<char>, value: Value) -> MotionToken {
        match value {
            Value::Float(bits) => if letters == seq!['X'] {
                MotionToken::X(bits)
            } else if letters == seq!['Y'] {
                MotionToken::Y(bits)
            } else {
                MotionToken::Other
            },
            Value::Integer(state) => if letters == seq!['Z'] {
                MotionToken::ToolState(state)
            } else {
                MotionToken::Other
            },
            Value::Other => MotionToken::Other,
        }
    }

    /// Reads a field of the motion stream.
    pub fn from_field(letters: &str, value: Value) -> (token: MotionToken)
        ensures
            token == MotionToken::of_field(letters@, value),
    {
        if letters.unicode_len() != 1 {
            return MotionToken::Other;
        }
        let letter: char = letters.get_char(0);
        assert(letters@ =~= seq![letter]);
        match value {
            Value::Float(bits) => if letter == 'X' {
                MotionToken::X(bits)
            } else if letter == 'Y' {
                MotionToken::Y(bits)
            } else {
                MotionToken::Other
            },
            Value::Integer(state) => if letter == 'Z' {
                MotionToken::ToolState(state)
            } else {
                MotionToken::Other
            },
            Value::Other => MotionToken::Other,
        }
    }
}

} // verus!
