//! The plotter's line protocol: what a command looks like on the wire.
//!
//! A move is the ASCII line `M,<x>,<y>` with a line feed, a draw is `D,<x>,<y>`
//! without one, and both end in a zero byte. The coordinates are written in
//! decimal, without sign, padding or leading zeros. A reset carries no bytes.

use crate::command::Commands;
use vstd::prelude::*;

verus! {

/// The decimal digits of `n` in ASCII, most significant first.
pub open spec fn decimal(n: nat) -> Seq<u8>
    decreases n,
{
    if n < 10 {
        seq![(48 + n) as u8]
    } else {
        decimal(n / 10).push((48 + n % 10) as u8)
    }
}

/// The number that a run of ASCII digits denotes, most significant first.
pub open spec fn denoted(digits: Seq<u8>) -> nat
    decreases digits.len(),
{
    if digits.len() == 0 {
        0
    } else {
        (denoted(digits.drop_last()) * 10 + (digits.last() - 48)) as nat
    }
}

/// The line that moves the pen to `(x, y)`.
pub open spec fn move_line(x: u32, y: u32) -> Seq<u8> {
    seq![77u8, 44u8] + decimal(x as nat) + seq![44u8] + decimal(y as nat) + seq![10u8, 0u8]
}

/// The line that draws to `(x, y)`.
pub open spec fn draw_line(x: u32, y: u32) -> Seq<u8> {
    seq![68u8, 44u8] + decimal(x as nat) + seq![44u8] + decimal(y as nat) + seq![0u8]
}

/// Every decimal rendering is a non-empty run of ASCII digits, and starts
/// with the digit zero only where the number is zero.
pub proof fn lemma_decimal_digits(n: nat)
    ensures
        decimal(n).len() >= 1,
        forall|i: int| 0 <= i < decimal(n).len() ==> 48 <= #[trigger] decimal(n)[i] <= 57,
        decimal(n)[0] == 48 <==> n == 0,
    decreases n,
{
    if n >= 10 {
        lemma_decimal_digits(n / 10);
    }
}

/// A decimal rendering denotes the number it was made from, so two numbers
/// with the same rendering are the same number.
pub proof fn lemma_decimal_denotes(n: nat)
    ensures
        denoted(decimal(n)) == n,
    decreases n,
{
    if n < 10 {
        assert(decimal(n).drop_last() =~= Seq::<u8>::empty());
        assert(denoted(Seq::<u8>::empty()) == 0);
        assert(decimal(n).last() == 48 + n);
    } else {
        lemma_decimal_denotes(n / 10);
        assert(decimal(n).drop_last() =~= decimal(n / 10));
        assert(decimal(n).last() == 48 + n % 10);
    }
}

/// Appends the decimal digits of `n` to `out`.
pub fn push_decimal(out: &mut Vec<u8>, n: u32)
    ensures
        final(out)@ == old(out)@ + decimal(n as nat),
    decreases n,
{
    if n >= 10 {
        push_decimal(out, n / 10);
    }
    out.push(48 + (n % 10) as u8);
}

impl Commands {
    /// The bytes that carry the command to the plotter. A command that is
    /// not ready has none, and neither has a reset.
    pub open spec fn line(self) -> Seq<u8> {
        match self {
            Commands::Move(options) => match (options.x, options.y) {
                (Some(x), Some(y)) => move_line(x, y),
                _ => Seq::empty(),
            },
            Commands::Draw(options) => match (options.x, options.y) {
                (Some(x), Some(y)) => draw_line(x, y),
                _ => Seq::empty(),
            },
            Commands::Reset => Seq::empty(),
        }
    }

    /// Writes the command out for the wire, once it is ready.
    pub fn payload(&self) -> (bytes: Option<Vec<u8>>)
        ensures
            bytes is Some <==> self.ready(),
            bytes matches Some(b) ==> b@ == self.line(),
    {
        let mut out: Vec<u8> = Vec::new();
        match self {
            Commands::Move(options) => match (options.x, options.y) {
                (Some(x), Some(y)) => {
                    out.push(77);
                    out.push(44);
                    push_decimal(&mut out, x);
                    out.push(44);
                    push_decimal(&mut out, y);
                    out.push(10);
                    out.push(0);
                    assert(out@ =~= move_line(x, y));
                    Some(out)
                },
                _ => None,
            },
            Commands::Draw(options) => match (options.x, options.y) {
                (Some(x), Some(y)) => {
                    out.push(68);
                    out.push(44);
                    push_decimal(&mut out, x);
                    out.push(44);
                    push_decimal(&mut out, y);
                    out.push(0);
                    assert(out@ =~= draw_line(x, y));
                    Some(out)
                },
                _ => None,
            },
            Commands::Reset => Some(out),
        }
    }
}

/// The line of a ready move or draw is ASCII text closed by a zero byte, and
/// holds no other zero byte.
pub proof fn lemma_line_terminated(command: Commands)
    requires
        command.ready(),
        command != Commands::Reset,
    ensures
        command.line().len() >= 6,
        command.line().last() == 0,
        forall|i: int| 0 <= i < command.line().len() - 1 ==> 0 < #[trigger] command.line()[i] < 128,
{
    let (x, y) = match command {
        Commands::Move(options) => (options.x->0, options.y->0),
        Commands::Draw(options) => (options.x->0, options.y->0),
        Commands::Reset => (0u32, 0u32),
    };
    lemma_decimal_digits(x as nat);
    lemma_decimal_digits(y as nat);
    let dx = decimal(x as nat);
    let dy = decimal(y as nat);
    let line = command.line();
    assert forall|i: int| 0 <= i < line.len() - 1 implies 0 < #[trigger] line[i] < 128 by {
        if i < 2 {
        } else if i < 2 + dx.len() {
            assert(line[i] == dx[i - 2]);
        } else if i == 2 + dx.len() {
        } else if i < 3 + dx.len() + dy.len() {
            assert(line[i] == dy[i - 3 - dx.len()]);
        } else {
        }
    }
}

} // verus!
