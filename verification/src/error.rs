//! The faults that end a plot, and the words that report them.

use crate::wire::{decimal, lemma_decimal_digits, push_decimal};
use vstd::prelude::*;
use vstd::string::StringExecFns;

verus! {

/// A fault that ends a plot. None of them is recovered from.
#[derive(Clone, Copy, Debug, PartialEq, Eq)]
pub enum PlotError {
    /// The canvas asked for is larger than the plotter's bed.
    InvalidCanvas,
    /// The bus adapter did not open; `code` is what the open call returned.
    AdapterOpenFailed { code: i32 },
    /// No channel could be opened to the device at `device`, `secondary`.
    ChannelOpenFailed { device: u8, secondary: u8 },
    /// The motion stream changed the tool state to something other than 0 or 1.
    UnrecognisedToolCommand,
}

/// The decimal digits of `n` as text.
pub open spec fn numeral(n: nat) -> Seq<char> {
    decimal(n).map_values(|digit: u8| digit as char)
}

/// The decimal digits of `n` as text, behind a minus sign where `n` is negative.
pub open spec fn signed_numeral(n: int) -> Seq<char> {
    if n < 0 {
        seq!['-'] + numeral((-n) as nat)
    } else {
        numeral(n as nat)
    }
}

/// The text of one ASCII digit.
fn digit_text(digit: u8) -> (text: &'static str)
    requires
        48 <= digit <= 57,
    ensures
        text@ == seq![digit as char],
{
    let text: &'static str = match digit {
        48 => "0",
        49 => "1",
        50 => "2",
        51 => "3",
        52 => "4",
        53 => "5",
        54 => "6",
        55 => "7",
        56 => "8",
        _ => "9",
    };
    proof {
        reveal_strlit("0");
        reveal_strlit("1");
        reveal_strlit("2");
        reveal_strlit("3");
        reveal_strlit("4");
        reveal_strlit("5");
        reveal_strlit("6");
        reveal_strlit("7");
        reveal_strlit("8");
        reveal_strlit("9");
        assert(text@ =~= seq![digit as char]);
    }
    text
}

/// Appends the decimal digits of `n` to `text`.
fn append_numeral(text: &mut String, n: u32)
    ensures
        final(text)@ == old(text)@ + numeral(n as nat),
{
    let mut digits: Vec<u8> = Vec::new();
    push_decimal(&mut digits, n);
    proof {
        lemma_decimal_digits(n as nat);
    }
    let mut i: usize = 0;
    while i < digits.len()
        invariant
            i <= digits.len(),
            digits@ == decimal(n as nat),
            forall|k: int| 0 <= k < digits.len() ==> 48 <= #[trigger] digits[k] <= 57,
            text@ == old(text)@ + numeral(n as nat).take(i as int),
        decreases digits.len() - i,
    {
        text.append(digit_text(digits[i]));
        i += 1;
        assert(text@ =~= old(text)@ + numeral(n as nat).take(i as int));
    }
    assert(numeral(n as nat).take(i as int) =~= numeral(n as nat));
}

impl PlotError {
    /// What the report of the fault says.
    pub open spec fn text(self) -> Seq<char> {
        match self {
            PlotError::InvalidCanvas => "Invalid width/height"@,
            PlotError::AdapterOpenFailed { code } => "failed to open adapter with error: "@
                + signed_numeral(code as int),
            PlotError::ChannelOpenFailed { device, secondary } => "failed to open address "@
                + numeral(device as nat) + seq![':'] + numeral(secondary as nat),
            PlotError::UnrecognisedToolCommand => "unrecognised tool command!"@,
        }
    }

    /// Reports the fault in words, with the numbers that came with it.
    pub fn message(&self) -> (text: String)
        ensures
            text@ == self.text(),
    {
        match self {
            PlotError::InvalidCanvas => String::from_str("Invalid width/height"),
            PlotError::AdapterOpenFailed { code } => {
                let mut text: String = String::from_str("failed to open adapter with error: ");
                if *code < 0 {
                    proof {
                        reveal_strlit("-");
                    }
                    text.append("-");
                    append_numeral(&mut text, (-(*code as i64)) as u32);
                    assert(text@ =~= self.text());
                } else {
                    append_numeral(&mut text, *code as u32);
                }
                text
            },
            PlotError::ChannelOpenFailed { device, secondary } => {
                let mut text: String = String::from_str("failed to open address ");
                append_numeral(&mut text, *device as u32);
                proof {
                    reveal_strlit(":");
                }
                text.append(":");
                append_numeral(&mut text, *secondary as u32);
                assert(text@ =~= self.text());
                text
            },
            PlotError::UnrecognisedToolCommand => String::from_str("unrecognised tool command!"),
        }
    }
}

} // verus!
