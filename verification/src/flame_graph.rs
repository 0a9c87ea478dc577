//! The sampling frequency of flame-graph recordings.

use vstd::prelude::*;

use crate::number::{decimal, lemma_decimal_roundtrip, parse_u32, parse_unsigned, u64_to_string};
use crate::text::{owned, str_eq};

verus! {

/// How often `perf record` samples: a number of times per second, or `max`.
#[derive(Debug, Clone, Copy, PartialEq, Eq, Structural)]
pub enum FlameFrequency {
    Number(u32),
    Max,
}

/// The text is neither `max` nor a number that fits in 32 bits.
#[derive(Debug, Clone, PartialEq, Eq)]
pub struct NotAFlameFrequency;

/// The frequency that a text denotes.
pub open spec fn parse_frequency(s: Seq<char>) -> Option<FlameFrequency> {
    if s == "max"@ {
        Some(FlameFrequency::Max)
    } else {
        match parse_unsigned(s, u32::MAX as int) {
            Some(n) => Some(FlameFrequency::Number(n as u32)),
            None => None,
        }
    }
}

/// The text of a frequency, as handed to `perf record -F`.
pub open spec fn frequency_text(f: FlameFrequency) -> Seq<char> {
    match f {
        FlameFrequency::Number(n) => decimal(n as nat),
        FlameFrequency::Max => "max"@,
    }
}

impl FlameFrequency {
    /// Reads `max` or a decimal number.
    pub fn from_str(s: &str) -> (r: Result<FlameFrequency, NotAFlameFrequency>)
        ensures
            match r {
                Ok(f) => parse_frequency(s@) == Some(f),
                Err(_) => parse_frequency(s@) is None,
            },
    {
        if str_eq(s, "max") {
            return Ok(FlameFrequency::Max);
        }
        match parse_u32(s) {
            Some(n) => Ok(FlameFrequency::Number(n)),
            None => Err(NotAFlameFrequency),
        }
    }

    /// The frequency as text: the number, or `max`.
    pub fn to_string(&self) -> (r: String)
        ensures
            r@ == frequency_text(*self),
    {
        match self {
            FlameFrequency::Number(n) => u64_to_string(*n as u64),
            FlameFrequency::Max => owned("max"),
        }
    }
}

/// Reading back the text of a frequency gives that frequency.
pub proof fn lemma_frequency_roundtrip(f: FlameFrequency)
    ensures
        parse_frequency(frequency_text(f)) == Some(f),
{
    reveal_strlit("max");
    match f {
        FlameFrequency::Number(n) => {
            lemma_decimal_roundtrip(n as nat, u32::MAX as int);
            crate::number::lemma_decimal_digits(n as nat);
            if decimal(n as nat) == "max"@ {
                assert(crate::number::is_digit(decimal(n as nat)[0]));
            }
        },
        FlameFrequency::Max => {},
    }
}

} // verus!
