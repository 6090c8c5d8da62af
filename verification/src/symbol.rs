//! The logical symbols carried by the line.

use vstd::prelude::*;

verus! {

/// One unit of line signaling.
///
/// `Low` and `High` are the two data bits; `Stop` terminates a message.
/// `Unknown` is a "don't care" position: it appears only inside request
/// templates, where it matches either data bit, and is skipped by the
/// transmitter.
#[derive(Clone, Copy, Debug, PartialEq, Eq, Structural)]
pub enum Bit {
    Low,
    High,
    Stop,
    Unknown,
}

/// The data bit that a boolean line level stands for: high is `High`,
/// low is `Low`.
pub open spec fn bit_of_level(level: bool) -> Bit {
    if level {
        Bit::High
    } else {
        Bit::Low
    }
}

impl From<bool> for Bit {
    fn from(value: bool) -> (r: Self)
        ensures
            r == bit_of_level(value),
    {
        match value {
            true => Bit::High,
            false => Bit::Low,
        }
    }
}

impl vstd::std_specs::convert::FromSpecImpl<bool> for Bit {
    open spec fn obeys_from_spec() -> bool {
        true
    }

    open spec fn from_spec(t: bool) -> Bit {
        bit_of_level(t)
    }
}

} // verus!
