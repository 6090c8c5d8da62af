//! Matching captured symbol sequences against the known request templates.

use vstd::prelude::*;

use crate::codec::{byte_bits, push_byte_msb};
use crate::symbol::Bit;

verus! {

/// Whether `bits` matches `pattern`: same length, and every template
/// position that is not `Unknown` equals the captured symbol there.
pub open spec fn pattern_matches(bits: Seq<Bit>, pattern: Seq<Bit>) -> bool {
    &&& bits.len() == pattern.len()
    &&& forall|i: int|
        0 <= i < pattern.len() ==> (#[trigger] pattern[i]) == Bit::Unknown || bits[i] == pattern[i]
}

/// Compares a captured sequence against a template, position by position.
///
/// Returns true iff the lengths are equal and every non-`Unknown` template
/// position equals the corresponding captured symbol; `Unknown` positions
/// match unconditionally.
pub fn match_bit_pattern(bits: &[Bit], pattern: &[Bit]) -> (r: bool)
    ensures
        r == pattern_matches(bits@, pattern@),
{
    if bits.len() != pattern.len() {
        return false;
    }
    for i in 0..pattern.len()
        invariant
            bits@.len() == pattern@.len(),
            forall|j: int|
                0 <= j < i ==> (#[trigger] pattern@[j]) == Bit::Unknown || bits@[j] == pattern@[j],
    {
        if pattern[i] != Bit::Unknown && bits[i] != pattern[i] {
            return false;
        }
    }
    true
}

/// The identify request: one all-`Low` byte, then `Stop`.
pub open spec fn identify_request() -> Seq<Bit> {
    byte_bits(0x00) + seq![Bit::Stop]
}

/// The origin/calibration request: one fixed byte, then `Stop`.
pub open spec fn origin_request() -> Seq<Bit> {
    byte_bits(0x41) + seq![Bit::Stop]
}

/// The poll request: two fixed bytes, six more fixed `Low` bits, two
/// "don't care" bits (the host's motor flags), then `Stop`.
pub open spec fn poll_request() -> Seq<Bit> {
    byte_bits(0x40) + byte_bits(0x03)
        + seq![
        Bit::Low,
        Bit::Low,
        Bit::Low,
        Bit::Low,
        Bit::Low,
        Bit::Low,
        Bit::Unknown,
        Bit::Unknown,
        Bit::Stop,
    ]
}

/// Builds the identify request template.
pub fn identify_request_bits() -> (r: Vec<Bit>)
    ensures
        r@ == identify_request(),
{
    let mut out: Vec<Bit> = Vec::new();
    push_byte_msb(&mut out, 0x00);
    out.push(Bit::Stop);
    proof {
        assert(out@ =~= identify_request());
    }
    out
}

/// Builds the origin request template.
pub fn origin_request_bits() -> (r: Vec<Bit>)
    ensures
        r@ == origin_request(),
{
    let mut out: Vec<Bit> = Vec::new();
    push_byte_msb(&mut out, 0x41);
    out.push(Bit::Stop);
    proof {
        assert(out@ =~= origin_request());
    }
    out
}

/// Builds the poll request template.
pub fn poll_request_bits() -> (r: Vec<Bit>)
    ensures
        r@ == poll_request(),
{
    let mut out: Vec<Bit> = Vec::new();
    push_byte_msb(&mut out, 0x40);
    push_byte_msb(&mut out, 0x03);
    out.push(Bit::Low);
    out.push(Bit::Low);
    out.push(Bit::Low);
    out.push(Bit::Low);
    out.push(Bit::Low);
    out.push(Bit::Low);
    out.push(Bit::Unknown);
    out.push(Bit::Unknown);
    out.push(Bit::Stop);
    proof {
        assert(out@ =~= poll_request());
    }
    out
}

} // verus!
