//! Symbol timings for transmission.
//!
//! A symbol is sent by driving the line to its active level for an "on"
//! duration and back for an "off" duration, both in the same microsecond
//! units the decoder samples at.  The on/off asymmetry is what encodes the
//! bit value for a host that decodes by duty cycle.

use vstd::prelude::*;

use crate::symbol::Bit;

verus! {

/// The (on, off) durations of a symbol, in microseconds; `None` for
/// `Unknown`, which is never transmitted.
pub open spec fn symbol_timing(bit: Bit) -> Option<(u8, u8)> {
    match bit {
        Bit::Low => Some((3u8, 1u8)),
        Bit::High => Some((1u8, 3u8)),
        Bit::Stop => Some((2u8, 6u8)),
        Bit::Unknown => None,
    }
}

/// Looks up the fixed (on, off) durations for one symbol.
pub fn timing_of(bit: Bit) -> (r: Option<(u8, u8)>)
    ensures
        r == symbol_timing(bit),
{
    match bit {
        Bit::Low => Some((3, 1)),
        Bit::High => Some((1, 3)),
        Bit::Stop => Some((2, 6)),
        Bit::Unknown => None,
    }
}

/// The exact pulse train for a symbol sequence: one (on, off) pair per
/// symbol, in sequence order, with `Unknown` positions skipped.
pub open spec fn timing_plan(data: Seq<Bit>) -> Seq<(u8, u8)>
    decreases data.len(),
{
    if data.len() == 0 {
        Seq::empty()
    } else {
        timing_plan(data.drop_last())
            + match symbol_timing(data.last()) {
            Some(p) => seq![p],
            None => Seq::empty(),
        }
    }
}

/// Computes the pulse train that transmits `data`: the (on, off) pair of
/// every symbol in order, none skipped, reordered or altered, except that
/// `Unknown` positions produce no pulse.
pub fn transmission_plan(data: &[Bit]) -> (r: Vec<(u8, u8)>)
    ensures
        r@ == timing_plan(data@),
{
    let mut out: Vec<(u8, u8)> = Vec::new();
    for i in 0..data.len()
        invariant
            out@ == timing_plan(data@.take(i as int)),
    {
        proof {
            assert(data@.take(i + 1).drop_last() =~= data@.take(i as int));
            assert(data@.take(i + 1).last() == data@[i as int]);
        }
        match timing_of(data[i]) {
            Some(p) => out.push(p),
            None => (),
        }
    }
    proof {
        assert(data@.take(data@.len() as int) =~= data@);
    }
    out
}

} // verus!
