//! The capture/dispatch state machine.
//!
//! Symbols decoded off the line are appended to a bounded capture buffer.
//! When a `Stop` arrives, the captured sequence is matched against the known
//! request templates in priority order — identify, then origin, then poll —
//! and the matching request's response is handed back for transmission; an
//! unrecognized command produces no response.  A decode error, a buffer that
//! fills without a `Stop`, and the end of a dispatch all reset the buffer,
//! so the engine resynchronizes instead of aborting.

use vstd::prelude::*;

use crate::codec::{byte_bits, gc_bits, get_input, input_for, push_byte_msb};
use crate::recognizer::{
    identify_request, identify_request_bits, match_bit_pattern, origin_request,
    origin_request_bits, pattern_matches, poll_request, poll_request_bits,
};
use crate::symbol::Bit;

verus! {

/// The capture buffer's capacity: the longest expected request, four bytes
/// and a stop bit.
pub const BIT_LIMIT: usize = 4 * 8 + 1;

/// The fixed identify response: three bytes, then `Stop`.
pub open spec fn identify_response() -> Seq<Bit> {
    byte_bits(0x09) + byte_bits(0x00) + byte_bits(0x40) + seq![Bit::Stop]
}

/// The fixed origin/calibration response: ten bytes — rest buttons, both
/// sticks centered, triggers released — then `Stop`.
pub open spec fn origin_response() -> Seq<Bit> {
    byte_bits(0x00) + byte_bits(0xC0) + byte_bits(0x7F) + byte_bits(0x7F) + byte_bits(0x7F)
        + byte_bits(0x7F) + byte_bits(0x00) + byte_bits(0x00) + byte_bits(0x00) + byte_bits(0x00)
        + seq![Bit::Stop]
}

/// Builds the identify response.
pub fn identify_response_bits() -> (r: Vec<Bit>)
    ensures
        r@ == identify_response(),
{
    let mut out: Vec<Bit> = Vec::new();
    push_byte_msb(&mut out, 0x09);
    push_byte_msb(&mut out, 0x00);
    push_byte_msb(&mut out, 0x40);
    out.push(Bit::Stop);
    proof {
        assert(out@ =~= identify_response());
    }
    out
}

/// Builds the origin response.
pub fn origin_response_bits() -> (r: Vec<Bit>)
    ensures
        r@ == origin_response(),
{
    let mut out: Vec<Bit> = Vec::new();
    push_byte_msb(&mut out, 0x00);
    push_byte_msb(&mut out, 0xC0);
    push_byte_msb(&mut out, 0x7F);
    push_byte_msb(&mut out, 0x7F);
    push_byte_msb(&mut out, 0x7F);
    push_byte_msb(&mut out, 0x7F);
    push_byte_msb(&mut out, 0x00);
    push_byte_msb(&mut out, 0x00);
    push_byte_msb(&mut out, 0x00);
    push_byte_msb(&mut out, 0x00);
    out.push(Bit::Stop);
    proof {
        assert(out@ =~= origin_response());
    }
    out
}

/// The poll counter after one more recognized poll.
pub open spec fn next_frame(frame: u64) -> u64 {
    if frame == u64::MAX {
        0
    } else {
        (frame + 1) as u64
    }
}

/// The engine's state between symbols: the capture buffer and the count of
/// poll requests recognized so far.
pub struct ProtocolState {
    captured_bits: Vec<Bit>,
    frame_counter: u64,
}

impl ProtocolState {
    /// The symbols captured since the last reset.
    pub closed spec fn captured(&self) -> Seq<Bit> {
        self.captured_bits@
    }

    /// How many poll requests have been recognized so far.
    pub closed spec fn frames(&self) -> u64 {
        self.frame_counter
    }

    /// The capture buffer never outgrows the protocol-generation limit.
    pub open spec fn inv(&self) -> bool {
        self.captured().len() <= BIT_LIMIT
    }

    /// A fresh engine: empty buffer, no polls yet.
    pub fn new() -> (s: Self)
        ensures
            s.captured() == Seq::<Bit>::empty(),
            s.frames() == 0,
            s.inv(),
    {
        ProtocolState { captured_bits: Vec::new(), frame_counter: 0 }
    }

    /// The number of symbols captured since the last reset.
    pub fn captured_len(&self) -> (n: usize)
        ensures
            n == self.captured().len(),
    {
        self.captured_bits.len()
    }

    /// The poll counter's current value.
    pub fn poll_count(&self) -> (n: u64)
        ensures
            n == self.frames(),
    {
        self.frame_counter
    }

    /// Discards the capture buffer after a decode error; no response is
    /// produced and the poll counter is untouched.
    pub fn on_decode_error(&mut self)
        ensures
            final(self).captured() == Seq::<Bit>::empty(),
            final(self).frames() == old(self).frames(),
            final(self).inv(),
    {
        self.captured_bits.clear();
    }

    /// Feeds one decoded symbol to the engine and returns the symbols to
    /// transmit, if this symbol completed a recognized request.
    ///
    /// A buffer already at capacity is discarded first, so a message that
    /// overflows without a `Stop` is dropped without any transmission.  A
    /// `Stop` triggers recognition in priority order — identify, then
    /// origin, then poll — and always resets the buffer afterwards; the
    /// poll counter advances exactly on a recognized poll, and the poll
    /// response is the packing of the input snapshot for the new counter.
    pub fn on_symbol(&mut self, bit: Bit) -> (reply: Option<Vec<Bit>>)
        ensures
            ({
                let captured = if old(self).captured().len() >= BIT_LIMIT {
                    seq![bit]
                } else {
                    old(self).captured().push(bit)
                };
                &&& final(self).inv()
                &&& bit != Bit::Stop ==> {
                    &&& reply is None
                    &&& final(self).captured() == captured
                    &&& final(self).frames() == old(self).frames()
                }
                &&& bit == Bit::Stop ==> {
                    &&& final(self).captured() == Seq::<Bit>::empty()
                    &&& if pattern_matches(captured, identify_request()) {
                        &&& reply matches Some(v) && v@ == identify_response()
                        &&& final(self).frames() == old(self).frames()
                    } else if pattern_matches(captured, origin_request()) {
                        &&& reply matches Some(v) && v@ == origin_response()
                        &&& final(self).frames() == old(self).frames()
                    } else if pattern_matches(captured, poll_request()) {
                        &&& final(self).frames() == next_frame(old(self).frames())
                        &&& reply matches Some(v) && v@ == gc_bits(input_for(final(self).frames()))
                    } else {
                        &&& reply is None
                        &&& final(self).frames() == old(self).frames()
                    }
                }
            }),
    {
        if self.captured_bits.len() >= BIT_LIMIT {
            self.captured_bits.clear();
        }
        self.captured_bits.push(bit);
        if bit == Bit::Stop {
            let reply = if match_bit_pattern(
                self.captured_bits.as_slice(),
                identify_request_bits().as_slice(),
            ) {
                Some(identify_response_bits())
            } else if match_bit_pattern(
                self.captured_bits.as_slice(),
                origin_request_bits().as_slice(),
            ) {
                Some(origin_response_bits())
            } else if match_bit_pattern(
                self.captured_bits.as_slice(),
                poll_request_bits().as_slice(),
            ) {
                self.frame_counter = if self.frame_counter == u64::MAX {
                    0
                } else {
                    self.frame_counter + 1
                };
                Some(get_input(self.frame_counter).into_gc_bits())
            } else {
                None
            };
            self.captured_bits.clear();
            reply
        } else {
            None
        }
    }
}

} // verus!
