//! The pulse-width symbol decoder.
//!
//! The line is sampled once per microsecond.  One symbol is one
//! active(low)/inactive(high) cycle: the decoder counts how long the line
//! stays low, then how long it stays high, and classifies by comparing the
//! two durations rather than against an absolute clock, which tolerates
//! small clock-rate skew between host and device.  A high phase that
//! outlasts the stop threshold is the protocol's stop marker; a low phase
//! that outlasts the stuck-line threshold means the host never started a
//! bit or the link is dead.

use vstd::prelude::*;

use crate::symbol::Bit;

verus! {

/// A low phase longer than this many samples is a dead or absent line.
pub const STUCK_LINE_THRESHOLD: u8 = 100;

/// A high phase longer than this many samples is a stop marker.
pub const STOP_HIGH_THRESHOLD: u8 = 4;

/// Why a symbol could not be decoded.
#[derive(Clone, Copy, Debug, PartialEq, Eq, Structural)]
pub enum DecodeError {
    /// The line stayed low past the stuck-line threshold.
    LineStuckOrAbsent,
}

/// Where the decoder stands inside one symbol's low/high cycle.
#[derive(Clone, Copy, Debug, PartialEq, Eq, Structural)]
pub enum DecoderPhase {
    /// Still counting low samples.  `low_duration` starts at 1.
    LowPhase { low_duration: u8 },
    /// The line has gone high; counting high samples.
    HighPhase { low_duration: u8, high_duration: u8 },
}

/// What one more sample did to the decoder.
#[derive(Clone, Copy, Debug, PartialEq, Eq, Structural)]
pub enum DecodeProgress {
    /// The symbol is not over yet.
    Pending(DecoderPhase),
    /// The sample completed this symbol.
    Decoded(Bit),
    /// The sample pushed the low phase past the stuck-line threshold.
    Failed(DecodeError),
}

/// The phase the decoder starts a symbol in.
pub open spec fn initial_phase() -> DecoderPhase {
    DecoderPhase::LowPhase { low_duration: 1 }
}

/// One decoder transition on one line sample (`line_high` is the sampled
/// level).
pub open spec fn decoder_step_spec(phase: DecoderPhase, line_high: bool) -> DecodeProgress {
    match phase {
        DecoderPhase::LowPhase { low_duration } => {
            if line_high {
                DecodeProgress::Pending(DecoderPhase::HighPhase { low_duration, high_duration: 0 })
            } else if low_duration > STUCK_LINE_THRESHOLD {
                DecodeProgress::Failed(DecodeError::LineStuckOrAbsent)
            } else {
                DecodeProgress::Pending(
                    DecoderPhase::LowPhase { low_duration: (low_duration + 1) as u8 },
                )
            }
        },
        DecoderPhase::HighPhase { low_duration, high_duration } => {
            if line_high {
                if high_duration > STOP_HIGH_THRESHOLD {
                    DecodeProgress::Decoded(Bit::Stop)
                } else {
                    DecodeProgress::Pending(
                        DecoderPhase::HighPhase {
                            low_duration,
                            high_duration: (high_duration + 1) as u8,
                        },
                    )
                }
            } else {
                DecodeProgress::Decoded(
                    if low_duration > high_duration {
                        Bit::Low
                    } else {
                        Bit::High
                    },
                )
            }
        },
    }
}

/// The decoder run over a whole sequence of samples: steps until a symbol
/// is decoded or the stuck-line threshold trips, `Pending` if the samples
/// run out first.
pub open spec fn run_decoder(phase: DecoderPhase, samples: Seq<bool>) -> DecodeProgress
    decreases samples.len(),
{
    if samples.len() == 0 {
        DecodeProgress::Pending(phase)
    } else {
        match decoder_step_spec(phase, samples[0]) {
            DecodeProgress::Pending(next) => run_decoder(next, samples.drop_first()),
            done => done,
        }
    }
}

/// The starting phase for a fresh symbol.
pub fn decoder_start() -> (p: DecoderPhase)
    ensures
        p == initial_phase(),
{
    DecoderPhase::LowPhase { low_duration: 1 }
}

/// Advances the decoder by one line sample.
pub fn decoder_step(phase: DecoderPhase, line_high: bool) -> (r: DecodeProgress)
    ensures
        r == decoder_step_spec(phase, line_high),
{
    match phase {
        DecoderPhase::LowPhase { low_duration } => {
            if line_high {
                DecodeProgress::Pending(DecoderPhase::HighPhase { low_duration, high_duration: 0 })
            } else if low_duration > STUCK_LINE_THRESHOLD {
                DecodeProgress::Failed(DecodeError::LineStuckOrAbsent)
            } else {
                DecodeProgress::Pending(DecoderPhase::LowPhase { low_duration: low_duration + 1 })
            }
        },
        DecoderPhase::HighPhase { low_duration, high_duration } => {
            if line_high {
                if high_duration > STOP_HIGH_THRESHOLD {
                    DecodeProgress::Decoded(Bit::Stop)
                } else {
                    DecodeProgress::Pending(
                        DecoderPhase::HighPhase { low_duration, high_duration: high_duration + 1 },
                    )
                }
            } else {
                DecodeProgress::Decoded(
                    if low_duration > high_duration {
                        Bit::Low
                    } else {
                        Bit::High
                    },
                )
            }
        },
    }
}

/// Maps a finished run to what a caller sees: `None` while pending, the
/// symbol or the error once the run is over.
pub open spec fn progress_result(p: DecodeProgress) -> Option<Result<Bit, DecodeError>> {
    match p {
        DecodeProgress::Pending(_) => None,
        DecodeProgress::Decoded(b) => Some(Ok(b)),
        DecodeProgress::Failed(e) => Some(Err(e)),
    }
}

/// Runs the decoder from its starting phase over a recorded sample trace.
pub fn decode_samples(samples: &[bool]) -> (r: Option<Result<Bit, DecodeError>>)
    ensures
        r == progress_result(run_decoder(initial_phase(), samples@)),
{
    let mut phase = decoder_start();
    proof {
        assert(samples@.skip(0) =~= samples@);
    }
    for i in 0..samples.len()
        invariant
            run_decoder(initial_phase(), samples@) == run_decoder(phase, samples@.skip(i as int)),
    {
        proof {
            assert(samples@.skip(i as int)[0] == samples@[i as int]);
            assert(samples@.skip(i as int).drop_first() =~= samples@.skip(i + 1));
        }
        match decoder_step(phase, samples[i]) {
            DecodeProgress::Pending(next) => phase = next,
            DecodeProgress::Decoded(b) => {
                return Some(Ok(b));
            },
            DecodeProgress::Failed(e) => {
                return Some(Err(e));
            },
        }
    }
    proof {
        assert(samples@.skip(samples@.len() as int) =~= Seq::<bool>::empty());
    }
    None
}

/// The levels the read line shows while one data bit is on the wire: low
/// for the active (on) duration, high for the inactive (off) duration, then
/// low again as the next bit begins.
pub open spec fn data_bit_levels(on: u8, off: u8) -> Seq<bool> {
    Seq::new(on as nat, |i: int| false) + Seq::new(off as nat, |i: int| true) + seq![false]
}

/// Encode/decode round trip for the data bits: re-decoding the exact
/// on/off durations the transmitter produces for a `Low` or a `High`
/// yields the same symbol back.
pub proof fn lemma_data_bit_round_trip(bit: Bit, on: u8, off: u8)
    requires
        bit == Bit::Low || bit == Bit::High,
        crate::encoder::symbol_timing(bit) == Some((on, off)),
    ensures
        run_decoder(initial_phase(), data_bit_levels(on, off)) == DecodeProgress::Decoded(bit),
{
    reveal_with_fuel(run_decoder, 6);
    let s = data_bit_levels(on, off);
    if bit == Bit::Low {
        assert(s =~= seq![false, false, false, true, false]);
        assert(s.drop_first() =~= seq![false, false, true, false]);
        assert(s.drop_first().drop_first() =~= seq![false, true, false]);
        assert(s.drop_first().drop_first().drop_first() =~= seq![true, false]);
        assert(s.drop_first().drop_first().drop_first().drop_first() =~= seq![false]);
    } else {
        assert(s =~= seq![false, true, true, true, false]);
        assert(s.drop_first() =~= seq![true, true, true, false]);
        assert(s.drop_first().drop_first() =~= seq![true, true, false]);
        assert(s.drop_first().drop_first().drop_first() =~= seq![true, false]);
        assert(s.drop_first().drop_first().drop_first().drop_first() =~= seq![false]);
    }
}

proof fn lemma_low_run_fails(low_duration: u8, samples: Seq<bool>)
    requires
        1 <= low_duration <= STUCK_LINE_THRESHOLD + 1,
        samples.len() + low_duration > STUCK_LINE_THRESHOLD + 1,
        forall|i: int| 0 <= i < samples.len() ==> !samples[i],
    ensures
        run_decoder(DecoderPhase::LowPhase { low_duration }, samples) == DecodeProgress::Failed(
            DecodeError::LineStuckOrAbsent,
        ),
    decreases samples.len(),
{
    assert(!samples[0]);
    if low_duration <= STUCK_LINE_THRESHOLD {
        assert(forall|i: int|
            0 <= i < samples.drop_first().len() ==> !(#[trigger] samples.drop_first()[i]));
        lemma_low_run_fails((low_duration + 1) as u8, samples.drop_first());
    }
}

/// A line held low past the stuck-line threshold, with no high sample,
/// decodes to `DecodeError::LineStuckOrAbsent`.
pub proof fn lemma_stuck_line(samples: Seq<bool>)
    requires
        samples.len() > STUCK_LINE_THRESHOLD,
        forall|i: int| 0 <= i < samples.len() ==> !samples[i],
    ensures
        run_decoder(initial_phase(), samples) == DecodeProgress::Failed(
            DecodeError::LineStuckOrAbsent,
        ),
{
    lemma_low_run_fails(1, samples);
}

} // verus!
