//! Controller-state snapshots and their packing into the wire bit layout.

use vstd::prelude::*;

use crate::symbol::{bit_of_level, Bit};

verus! {

/// Whether bit `k` (0 = least significant) of `b` is set.
pub open spec fn bit_set(b: u8, k: u8) -> bool {
    b & (1u8 << k) != 0
}

/// The eight data bits of a byte, most significant first.
pub open spec fn byte_bits(b: u8) -> Seq<Bit> {
    Seq::new(8, |i: int| bit_of_level(bit_set(b, (7 - i) as u8)))
}

/// One snapshot of the controller's inputs: the digital buttons and the six
/// unsigned 8-bit analog channels.
#[derive(Clone, Copy, Debug, PartialEq, Eq, Structural)]
pub struct ControllerState {
    pub start: bool,
    pub y: bool,
    pub x: bool,
    pub b: bool,
    pub a: bool,
    pub l: bool,
    pub r: bool,
    pub z: bool,
    pub d_up: bool,
    pub d_down: bool,
    pub d_right: bool,
    pub d_left: bool,
    pub joystick_x: u8,
    pub joystick_y: u8,
    pub c_stick_x: u8,
    pub c_stick_y: u8,
    pub l_analog: u8,
    pub r_analog: u8,
}

/// The rest state: no button held, both sticks centered at 127, both analog
/// triggers released at 0.
pub open spec fn default_state() -> ControllerState {
    ControllerState {
        start: false,
        y: false,
        x: false,
        b: false,
        a: false,
        l: false,
        r: false,
        z: false,
        d_up: false,
        d_down: false,
        d_right: false,
        d_left: false,
        joystick_x: 127,
        joystick_y: 127,
        c_stick_x: 127,
        c_stick_y: 127,
        l_analog: 0,
        r_analog: 0,
    }
}

/// The poll-response bit layout for a snapshot: 8 bytes sent most significant
/// bit first, then the terminating `Stop`.
///
/// Byte 1 is three constant `Low` bits followed by start, Y, X, B, A; byte 2
/// is one constant `High` bit followed by L, R, Z and the four d-pad
/// directions; bytes 3 through 8 are the six analog channels.
pub open spec fn gc_bits(s: ControllerState) -> Seq<Bit> {
    seq![
        Bit::Low,
        Bit::Low,
        Bit::Low,
        bit_of_level(s.start),
        bit_of_level(s.y),
        bit_of_level(s.x),
        bit_of_level(s.b),
        bit_of_level(s.a),
        Bit::High,
        bit_of_level(s.l),
        bit_of_level(s.r),
        bit_of_level(s.z),
        bit_of_level(s.d_up),
        bit_of_level(s.d_down),
        bit_of_level(s.d_right),
        bit_of_level(s.d_left),
    ] + byte_bits(s.joystick_x) + byte_bits(s.joystick_y) + byte_bits(s.c_stick_x)
        + byte_bits(s.c_stick_y) + byte_bits(s.l_analog) + byte_bits(s.r_analog)
        + seq![Bit::Stop]
}

/// Appends the eight data bits of `b`, most significant first.
pub(crate) fn push_byte_msb(out: &mut Vec<Bit>, b: u8)
    ensures
        final(out)@ == old(out)@ + byte_bits(b),
{
    let ghost start = out@;
    for k in 0..8usize
        invariant
            out@ == start + byte_bits(b).take(k as int),
    {
        let shift: u8 = (7 - k) as u8;
        let bit = Bit::from(b & (1u8 << shift) != 0);
        proof {
            assert(byte_bits(b)[k as int] == bit_of_level(bit_set(b, (7 - k) as u8)));
            assert(byte_bits(b).take(k as int).push(bit) =~= byte_bits(b).take(k + 1));
        }
        out.push(bit);
    }
    proof {
        assert(byte_bits(b).take(8) =~= byte_bits(b));
    }
}

impl ControllerState {
    /// Packs the snapshot into the 65-symbol poll response: 8 bytes in the
    /// fixed wire layout, then `Stop`.
    pub fn into_gc_bits(&self) -> (r: Vec<Bit>)
        ensures
            r@ == gc_bits(*self),
    {
        let mut out: Vec<Bit> = Vec::new();
        out.push(Bit::Low);
        out.push(Bit::Low);
        out.push(Bit::Low);
        out.push(Bit::from(self.start));
        out.push(Bit::from(self.y));
        out.push(Bit::from(self.x));
        out.push(Bit::from(self.b));
        out.push(Bit::from(self.a));
        out.push(Bit::High);
        out.push(Bit::from(self.l));
        out.push(Bit::from(self.r));
        out.push(Bit::from(self.z));
        out.push(Bit::from(self.d_up));
        out.push(Bit::from(self.d_down));
        out.push(Bit::from(self.d_right));
        out.push(Bit::from(self.d_left));
        push_byte_msb(&mut out, self.joystick_x);
        push_byte_msb(&mut out, self.joystick_y);
        push_byte_msb(&mut out, self.c_stick_x);
        push_byte_msb(&mut out, self.c_stick_y);
        push_byte_msb(&mut out, self.l_analog);
        push_byte_msb(&mut out, self.r_analog);
        out.push(Bit::Stop);
        proof {
            assert(out@ =~= gc_bits(*self));
        }
        out
    }
}

impl Default for ControllerState {
    /// The rest state of [`default_state`].
    fn default() -> (r: Self)
        ensures
            r == default_state(),
    {
        Self {
            start: false,
            y: false,
            x: false,
            b: false,
            a: false,
            l: false,
            r: false,
            z: false,
            d_up: false,
            d_down: false,
            d_right: false,
            d_left: false,
            joystick_x: 127,
            joystick_y: 127,
            c_stick_x: 127,
            c_stick_y: 127,
            l_analog: 0,
            r_analog: 0,
        }
    }
}

/// The placeholder input source: a snapshot keyed by the poll counter, at
/// rest except for the joystick X axis, which travels end to end every
/// seven polls.
pub open spec fn input_for(frame: u64) -> ControllerState {
    ControllerState { joystick_x: if (frame / 7) % 2 == 0 { 0 } else { 255 }, ..default_state() }
}

/// Produces the snapshot that [`input_for`] describes for this poll counter.
pub fn get_input(frame: u64) -> (state: ControllerState)
    ensures
        state == input_for(frame),
{
    let mut state = ControllerState::default();
    let sim_frame: u64 = (frame / 7) % 2;
    state.joystick_x = if sim_frame == 0 {
        0
    } else {
        u8::MAX
    };
    state
}

} // verus!
