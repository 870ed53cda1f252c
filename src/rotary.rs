use vstd::prelude::*;

use crate::pin::{InfallibleInputPin, InputPin};

verus! {

/// History value meaning "idle, both channels high".
pub const IDLE_HISTORY: u8 = 0xFF;

/// History signature of one completed clockwise detent.
pub const CW_SIGNATURE: u8 = 0b1000_0111;

/// History signature of one completed counter-clockwise detent.
pub const CCW_SIGNATURE: u8 = 0b0100_1011;

/// Rotation reported by one poll.
#[derive(Clone, Copy, Debug, PartialEq, Eq, Structural)]
pub enum Direction {
    Idle,
    Cw,
    Ccw,
}

/// A failed read, tagged with the channel that failed.
pub enum RotaryError<A: InputPin, B: InputPin> {
    APin(A::Error),
    BPin(B::Error),
}

/// The two levels packed as `(A << 1) | B`.
pub open spec fn sample_bits(a_high: bool, b_high: bool) -> u8 {
    ((if a_high { 2int } else { 0int }) + (if b_high { 1int } else { 0int })) as u8
}

/// The history after recording a sample: shifted left by two with the sample
/// in the low bits, unless the sample equals the last one recorded.
pub open spec fn record(history: u8, bits: u8) -> u8 {
    if history % 4 == bits {
        history
    } else {
        ((history % 64) * 4 + bits) as u8
    }
}

/// The rotation that a history signals.
pub open spec fn direction_of(history: u8) -> Direction {
    if history == CW_SIGNATURE {
        Direction::Cw
    } else if history == CCW_SIGNATURE {
        Direction::Ccw
    } else {
        Direction::Idle
    }
}

/// One poll of the decoder: the new history and the reported rotation.
pub open spec fn decode(history: u8, a_high: bool, b_high: bool) -> (u8, Direction) {
    let h = record(history, sample_bits(a_high, b_high));
    let d = direction_of(h);
    (if d == Direction::Idle { h } else { IDLE_HISTORY }, d)
}

/// Decoder for an encoder without a button: turns the two quadrature
/// channels into detent-sized rotation steps.
pub struct Rotary<A, B> {
    a_pin: A,
    b_pin: B,
    ab_history: u8,
}

impl<A, B> View for Rotary<A, B> {
    type V = u8;

    /// The rolling history of recorded samples, two bits each.
    closed spec fn view(&self) -> u8 {
        self.ab_history
    }
}

impl<A, B> Rotary<A, B> {
    /// A decoder over the two channels, starting idle.
    pub fn new(a_pin: A, b_pin: B) -> (r: Self)
        ensures
            r@ == IDLE_HISTORY,
    {
        Self { a_pin, b_pin, ab_history: IDLE_HISTORY }
    }

    /// The rolling history: the last recorded samples, two bits each, the
    /// newest in the low bits.
    pub fn history(&self) -> (r: u8)
        ensures
            r == self@,
    {
        self.ab_history
    }

    /// Feeds one sample of both channels into the history and reports the
    /// rotation it completes, if any.
    pub fn step(&mut self, a_high: bool, b_high: bool) -> (r: Direction)
        ensures
            (final(self)@, r) == decode(old(self)@, a_high, b_high),
    {
        let bits: u8 = (if a_high { 2u8 } else { 0u8 }) | (if b_high { 1u8 } else { 0u8 });
        let h = self.ab_history;
        assert(bits == sample_bits(a_high, b_high)) by {
            assert((2u8 | 1u8) == 3u8 && (2u8 | 0u8) == 2u8 && (0u8 | 1u8) == 1u8 && (0u8 | 0u8)
                == 0u8) by (bit_vector);
        }
        if (h & 0b11) != bits {
            assert(h & 3 == h % 4) by (bit_vector);
            assert(bits < 4 ==> ((h << 2) | bits) == (h % 64) * 4 + bits) by (bit_vector);
            self.ab_history = (h << 2) | bits;
        } else {
            assert(h & 3 == h % 4) by (bit_vector);
        }
        if self.ab_history == CW_SIGNATURE {
            self.ab_history = IDLE_HISTORY;
            Direction::Cw
        } else if self.ab_history == CCW_SIGNATURE {
            self.ab_history = IDLE_HISTORY;
            Direction::Ccw
        } else {
            Direction::Idle
        }
    }

    pub(crate) fn set_history(&mut self, history: u8)
        ensures
            final(self)@ == history,
    {
        self.ab_history = history;
    }
}

impl<A: InputPin, B: InputPin> Rotary<A, B> {
    /// Reads both channels once and feeds them into the history.
    ///
    /// On a failed read the history is left as it was.
    pub fn update(&mut self) -> (r: Result<Direction, RotaryError<A, B>>)
        ensures
            match r {
                Ok(d) => exists|a_high: bool, b_high: bool|
                    (final(self)@, d) == #[trigger] decode(old(self)@, a_high, b_high),
                Err(_) => final(self)@ == old(self)@,
            },
    {
        let a_high = match self.a_pin.is_high() {
            Ok(v) => v,
            Err(e) => return Err(RotaryError::APin(e)),
        };
        let b_high = match self.b_pin.is_high() {
            Ok(v) => v,
            Err(e) => return Err(RotaryError::BPin(e)),
        };
        Ok(self.step(a_high, b_high))
    }
}

impl<A: InfallibleInputPin, B: InfallibleInputPin> Rotary<A, B> {
    pub(crate) fn a_pin_high(&self) -> bool {
        self.a_pin.is_high()
    }

    pub(crate) fn b_pin_high(&self) -> bool {
        self.b_pin.is_high()
    }
}

/// A [`Rotary`] over inputs whose reads cannot fail.
pub struct RotaryInfallible<A, B>(Rotary<A, B>);

impl<A, B> View for RotaryInfallible<A, B> {
    type V = u8;

    closed spec fn view(&self) -> u8 {
        self.0@
    }
}

impl<A: InfallibleInputPin, B: InfallibleInputPin> RotaryInfallible<A, B> {
    /// A decoder over the two channels, starting idle.
    pub fn new(a_pin: A, b_pin: B) -> (r: Self)
        ensures
            r@ == IDLE_HISTORY,
    {
        Self(Rotary::new(a_pin, b_pin))
    }

    /// Reads both channels once and feeds them into the history.
    pub fn update(&mut self) -> (r: Direction)
        ensures
            exists|a_high: bool, b_high: bool|
                (final(self)@, r) == #[trigger] decode(old(self)@, a_high, b_high),
    {
        let a_high = self.0.a_pin_high();
        let b_high = self.0.b_pin_high();
        let ghost before = self@;
        let r = self.0.step(a_high, b_high);
        assert((self@, r) == decode(before, a_high, b_high));
        r
    }
}

} // verus!
