use vstd::prelude::*;

use vstd::std_specs::convert::FromSpecImpl;

use crate::pin::{InfallibleInputPin, InputPin};
use crate::rotary::{decode, Direction, Rotary, RotaryError, IDLE_HISTORY};

verus! {

/// History the decoder restarts from when the button has just been pressed.
pub const PRESSED_HISTORY: u8 = 0x00;

/// One discrete user action reported by a poll.
#[derive(Clone, Copy, Debug, PartialEq, Eq, Structural)]
pub enum Action {
    Idle,
    Cw,
    Ccw,
    CwPressed,
    CcwPressed,
    Click,
}

/// The rotation that an action carries, whatever the button did.
pub open spec fn action_direction(a: Action) -> Direction {
    match a {
        Action::Idle | Action::Click => Direction::Idle,
        Action::Cw | Action::CwPressed => Direction::Cw,
        Action::Ccw | Action::CcwPressed => Direction::Ccw,
    }
}

impl Action {
    pub fn direction(&self) -> (r: Direction)
        ensures
            r == action_direction(*self),
    {
        match *self {
            Action::Idle | Action::Click => Direction::Idle,
            Action::Cw | Action::CwPressed => Direction::Cw,
            Action::Ccw | Action::CcwPressed => Direction::Ccw,
        }
    }
}

/// What one poll of an [`Encoder`] observed, as the contracts see it.
pub struct StateView {
    pub direction: Direction,
    pub pressed: bool,
    pub just_key_changed: bool,
    pub rotated_before_key_change: bool,
}

/// The action that one observation reduces to.
pub open spec fn action_of(s: StateView) -> Action {
    if s.direction == Direction::Cw {
        if s.pressed { Action::CwPressed } else { Action::Cw }
    } else if s.direction == Direction::Ccw {
        if s.pressed { Action::CcwPressed } else { Action::Ccw }
    } else if !s.pressed && s.just_key_changed && !s.rotated_before_key_change {
        Action::Click
    } else {
        Action::Idle
    }
}

/// What one poll of an [`Encoder`] observed.
#[derive(Clone, Copy)]
pub struct EncoderState {
    direction: Direction,
    pressed: bool,
    just_key_changed: bool,
    rotated_before_key_change: bool,
}

impl View for EncoderState {
    type V = StateView;

    closed spec fn view(&self) -> StateView {
        StateView {
            direction: self.direction,
            pressed: self.pressed,
            just_key_changed: self.just_key_changed,
            rotated_before_key_change: self.rotated_before_key_change,
        }
    }
}

impl EncoderState {
    /// A rotation before a button change is only reported with that change.
    #[verifier::type_invariant]
    spec fn inv(&self) -> bool {
        self.rotated_before_key_change ==> self.just_key_changed
    }

    /// Rotation seen in this poll.
    pub fn direction(&self) -> (r: Direction)
        ensures
            r == self@.direction,
    {
        self.direction
    }

    /// Is the button held down?
    pub fn pressed(&self) -> (r: bool)
        ensures
            r == self@.pressed,
    {
        self.pressed
    }

    /// Did the button change state in this poll?
    pub fn just_key_changed(&self) -> (r: bool)
        ensures
            r == self@.just_key_changed,
    {
        self.just_key_changed
    }

    /// Was the encoder rotated between the previous button change and this
    /// one? Only ever true when [`EncoderState::just_key_changed`] is.
    pub fn rotated_before_key_change(&self) -> (r: bool)
        ensures
            r == self@.rotated_before_key_change,
            r ==> self@.just_key_changed,
    {
        proof {
            use_type_invariant(self);
        }
        self.rotated_before_key_change
    }

    /// Reduces the observation to one action.
    pub fn action(&self) -> (r: Action)
        ensures
            r == action_of(self@),
    {
        match (self.direction, self.pressed) {
            (Direction::Cw, true) => Action::CwPressed,
            (Direction::Cw, false) => Action::Cw,
            (Direction::Ccw, true) => Action::CcwPressed,
            (Direction::Ccw, false) => Action::Ccw,
            (Direction::Idle, false) => {
                if self.just_key_changed && !self.rotated_before_key_change {
                    Action::Click
                } else {
                    Action::Idle
                }
            },
            (Direction::Idle, true) => Action::Idle,
        }
    }
}

/// A failed read, tagged with the channel that failed.
pub enum EncoderError<A: InputPin, B: InputPin, K: InputPin> {
    APin(A::Error),
    BPin(B::Error),
    KPin(K::Error),
}

impl<A: InputPin, B: InputPin, K: InputPin> From<RotaryError<A, B>> for EncoderError<A, B, K> {
    fn from(re: RotaryError<A, B>) -> (r: Self) {
        match re {
            RotaryError::APin(e) => EncoderError::APin(e),
            RotaryError::BPin(e) => EncoderError::BPin(e),
        }
    }
}

impl<A: InputPin, B: InputPin, K: InputPin> FromSpecImpl<RotaryError<A, B>> for EncoderError<A, B, K> {
    open spec fn obeys_from_spec() -> bool {
        true
    }

    open spec fn from_spec(re: RotaryError<A, B>) -> Self {
        match re {
            RotaryError::APin(e) => EncoderError::APin(e),
            RotaryError::BPin(e) => EncoderError::BPin(e),
        }
    }
}

/// The persistent state of an [`Encoder`], as the contracts see it.
pub struct EncoderView {
    /// The decoder's rolling history.
    pub history: u8,
    /// The button state seen by the last poll.
    pub pressed: bool,
    /// Has the encoder rotated since the last button change?
    pub rotated_after_key_change: bool,
}

/// Combines the rotation of one poll (already fed to the decoder, whose
/// history is `m.history`) with the button level read in that poll.
pub open spec fn key_step(m: EncoderView, direction: Direction, k_high: bool) -> (
    EncoderView,
    StateView,
) {
    let pressed = !k_high;
    let just_key_changed = pressed != m.pressed;
    let history = if just_key_changed {
        if pressed { PRESSED_HISTORY } else { IDLE_HISTORY }
    } else {
        m.history
    };
    (
        EncoderView {
            history,
            pressed,
            rotated_after_key_change: direction != Direction::Idle || (!just_key_changed
                && m.rotated_after_key_change),
        },
        StateView {
            direction,
            pressed,
            just_key_changed,
            rotated_before_key_change: just_key_changed && m.rotated_after_key_change,
        },
    )
}

/// One full poll of an [`Encoder`] that read levels `a_high`, `b_high` and
/// `k_high`.
pub open spec fn encoder_step(m: EncoderView, a_high: bool, b_high: bool, k_high: bool) -> (
    EncoderView,
    StateView,
) {
    let (history, direction) = decode(m.history, a_high, b_high);
    key_step(EncoderView { history, ..m }, direction, k_high)
}

/// Encoder with a push-button: merges rotation and button transitions into
/// single actions.
pub struct Encoder<A, B, K> {
    rotary: Rotary<A, B>,
    k_pin: K,
    pressed: bool,
    rotated_after_key_change: bool,
}

impl<A, B, K> View for Encoder<A, B, K> {
    type V = EncoderView;

    closed spec fn view(&self) -> EncoderView {
        EncoderView {
            history: self.rotary@,
            pressed: self.pressed,
            rotated_after_key_change: self.rotated_after_key_change,
        }
    }
}

impl<A, B, K> Encoder<A, B, K> {
    /// An encoder over the two channels and the button, starting idle with
    /// the button released.
    pub fn new(a_pin: A, b_pin: B, k_pin: K) -> (r: Self)
        ensures
            r@ == (EncoderView {
                history: IDLE_HISTORY,
                pressed: false,
                rotated_after_key_change: false,
            }),
    {
        let rotary = Rotary::new(a_pin, b_pin);
        Self { rotary, k_pin, pressed: false, rotated_after_key_change: false }
    }

    /// Combines a rotation that the decoder has just reported with the
    /// button level read in the same poll.
    pub fn apply_key(&mut self, direction: Direction, k_high: bool) -> (r: EncoderState)
        ensures
            (final(self)@, r@) == key_step(old(self)@, direction, k_high),
            !r@.just_key_changed ==> !r@.rotated_before_key_change,
    {
        let pressed = !k_high;
        let just_key_changed = pressed != self.pressed;
        let rotated_before_key_change = just_key_changed && self.rotated_after_key_change;
        let rotated_after_key_change = direction != Direction::Idle || (!just_key_changed
            && self.rotated_after_key_change);
        self.pressed = pressed;
        self.rotated_after_key_change = rotated_after_key_change;
        if just_key_changed {
            let initial = if pressed { PRESSED_HISTORY } else { IDLE_HISTORY };
            self.rotary.set_history(initial);
        }
        EncoderState { direction, pressed, just_key_changed, rotated_before_key_change }
    }

    /// One full poll from levels already read from the three inputs.
    pub fn step(&mut self, a_high: bool, b_high: bool, k_high: bool) -> (r: EncoderState)
        ensures
            (final(self)@, r@) == encoder_step(old(self)@, a_high, b_high, k_high),
    {
        let direction = self.rotary.step(a_high, b_high);
        self.apply_key(direction, k_high)
    }
}

impl<A: InputPin, B: InputPin, K: InputPin> Encoder<A, B, K> {
    /// Reads all three inputs once and reports what the poll observed.
    ///
    /// A failed read of a rotation channel leaves the encoder as it was. A
    /// failed read of the button leaves the button state as it was, but the
    /// rotation sample already read stays recorded.
    pub fn update_raw(&mut self) -> (r: Result<EncoderState, EncoderError<A, B, K>>)
        ensures
            match r {
                Ok(s) => {
                    &&& exists|a_high: bool, b_high: bool, k_high: bool|
                        (final(self)@, s@) == #[trigger] encoder_step(
                            old(self)@,
                            a_high,
                            b_high,
                            k_high,
                        )
                    &&& !s@.just_key_changed ==> !s@.rotated_before_key_change
                },
                Err(EncoderError::KPin(_)) => exists|a_high: bool, b_high: bool|
                    final(self)@ == (EncoderView {
                        history: #[trigger] decode(old(self)@.history, a_high, b_high).0,
                        ..old(self)@
                    }),
                Err(_) => final(self)@ == old(self)@,
            },
    {
        let ghost before = self@;
        let direction = match self.rotary.update() {
            Ok(d) => d,
            Err(e) => return Err(EncoderError::from(e)),
        };
        let ghost ab: (bool, bool) = choose|a_high: bool, b_high: bool|
            (self.rotary@, direction) == decode(before.history, a_high, b_high);
        let k_high = match self.k_pin.is_high() {
            Ok(v) => v,
            Err(e) => {
                assert(self@ == (EncoderView { history: decode(before.history, ab.0, ab.1).0, ..before }));
                return Err(EncoderError::KPin(e));
            },
        };
        let s = self.apply_key(direction, k_high);
        assert((self@, s@) == encoder_step(before, ab.0, ab.1, k_high));
        Ok(s)
    }

    /// Reads all three inputs once and reports the resulting action.
    pub fn update(&mut self) -> (r: Result<Action, EncoderError<A, B, K>>)
        ensures
            match r {
                Ok(act) => exists|a_high: bool, b_high: bool, k_high: bool|
                    {
                        let (m, s) = #[trigger] encoder_step(old(self)@, a_high, b_high, k_high);
                        final(self)@ == m && act == action_of(s)
                    },
                Err(EncoderError::KPin(_)) => exists|a_high: bool, b_high: bool|
                    final(self)@ == (EncoderView {
                        history: #[trigger] decode(old(self)@.history, a_high, b_high).0,
                        ..old(self)@
                    }),
                Err(_) => final(self)@ == old(self)@,
            },
    {
        match self.update_raw() {
            Ok(s) => Ok(s.action()),
            Err(e) => Err(e),
        }
    }
}

/// An [`Encoder`] over inputs whose reads cannot fail.
pub struct EncoderInfallible<A, B, K>(Encoder<A, B, K>);

impl<A, B, K> View for EncoderInfallible<A, B, K> {
    type V = EncoderView;

    closed spec fn view(&self) -> EncoderView {
        self.0@
    }
}

impl<A: InfallibleInputPin, B: InfallibleInputPin, K: InfallibleInputPin> EncoderInfallible<
    A,
    B,
    K,
> {
    /// An encoder over the two channels and the button, starting idle with
    /// the button released.
    pub fn new(a_pin: A, b_pin: B, k_pin: K) -> (r: Self)
        ensures
            r@ == (EncoderView {
                history: IDLE_HISTORY,
                pressed: false,
                rotated_after_key_change: false,
            }),
    {
        Self(Encoder::new(a_pin, b_pin, k_pin))
    }

    /// Reads all three inputs once and reports what the poll observed.
    pub fn update_raw(&mut self) -> (r: EncoderState)
        ensures
            exists|a_high: bool, b_high: bool, k_high: bool|
                (final(self)@, r@) == #[trigger] encoder_step(old(self)@, a_high, b_high, k_high),
    {
        let a_high = self.0.rotary.a_pin_high();
        let b_high = self.0.rotary.b_pin_high();
        let k_high = self.0.k_pin.is_high();
        let ghost before = self@;
        let r = self.0.step(a_high, b_high, k_high);
        assert((self@, r@) == encoder_step(before, a_high, b_high, k_high));
        r
    }

    /// Reads all three inputs once and reports the resulting action.
    pub fn update(&mut self) -> (r: Action)
        ensures
            exists|a_high: bool, b_high: bool, k_high: bool|
                {
                    let (m, s) = #[trigger] encoder_step(old(self)@, a_high, b_high, k_high);
                    final(self)@ == m && r == action_of(s)
                },
    {
        let s = self.update_raw();
        s.action()
    }
}

} // verus!
