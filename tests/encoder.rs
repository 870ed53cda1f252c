use std::cell::Cell;
use std::rc::Rc;

use encoder::{Action, Direction, Encoder, EncoderError, EncoderInfallible, InfallibleInputPin, InputPin};

#[derive(Clone)]
struct Pin(Rc<Cell<Option<bool>>>);

impl InputPin for Pin {
    type Error = u8;

    fn is_high(&self) -> Result<bool, u8> {
        self.0.get().ok_or(7)
    }
}

#[derive(Clone)]
struct Wired(Rc<Cell<bool>>);

impl InfallibleInputPin for Wired {
    fn is_high(&self) -> bool {
        self.0.get()
    }
}

struct Rig {
    enc: Encoder<Pin, Pin, Pin>,
    a: Pin,
    b: Pin,
    k: Pin,
}

impl Rig {
    fn new() -> Self {
        let mk = || Pin(Rc::new(Cell::new(Some(true))));
        let (a, b, k) = (mk(), mk(), mk());
        Rig { enc: Encoder::new(a.clone(), b.clone(), k.clone()), a, b, k }
    }

    /// One poll with the given levels; `pressed` drives the button low.
    fn poll(&mut self, a: bool, b: bool, pressed: bool) -> Action {
        self.a.0.set(Some(a));
        self.b.0.set(Some(b));
        self.k.0.set(Some(!pressed));
        match self.enc.update() {
            Ok(act) => act,
            Err(_) => panic!("unexpected read failure"),
        }
    }

    fn poll_raw(&mut self, a: bool, b: bool, pressed: bool) -> encoder::EncoderState {
        self.a.0.set(Some(a));
        self.b.0.set(Some(b));
        self.k.0.set(Some(!pressed));
        match self.enc.update_raw() {
            Ok(s) => s,
            Err(_) => panic!("unexpected read failure"),
        }
    }
}

const CW: [(bool, bool); 4] = [(true, false), (false, false), (false, true), (true, true)];
const CCW: [(bool, bool); 4] = [(false, true), (false, false), (true, false), (true, true)];

#[test]
fn idle_reports_nothing() {
    let mut rig = Rig::new();
    for _ in 0..3 {
        assert_eq!(rig.poll(true, true, false), Action::Idle);
    }
}

#[test]
fn press_then_release_clicks() {
    let mut rig = Rig::new();
    assert_eq!(rig.poll(true, true, false), Action::Idle);
    assert_eq!(rig.poll(true, true, true), Action::Idle);
    assert_eq!(rig.poll(true, true, true), Action::Idle);
    assert_eq!(rig.poll(true, true, false), Action::Click);
    assert_eq!(rig.poll(true, true, false), Action::Idle);
}

#[test]
fn rotate_while_held_then_release_is_not_a_click() {
    let mut rig = Rig::new();
    let s = rig.poll_raw(true, true, true);
    assert!(s.pressed() && s.just_key_changed());
    let mut acts = Vec::new();
    for (a, b) in CW {
        acts.push(rig.poll(a, b, true));
    }
    assert_eq!(acts, vec![Action::Idle, Action::Idle, Action::Idle, Action::CwPressed]);
    let s = rig.poll_raw(true, true, false);
    assert!(!s.pressed());
    assert!(s.just_key_changed());
    assert!(s.rotated_before_key_change());
    assert_eq!(s.direction(), Direction::Idle);
    assert_eq!(s.action(), Action::Idle);
}

#[test]
fn rotate_while_held_then_release_via_update() {
    let mut rig = Rig::new();
    rig.poll(true, true, true);
    for (a, b) in CW {
        rig.poll(a, b, true);
    }
    assert_eq!(rig.poll(true, true, false), Action::Idle);
}

#[test]
fn rotations_without_button() {
    let mut rig = Rig::new();
    let acts: Vec<Action> = CW.iter().map(|&(a, b)| rig.poll(a, b, false)).collect();
    assert_eq!(acts[3], Action::Cw);
    let acts: Vec<Action> = CCW.iter().map(|&(a, b)| rig.poll(a, b, false)).collect();
    assert_eq!(acts, vec![Action::Idle, Action::Idle, Action::Idle, Action::Ccw]);
}

#[test]
fn counter_clockwise_while_held() {
    let mut rig = Rig::new();
    rig.poll(true, true, true);
    let acts: Vec<Action> = CCW.iter().map(|&(a, b)| rig.poll(a, b, true)).collect();
    assert_eq!(acts[3], Action::CcwPressed);
}

#[test]
fn flag_cleared_without_key_change() {
    let mut rig = Rig::new();
    for (a, b) in CW {
        let s = rig.poll_raw(a, b, false);
        assert!(!s.just_key_changed());
        assert!(!s.rotated_before_key_change());
    }
}

#[test]
fn rotation_before_press_is_reported_on_press() {
    let mut rig = Rig::new();
    for (a, b) in CW {
        rig.poll(a, b, false);
    }
    let s = rig.poll_raw(true, true, true);
    assert!(s.just_key_changed() && s.rotated_before_key_change());
    assert_eq!(s.action(), Action::Idle);
}

#[test]
fn press_discards_half_finished_rotation() {
    let mut rig = Rig::new();
    rig.poll(CW[0].0, CW[0].1, false);
    rig.poll(CW[1].0, CW[1].1, false);
    // the press resets the history, so the rest of the detent is not reported
    assert_eq!(rig.poll(CW[2].0, CW[2].1, true), Action::Idle);
    assert_eq!(rig.poll(CW[3].0, CW[3].1, true), Action::Idle);
}

#[test]
fn failure_on_channel_b_leaves_encoder_unchanged() {
    let mut rig = Rig::new();
    rig.poll(true, true, true);
    rig.poll(CW[0].0, CW[0].1, true);
    rig.poll(CW[1].0, CW[1].1, true);
    rig.a.0.set(Some(false));
    rig.b.0.set(None);
    rig.k.0.set(Some(true));
    assert!(matches!(rig.enc.update(), Err(EncoderError::BPin(7))));
    // the half-finished detent and the held button are still there
    assert_eq!(rig.poll(CW[2].0, CW[2].1, true), Action::Idle);
    assert_eq!(rig.poll(CW[3].0, CW[3].1, true), Action::CwPressed);
    let s = rig.poll_raw(true, true, false);
    assert!(s.just_key_changed() && s.rotated_before_key_change());
}

#[test]
fn failure_on_channel_a_is_tagged() {
    let mut rig = Rig::new();
    rig.a.0.set(None);
    assert!(matches!(rig.enc.update_raw(), Err(EncoderError::APin(7))));
}

#[test]
fn failure_on_button_is_tagged_and_keeps_button_state() {
    let mut rig = Rig::new();
    rig.poll(true, true, true);
    rig.k.0.set(None);
    assert!(matches!(rig.enc.update(), Err(EncoderError::KPin(7))));
    assert_eq!(rig.poll(true, true, false), Action::Click);
}

#[test]
fn action_direction_mapping() {
    assert_eq!(Action::Idle.direction(), Direction::Idle);
    assert_eq!(Action::Click.direction(), Direction::Idle);
    assert_eq!(Action::Cw.direction(), Direction::Cw);
    assert_eq!(Action::CwPressed.direction(), Direction::Cw);
    assert_eq!(Action::Ccw.direction(), Direction::Ccw);
    assert_eq!(Action::CcwPressed.direction(), Direction::Ccw);
}

#[test]
fn step_from_levels() {
    let mut enc = Encoder::new((), (), ());
    let s = enc.step(true, true, false);
    assert!(s.pressed() && s.just_key_changed() && !s.rotated_before_key_change());
    let s = enc.step(true, true, true);
    assert_eq!(s.action(), Action::Click);
    let s = enc.apply_key(Direction::Ccw, true);
    assert_eq!(s.action(), Action::Ccw);
    let s = enc.apply_key(Direction::Idle, false);
    assert!(s.just_key_changed() && s.rotated_before_key_change());
    assert_eq!(s.action(), Action::Idle);
}

#[test]
fn infallible_encoder_clicks_and_rotates() {
    let mk = || Wired(Rc::new(Cell::new(true)));
    let (a, b, k) = (mk(), mk(), mk());
    let mut enc = EncoderInfallible::new(a.clone(), b.clone(), k.clone());
    k.0.set(false);
    assert_eq!(enc.update(), Action::Idle);
    k.0.set(true);
    assert_eq!(enc.update(), Action::Click);
    let mut acts = Vec::new();
    for (ah, bh) in CW {
        a.0.set(ah);
        b.0.set(bh);
        acts.push(enc.update());
    }
    assert_eq!(acts[3], Action::Cw);
    k.0.set(false);
    let s = enc.update_raw();
    assert!(s.pressed() && s.just_key_changed() && s.rotated_before_key_change());
}
