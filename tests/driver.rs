use lattice_walkers::ant::AntWalker;
use lattice_walkers::driver::{plan, Buttons, Keys, Mode, State, Walker, STREAM_RATE};
use lattice_walkers::engineer::EngineerWalker;

const NONE: Keys = Keys { space: false, right: false, left: false };
const RIGHT: Keys = Keys { space: false, right: true, left: false };
const LEFT: Keys = Keys { space: false, right: false, left: true };
const SPACE: Keys = Keys { space: true, right: false, left: false };

fn tick<W: Walker>(s: &mut State<W>, keys: Keys) {
    assert!(s.can_tick(keys));
    s.tick(keys);
}

#[test]
fn fresh_driver_steps_by_key() {
    let s: State<AntWalker> = State::new(35, 20);
    assert_eq!(s.mode, Mode::StepByStep);
    assert_eq!(s.buttons, Buttons { space: false, right: false, left: false });
    assert_eq!(s.walker.steps_taken(), 0);
}

#[test]
fn held_key_acts_once() {
    let mut s: State<AntWalker> = State::new(35, 20);
    tick(&mut s, RIGHT);
    assert_eq!(s.walker.steps_taken(), 1);
    tick(&mut s, RIGHT);
    tick(&mut s, RIGHT);
    assert_eq!(s.walker.steps_taken(), 1);
    tick(&mut s, NONE);
    assert!(!s.buttons.right);
    tick(&mut s, RIGHT);
    assert_eq!(s.walker.steps_taken(), 2);
    assert_eq!(s.walker.agent_position(), (1, 1));
}

#[test]
fn left_key_undoes() {
    let mut s: State<AntWalker> = State::new(35, 20);
    tick(&mut s, RIGHT);
    tick(&mut s, NONE);
    tick(&mut s, RIGHT);
    tick(&mut s, LEFT);
    assert_eq!(s.walker.steps_taken(), 1);
    assert_eq!(s.walker.agent_position(), (1, 0));
    tick(&mut s, LEFT);
    tick(&mut s, NONE);
    tick(&mut s, LEFT);
    assert_eq!(s.walker.steps_taken(), 0);
    assert_eq!(s.walker.agent_position(), (0, 0));
    assert_eq!(s.walker.marked_count(), 0);
}

#[test]
fn space_switches_streaming() {
    let mut s: State<EngineerWalker> = State::new(35, 20);
    tick(&mut s, SPACE);
    assert_eq!(s.mode, Mode::Stream(STREAM_RATE));
    assert_eq!(s.walker.steps_taken(), 0);
    tick(&mut s, SPACE);
    assert_eq!(s.walker.steps_taken(), 10);
    assert_eq!(s.mode, Mode::Stream(10));
    tick(&mut s, NONE);
    assert_eq!(s.walker.steps_taken(), 20);
    tick(&mut s, SPACE);
    assert_eq!(s.walker.steps_taken(), 30);
    assert_eq!(s.mode, Mode::StepByStep);
    tick(&mut s, NONE);
    assert_eq!(s.walker.steps_taken(), 30);
}

#[test]
fn plan_while_streaming_ignores_arrows() {
    let latched = Buttons { space: false, right: true, left: true };
    let p = plan(Mode::Stream(7), latched, Keys { space: false, right: false, left: true });
    assert_eq!(p.mode, Mode::Stream(7));
    assert_eq!(p.forward, 7);
    assert!(!p.back);
    assert_eq!(p.buttons, Buttons { space: false, right: false, left: true });
}

#[test]
fn plan_step_both_arrows() {
    let free = Buttons { space: false, right: false, left: false };
    let p = plan(Mode::StepByStep, free, Keys { space: true, right: true, left: true });
    assert_eq!(p.forward, 1);
    assert!(p.back);
    assert_eq!(p.mode, Mode::Stream(10));
    assert_eq!(p.buttons, Buttons { space: true, right: true, left: true });
}
