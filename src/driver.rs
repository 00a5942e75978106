use vstd::prelude::*;

use crate::ant::AntWalker;
use crate::engineer::EngineerWalker;
use crate::lattice::{pair, within};
use crate::viewport::{MAX_COORD, MAX_DIM};

verus! {

/// An automaton that a driver can run forwards and backwards.
pub trait Walker: Sized {
    spec fn valid(&self) -> bool;

    /// The agent's lattice position.
    spec fn position(&self) -> (int, int);

    /// Number of moves made and not undone.
    spec fn moves(&self) -> nat;

    /// A fresh automaton at the origin with a window of `long_dim` by
    /// `short_dim` cells.
    fn new(long_dim: i64, short_dim: i64) -> (r: Self)
        requires
            1 <= long_dim <= MAX_DIM,
            1 <= short_dim <= MAX_DIM,
        ensures
            r.valid(),
            r.position() == (0int, 0int),
            r.moves() == 0,
    ;

    fn step(&mut self)
        requires
            old(self).valid(),
            within(old(self).position(), MAX_COORD - 1),
            old(self).moves() < u64::MAX,
        ensures
            final(self).valid(),
            final(self).moves() == old(self).moves() + 1,
            within(final(self).position(), MAX_COORD as int),
            unit_apart(old(self).position(), final(self).position()),
    ;

    /// Undoes the last move not yet undone; changes nothing when there is
    /// none.
    fn step_back(&mut self)
        requires
            old(self).valid(),
            within(old(self).position(), MAX_COORD - 1),
            old(self).moves() < u64::MAX,
        ensures
            final(self).valid(),
            old(self).moves() == 0 ==> final(self).moves() == 0,
            old(self).moves() > 0 ==> final(self).moves() == old(self).moves() - 1,
            within(final(self).position(), MAX_COORD as int),
            unit_apart(old(self).position(), final(self).position()),
    ;

    fn agent_position(&self) -> (r: (i64, i64))
        ensures
            pair(r) == self.position(),
    ;

    fn steps_taken(&self) -> (r: u64)
        ensures
            r == self.moves(),
    ;
}

/// Whether `a` and `b` differ by at most one on each axis.
pub open spec fn unit_apart(a: (int, int), b: (int, int)) -> bool {
    -1 <= b.0 - a.0 <= 1 && -1 <= b.1 - a.1 <= 1
}

impl Walker for AntWalker {
    open spec fn valid(&self) -> bool {
        self.wf()
    }

    open spec fn position(&self) -> (int, int) {
        self.state().pos
    }

    open spec fn moves(&self) -> nat {
        self.depth()
    }

    fn new(long_dim: i64, short_dim: i64) -> (r: Self) {
        AntWalker::new(long_dim, short_dim)
    }

    fn step(&mut self) {
        AntWalker::step(self);
    }

    fn step_back(&mut self) {
        AntWalker::step_back(self);
    }

    fn agent_position(&self) -> (r: (i64, i64)) {
        AntWalker::agent_position(self)
    }

    fn steps_taken(&self) -> (r: u64) {
        AntWalker::steps_taken(self)
    }
}

impl Walker for EngineerWalker {
    open spec fn valid(&self) -> bool {
        self.wf()
    }

    open spec fn position(&self) -> (int, int) {
        self.state().pos
    }

    open spec fn moves(&self) -> nat {
        self.depth()
    }

    fn new(long_dim: i64, short_dim: i64) -> (r: Self) {
        EngineerWalker::new(long_dim, short_dim)
    }

    fn step(&mut self) {
        EngineerWalker::step(self);
    }

    fn step_back(&mut self) {
        EngineerWalker::step_back(self);
    }

    fn agent_position(&self) -> (r: (i64, i64)) {
        EngineerWalker::agent_position(self)
    }

    fn steps_taken(&self) -> (r: u64) {
        EngineerWalker::steps_taken(self)
    }
}

/// How the driver advances the automaton.
#[derive(Clone, Copy, Debug, PartialEq, Eq, Structural)]
pub enum Mode {
    /// This many moves on every tick.
    Stream(u64),
    /// One move per key press.
    StepByStep,
}

/// Moves per tick when streaming starts.
pub const STREAM_RATE: u64 = 10;

/// Keys held down during a tick.
#[derive(Clone, Copy, Debug, PartialEq, Eq, Structural)]
pub struct Keys {
    pub space: bool,
    pub right: bool,
    pub left: bool,
}

/// Keys whose press has been acted on and that have not been released since:
/// a key acts once per press, however long it is held.
#[derive(Clone, Copy, Debug, PartialEq, Eq, Structural)]
pub struct Buttons {
    pub space: bool,
    pub right: bool,
    pub left: bool,
}

/// A key acts on a tick when it is down and was not already acted on.
pub open spec fn fresh(down: bool, latched: bool) -> bool {
    down && !latched
}

/// What one tick does.
#[derive(Clone, Copy, Debug, PartialEq, Eq, Structural)]
pub struct Plan {
    pub mode: Mode,
    pub buttons: Buttons,
    /// Moves to make.
    pub forward: u64,
    /// Whether to undo a move after them.
    pub back: bool,
}

/// The tick's plan: streaming makes its moves and a fresh space press stops
/// it; stepping makes a move on a fresh right press, undoes one on a fresh
/// left press, and a fresh space press starts streaming.  A key that is up
/// is released.
pub open spec fn plan_spec(mode: Mode, buttons: Buttons, keys: Keys) -> Plan {
    let space = fresh(keys.space, buttons.space);
    match mode {
        Mode::Stream(n) => Plan {
            mode: if space { Mode::StepByStep } else { mode },
            buttons: Buttons {
                space: keys.space,
                right: keys.right && buttons.right,
                left: keys.left && buttons.left,
            },
            forward: n,
            back: false,
        },
        Mode::StepByStep => Plan {
            mode: if space { Mode::Stream(STREAM_RATE) } else { mode },
            buttons: Buttons { space: keys.space, right: keys.right, left: keys.left },
            forward: if fresh(keys.right, buttons.right) { 1 } else { 0 },
            back: fresh(keys.left, buttons.left),
        },
    }
}

/// Number of moves and undos in a plan.
pub open spec fn budget(p: Plan) -> nat {
    p.forward as nat + if p.back { 1nat } else { 0nat }
}

/// Decides what one tick does, from the mode, the latched keys and the keys
/// held down.
pub fn plan(mode: Mode, buttons: Buttons, keys: Keys) -> (r: Plan)
    ensures
        r == plan_spec(mode, buttons, keys),
{
    let mut latched = buttons;
    if !keys.space && latched.space {
        latched.space = false;
    }
    if !keys.right && latched.right {
        latched.right = false;
    }
    if !keys.left && latched.left {
        latched.left = false;
    }
    let mut next = mode;
    let mut forward: u64 = 0;
    let mut back = false;
    match mode {
        Mode::Stream(steps_per_frame) => {
            forward = steps_per_frame;
            if keys.space && !latched.space {
                latched.space = true;
                next = Mode::StepByStep;
            }
        },
        Mode::StepByStep => {
            if keys.right && !latched.right {
                latched.right = true;
                forward = 1;
            }
            if keys.left && !latched.left {
                latched.left = true;
                back = true;
            }
            if keys.space && !latched.space {
                latched.space = true;
                next = Mode::Stream(STREAM_RATE);
            }
        },
    }
    Plan { mode: next, buttons: latched, forward, back }
}

/// The driver: an automaton, the way it is advanced, and the key latches.
pub struct State<W: Walker> {
    pub mode: Mode,
    pub buttons: Buttons,
    pub walker: W,
}

impl<W: Walker> State<W> {
    /// Stepping mode, no key latched, a fresh automaton.
    pub fn new(long_dim: i64, short_dim: i64) -> (r: Self)
        requires
            1 <= long_dim <= MAX_DIM,
            1 <= short_dim <= MAX_DIM,
        ensures
            r.mode == Mode::StepByStep,
            r.buttons == (Buttons { space: false, right: false, left: false }),
            r.walker.valid(),
            r.walker.position() == (0int, 0int),
            r.walker.moves() == 0,
    {
        State {
            mode: Mode::StepByStep,
            buttons: Buttons { space: false, right: false, left: false },
            walker: W::new(long_dim, short_dim),
        }
    }

    /// Whether the automaton has room for `n` more moves.
    pub open spec fn room_for(&self, n: nat) -> bool {
        &&& within(self.walker.position(), MAX_COORD - n)
        &&& self.walker.moves() + n <= u64::MAX
    }

    /// Whether `tick(keys)` may run now.
    pub fn can_tick(&self, keys: Keys) -> (r: bool)
        ensures
            r == self.room_for(budget(plan_spec(self.mode, self.buttons, keys))),
    {
        let p = plan(self.mode, self.buttons, keys);
        let n: u64 = if p.back { p.forward + 1 } else { p.forward };
        let (x, y) = self.walker.agent_position();
        let bound: i128 = MAX_COORD as i128 - n as i128;
        let reach = -bound <= x as i128 && x as i128 <= bound && -bound <= y as i128 && y as i128 <= bound;
        reach && self.walker.steps_taken() <= u64::MAX - n
    }

    /// One tick of the driver (see `plan`): updates the mode and the latches,
    /// then makes the planned moves and the planned undo.
    pub fn tick(&mut self, keys: Keys)
        requires
            old(self).walker.valid(),
            old(self).room_for(budget(plan_spec(old(self).mode, old(self).buttons, keys))),
        ensures
            final(self).walker.valid(),
            final(self).mode == plan_spec(old(self).mode, old(self).buttons, keys).mode,
            final(self).buttons == plan_spec(old(self).mode, old(self).buttons, keys).buttons,
            !plan_spec(old(self).mode, old(self).buttons, keys).back ==> final(self).walker.moves()
                == old(self).walker.moves() + plan_spec(old(self).mode, old(self).buttons, keys).forward,
            plan_spec(old(self).mode, old(self).buttons, keys).back ==> final(self).walker.moves() == if old(
                self,
            ).walker.moves() + plan_spec(old(self).mode, old(self).buttons, keys).forward == 0 {
                0
            } else {
                old(self).walker.moves() + plan_spec(old(self).mode, old(self).buttons, keys).forward - 1
            },
    {
        let p = plan(self.mode, self.buttons, keys);
        self.mode = p.mode;
        self.buttons = p.buttons;
        let ghost start = self.walker.moves();
        let ghost origin = self.walker.position();
        let mut i: u64 = 0;
        while i < p.forward
            invariant
                p == plan_spec(old(self).mode, old(self).buttons, keys),
                self.mode == p.mode,
                self.buttons == p.buttons,
                i <= p.forward,
                self.walker.valid(),
                self.walker.moves() == start + i,
                start + budget(p) <= u64::MAX,
                within(origin, MAX_COORD - budget(p)),
                within(self.walker.position(), MAX_COORD - budget(p) + i),
            decreases p.forward - i,
        {
            self.walker.step();
            i = i + 1;
        }
        if p.back {
            self.walker.step_back();
        }
    }
}

} // verus!
