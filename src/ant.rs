use vstd::prelude::*;

use std::collections::BTreeSet;

use crate::lattice::{
    advance, ahead, behind, lemma_lift_contains, lemma_lift_len, lemma_lift_insert, lemma_lift_remove, lift, pair,
    retreat, within,
};
pub use crate::lattice::Orientation;
use crate::viewport::{
    on_screen, recentered, to_board, to_screen, Dirty, Screen, MAX_ARG, MAX_COORD, MAX_DIM,
};

verus! {

/// The ant's part of the automaton as mathematics: where it stands, where it
/// faces, and which cells are marked.
pub struct AntState {
    pub pos: (int, int),
    pub or: Orientation,
    pub marked: Set<(int, int)>,
}

/// `s` with the membership of `c` flipped.
pub open spec fn flip(s: Set<(int, int)>, c: (int, int)) -> Set<(int, int)> {
    if s.contains(c) {
        s.remove(c)
    } else {
        s.insert(c)
    }
}

impl AntState {
    /// At the origin, facing up, nothing marked.
    pub open spec fn start() -> AntState {
        AntState { pos: (0, 0), or: Orientation::Up, marked: Set::empty() }
    }

    /// One move: on a marked cell turn left, else turn right; flip the cell;
    /// then move one unit in the new direction.
    pub open spec fn next(self) -> AntState {
        let or = if self.marked.contains(self.pos) {
            self.or.left()
        } else {
            self.or.right()
        };
        AntState { pos: advance(self.pos, or), or, marked: flip(self.marked, self.pos) }
    }

    /// The move undone: step back against the facing direction, then apply the
    /// same turn-and-flip rule at the cell reached.
    pub open spec fn prev(self) -> AntState {
        let back = retreat(self.pos, self.or);
        let or = if self.marked.contains(back) {
            self.or.left()
        } else {
            self.or.right()
        };
        AntState { pos: back, or, marked: flip(self.marked, back) }
    }

    /// The state after `n` moves from `self`.
    pub open spec fn after(self, n: nat) -> AntState
        decreases n,
    {
        if n == 0 {
            self
        } else {
            self.after((n - 1) as nat).next()
        }
    }

    /// The state after `n` moves undone from `self`.
    pub open spec fn before(self, n: nat) -> AntState
        decreases n,
    {
        if n == 0 {
            self
        } else {
            self.prev().before((n - 1) as nat)
        }
    }

    /// How many of the first `n` moves from `self` started on cell `c`.
    pub open spec fn visits(self, n: nat, c: (int, int)) -> nat
        decreases n,
    {
        if n == 0 {
            0
        } else {
            self.visits((n - 1) as nat, c) + if self.after((n - 1) as nat).pos == c {
                1nat
            } else {
                0nat
            }
        }
    }
}

/// Undoing a move restores the position, the orientation and the marked cells
/// exactly.
pub proof fn lemma_prev_undoes_next(s: AntState)
    ensures
        s.next().prev() == s,
{
    let t = s.next();
    assert(retreat(t.pos, t.or) == s.pos);
    s.or.lemma_turns_cancel();
    assert(flip(t.marked, s.pos) =~= s.marked);
}

/// Any number of moves followed by as many undos gives back the state it
/// started from.
pub proof fn lemma_unwind(s: AntState, n: nat)
    ensures
        s.after(n).before(n) == s,
    decreases n,
{
    if n > 0 {
        let m = (n - 1) as nat;
        lemma_prev_undoes_next(s.after(m));
        lemma_unwind(s, m);
    }
}

/// A cell is marked after `n` moves from `s` exactly when it was marked at
/// `s` and the ant left it an even number of times, or it was not and the ant
/// left it an odd number of times.
pub proof fn lemma_marks_follow_visits(s: AntState, n: nat, c: (int, int))
    ensures
        s.after(n).marked.contains(c) == (s.marked.contains(c) != (s.visits(n, c) % 2 == 1)),
    decreases n,
{
    if n > 0 {
        lemma_marks_follow_visits(s, (n - 1) as nat, c);
    }
}

/// Only finitely many cells are ever marked.
pub proof fn lemma_marked_finite(n: nat)
    ensures
        AntState::start().after(n).marked.finite(),
    decreases n,
{
    if n > 0 {
        lemma_marked_finite((n - 1) as nat);
    }
}

/// In every state reachable from the start, a cell is marked exactly when the
/// ant has stood on it at the start of an odd number of moves.
pub proof fn lemma_mark_parity(n: nat, c: (int, int))
    ensures
        AntState::start().after(n).marked.contains(c) == (AntState::start().visits(n, c) % 2 == 1),
{
    lemma_marks_follow_visits(AntState::start(), n, c);
}

/// Cell `s` and its four axis neighbours, in the order left, right, up, down.
pub open spec fn around(s: (int, int)) -> Seq<(int, int)> {
    seq![s, (s.0 - 1, s.1), (s.0 + 1, s.1), (s.0, s.1 - 1), (s.0, s.1 + 1)]
}

/// The ant itself: its lattice position and the direction it faces.
#[derive(Clone, Copy, Debug)]
pub struct Ant {
    pub coord: (i64, i64),
    pub or: Orientation,
}

/// What changed since the renderer last looked: window cells, and whether the
/// ant moved.
#[derive(Debug)]
pub struct Update {
    pub cells: Dirty,
    pub ant: bool,
}

/// A Langton's ant on an unbounded board, with a window that follows it.
pub struct AntWalker {
    screen: Screen,
    update: Update,
    board: BTreeSet<(i64, i64)>,
    ant: Ant,
    depth: u64,
}

impl AntWalker {
    /// Position, orientation and marked cells.
    pub closed spec fn state(&self) -> AntState {
        AntState { pos: pair(self.ant.coord), or: self.ant.or, marked: lift(self.board@) }
    }

    /// Number of moves made and not undone.
    pub closed spec fn depth(&self) -> nat {
        self.depth as nat
    }

    pub closed spec fn dims(&self) -> (int, int) {
        self.screen.dims()
    }

    pub closed spec fn center(&self) -> (int, int) {
        self.screen.center()
    }

    pub closed spec fn dirty(&self) -> Dirty {
        self.update.cells
    }

    /// Whether the ant must be redrawn.
    pub closed spec fn ant_dirty(&self) -> bool {
        self.update.ant
    }

    /// The window cell the ant stands on.
    pub open spec fn agent_cell(&self) -> (int, int) {
        to_screen(self.dims(), self.center(), self.state().pos)
    }

    pub closed spec fn wf(&self) -> bool {
        &&& self.screen.wf()
        &&& within(self.state().pos, MAX_COORD as int)
        &&& on_screen(self.dims(), self.agent_cell())
        &&& self.state() == AntState::start().after(self.depth())
    }

    /// Whether `n` more moves keep the ant inside the supported range.
    pub open spec fn has_room(&self, n: nat) -> bool {
        &&& within(self.state().pos, MAX_COORD - n)
        &&& self.depth() + n <= u64::MAX
    }

    /// A fresh ant at the origin facing up, on an empty board, with a window
    /// of `long_dim` by `short_dim` cells centered on the origin; the whole
    /// window is due for drawing.
    pub fn new(long_dim: i64, short_dim: i64) -> (r: AntWalker)
        requires
            1 <= long_dim <= MAX_DIM,
            1 <= short_dim <= MAX_DIM,
        ensures
            r.wf(),
            r.state() == AntState::start(),
            r.depth() == 0,
            r.dims() == (long_dim as int, short_dim as int),
            r.center() == (0int, 0int),
            r.dirty().is_all(),
            r.ant_dirty(),
    {
        let r = AntWalker {
            screen: Screen::new((long_dim, short_dim)),
            update: Update { cells: Dirty::All, ant: true },
            board: BTreeSet::new(),
            ant: Ant { coord: (0, 0), or: Orientation::Up },
            depth: 0,
        };
        assert(lift(r.board@) =~= Set::empty());
        r
    }

    /// A live walker is in the state reached from the start by the moves it
    /// made and did not undo.
    pub proof fn lemma_reachable(&self)
        requires
            self.wf(),
        ensures
            self.state() == AntState::start().after(self.depth()),
    {
    }

    /// Number of marked cells.
    pub fn marked_count(&self) -> (r: usize)
        requires
            self.wf(),
        ensures
            r == self.state().marked.len(),
    {
        proof {
            lemma_marked_finite(self.depth());
            lemma_lift_len(self.board@);
        }
        self.board.len()
    }

    /// Flips the cell under the ant and turns it: left if the cell was
    /// marked, right if it was not.
    fn turn_and_flip(&mut self)
        requires
            within(old(self).state().pos, MAX_COORD as int),
        ensures
            final(self).state() == (AntState {
                pos: old(self).state().pos,
                or: old(self).state().next().or,
                marked: old(self).state().next().marked,
            }),
            final(self).screen == old(self).screen,
            final(self).update == old(self).update,
            final(self).depth == old(self).depth,
    {
        let here = self.ant.coord;
        proof {
            lemma_lift_contains(self.board@, here);
            lemma_lift_insert(self.board@, here);
            lemma_lift_remove(self.board@, here);
        }
        if self.board.contains(&here) {
            self.ant.or = self.ant.or.turn_left();
            self.board.remove(&here);
        } else {
            self.ant.or = self.ant.or.turn_right();
            self.board.insert(here);
        }
    }

    /// Moves the window towards the ant if it left it, and lists the ant's
    /// window cell for redrawing, or the whole window if the window moved.
    fn follow(&mut self)
        requires
            old(self).screen.wf(),
            within(old(self).state().pos, MAX_COORD as int),
            -1 <= old(self).agent_cell().0 <= old(self).dims().0 + 1,
            -1 <= old(self).agent_cell().1 <= old(self).dims().1 + 1,
        ensures
            final(self).screen.wf(),
            final(self).state() == old(self).state(),
            final(self).depth == old(self).depth,
            final(self).dims() == old(self).dims(),
            final(self).center() == recentered(old(self).dims(), old(self).center(), old(self).state().pos),
            on_screen(final(self).dims(), final(self).agent_cell()),
            final(self).dirty().is_all() == (old(self).dirty().is_all() || final(self).center() != old(self).center()),
            !final(self).dirty().is_all() ==> final(self).dirty().cells() == old(self).dirty().cells().push(
                final(self).agent_cell(),
            ),
            final(self).ant_dirty(),
    {
        let moved = self.screen.recenter(self.ant.coord);
        if moved {
            self.update.cells = Dirty::All;
        }
        let cell = self.screen.board_to_screen(self.ant.coord.0, self.ant.coord.1);
        self.update.cells.mark(cell);
        self.update.ant = true;
    }

    /// One move of the ant (see `AntState::next`).  The window then moves by
    /// at most one cell on each axis to keep the ant in view.  The ant's
    /// window cell before and after the move are listed for redrawing, or
    /// the whole window when the window moved.
    pub fn step(&mut self)
        requires
            old(self).wf(),
            old(self).has_room(1),
        ensures
            final(self).wf(),
            final(self).state() == old(self).state().next(),
            final(self).depth() == old(self).depth() + 1,
            final(self).dims() == old(self).dims(),
            final(self).center() == recentered(old(self).dims(), old(self).center(), final(self).state().pos),
            -1 <= final(self).center().0 - old(self).center().0 <= 1,
            -1 <= final(self).center().1 - old(self).center().1 <= 1,
            final(self).dirty().is_all() == (old(self).dirty().is_all() || final(self).center() != old(self).center()),
            !final(self).dirty().is_all() ==> final(self).dirty().cells() == old(self).dirty().cells().push(
                old(self).agent_cell(),
            ).push(final(self).agent_cell()),
            final(self).ant_dirty(),
    {
        let cell = self.screen.board_to_screen(self.ant.coord.0, self.ant.coord.1);
        self.update.cells.mark(cell);
        self.turn_and_flip();
        self.ant.coord = ahead(self.ant.coord, self.ant.or);
        self.follow();
        self.depth = self.depth + 1;
    }

    /// Undoes the last move not yet undone (see `AntState::prev`); with no
    /// such move it changes nothing.  The window follows the ant as in
    /// `step`.  The ant's window cell and its four neighbours before the
    /// move, then its cell after it, are listed for redrawing, or the whole
    /// window when the window moved.
    pub fn step_back(&mut self)
        requires
            old(self).wf(),
            old(self).has_room(1),
        ensures
            final(self).wf(),
            old(self).depth() == 0 ==> *final(self) == *old(self),
            old(self).depth() > 0 ==> {
                &&& final(self).state() == old(self).state().prev()
                &&& final(self).depth() == old(self).depth() - 1
                &&& final(self).dims() == old(self).dims()
                &&& final(self).center() == recentered(old(self).dims(), old(self).center(), final(self).state().pos)
                &&& -1 <= final(self).center().0 - old(self).center().0 <= 1
                &&& -1 <= final(self).center().1 - old(self).center().1 <= 1
                &&& final(self).dirty().is_all() == (old(self).dirty().is_all() || final(self).center() != old(self).center())
                &&& !final(self).dirty().is_all() ==> final(self).dirty().cells() == old(self).dirty().cells()
                    + around(old(self).agent_cell()) + seq![final(self).agent_cell()]
                &&& final(self).ant_dirty()
            },
    {
        if self.depth == 0 {
            return;
        }
        let (si, sj) = self.screen.board_to_screen(self.ant.coord.0, self.ant.coord.1);
        self.update.cells.mark((si, sj));
        self.update.cells.mark((si - 1, sj));
        self.update.cells.mark((si + 1, sj));
        self.update.cells.mark((si, sj - 1));
        self.update.cells.mark((si, sj + 1));
        self.ant.coord = behind(self.ant.coord, self.ant.or);
        self.turn_and_flip();
        self.follow();
        self.depth = self.depth - 1;
        proof {
            lemma_prev_undoes_next(AntState::start().after(self.depth()));
        }
    }

    pub fn board_to_screen(&self, board_i: i64, board_j: i64) -> (r: (i64, i64))
        requires
            self.wf(),
            within((board_i as int, board_j as int), MAX_ARG as int),
        ensures
            pair(r) == to_screen(self.dims(), self.center(), (board_i as int, board_j as int)),
    {
        self.screen.board_to_screen(board_i, board_j)
    }

    pub fn screen_to_board(&self, screen_i: i64, screen_j: i64) -> (r: (i64, i64))
        requires
            self.wf(),
            within((screen_i as int, screen_j as int), MAX_ARG as int),
        ensures
            pair(r) == to_board(self.dims(), self.center(), (screen_i as int, screen_j as int)),
    {
        self.screen.screen_to_board(screen_i, screen_j)
    }

    /// The window size in cells.
    pub fn dim(&self) -> (r: (i64, i64))
        ensures
            pair(r) == self.dims(),
    {
        self.screen.dim
    }

    /// The lattice point shown at the window's center cell.
    pub fn center_coord(&self) -> (r: (i64, i64))
        ensures
            pair(r) == self.center(),
    {
        self.screen.center_coord
    }

    /// Whether the lattice cell `(board_i, board_j)` is marked.
    pub fn is_marked(&self, board_i: i64, board_j: i64) -> (r: bool)
        ensures
            r == self.state().marked.contains((board_i as int, board_j as int)),
    {
        proof {
            lemma_lift_contains(self.board@, (board_i, board_j));
        }
        self.board.contains(&(board_i, board_j))
    }

    pub fn agent_position(&self) -> (r: (i64, i64))
        ensures
            pair(r) == self.state().pos,
    {
        self.ant.coord
    }

    pub fn agent_orientation(&self) -> (r: Orientation)
        ensures
            r == self.state().or,
    {
        self.ant.or
    }

    /// The window cell the ant stands on.
    pub fn agent_screen_position(&self) -> (r: (i64, i64))
        requires
            self.wf(),
        ensures
            pair(r) == self.agent_cell(),
    {
        self.screen.board_to_screen(self.ant.coord.0, self.ant.coord.1)
    }

    /// Number of moves made and not undone.
    pub fn steps_taken(&self) -> (r: u64)
        ensures
            r == self.depth(),
    {
        self.depth
    }

    /// Hands over the cells due for redrawing and starts an empty list.
    pub fn drain_dirty(&mut self) -> (r: Dirty)
        ensures
            r == old(self).dirty(),
            !final(self).dirty().is_all(),
            final(self).dirty().cells().len() == 0,
            final(self).state() == old(self).state(),
            final(self).depth() == old(self).depth(),
            final(self).dims() == old(self).dims(),
            final(self).center() == old(self).center(),
            final(self).ant_dirty() == old(self).ant_dirty(),
            old(self).wf() ==> final(self).wf(),
    {
        let mut drained = Dirty::Listed(Vec::new());
        std::mem::swap(&mut self.update.cells, &mut drained);
        drained
    }

    /// Tells whether the ant must be redrawn, and clears that.
    pub fn take_ant_dirty(&mut self) -> (r: bool)
        ensures
            r == old(self).ant_dirty(),
            !final(self).ant_dirty(),
            final(self).state() == old(self).state(),
            final(self).depth() == old(self).depth(),
            final(self).dims() == old(self).dims(),
            final(self).center() == old(self).center(),
            final(self).dirty() == old(self).dirty(),
            old(self).wf() ==> final(self).wf(),
    {
        let r = self.update.ant;
        self.update.ant = false;
        r
    }
}

} // verus!
