use vstd::prelude::*;

use std::collections::BTreeSet;

use crate::lattice::{advance, ahead, fits_i64, pair, within};
pub use crate::lattice::Orientation;
use crate::viewport::{
    on_screen, recentered, to_board, to_screen, Dirty, Screen, MAX_ARG, MAX_COORD, MAX_DIM,
};

verus! {

/// An undirected edge between two lattice nodes, stored with its
/// lexicographically smaller end first.
pub type Bridge = ((int, int), (int, int));

/// Lexicographic order on lattice nodes.
pub open spec fn node_le(a: (int, int), b: (int, int)) -> bool {
    a.0 < b.0 || (a.0 == b.0 && a.1 <= b.1)
}

/// The edge between `a` and `b`, the same whichever end comes first.
pub open spec fn bridge(a: (int, int), b: (int, int)) -> Bridge {
    if node_le(a, b) {
        (a, b)
    } else {
        (b, a)
    }
}

/// Whether `e` joins two axis-neighbours and is stored in its canonical order.
pub open spec fn well_built(e: Bridge) -> bool {
    &&& node_le(e.0, e.1)
    &&& ((e.1.0 - e.0.0 == 1 && e.1.1 == e.0.1) || (e.1.0 == e.0.0 && e.1.1 - e.0.1 == 1))
}

/// `s` with the membership of `e` flipped.
pub open spec fn toggle(s: Set<Bridge>, e: Bridge) -> Set<Bridge> {
    if s.contains(e) {
        s.remove(e)
    } else {
        s.insert(e)
    }
}

/// Toggling the edge between two nodes twice, whichever end is named first
/// each time, leaves the bridges as they were.
pub proof fn lemma_toggle_twice(s: Set<Bridge>, a: (int, int), b: (int, int))
    ensures
        toggle(toggle(s, bridge(a, b)), bridge(b, a)) == s,
{
    assert(bridge(a, b) == bridge(b, a));
    assert(toggle(toggle(s, bridge(a, b)), bridge(a, b)) =~= s);
}

/// The engineer's part of the automaton as mathematics: where it stands,
/// where it faces, and which bridges stand.
pub struct EngineerState {
    pub pos: (int, int),
    pub or: Orientation,
    pub bridges: Set<Bridge>,
}

impl EngineerState {
    /// At the origin, facing up, no bridges.
    pub open spec fn start() -> EngineerState {
        EngineerState { pos: (0, 0), or: Orientation::Up, bridges: Set::empty() }
    }

    /// The node the engineer faces.
    pub open spec fn target(self) -> (int, int) {
        advance(self.pos, self.or)
    }

    /// The edge the next move toggles.
    pub open spec fn ahead_bridge(self) -> Bridge {
        bridge(self.pos, self.target())
    }

    /// One move: toggle the edge to the node ahead.  If it stood, cross to
    /// that node and turn left; else stay and turn right.
    pub open spec fn next(self) -> EngineerState {
        let e = self.ahead_bridge();
        if self.bridges.contains(e) {
            EngineerState { pos: self.target(), or: self.or.left(), bridges: toggle(self.bridges, e) }
        } else {
            EngineerState { pos: self.pos, or: self.or.right(), bridges: toggle(self.bridges, e) }
        }
    }

    /// The node a move undone would involve: the neighbour on the engineer's
    /// left-hand side.
    pub open spec fn behind_node(self) -> (int, int) {
        advance(self.pos, self.or.left())
    }

    /// The move undone.  If the edge to the left-hand neighbour stands, the
    /// last move built it: tear it down and turn back left.  Else the last
    /// move tore it down while crossing from there: rebuild it, go back to
    /// that node and turn back right.
    pub open spec fn prev(self) -> EngineerState {
        let q = self.behind_node();
        let e = bridge(self.pos, q);
        if self.bridges.contains(e) {
            EngineerState { pos: self.pos, or: self.or.left(), bridges: toggle(self.bridges, e) }
        } else {
            EngineerState { pos: q, or: self.or.right(), bridges: toggle(self.bridges, e) }
        }
    }

    /// The state after `n` moves from `self`.
    pub open spec fn after(self, n: nat) -> EngineerState
        decreases n,
    {
        if n == 0 {
            self
        } else {
            self.after((n - 1) as nat).next()
        }
    }

    /// How many of the first `n` moves from `self` toggled edge `e`.
    pub open spec fn toggles(self, n: nat, e: Bridge) -> nat
        decreases n,
    {
        if n == 0 {
            0
        } else {
            self.toggles((n - 1) as nat, e) + if self.after((n - 1) as nat).ahead_bridge() == e {
                1nat
            } else {
                0nat
            }
        }
    }
}

/// Undoing a move restores the position, the orientation and the bridges
/// exactly.
pub proof fn lemma_prev_undoes_next(s: EngineerState)
    ensures
        s.next().prev() == s,
{
    let e = s.ahead_bridge();
    let t = s.next();
    s.or.lemma_turns_cancel();
    assert(bridge(t.pos, t.behind_node()) == e);
    assert(toggle(toggle(s.bridges, e), e) =~= s.bridges);
}

/// In every state reachable from the start, a bridge stands exactly when the
/// engineer has toggled it an odd number of times, and each bridge joins two
/// axis-neighbours.
pub proof fn lemma_bridge_parity(n: nat, e: Bridge)
    ensures
        EngineerState::start().after(n).bridges.contains(e) == (EngineerState::start().toggles(n, e) % 2 == 1),
        EngineerState::start().after(n).bridges.contains(e) ==> well_built(e),
    decreases n,
{
    if n > 0 {
        let m = (n - 1) as nat;
        lemma_bridge_parity(m, e);
        let s = EngineerState::start().after(m);
        assert(well_built(s.ahead_bridge()));
    }
}

/// An edge key of the bridge store, as an edge.
pub open spec fn quad(k: (i64, i64, i64, i64)) -> Bridge {
    ((k.0 as int, k.1 as int), (k.2 as int, k.3 as int))
}

/// The bridge store's keys, as a set of edges.
pub open spec fn lift_bridges(s: Set<(i64, i64, i64, i64)>) -> Set<Bridge> {
    Set::new(
        |e: Bridge|
            fits_i64(e.0) && fits_i64(e.1) && s.contains(
                (e.0.0 as i64, e.0.1 as i64, e.1.0 as i64, e.1.1 as i64),
            ),
    )
}

pub proof fn lemma_lift_bridges(s: Set<(i64, i64, i64, i64)>, k: (i64, i64, i64, i64))
    ensures
        lift_bridges(s).contains(quad(k)) == s.contains(k),
        lift_bridges(s.insert(k)) == lift_bridges(s).insert(quad(k)),
        lift_bridges(s.remove(k)) == lift_bridges(s).remove(quad(k)),
{
    assert(lift_bridges(s.insert(k)) =~= lift_bridges(s).insert(quad(k)));
    assert(lift_bridges(s.remove(k)) =~= lift_bridges(s).remove(quad(k)));
}

/// The store key of the edge between `a` and `b`.
pub fn bridge_key(a: (i64, i64), b: (i64, i64)) -> (r: (i64, i64, i64, i64))
    ensures
        quad(r) == bridge(pair(a), pair(b)),
{
    if a.0 < b.0 || (a.0 == b.0 && a.1 <= b.1) {
        (a.0, a.1, b.0, b.1)
    } else {
        (b.0, b.1, a.0, a.1)
    }
}

/// The nine window cells of the 3 x 3 block centered on `s`, row by row.
pub open spec fn cluster(s: (int, int)) -> Seq<(int, int)> {
    seq![
        (s.0 - 1, s.1 - 1), (s.0, s.1 - 1), (s.0 + 1, s.1 - 1),
        (s.0 - 1, s.1), s, (s.0 + 1, s.1),
        (s.0 - 1, s.1 + 1), (s.0, s.1 + 1), (s.0 + 1, s.1 + 1),
    ]
}

/// Lists the 3 x 3 block of window cells centered on `s`: a node with its
/// four incident edges and its neighbours.
fn mark_cluster(cells: &mut Dirty, s: (i64, i64))
    requires
        within(pair(s), MAX_ARG as int),
    ensures
        final(cells).is_all() == old(cells).is_all(),
        !old(cells).is_all() ==> final(cells).cells() == old(cells).cells() + cluster(pair(s)),
{
    let (i, j) = s;
    cells.mark((i - 1, j - 1));
    cells.mark((i, j - 1));
    cells.mark((i + 1, j - 1));
    cells.mark((i - 1, j));
    cells.mark((i, j));
    cells.mark((i + 1, j));
    cells.mark((i - 1, j + 1));
    cells.mark((i, j + 1));
    cells.mark((i + 1, j + 1));
    proof {
        if !old(cells).is_all() {
            assert(cells.cells() =~= old(cells).cells() + cluster(pair(s)));
        }
    }
}

/// The engineer itself: the node it stands on and the direction it faces.
#[derive(Clone, Copy, Debug)]
pub struct Engineer {
    pub coord: (i64, i64),
    pub or: Orientation,
}

/// What changed since the renderer last looked: window nodes, and whether
/// the engineer moved or turned.
#[derive(Debug)]
pub struct Update {
    pub nodes: Dirty,
    pub engineer: bool,
}

/// A bridge-building engineer on an unbounded lattice of nodes, with a
/// window that follows it.
pub struct EngineerWalker {
    screen: Screen,
    update: Update,
    bridges: BTreeSet<(i64, i64, i64, i64)>,
    engineer: Engineer,
    depth: u64,
}

impl EngineerWalker {
    /// Position, orientation and standing bridges.
    pub closed spec fn state(&self) -> EngineerState {
        EngineerState {
            pos: pair(self.engineer.coord),
            or: self.engineer.or,
            bridges: lift_bridges(self.bridges@),
        }
    }

    /// Number of moves made and not undone.
    pub closed spec fn depth(&self) -> nat {
        self.depth as nat
    }

    pub closed spec fn dims(&self) -> (int, int) {
        self.screen.dims()
    }

    pub closed spec fn center(&self) -> (int, int) {
        self.screen.center()
    }

    pub closed spec fn dirty(&self) -> Dirty {
        self.update.nodes
    }

    /// Whether the engineer must be redrawn.
    pub closed spec fn engineer_dirty(&self) -> bool {
        self.update.engineer
    }

    /// The window node the engineer stands on.
    pub open spec fn agent_cell(&self) -> (int, int) {
        to_screen(self.dims(), self.center(), self.state().pos)
    }

    pub closed spec fn wf(&self) -> bool {
        &&& self.screen.wf()
        &&& within(self.state().pos, MAX_COORD as int)
        &&& on_screen(self.dims(), self.agent_cell())
        &&& self.state() == EngineerState::start().after(self.depth())
    }

    /// Whether `n` more moves keep the engineer inside the supported range.
    pub open spec fn has_room(&self, n: nat) -> bool {
        &&& within(self.state().pos, MAX_COORD - n)
        &&& self.depth() + n <= u64::MAX
    }

    /// A fresh engineer at the origin facing up, with no bridges, and a
    /// window of `long_dim` by `short_dim` nodes centered on the origin; the
    /// whole window is due for drawing.
    pub fn new(long_dim: i64, short_dim: i64) -> (r: EngineerWalker)
        requires
            1 <= long_dim <= MAX_DIM,
            1 <= short_dim <= MAX_DIM,
        ensures
            r.wf(),
            r.state() == EngineerState::start(),
            r.depth() == 0,
            r.dims() == (long_dim as int, short_dim as int),
            r.center() == (0int, 0int),
            r.dirty().is_all(),
            r.engineer_dirty(),
    {
        let r = EngineerWalker {
            screen: Screen::new((long_dim, short_dim)),
            update: Update { nodes: Dirty::All, engineer: true },
            bridges: BTreeSet::new(),
            engineer: Engineer { coord: (0, 0), or: Orientation::Up },
            depth: 0,
        };
        assert(lift_bridges(r.bridges@) =~= Set::empty());
        r
    }

    /// A live walker is in the state reached from the start by the moves it
    /// made and did not undo.
    pub proof fn lemma_reachable(&self)
        requires
            self.wf(),
        ensures
            self.state() == EngineerState::start().after(self.depth()),
    {
    }

    /// Moves the window towards the engineer if it left it, and lists the
    /// block around its window node, or the whole window if the window moved.
    fn follow(&mut self)
        requires
            old(self).screen.wf(),
            within(old(self).state().pos, MAX_COORD as int),
            -1 <= old(self).agent_cell().0 <= old(self).dims().0 + 1,
            -1 <= old(self).agent_cell().1 <= old(self).dims().1 + 1,
        ensures
            final(self).screen.wf(),
            final(self).state() == old(self).state(),
            final(self).depth == old(self).depth,
            final(self).dims() == old(self).dims(),
            final(self).center() == recentered(old(self).dims(), old(self).center(), old(self).state().pos),
            on_screen(final(self).dims(), final(self).agent_cell()),
            final(self).dirty().is_all() == (old(self).dirty().is_all() || final(self).center() != old(self).center()),
            !final(self).dirty().is_all() ==> final(self).dirty().cells() == old(self).dirty().cells() + cluster(
                final(self).agent_cell(),
            ),
            final(self).engineer_dirty(),
    {
        let moved = self.screen.recenter(self.engineer.coord);
        if moved {
            self.update.nodes = Dirty::All;
        }
        let cell = self.screen.board_to_screen(self.engineer.coord.0, self.engineer.coord.1);
        mark_cluster(&mut self.update.nodes, cell);
        self.update.engineer = true;
    }

    /// One move of the engineer (see `EngineerState::next`).  The window then
    /// moves by at most one node on each axis to keep the engineer in view.
    /// The 3 x 3 blocks around the engineer's window node before and after
    /// the move are listed for redrawing, or the whole window when the window
    /// moved.
    pub fn step(&mut self)
        requires
            old(self).wf(),
            old(self).has_room(1),
        ensures
            final(self).wf(),
            final(self).state() == old(self).state().next(),
            final(self).depth() == old(self).depth() + 1,
            final(self).dims() == old(self).dims(),
            final(self).center() == recentered(old(self).dims(), old(self).center(), final(self).state().pos),
            -1 <= final(self).center().0 - old(self).center().0 <= 1,
            -1 <= final(self).center().1 - old(self).center().1 <= 1,
            final(self).dirty().is_all() == (old(self).dirty().is_all() || final(self).center() != old(self).center()),
            !final(self).dirty().is_all() ==> final(self).dirty().cells() == old(self).dirty().cells()
                + cluster(old(self).agent_cell()) + cluster(final(self).agent_cell()),
            final(self).engineer_dirty(),
    {
        let cell = self.screen.board_to_screen(self.engineer.coord.0, self.engineer.coord.1);
        mark_cluster(&mut self.update.nodes, cell);
        let here = self.engineer.coord;
        let target = ahead(here, self.engineer.or);
        let key = bridge_key(here, target);
        proof {
            lemma_lift_bridges(self.bridges@, key);
        }
        if self.bridges.contains(&key) {
            self.bridges.remove(&key);
            self.engineer.coord = target;
            self.engineer.or = self.engineer.or.turn_left();
        } else {
            self.bridges.insert(key);
            self.engineer.or = self.engineer.or.turn_right();
        }
        self.follow();
        self.depth = self.depth + 1;
    }

    /// Undoes the last move not yet undone (see `EngineerState::prev`); with
    /// no such move it changes nothing.  The window follows the engineer and
    /// cells are listed for redrawing as in `step`.
    pub fn step_back(&mut self)
        requires
            old(self).wf(),
            old(self).has_room(1),
        ensures
            final(self).wf(),
            old(self).depth() == 0 ==> *final(self) == *old(self),
            old(self).depth() > 0 ==> {
                &&& final(self).state() == old(self).state().prev()
                &&& final(self).depth() == old(self).depth() - 1
                &&& final(self).dims() == old(self).dims()
                &&& final(self).center() == recentered(old(self).dims(), old(self).center(), final(self).state().pos)
                &&& -1 <= final(self).center().0 - old(self).center().0 <= 1
                &&& -1 <= final(self).center().1 - old(self).center().1 <= 1
                &&& final(self).dirty().is_all() == (old(self).dirty().is_all() || final(self).center() != old(self).center())
                &&& !final(self).dirty().is_all() ==> final(self).dirty().cells() == old(self).dirty().cells()
                    + cluster(old(self).agent_cell()) + cluster(final(self).agent_cell())
                &&& final(self).engineer_dirty()
            },
    {
        if self.depth == 0 {
            return;
        }
        let cell = self.screen.board_to_screen(self.engineer.coord.0, self.engineer.coord.1);
        mark_cluster(&mut self.update.nodes, cell);
        let here = self.engineer.coord;
        let left = self.engineer.or.turn_left();
        let q = ahead(here, left);
        let key = bridge_key(here, q);
        proof {
            lemma_lift_bridges(self.bridges@, key);
        }
        if self.bridges.contains(&key) {
            self.bridges.remove(&key);
            self.engineer.or = left;
        } else {
            self.bridges.insert(key);
            self.engineer.coord = q;
            self.engineer.or = self.engineer.or.turn_right();
        }
        self.follow();
        self.depth = self.depth - 1;
        proof {
            lemma_prev_undoes_next(EngineerState::start().after(self.depth()));
        }
    }

    pub fn board_to_screen(&self, board_i: i64, board_j: i64) -> (r: (i64, i64))
        requires
            self.wf(),
            within((board_i as int, board_j as int), MAX_ARG as int),
        ensures
            pair(r) == to_screen(self.dims(), self.center(), (board_i as int, board_j as int)),
    {
        self.screen.board_to_screen(board_i, board_j)
    }

    pub fn screen_to_board(&self, screen_i: i64, screen_j: i64) -> (r: (i64, i64))
        requires
            self.wf(),
            within((screen_i as int, screen_j as int), MAX_ARG as int),
        ensures
            pair(r) == to_board(self.dims(), self.center(), (screen_i as int, screen_j as int)),
    {
        self.screen.screen_to_board(screen_i, screen_j)
    }

    /// The window size in nodes.
    pub fn dim(&self) -> (r: (i64, i64))
        ensures
            pair(r) == self.dims(),
    {
        self.screen.dim
    }

    /// The lattice node shown at the window's center.
    pub fn center_coord(&self) -> (r: (i64, i64))
        ensures
            pair(r) == self.center(),
    {
        self.screen.center_coord
    }

    /// Whether a bridge joins lattice nodes `a` and `b`, in either order.
    pub fn has_edge(&self, a: (i64, i64), b: (i64, i64)) -> (r: bool)
        ensures
            r == self.state().bridges.contains(bridge(pair(a), pair(b))),
    {
        let key = bridge_key(a, b);
        proof {
            lemma_lift_bridges(self.bridges@, key);
        }
        self.bridges.contains(&key)
    }

    pub fn agent_position(&self) -> (r: (i64, i64))
        ensures
            pair(r) == self.state().pos,
    {
        self.engineer.coord
    }

    pub fn agent_orientation(&self) -> (r: Orientation)
        ensures
            r == self.state().or,
    {
        self.engineer.or
    }

    /// The window node the engineer stands on.
    pub fn agent_screen_position(&self) -> (r: (i64, i64))
        requires
            self.wf(),
        ensures
            pair(r) == self.agent_cell(),
    {
        self.screen.board_to_screen(self.engineer.coord.0, self.engineer.coord.1)
    }

    /// Number of moves made and not undone.
    pub fn steps_taken(&self) -> (r: u64)
        ensures
            r == self.depth(),
    {
        self.depth
    }

    /// Hands over the nodes due for redrawing and starts an empty list.
    pub fn drain_dirty(&mut self) -> (r: Dirty)
        ensures
            r == old(self).dirty(),
            !final(self).dirty().is_all(),
            final(self).dirty().cells().len() == 0,
            final(self).state() == old(self).state(),
            final(self).depth() == old(self).depth(),
            final(self).dims() == old(self).dims(),
            final(self).center() == old(self).center(),
            final(self).engineer_dirty() == old(self).engineer_dirty(),
            old(self).wf() ==> final(self).wf(),
    {
        let mut drained = Dirty::Listed(Vec::new());
        std::mem::swap(&mut self.update.nodes, &mut drained);
        drained
    }

    /// Tells whether the engineer must be redrawn, and clears that.
    pub fn take_engineer_dirty(&mut self) -> (r: bool)
        ensures
            r == old(self).engineer_dirty(),
            !final(self).engineer_dirty(),
            final(self).state() == old(self).state(),
            final(self).depth() == old(self).depth(),
            final(self).dims() == old(self).dims(),
            final(self).center() == old(self).center(),
            final(self).dirty() == old(self).dirty(),
            old(self).wf() ==> final(self).wf(),
    {
        let r = self.update.engineer;
        self.update.engineer = false;
        r
    }
}

} // verus!
