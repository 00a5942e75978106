use vstd::prelude::*;

use crate::lattice::{pair, within};

verus! {

/// Largest window side, in cells.
pub const MAX_DIM: i64 = 1048576;

/// Largest distance of an agent from the lattice origin on either axis.
///
/// Every move of an agent shifts it by one unit, so this bounds the number of
/// moves away from the origin; it keeps all window arithmetic inside `i64`.
pub const MAX_COORD: i64 = 2305843009213693952;

/// Largest magnitude of a coordinate handed to a window conversion.
pub const MAX_ARG: i64 = 4611686018427387904;

/// `dim / 2`, the window cell that the window's center coordinate maps to.
pub open spec fn half(dim: int) -> int {
    dim / 2
}

/// Lattice coordinate to window coordinate.
pub open spec fn to_screen(dim: (int, int), center: (int, int), b: (int, int)) -> (int, int) {
    (b.0 + half(dim.0) - center.0, b.1 + half(dim.1) - center.1)
}

/// Window coordinate to lattice coordinate.
pub open spec fn to_board(dim: (int, int), center: (int, int), s: (int, int)) -> (int, int) {
    (s.0 - half(dim.0) + center.0, s.1 - half(dim.1) + center.1)
}

/// The new center on one axis after the agent landed on window cell `s` of a
/// window of side `dim`: one step towards the agent when it left the window.
pub open spec fn shift_axis(center: int, s: int, dim: int) -> int {
    if s < 0 {
        center - 1
    } else if s > dim {
        center + 1
    } else {
        center
    }
}

/// The window center after re-centering on an agent at lattice point `agent`.
pub open spec fn recentered(dim: (int, int), center: (int, int), agent: (int, int)) -> (int, int) {
    let s = to_screen(dim, center, agent);
    (shift_axis(center.0, s.0, dim.0), shift_axis(center.1, s.1, dim.1))
}

/// Whether the window cell `s` lies in `[0, dim.0] x [0, dim.1]`.
pub open spec fn on_screen(dim: (int, int), s: (int, int)) -> bool {
    0 <= s.0 <= dim.0 && 0 <= s.1 <= dim.1
}

/// Whether the window cell `s` is at most one cell outside the window on
/// each axis: where an agent can be right after a unit move.
pub open spec fn near_screen(dim: (int, int), s: (int, int)) -> bool {
    -1 <= s.0 <= dim.0 + 1 && -1 <= s.1 <= dim.1 + 1
}

/// Going to the window and back is lossless, for every lattice point and every
/// window.
pub proof fn lemma_round_trip(dim: (int, int), center: (int, int), b: (int, int))
    ensures
        to_board(dim, center, to_screen(dim, center, b)) == b,
        to_screen(dim, center, to_board(dim, center, b)) == b,
{
}

/// The visible window: a fixed number of cells on each axis, and the lattice
/// point shown at the window's center cell.
#[derive(Clone, Copy, Debug)]
pub struct Screen {
    pub dim: (i64, i64),
    pub center_coord: (i64, i64),
}

impl Screen {
    pub open spec fn wf(&self) -> bool {
        &&& 1 <= self.dim.0 <= MAX_DIM
        &&& 1 <= self.dim.1 <= MAX_DIM
        &&& within(pair(self.center_coord), MAX_COORD + MAX_DIM)
    }

    pub open spec fn dims(&self) -> (int, int) {
        pair(self.dim)
    }

    pub open spec fn center(&self) -> (int, int) {
        pair(self.center_coord)
    }

    /// A window of `dim` cells centered on the lattice origin.
    pub fn new(dim: (i64, i64)) -> (r: Screen)
        requires
            1 <= dim.0 <= MAX_DIM,
            1 <= dim.1 <= MAX_DIM,
        ensures
            r.wf(),
            r.dim == dim,
            r.center() == (0int, 0int),
    {
        Screen { dim, center_coord: (0, 0) }
    }

    pub fn board_to_screen(&self, board_i: i64, board_j: i64) -> (r: (i64, i64))
        requires
            self.wf(),
            within((board_i as int, board_j as int), MAX_ARG as int),
        ensures
            pair(r) == to_screen(self.dims(), self.center(), (board_i as int, board_j as int)),
    {
        let cx = self.dim.0 / 2;
        let cy = self.dim.1 / 2;
        let (cent_x, cent_y) = self.center_coord;
        (board_i - cent_x + cx, board_j - cent_y + cy)
    }

    pub fn screen_to_board(&self, screen_i: i64, screen_j: i64) -> (r: (i64, i64))
        requires
            self.wf(),
            within((screen_i as int, screen_j as int), MAX_ARG as int),
        ensures
            pair(r) == to_board(self.dims(), self.center(), (screen_i as int, screen_j as int)),
    {
        let cx = self.dim.0 / 2;
        let cy = self.dim.1 / 2;
        let (cent_x, cent_y) = self.center_coord;
        (screen_i + cent_x - cx, screen_j + cent_y - cy)
    }

    /// Moves the center one step towards an agent at `agent` on each axis on
    /// which the agent left the window; returns whether it moved.
    pub fn recenter(&mut self, agent: (i64, i64)) -> (moved: bool)
        requires
            old(self).wf(),
            within(pair(agent), MAX_COORD as int),
            near_screen(old(self).dims(), to_screen(old(self).dims(), old(self).center(), pair(agent))),
        ensures
            final(self).wf(),
            final(self).dim == old(self).dim,
            final(self).center() == recentered(old(self).dims(), old(self).center(), pair(agent)),
            moved == (final(self).center() != old(self).center()),
            on_screen(final(self).dims(), to_screen(final(self).dims(), final(self).center(), pair(agent))),
    {
        let (screen_i, screen_j) = self.board_to_screen(agent.0, agent.1);
        let mut moved = false;
        if screen_i < 0 {
            self.center_coord.0 = self.center_coord.0 - 1;
            moved = true;
        }
        if screen_i > self.dim.0 {
            self.center_coord.0 = self.center_coord.0 + 1;
            moved = true;
        }
        if screen_j < 0 {
            self.center_coord.1 = self.center_coord.1 - 1;
            moved = true;
        }
        if screen_j > self.dim.1 {
            self.center_coord.1 = self.center_coord.1 + 1;
            moved = true;
        }
        moved
    }
}

/// What the renderer has to repaint: the listed window cells, in order, or
/// the whole window.
#[derive(Debug)]
pub enum Dirty {
    Listed(Vec<(i64, i64)>),
    All,
}

impl Dirty {
    pub open spec fn is_all(&self) -> bool {
        self is All
    }

    /// The listed cells; empty for `All`.
    pub open spec fn cells(&self) -> Seq<(int, int)> {
        match self {
            Dirty::Listed(v) => v@.map_values(|c: (i64, i64)| pair(c)),
            Dirty::All => Seq::empty(),
        }
    }

    /// Appends a cell unless the whole window is due anyway.
    pub fn mark(&mut self, cell: (i64, i64))
        ensures
            final(self).is_all() == old(self).is_all(),
            final(self).cells() == if old(self).is_all() {
                old(self).cells()
            } else {
                old(self).cells().push(pair(cell))
            },
    {
        match self {
            Dirty::Listed(v) => {
                v.push(cell);
                assert(v@.map_values(|c: (i64, i64)| pair(c)) =~= old(self).cells().push(pair(cell)));
            },
            Dirty::All => {},
        }
    }
}

} // verus!
