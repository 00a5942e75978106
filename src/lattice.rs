use vstd::prelude::*;
use vstd::relations::injective_on;

verus! {

/// One of the four compass directions an agent can face.
///
/// Lattice `y` grows downwards: facing `Up` means moving towards smaller `y`.
#[derive(Clone, Copy, Debug, PartialEq, Eq, Structural)]
pub enum Orientation {
    Up,
    Down,
    Left,
    Right,
}

impl Orientation {
    /// Quarter turn counter-clockwise: Up -> Left -> Down -> Right -> Up.
    pub open spec fn left(self) -> Orientation {
        match self {
            Orientation::Up => Orientation::Left,
            Orientation::Left => Orientation::Down,
            Orientation::Down => Orientation::Right,
            Orientation::Right => Orientation::Up,
        }
    }

    /// Quarter turn clockwise: Up -> Right -> Down -> Left -> Up.
    pub open spec fn right(self) -> Orientation {
        match self {
            Orientation::Up => Orientation::Right,
            Orientation::Right => Orientation::Down,
            Orientation::Down => Orientation::Left,
            Orientation::Left => Orientation::Up,
        }
    }

    /// Offset of one unit move in this direction.
    pub open spec fn delta(self) -> (int, int) {
        match self {
            Orientation::Up => (0, -1),
            Orientation::Down => (0, 1),
            Orientation::Left => (-1, 0),
            Orientation::Right => (1, 0),
        }
    }

    pub fn turn_left(self) -> (r: Orientation)
        ensures
            r == self.left(),
    {
        match self {
            Orientation::Up => Orientation::Left,
            Orientation::Left => Orientation::Down,
            Orientation::Down => Orientation::Right,
            Orientation::Right => Orientation::Up,
        }
    }

    pub fn turn_right(self) -> (r: Orientation)
        ensures
            r == self.right(),
    {
        match self {
            Orientation::Up => Orientation::Right,
            Orientation::Right => Orientation::Down,
            Orientation::Down => Orientation::Left,
            Orientation::Left => Orientation::Up,
        }
    }

    /// The two turns undo each other.
    pub proof fn lemma_turns_cancel(self)
        ensures
            self.left().right() == self,
            self.right().left() == self,
    {
    }
}

/// A lattice point with machine coordinates, as a pair of integers.
pub open spec fn pair(p: (i64, i64)) -> (int, int) {
    (p.0 as int, p.1 as int)
}

/// Whether both coordinates of `p` lie in `[-bound, bound]`.
pub open spec fn within(p: (int, int), bound: int) -> bool {
    -bound <= p.0 <= bound && -bound <= p.1 <= bound
}

pub open spec fn fits_i64(p: (int, int)) -> bool {
    i64::MIN <= p.0 <= i64::MAX && i64::MIN <= p.1 <= i64::MAX
}

/// A set of machine lattice points, as a set of integer pairs.
pub open spec fn lift(s: Set<(i64, i64)>) -> Set<(int, int)> {
    Set::new(|c: (int, int)| fits_i64(c) && s.contains((c.0 as i64, c.1 as i64)))
}

pub proof fn lemma_lift_contains(s: Set<(i64, i64)>, c: (i64, i64))
    ensures
        lift(s).contains(pair(c)) == s.contains(c),
{
}

pub proof fn lemma_lift_insert(s: Set<(i64, i64)>, c: (i64, i64))
    ensures
        lift(s.insert(c)) == lift(s).insert(pair(c)),
{
    assert(lift(s.insert(c)) =~= lift(s).insert(pair(c)));
}

pub proof fn lemma_lift_remove(s: Set<(i64, i64)>, c: (i64, i64))
    ensures
        lift(s.remove(c)) == lift(s).remove(pair(c)),
{
    assert(lift(s.remove(c)) =~= lift(s).remove(pair(c)));
}

/// A finite lifted set comes from a finite set of the same size.
pub proof fn lemma_lift_len(s: Set<(i64, i64)>)
    requires
        lift(s).finite(),
    ensures
        s.finite(),
        s.len() == lift(s).len(),
{
    let unpair = |c: (int, int)| (c.0 as i64, c.1 as i64);
    assert(injective_on(unpair, lift(s))) by {
        assert forall|a: (int, int), b: (int, int)|
            lift(s).contains(a) && lift(s).contains(b) && #[trigger] unpair(a) == #[trigger] unpair(b)
            implies a == b by {}
    }
    assert(lift(s).map(unpair) =~= s) by {
        assert forall|c: (i64, i64)| s.contains(c) implies lift(s).map(unpair).contains(c) by {
            assert(lift(s).contains(pair(c)));
            assert(unpair(pair(c)) == c);
        }
    }
    vstd::set_lib::lemma_map_size(lift(s), s, unpair);
}

/// The lattice point one unit away from `p` in direction `o`.
pub open spec fn advance(p: (int, int), o: Orientation) -> (int, int) {
    (p.0 + o.delta().0, p.1 + o.delta().1)
}

/// The lattice point one unit behind `p` when facing `o`.
pub open spec fn retreat(p: (int, int), o: Orientation) -> (int, int) {
    (p.0 - o.delta().0, p.1 - o.delta().1)
}

/// The point one unit ahead of `p` when facing `o`.
pub fn ahead(p: (i64, i64), o: Orientation) -> (r: (i64, i64))
    requires
        within(pair(p), i64::MAX - 1),
    ensures
        pair(r) == advance(pair(p), o),
{
    match o {
        Orientation::Up => (p.0, p.1 - 1),
        Orientation::Down => (p.0, p.1 + 1),
        Orientation::Left => (p.0 - 1, p.1),
        Orientation::Right => (p.0 + 1, p.1),
    }
}

/// The point one unit behind `p` when facing `o`.
pub fn behind(p: (i64, i64), o: Orientation) -> (r: (i64, i64))
    requires
        within(pair(p), i64::MAX - 1),
    ensures
        pair(r) == retreat(pair(p), o),
{
    match o {
        Orientation::Up => (p.0, p.1 + 1),
        Orientation::Down => (p.0, p.1 - 1),
        Orientation::Left => (p.0 + 1, p.1),
        Orientation::Right => (p.0 - 1, p.1),
    }
}

} // verus!
