//! Tile coordinates and cardinal directions.
//!
//! Positions are discrete tile coordinates. Coordinate steps saturate at
//! the numeric limits so that every geometric operation is total; on any
//! real board the coordinates stay far inside the saturation range and the
//! step is the plain neighbour tile.

use vstd::prelude::*;

verus! {

/// Coordinates of level data and of agents are expected to stay within
/// this bound; it leaves ample room for distance arithmetic.
pub const POS_LIMIT: i64 = 1_000_000;

/// Bound under which squared distances are computed without overflow.
pub const DIST_LIMIT: i64 = 4_000_000;

/// One of the four cardinal directions an agent can face or move in.
#[derive(Clone, Copy, Debug, PartialEq, Eq, Structural)]
pub enum Direction {
    Up,
    Down,
    Left,
    Right,
}

/// The direction opposite to `d`.
pub open spec fn spec_opposite(d: Direction) -> Direction {
    match d {
        Direction::Up => Direction::Down,
        Direction::Down => Direction::Up,
        Direction::Left => Direction::Right,
        Direction::Right => Direction::Left,
    }
}

impl Direction {
    /// Returns the opposite cardinal direction.
    pub fn opposite(&self) -> (r: Direction)
        ensures
            r == spec_opposite(*self),
    {
        match *self {
            Direction::Up => Direction::Down,
            Direction::Down => Direction::Up,
            Direction::Left => Direction::Right,
            Direction::Right => Direction::Left,
        }
    }
}

/// Reversing a direction twice yields the original direction.
pub proof fn lemma_opposite_involutive(d: Direction)
    ensures
        spec_opposite(spec_opposite(d)) == d,
{
}

/// A discrete tile coordinate on the board.
#[derive(Clone, Copy, Debug, PartialEq, Eq, Structural)]
pub struct Position {
    pub x: i64,
    pub y: i64,
}

/// `v + 1`, saturating at the numeric maximum.
pub open spec fn sat_inc(v: i64) -> i64 {
    if v == i64::MAX {
        v
    } else {
        (v + 1) as i64
    }
}

/// `v - 1`, saturating at the numeric minimum.
pub open spec fn sat_dec(v: i64) -> i64 {
    if v == i64::MIN {
        v
    } else {
        (v - 1) as i64
    }
}

/// The neighbouring tile of `p` in direction `d` (`Up` increases `y`,
/// `Right` increases `x`), saturating at the numeric limits.
pub open spec fn spec_neighbour(p: Position, d: Direction) -> Position {
    match d {
        Direction::Up => Position { x: p.x, y: sat_inc(p.y) },
        Direction::Down => Position { x: p.x, y: sat_dec(p.y) },
        Direction::Left => Position { x: sat_dec(p.x), y: p.y },
        Direction::Right => Position { x: sat_inc(p.x), y: p.y },
    }
}

/// True when both coordinates of `p` lie within `POS_LIMIT`.
pub open spec fn in_bounds(p: Position) -> bool {
    &&& -POS_LIMIT <= p.x <= POS_LIMIT
    &&& -POS_LIMIT <= p.y <= POS_LIMIT
}

/// True when both coordinates of `p` lie within `DIST_LIMIT`, the range
/// in which squared distances are computed.
pub open spec fn dist_ok(p: Position) -> bool {
    &&& -DIST_LIMIT <= p.x <= DIST_LIMIT
    &&& -DIST_LIMIT <= p.y <= DIST_LIMIT
}

/// The squared Euclidean distance between two tiles.
pub open spec fn spec_dist_sq(a: Position, b: Position) -> int {
    (a.x - b.x) * (a.x - b.x) + (a.y - b.y) * (a.y - b.y)
}

fn coord_inc(v: i64) -> (r: i64)
    ensures
        r == sat_inc(v),
{
    if v == i64::MAX {
        v
    } else {
        v + 1
    }
}

fn coord_dec(v: i64) -> (r: i64)
    ensures
        r == sat_dec(v),
{
    if v == i64::MIN {
        v
    } else {
        v - 1
    }
}

impl Position {
    /// Returns the neighbouring tile in direction `d`.
    pub fn neighbour_in_direction(&self, d: Direction) -> (r: Position)
        ensures
            r == spec_neighbour(*self, d),
    {
        match d {
            Direction::Up => Position { x: self.x, y: coord_inc(self.y) },
            Direction::Down => Position { x: self.x, y: coord_dec(self.y) },
            Direction::Left => Position { x: coord_dec(self.x), y: self.y },
            Direction::Right => Position { x: coord_inc(self.x), y: self.y },
        }
    }

    /// Returns the squared Euclidean distance from `self` to `other`.
    pub fn dist_sq(&self, other: &Position) -> (r: i64)
        requires
            dist_ok(*self),
            dist_ok(*other),
        ensures
            r == spec_dist_sq(*self, *other),
    {
        let dx: i64 = self.x - other.x;
        let dy: i64 = self.y - other.y;
        proof {
            assert(dx * dx <= 64_000_000_000_000 && dx * dx >= 0) by (nonlinear_arith)
                requires -8_000_000 <= dx <= 8_000_000;
            assert(dy * dy <= 64_000_000_000_000 && dy * dy >= 0) by (nonlinear_arith)
                requires -8_000_000 <= dy <= 8_000_000;
        }
        dx * dx + dy * dy
    }
}

/// Returns whether `p` occurs in the tile list `v`.
pub fn vec_contains_position(v: &Vec<Position>, p: &Position) -> (r: bool)
    ensures
        r == v@.contains(*p),
{
    let mut i: usize = 0;
    while i < v.len()
        invariant
            0 <= i <= v@.len(),
            forall|j: int| 0 <= j < i ==> v@[j] != *p,
        decreases v@.len() - i,
    {
        if v[i] == *p {
            proof {
                assert(v@[i as int] == *p);
            }
            return true;
        }
        i = i + 1;
    }
    false
}

/// The neighbour of an in-bounds tile never saturates: it is the plain
/// one-step neighbour, and it stays within the distance-arithmetic range.
pub proof fn lemma_neighbour_in_range(p: Position, d: Direction)
    requires
        in_bounds(p),
    ensures
        dist_ok(spec_neighbour(p, d)),
        -POS_LIMIT - 1 <= spec_neighbour(p, d).x <= POS_LIMIT + 1,
        -POS_LIMIT - 1 <= spec_neighbour(p, d).y <= POS_LIMIT + 1,
{
}

} // verus!
