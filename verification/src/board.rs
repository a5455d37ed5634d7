//! The walkability view of the board: which tiles are walls.

use vstd::prelude::*;
use crate::common::Position;

verus! {

/// The wall lookup the map collaborator supplies: a tile is walkable
/// exactly when it is not in the wall list.
#[derive(Debug)]
pub struct Board {
    pub walls: Vec<Position>,
}

impl Board {
    /// True when `p` is a wall tile.
    pub open spec fn spec_is_wall(self, p: Position) -> bool {
        self.walls@.contains(p)
    }

    /// Builds the board from its wall tiles.
    pub fn new(walls: Vec<Position>) -> (r: Board)
        ensures
            r.walls@ == walls@,
    {
        Board { walls }
    }

    /// Returns whether `p` is a wall tile.
    pub fn position_is_wall(&self, p: &Position) -> (r: bool)
        ensures
            r == self.spec_is_wall(*p),
    {
        let mut i: usize = 0;
        while i < self.walls.len()
            invariant
                0 <= i <= self.walls@.len(),
                forall|j: int| 0 <= j < i ==> self.walls@[j] != *p,
            decreases self.walls@.len() - i,
        {
            if self.walls[i] == *p {
                proof {
                    assert(self.walls@[i as int] == *p);
                }
                return true;
            }
            i = i + 1;
        }
        false
    }
}

} // verus!
