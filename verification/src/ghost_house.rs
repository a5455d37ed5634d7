//! The ghost house: static per-level geometry, read-only to this core.
//!
//! The house has one entrance with an orientation, an exact coordinate in
//! front of the entrance, one or more tiles in front of the entrance, a
//! center, and one respawn coordinate per ghost identity. All queries are
//! pure functions of this static data.

use vstd::prelude::*;
use crate::common::{Direction, Position, in_bounds};
use crate::ghosts::GhostId;

verus! {

/// Static geometry of the level's ghost house.
#[derive(Debug)]
pub struct GhostHouse {
    /// The entrance tile.
    pub entrance_position: Position,
    /// The orientation of the entrance: the direction an agent moves in
    /// when entering the house through it.
    pub entrance_direction: Direction,
    /// The exact coordinate directly in front of the entrance.
    pub front_center: Position,
    /// The tiles in front of the entrance; never empty.
    pub front: Vec<Position>,
    /// The center of the house.
    pub center: Position,
    /// Spawn coordinate of the lead ghost; also the house-exit alignment
    /// tile a spawned agent must reach before leaving.
    pub blinky_spawn: Position,
    /// Spawn coordinate of the second ghost.
    pub pinky_spawn: Position,
    /// Spawn coordinate of the third ghost.
    pub inky_spawn: Position,
    /// Spawn coordinate of the fourth ghost.
    pub clyde_spawn: Position,
    /// The prescribed direction an agent faces when it leaves the house.
    pub exit_direction: Direction,
}

impl GhostHouse {
    /// Well-formedness of the static house data: all landmarks are in
    /// bounds, at least one tile lies in front of the entrance, and the
    /// center is distinct from the tiles and coordinate in front of the
    /// entrance.
    pub open spec fn wf(self) -> bool {
        &&& in_bounds(self.entrance_position)
        &&& in_bounds(self.front_center)
        &&& in_bounds(self.center)
        &&& in_bounds(self.blinky_spawn)
        &&& in_bounds(self.pinky_spawn)
        &&& in_bounds(self.inky_spawn)
        &&& in_bounds(self.clyde_spawn)
        &&& self.front@.len() >= 1
        &&& forall|i: int| 0 <= i < self.front@.len() ==> in_bounds(#[trigger] self.front@[i])
        &&& self.center != self.front_center
        &&& !self.front@.contains(self.center)
    }

    /// The respawn coordinate of identity `g`. The lead ghost respawns on
    /// the second ghost's spawn tile; every other identity respawns on
    /// its own spawn tile.
    pub open spec fn spec_respawn_of(self, g: GhostId) -> Position {
        match g {
            GhostId::Blinky => self.pinky_spawn,
            GhostId::Pinky => self.pinky_spawn,
            GhostId::Inky => self.inky_spawn,
            GhostId::Clyde => self.clyde_spawn,
        }
    }

    /// Returns the respawn coordinate of identity `g`.
    pub fn respawn_coordinates_of(&self, g: GhostId) -> (r: Position)
        ensures
            r == self.spec_respawn_of(g),
    {
        match g {
            GhostId::Blinky => self.pinky_spawn,
            GhostId::Pinky => self.pinky_spawn,
            GhostId::Inky => self.inky_spawn,
            GhostId::Clyde => self.clyde_spawn,
        }
    }

    /// Returns the exact coordinate directly in front of the entrance.
    pub fn coordinates_in_front_of_entrance(&self) -> (r: Position)
        ensures
            r == self.front_center,
    {
        self.front_center
    }

    /// Returns the tiles in front of the entrance.
    pub fn positions_in_front_of_entrance(&self) -> (r: &Vec<Position>)
        ensures
            r@ == self.front@,
    {
        &self.front
    }

    /// Returns the center coordinate of the house.
    pub fn center_coordinates(&self) -> (r: Position)
        ensures
            r == self.center,
    {
        self.center
    }
}

} // verus!
