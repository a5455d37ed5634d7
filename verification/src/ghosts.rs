//! Ghost identities and the per-agent field bundle the tick passes work on.

use vstd::prelude::*;
use crate::common::{Direction, Position, in_bounds};
use crate::state::State;
use crate::target::Target;

verus! {

/// One of the four fixed ghost identities. `Blinky` is the lead identity:
/// it chases directly and is the only one the elroy speed tiers apply to.
#[derive(Clone, Copy, Debug, PartialEq, Eq, Structural)]
pub enum GhostId {
    Blinky,
    Pinky,
    Inky,
    Clyde,
}

/// The per-agent fields read and written by the tick passes: identity,
/// behavioural mode, facing direction, current tile and steering target.
#[derive(Clone, Copy, Debug, PartialEq)]
pub struct GhostActor {
    pub id: GhostId,
    pub state: State,
    pub direction: Direction,
    pub position: Position,
    pub target: Target,
}

impl GhostActor {
    /// Well-formedness: the agent stands on an in-bounds tile.
    pub open spec fn wf(self) -> bool {
        in_bounds(self.position)
    }
}

} // verus!
