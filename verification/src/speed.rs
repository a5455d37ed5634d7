//! Speed resolution from level tuning data and the dot counter.
//!
//! Speeds are integers: a base speed scaled by a per-mille-capped
//! percentage modifier from the level's tuning entry. The resolver is a
//! pure function of (identity, mode, level entry, remaining dots, tunnel
//! membership), evaluated per agent per tick.

use vstd::prelude::*;
use crate::common::Position;
use crate::ghosts::GhostId;
use crate::state::State;

verus! {

/// Base speed of a ghost agent, in speed units per second.
pub const GHOST_BASE_SPEED: u32 = 800;

/// Base speed of the player-controlled agent, in speed units per second.
pub const PACMAN_BASE_SPEED: u32 = 800;

/// The current speed of a moving entity, in speed units per second.
#[derive(Clone, Copy, Debug, PartialEq, Eq, Structural)]
pub struct Speed(pub u32);

/// The tuning entry of one level: speed modifiers in percent of the
/// base speed, and the two elroy dot-thresholds of the lead identity.
#[derive(Clone, Copy, Debug, PartialEq, Eq, Structural)]
pub struct LevelSpec {
    pub ghost_normal_percent: u32,
    pub ghost_frightened_percent: u32,
    pub ghost_tunnel_percent: u32,
    pub elroy_1_dots_left: u32,
    pub elroy_1_percent: u32,
    pub elroy_2_dots_left: u32,
    pub elroy_2_percent: u32,
    pub pacman_normal_percent: u32,
    pub pacman_frightened_percent: u32,
}

impl LevelSpec {
    /// Well-formedness of a tuning entry: modifiers are capped at 1000
    /// percent, the second elroy tier is at least as fast as the first,
    /// the first at least as fast as normal, and the second tier starts
    /// at or below the first tier's dot threshold.
    pub open spec fn wf(self) -> bool {
        &&& self.ghost_normal_percent <= 1000
        &&& self.ghost_frightened_percent <= 1000
        &&& self.ghost_tunnel_percent <= 1000
        &&& self.elroy_1_percent <= 1000
        &&& self.elroy_2_percent <= 1000
        &&& self.pacman_normal_percent <= 1000
        &&& self.pacman_frightened_percent <= 1000
        &&& self.elroy_2_percent >= self.elroy_1_percent
        &&& self.elroy_1_percent >= self.ghost_normal_percent
        &&& self.elroy_2_dots_left <= self.elroy_1_dots_left
    }
}

/// A base speed scaled by a percentage modifier.
pub open spec fn scaled(base: u32, percent: u32) -> int {
    base * percent / 100
}

/// The speed of a ghost agent, in priority order: `Eaten` doubles the
/// base speed over everything else; a tile in the tunnel set takes the
/// tunnel modifier; `Frightened` the frightened modifier; then, for the
/// lead identity only, the elroy tiers by remaining dots; else normal.
pub open spec fn spec_ghost_speed(
    g: GhostId,
    st: State,
    spec: LevelSpec,
    remaining_dots: u32,
    in_tunnel: bool,
) -> int {
    if st is Eaten {
        2 * GHOST_BASE_SPEED
    } else if in_tunnel {
        scaled(GHOST_BASE_SPEED, spec.ghost_tunnel_percent)
    } else if st is Frightened {
        scaled(GHOST_BASE_SPEED, spec.ghost_frightened_percent)
    } else if g is Blinky && remaining_dots <= spec.elroy_2_dots_left {
        scaled(GHOST_BASE_SPEED, spec.elroy_2_percent)
    } else if g is Blinky && remaining_dots <= spec.elroy_1_dots_left {
        scaled(GHOST_BASE_SPEED, spec.elroy_1_percent)
    } else {
        scaled(GHOST_BASE_SPEED, spec.ghost_normal_percent)
    }
}

/// Returns the ghost agent's speed for this tick; see
/// [`spec_ghost_speed`] for the priority order.
pub fn update_ghost_speed(
    g: GhostId,
    st: State,
    spec: &LevelSpec,
    remaining_dots: u32,
    in_tunnel: bool,
) -> (r: Speed)
    requires
        spec.wf(),
    ensures
        r.0 == spec_ghost_speed(g, st, *spec, remaining_dots, in_tunnel),
{
    if st == State::Eaten {
        Speed(2 * GHOST_BASE_SPEED)
    } else if in_tunnel {
        Speed(GHOST_BASE_SPEED * spec.ghost_tunnel_percent / 100)
    } else if st == State::Frightened {
        Speed(GHOST_BASE_SPEED * spec.ghost_frightened_percent / 100)
    } else if g == GhostId::Blinky && remaining_dots <= spec.elroy_2_dots_left {
        Speed(GHOST_BASE_SPEED * spec.elroy_2_percent / 100)
    } else if g == GhostId::Blinky && remaining_dots <= spec.elroy_1_dots_left {
        Speed(GHOST_BASE_SPEED * spec.elroy_1_percent / 100)
    } else {
        Speed(GHOST_BASE_SPEED * spec.ghost_normal_percent / 100)
    }
}

/// The speed of the player-controlled agent: the frightened modifier
/// while a frightened timer is active, else the normal modifier.
pub open spec fn spec_pacman_speed(spec: LevelSpec, energizer_active: bool) -> int {
    if energizer_active {
        scaled(PACMAN_BASE_SPEED, spec.pacman_frightened_percent)
    } else {
        scaled(PACMAN_BASE_SPEED, spec.pacman_normal_percent)
    }
}

/// Returns the player-controlled agent's speed for this tick.
pub fn update_pacman_speed(spec: &LevelSpec, energizer_active: bool) -> (r: Speed)
    requires
        spec.wf(),
    ensures
        r.0 == spec_pacman_speed(*spec, energizer_active),
{
    if energizer_active {
        Speed(PACMAN_BASE_SPEED * spec.pacman_frightened_percent / 100)
    } else {
        Speed(PACMAN_BASE_SPEED * spec.pacman_normal_percent / 100)
    }
}

/// Returns whether the agent's tile lies within the tunnel and
/// tunnel-hallway tile set of the level.
pub fn is_in_tunnel(pos: &Position, tunnel_tiles: &Vec<Position>) -> (r: bool)
    ensures
        r == tunnel_tiles@.contains(*pos),
{
    crate::common::vec_contains_position(tunnel_tiles, pos)
}

/// The elroy tiers apply only to the lead identity: for any other
/// identity the resolved speed does not depend on the remaining-dot
/// count at all.
pub proof fn lemma_elroy_only_lead(
    g: GhostId,
    st: State,
    spec: LevelSpec,
    d1: u32,
    d2: u32,
    in_tunnel: bool,
)
    requires
        g !is Blinky,
    ensures
        spec_ghost_speed(g, st, spec, d1, in_tunnel) == spec_ghost_speed(g, st, spec, d2, in_tunnel),
{
}

/// In a well-formed tuning entry the elroy modifiers are ordered: the
/// second tier is at least the first, the first at least the normal
/// modifier.
pub proof fn lemma_elroy_tiers_ordered(spec: LevelSpec)
    requires
        spec.wf(),
    ensures
        spec.elroy_2_percent >= spec.elroy_1_percent >= spec.ghost_normal_percent,
{
}

/// The per-level tuning table. Levels beyond the table use its last
/// entry.
#[derive(Debug)]
pub struct SpecsPerLevel {
    pub entries: Vec<LevelSpec>,
}

impl Default for SpecsPerLevel {
    /// The default tuning table: one entry for the opening level, one
    /// for the early levels, one for all later levels, with the later
    /// entries at least as fast as the earlier ones.
    fn default() -> (r: SpecsPerLevel)
        ensures
            r.wf(),
            r.entries@.len() == 3,
    {
        let mut entries: Vec<LevelSpec> = Vec::new();
        entries.push(
            LevelSpec {
                ghost_normal_percent: 75,
                ghost_frightened_percent: 50,
                ghost_tunnel_percent: 40,
                elroy_1_dots_left: 20,
                elroy_1_percent: 80,
                elroy_2_dots_left: 10,
                elroy_2_percent: 85,
                pacman_normal_percent: 80,
                pacman_frightened_percent: 90,
            },
        );
        entries.push(
            LevelSpec {
                ghost_normal_percent: 85,
                ghost_frightened_percent: 55,
                ghost_tunnel_percent: 45,
                elroy_1_dots_left: 30,
                elroy_1_percent: 90,
                elroy_2_dots_left: 15,
                elroy_2_percent: 95,
                pacman_normal_percent: 90,
                pacman_frightened_percent: 95,
            },
        );
        entries.push(
            LevelSpec {
                ghost_normal_percent: 95,
                ghost_frightened_percent: 60,
                ghost_tunnel_percent: 50,
                elroy_1_dots_left: 40,
                elroy_1_percent: 100,
                elroy_2_dots_left: 20,
                elroy_2_percent: 105,
                pacman_normal_percent: 100,
                pacman_frightened_percent: 100,
            },
        );
        let r = SpecsPerLevel { entries };
        proof {
            assert(forall|i: int| 0 <= i < r.entries@.len() ==> (#[trigger] r.entries@[i]).wf());
        }
        r
    }
}

impl SpecsPerLevel {
    /// Well-formedness: at least one entry, every entry well-formed.
    pub open spec fn wf(self) -> bool {
        &&& self.entries@.len() >= 1
        &&& forall|i: int| 0 <= i < self.entries@.len() ==> (#[trigger] self.entries@[i]).wf()
    }

    /// The entry index the one-based `level` selects: levels beyond the
    /// table are clamped to the last entry.
    pub open spec fn spec_index_for(self, level: u32) -> int {
        if level < 1 {
            0
        } else if level > self.entries@.len() {
            self.entries@.len() - 1
        } else {
            level - 1
        }
    }

    /// Returns the tuning entry for the one-based `level`.
    pub fn get_for(&self, level: u32) -> (r: LevelSpec)
        requires
            self.wf(),
        ensures
            r == self.entries@[self.spec_index_for(level)],
            r.wf(),
    {
        let len = self.entries.len();
        if level < 1 {
            self.entries[0]
        } else if (level as usize) > len {
            self.entries[len - 1]
        } else {
            self.entries[(level - 1) as usize]
        }
    }
}

} // verus!
