//! The behavioural mode of an agent and the per-tick mode state machine.

use vstd::prelude::*;
use crate::common::{Position, spec_neighbour, spec_opposite};
use crate::ghost_house::GhostHouse;
use crate::ghosts::{GhostActor, GhostId};
use crate::schedule::Schedule;
use crate::target::Target;

verus! {

/// The behavioural mode of an agent. Exactly one variant holds at any time.
///
/// - `Scatter`: head for the identity's fixed corner.
/// - `Chase`: pursue the player by the identity's chase rule.
/// - `Frightened`: wander pseudo-randomly after an energizer was eaten.
/// - `Eaten`: return to the ghost house to respawn.
/// - `Spawned`: inside the house, waiting to line up with the exit tile.
#[derive(Clone, Copy, Debug, PartialEq, Eq, Structural)]
pub enum State {
    Scatter,
    Chase,
    Frightened,
    Eaten,
    Spawned,
}

/// 1 when the condition holds, else 0; used to count which modes hold.
pub open spec fn count_one(b: bool) -> int {
    if b {
        1
    } else {
        0
    }
}

/// A mode value is single-valued: of the five mode predicates, exactly one
/// holds, so in particular an agent is never both `Eaten` and `Frightened`.
pub proof fn lemma_mode_single_valued(s: State)
    ensures
        count_one(s is Scatter) + count_one(s is Chase) + count_one(s is Frightened)
            + count_one(s is Eaten) + count_one(s is Spawned) == 1,
        !((s is Eaten) && (s is Frightened)),
{
}

/// The tile the agent came from: the neighbour, in the reversed facing
/// direction, of the current target — or of the current position if no
/// target is set.
pub open spec fn came_from(a: GhostActor) -> Position {
    let base = if a.target.spec_is_set() {
        a.target.spec_pos()
    } else {
        a.position
    };
    spec_neighbour(base, spec_opposite(a.direction))
}

/// True when the agent flips between `Scatter` and `Chase` because the
/// schedule prescribes the other of the two modes.
pub open spec fn scatter_chase_flip(s: State, sched: State) -> bool {
    ||| (s is Scatter && sched is Chase)
    ||| (s is Chase && sched is Scatter)
}

/// The per-tick transition of one agent, first match wins:
///
/// 1. reported eaten this tick: mode becomes `Eaten`, whatever held before;
/// 2. an energizer was eaten and the mode is `Chase` or `Scatter`: mode
///    becomes `Frightened`, the direction reverses, and the target is set
///    to the tile the agent came from;
/// 3. otherwise dispatch by the current mode:
///    - `Spawned`: once the position matches the house-exit alignment tile
///      (the lead ghost's spawn tile), the schedule's mode holds and the
///      agent faces the house's exit direction;
///    - `Scatter`/`Chase`: if the schedule prescribes the other of the two,
///      flip to it, reverse the direction and target the tile came from;
///    - `Frightened`: on an energizer-expired event, the schedule's mode
///      holds; the direction is kept;
///    - `Eaten`: once the position equals the identity's respawn
///      coordinate, mode becomes `Spawned`.
pub open spec fn spec_transition(
    a: GhostActor,
    ghost_eaten: bool,
    energizer_eaten: bool,
    energizer_expired: bool,
    sched: State,
    house: GhostHouse,
) -> GhostActor {
    if ghost_eaten {
        GhostActor { state: State::Eaten, ..a }
    } else if energizer_eaten && (a.state is Chase || a.state is Scatter) {
        GhostActor {
            state: State::Frightened,
            direction: spec_opposite(a.direction),
            target: Target { inner: Some(came_from(a)) },
            ..a
        }
    } else {
        match a.state {
            State::Spawned => if a.position == house.blinky_spawn {
                GhostActor { state: sched, direction: house.exit_direction, ..a }
            } else {
                a
            },
            State::Scatter | State::Chase => if scatter_chase_flip(a.state, sched) {
                GhostActor {
                    state: sched,
                    direction: spec_opposite(a.direction),
                    target: Target { inner: Some(came_from(a)) },
                    ..a
                }
            } else {
                a
            },
            State::Frightened => if energizer_expired {
                GhostActor { state: sched, ..a }
            } else {
                a
            },
            State::Eaten => if a.position == house.spec_respawn_of(a.id) {
                GhostActor { state: State::Spawned, ..a }
            } else {
                a
            },
        }
    }
}

/// Applies the per-tick mode transition to one agent. `ghost_eaten`,
/// `energizer_eaten` and `energizer_expired` are the tick-local event
/// flags the collision collaborator drained for this tick.
pub fn update_state(
    actor: &mut GhostActor,
    ghost_eaten: bool,
    energizer_eaten: bool,
    energizer_expired: bool,
    schedule: &Schedule,
    house: &GhostHouse,
)
    requires
        schedule.wf(),
    ensures
        *final(actor) == spec_transition(
            *old(actor),
            ghost_eaten,
            energizer_eaten,
            energizer_expired,
            schedule.spec_current(),
            *house,
        ),
{
    if ghost_eaten {
        actor.state = State::Eaten;
        return;
    }

    if energizer_eaten && (actor.state == State::Chase || actor.state == State::Scatter) {
        let back = tile_came_from(actor);
        actor.state = State::Frightened;
        actor.direction = actor.direction.opposite();
        actor.target.set(back);
        return;
    }

    match actor.state {
        State::Spawned => {
            if actor.position == house.blinky_spawn {
                actor.state = schedule.current_state();
                actor.direction = house.exit_direction;
            }
        },
        State::Scatter | State::Chase => {
            let sched = schedule.current_state();
            if sched != actor.state {
                let back = tile_came_from(actor);
                actor.state = sched;
                actor.direction = actor.direction.opposite();
                actor.target.set(back);
            }
        },
        State::Frightened => {
            if energizer_expired {
                actor.state = schedule.current_state();
            }
        },
        State::Eaten => {
            if actor.position == house.respawn_coordinates_of(actor.id) {
                actor.state = State::Spawned;
            }
        },
    }
}

/// The restricted transition that runs during the pause after a ghost
/// was eaten: only `Spawned` and `Eaten` agents progress, by the same
/// rules as in the full transition; every other mode is frozen.
pub open spec fn spec_pause_transition(a: GhostActor, sched: State, house: GhostHouse) -> GhostActor {
    match a.state {
        State::Spawned => if a.position == house.blinky_spawn {
            GhostActor { state: sched, direction: house.exit_direction, ..a }
        } else {
            a
        },
        State::Eaten => if a.position == house.spec_respawn_of(a.id) {
            GhostActor { state: State::Spawned, ..a }
        } else {
            a
        },
        _ => a,
    }
}

/// Applies the restricted mode transition that runs during the pause
/// after a ghost was eaten: only `Spawned` and `Eaten` agents progress.
pub fn update_state_on_eaten_pause(actor: &mut GhostActor, schedule: &Schedule, house: &GhostHouse)
    requires
        schedule.wf(),
    ensures
        *final(actor) == spec_pause_transition(*old(actor), schedule.spec_current(), *house),
{
    match actor.state {
        State::Spawned => {
            if actor.position == house.blinky_spawn {
                actor.state = schedule.current_state();
                actor.direction = house.exit_direction;
            }
        },
        State::Eaten => {
            if actor.position == house.respawn_coordinates_of(actor.id) {
                actor.state = State::Spawned;
            }
        },
        _ => {},
    }
}

/// Returns the tile the agent came from.
fn tile_came_from(actor: &GhostActor) -> (r: Position)
    ensures
        r == came_from(*actor),
{
    let base = if actor.target.is_set() {
        actor.target.get()
    } else {
        actor.position
    };
    base.neighbour_in_direction(actor.direction.opposite())
}

/// Returns whether `g` occurs in the tick-local list of agents reported
/// eaten by the player.
pub fn ghost_eaten_this_tick(g: GhostId, eaten: &Vec<GhostId>) -> (r: bool)
    ensures
        r == eaten@.contains(g),
{
    let mut i: usize = 0;
    while i < eaten.len()
        invariant
            0 <= i <= eaten@.len(),
            forall|j: int| 0 <= j < i ==> eaten@[j] != g,
        decreases eaten@.len() - i,
    {
        if eaten[i] == g {
            proof {
                assert(eaten@[i as int] == g);
            }
            return true;
        }
        i = i + 1;
    }
    false
}

/// Applies the per-tick mode transition to every agent, in place. Each
/// agent sees the same drained event lists and the same schedule
/// snapshot, so agent order does not affect the result.
pub fn update_all_states(
    actors: &mut Vec<GhostActor>,
    eaten: &Vec<GhostId>,
    energizer_eaten: bool,
    energizer_expired: bool,
    schedule: &Schedule,
    house: &GhostHouse,
)
    requires
        schedule.wf(),
    ensures
        final(actors)@.len() == old(actors)@.len(),
        forall|i: int| 0 <= i < old(actors)@.len() ==> final(actors)@[i] == spec_transition(
            old(actors)@[i],
            eaten@.contains(old(actors)@[i].id),
            energizer_eaten,
            energizer_expired,
            schedule.spec_current(),
            *house,
        ),
{
    let ghost orig = actors@;
    let mut i: usize = 0;
    while i < actors.len()
        invariant
            schedule.wf(),
            0 <= i <= orig.len(),
            actors@.len() == orig.len(),
            forall|j: int| i <= j < orig.len() ==> actors@[j] == orig[j],
            forall|j: int| 0 <= j < i ==> actors@[j] == spec_transition(
                orig[j],
                eaten@.contains(orig[j].id),
                energizer_eaten,
                energizer_expired,
                schedule.spec_current(),
                *house,
            ),
        decreases orig.len() - i,
    {
        let was_eaten = ghost_eaten_this_tick(actors[i].id, eaten);
        let mut a = actors[i];
        update_state(&mut a, was_eaten, energizer_eaten, energizer_expired, schedule, house);
        actors.set(i, a);
        i = i + 1;
    }
}

/// The state pass never moves an agent and never changes its identity:
/// the transition writes only the mode, direction and target fields.
pub proof fn lemma_transition_keeps_place(
    a: GhostActor,
    ghost_eaten: bool,
    energizer_eaten: bool,
    energizer_expired: bool,
    sched: State,
    house: GhostHouse,
)
    ensures
        ({
            let r = spec_transition(a, ghost_eaten, energizer_eaten, energizer_expired, sched, house);
            &&& r.position == a.position
            &&& r.id == a.id
        }),
{
}

/// Any `Scatter`/`Chase` flip, and any entry into `Frightened`, reverses
/// the direction and sets the target to the tile the agent came from.
pub proof fn lemma_flip_reverses_direction(
    a: GhostActor,
    ghost_eaten: bool,
    energizer_eaten: bool,
    energizer_expired: bool,
    sched: State,
    house: GhostHouse,
)
    requires
        !ghost_eaten,
        (energizer_eaten && (a.state is Chase || a.state is Scatter))
            || (!energizer_eaten && scatter_chase_flip(a.state, sched)),
    ensures
        ({
            let r = spec_transition(a, ghost_eaten, energizer_eaten, energizer_expired, sched, house);
            &&& r.direction == spec_opposite(a.direction)
            &&& r.target.spec_is_set()
            &&& r.target.spec_pos() == came_from(a)
        }),
{
}

} // verus!
