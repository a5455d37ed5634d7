use ghost_core::common::{Direction, Position};
use ghost_core::ghost_house::GhostHouse;
use ghost_core::ghosts::{GhostActor, GhostId};
use ghost_core::schedule::{Phase, Schedule};
use ghost_core::state::{
    ghost_eaten_this_tick, update_all_states, update_state, update_state_on_eaten_pause, State,
};
use ghost_core::target::Target;

fn pos(x: i64, y: i64) -> Position {
    Position { x, y }
}

fn house() -> GhostHouse {
    GhostHouse {
        entrance_position: pos(13, 18),
        entrance_direction: Direction::Down,
        front_center: pos(13, 19),
        front: vec![pos(13, 19), pos(14, 19)],
        center: pos(13, 16),
        blinky_spawn: pos(13, 19),
        pinky_spawn: pos(13, 15),
        inky_spawn: pos(12, 15),
        clyde_spawn: pos(14, 15),
        exit_direction: Direction::Left,
    }
}

fn scatter_schedule() -> Schedule {
    Schedule::new(vec![
        Phase { duration_ms: 7000, mode: State::Scatter },
        Phase { duration_ms: 20000, mode: State::Chase },
    ])
}

fn agent(id: GhostId, state: State, direction: Direction, position: Position) -> GhostActor {
    GhostActor { id, state, direction, position, target: Target { inner: None } }
}

#[test]
fn eaten_event_overrides_everything() {
    for state in [State::Scatter, State::Chase, State::Frightened, State::Spawned] {
        let mut a = agent(GhostId::Inky, state, Direction::Up, pos(5, 5));
        update_state(&mut a, true, true, true, &scatter_schedule(), &house());
        assert_eq!(a.state, State::Eaten);
        assert_eq!(a.direction, Direction::Up);
    }
}

#[test]
fn energizer_turns_chaser_frightened_and_reverses() {
    let mut a = agent(GhostId::Pinky, State::Chase, Direction::Up, pos(5, 5));
    update_state(&mut a, false, true, false, &scatter_schedule(), &house());
    assert_eq!(a.state, State::Frightened);
    assert_eq!(a.direction, Direction::Down);
    // No target was set: the came-from tile is the neighbour of the
    // position in the reversed direction.
    assert_eq!(a.target.inner, Some(pos(5, 4)));
}

#[test]
fn energizer_came_from_uses_previous_target() {
    let mut a = agent(GhostId::Pinky, State::Scatter, Direction::Right, pos(5, 5));
    a.target = Target { inner: Some(pos(10, 10)) };
    update_state(&mut a, false, true, false, &scatter_schedule(), &house());
    assert_eq!(a.state, State::Frightened);
    assert_eq!(a.direction, Direction::Left);
    assert_eq!(a.target.inner, Some(pos(9, 10)));
}

#[test]
fn energizer_ignored_while_eaten() {
    let mut a = agent(GhostId::Pinky, State::Eaten, Direction::Up, pos(5, 5));
    update_state(&mut a, false, true, false, &scatter_schedule(), &house());
    assert_eq!(a.state, State::Eaten);
    assert_eq!(a.direction, Direction::Up);
    assert_eq!(a.target.inner, None);
}

#[test]
fn scatter_chase_flip_reverses_and_targets_back() {
    let mut sched = scatter_schedule();
    sched.advance(8000); // now in the chase phase
    let mut a = agent(GhostId::Blinky, State::Scatter, Direction::Up, pos(5, 5));
    update_state(&mut a, false, false, false, &sched, &house());
    assert_eq!(a.state, State::Chase);
    assert_eq!(a.direction, Direction::Down);
    assert_eq!(a.target.inner, Some(pos(5, 4)));
}

#[test]
fn no_flip_while_schedule_agrees() {
    let mut a = agent(GhostId::Blinky, State::Scatter, Direction::Up, pos(5, 5));
    update_state(&mut a, false, false, false, &scatter_schedule(), &house());
    assert_eq!(a.state, State::Scatter);
    assert_eq!(a.direction, Direction::Up);
    assert_eq!(a.target.inner, None);
}

#[test]
fn frightened_expiry_takes_schedule_mode_direction_unchanged() {
    let mut sched = scatter_schedule();
    sched.advance(8000); // schedule prescribes chase
    let mut a = agent(GhostId::Clyde, State::Frightened, Direction::Left, pos(3, 4));
    update_state(&mut a, false, false, true, &sched, &house());
    assert_eq!(a.state, State::Chase);
    assert_eq!(a.direction, Direction::Left);
    assert_eq!(a.target.inner, None);
}

#[test]
fn frightened_stays_without_expiry() {
    let mut a = agent(GhostId::Clyde, State::Frightened, Direction::Left, pos(3, 4));
    update_state(&mut a, false, false, false, &scatter_schedule(), &house());
    assert_eq!(a.state, State::Frightened);
}

#[test]
fn spawned_leaves_house_on_exit_alignment_tile() {
    let h = house();
    let mut a = agent(GhostId::Inky, State::Spawned, Direction::Up, h.blinky_spawn);
    update_state(&mut a, false, false, false, &scatter_schedule(), &h);
    assert_eq!(a.state, State::Scatter);
    assert_eq!(a.direction, h.exit_direction);
}

#[test]
fn spawned_waits_off_the_alignment_tile() {
    let mut a = agent(GhostId::Inky, State::Spawned, Direction::Up, pos(0, 0));
    update_state(&mut a, false, false, false, &scatter_schedule(), &house());
    assert_eq!(a.state, State::Spawned);
}

#[test]
fn eaten_respawns_on_own_spawn_tile() {
    let h = house();
    let mut a = agent(GhostId::Clyde, State::Eaten, Direction::Down, h.clyde_spawn);
    update_state(&mut a, false, false, false, &scatter_schedule(), &h);
    assert_eq!(a.state, State::Spawned);
}

#[test]
fn eaten_lead_respawns_on_second_spawn_tile() {
    let h = house();
    let mut a = agent(GhostId::Blinky, State::Eaten, Direction::Down, h.pinky_spawn);
    update_state(&mut a, false, false, false, &scatter_schedule(), &h);
    assert_eq!(a.state, State::Spawned);
}

#[test]
fn eaten_stays_away_from_respawn_tile() {
    let h = house();
    let mut a = agent(GhostId::Clyde, State::Eaten, Direction::Down, h.pinky_spawn);
    update_state(&mut a, false, false, false, &scatter_schedule(), &h);
    assert_eq!(a.state, State::Eaten);
}

#[test]
fn all_agents_updated_eaten_list_hits_one() {
    let mut actors = vec![
        agent(GhostId::Blinky, State::Scatter, Direction::Up, pos(1, 1)),
        agent(GhostId::Inky, State::Chase, Direction::Left, pos(2, 2)),
    ];
    let eaten = vec![GhostId::Inky];
    update_all_states(&mut actors, &eaten, false, false, &scatter_schedule(), &house());
    assert_eq!(actors[0].state, State::Scatter);
    assert_eq!(actors[1].state, State::Eaten);
}

#[test]
fn eaten_list_lookup() {
    let eaten = vec![GhostId::Pinky, GhostId::Clyde];
    assert!(ghost_eaten_this_tick(GhostId::Clyde, &eaten));
    assert!(!ghost_eaten_this_tick(GhostId::Blinky, &eaten));
}

#[test]
fn pause_update_freezes_active_modes() {
    let mut a = agent(GhostId::Blinky, State::Chase, Direction::Up, pos(5, 5));
    update_state_on_eaten_pause(&mut a, &scatter_schedule(), &house());
    assert_eq!(a.state, State::Chase);
}

#[test]
fn pause_update_progresses_eaten_and_spawned() {
    let h = house();
    let mut a = agent(GhostId::Pinky, State::Eaten, Direction::Down, h.pinky_spawn);
    update_state_on_eaten_pause(&mut a, &scatter_schedule(), &h);
    assert_eq!(a.state, State::Spawned);

    let mut b = agent(GhostId::Pinky, State::Spawned, Direction::Down, h.blinky_spawn);
    update_state_on_eaten_pause(&mut b, &scatter_schedule(), &h);
    assert_eq!(b.state, State::Scatter);
    assert_eq!(b.direction, h.exit_direction);
}

#[test]
fn mode_is_single_valued() {
    let all = [State::Scatter, State::Chase, State::Frightened, State::Eaten, State::Spawned];
    for s in all {
        let count = all.iter().filter(|t| **t == s).count();
        assert_eq!(count, 1);
        assert!(!(s == State::Eaten && s == State::Frightened));
    }
}
