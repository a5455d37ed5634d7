use ghost_core::board::Board;
use ghost_core::common::{Direction, Position};
use ghost_core::ghost_house::GhostHouse;
use ghost_core::ghosts::{GhostActor, GhostId};
use ghost_core::state::State;
use ghost_core::target::{chase_target, select_target, set_eaten_target, set_frightened_target, ScatterCorners, Target};

fn pos(x: i64, y: i64) -> Position {
    Position { x, y }
}

fn house() -> GhostHouse {
    GhostHouse {
        entrance_position: pos(13, 18),
        entrance_direction: Direction::Down,
        front_center: pos(13, 19),
        front: vec![pos(13, 19), pos(14, 19)],
        center: pos(13, 16),
        blinky_spawn: pos(13, 19),
        pinky_spawn: pos(13, 15),
        inky_spawn: pos(12, 15),
        clyde_spawn: pos(14, 15),
        exit_direction: Direction::Left,
    }
}

fn corners() -> ScatterCorners {
    ScatterCorners {
        blinky: pos(25, 30),
        pinky: pos(2, 30),
        inky: pos(27, 0),
        clyde: pos(0, 0),
    }
}

fn open_board() -> Board {
    Board::new(vec![])
}

fn agent(id: GhostId, state: State, direction: Direction, position: Position) -> GhostActor {
    GhostActor { id, state, direction, position, target: Target { inner: None } }
}

#[test]
fn scatter_targets_identity_corner() {
    let mut a = agent(GhostId::Pinky, State::Scatter, Direction::Up, pos(5, 5));
    select_target(&mut a, &open_board(), &house(), &corners(), pos(1, 1), Direction::Up, pos(2, 2), 0);
    assert_eq!(a.target.inner, Some(pos(2, 30)));
    assert_eq!(a.direction, Direction::Up);
}

#[test]
fn selection_skips_set_target() {
    let mut a = agent(GhostId::Pinky, State::Scatter, Direction::Up, pos(5, 5));
    a.target = Target { inner: Some(pos(7, 7)) };
    select_target(&mut a, &open_board(), &house(), &corners(), pos(1, 1), Direction::Up, pos(2, 2), 0);
    assert_eq!(a.target.inner, Some(pos(7, 7)));
}

#[test]
fn spawned_gets_no_waypoint() {
    let mut a = agent(GhostId::Pinky, State::Spawned, Direction::Up, pos(5, 5));
    select_target(&mut a, &open_board(), &house(), &corners(), pos(1, 1), Direction::Up, pos(2, 2), 0);
    assert_eq!(a.target.inner, None);
}

#[test]
fn chase_lead_targets_pursued_tile() {
    let t = chase_target(GhostId::Blinky, &pos(5, 5), &pos(0, 0), &pos(9, 12), Direction::Up, &pos(5, 5));
    assert_eq!(t, pos(9, 12));
}

#[test]
fn chase_second_ambushes_four_ahead() {
    let t = chase_target(GhostId::Pinky, &pos(5, 5), &pos(0, 0), &pos(9, 12), Direction::Left, &pos(5, 5));
    assert_eq!(t, pos(5, 12));
}

#[test]
fn chase_third_doubles_lead_vector() {
    // Two tiles ahead of the pursued entity facing up: (9, 14).
    // Doubling from the lead's tile (5, 5): (2*9-5, 2*14-5) = (13, 23).
    let t = chase_target(GhostId::Inky, &pos(7, 7), &pos(0, 0), &pos(9, 12), Direction::Up, &pos(5, 5));
    assert_eq!(t, pos(13, 23));
}

#[test]
fn chase_fourth_far_targets_pursued() {
    // Distance (0,0) to (9,12) is 15 tiles: more than eight away.
    let t = chase_target(GhostId::Clyde, &pos(0, 0), &pos(0, 30), &pos(9, 12), Direction::Up, &pos(5, 5));
    assert_eq!(t, pos(9, 12));
}

#[test]
fn chase_fourth_near_retreats_to_corner() {
    // Distance (5,8) to (9,12): squared 32, within eight tiles.
    let t = chase_target(GhostId::Clyde, &pos(5, 8), &pos(0, 30), &pos(9, 12), Direction::Up, &pos(5, 5));
    assert_eq!(t, pos(0, 30));
}

#[test]
fn frightened_picks_by_random_draw() {
    // Facing up: down is the excluded reverse. A wall on the left leaves
    // the candidates [up, right]; draw 3 picks index 3 % 2 = 1: right.
    let board = Board::new(vec![pos(4, 5)]);
    let mut a = agent(GhostId::Inky, State::Frightened, Direction::Up, pos(5, 5));
    set_frightened_target(&mut a, &board, 3);
    assert_eq!(a.direction, Direction::Right);
    assert_eq!(a.target.inner, Some(pos(6, 5)));
}

#[test]
fn frightened_draw_zero_picks_first_candidate() {
    let board = Board::new(vec![pos(4, 5)]);
    let mut a = agent(GhostId::Inky, State::Frightened, Direction::Up, pos(5, 5));
    set_frightened_target(&mut a, &board, 0);
    assert_eq!(a.direction, Direction::Up);
    assert_eq!(a.target.inner, Some(pos(5, 6)));
}

#[test]
fn frightened_dead_end_allows_reverse() {
    // Walls on every side but behind: the reverse direction is allowed.
    let board = Board::new(vec![pos(0, 1), pos(0, -1), pos(1, 0)]);
    let mut a = agent(GhostId::Inky, State::Frightened, Direction::Right, pos(0, 0));
    set_frightened_target(&mut a, &board, 7);
    assert_eq!(a.direction, Direction::Left);
    assert_eq!(a.target.inner, Some(pos(-1, 0)));
}

#[test]
fn eaten_on_front_tile_aligns_before_entrance() {
    let h = house();
    let mut a = agent(GhostId::Pinky, State::Eaten, Direction::Right, pos(14, 19));
    set_eaten_target(&mut a, &h, &open_board());
    // The in-front coordinate lies to the left of the agent.
    assert_eq!(a.direction, Direction::Left);
    assert_eq!(a.target.inner, Some(pos(13, 19)));
}

#[test]
fn eaten_at_front_center_heads_for_house_center() {
    let h = house();
    let mut a = agent(GhostId::Pinky, State::Eaten, Direction::Left, h.front_center);
    set_eaten_target(&mut a, &h, &open_board());
    // The entrance points down into the house; the agent faces its reverse.
    assert_eq!(a.direction, Direction::Up);
    assert_eq!(a.target.inner, Some(h.center));
}

#[test]
fn eaten_at_center_heads_for_respawn() {
    let h = house();
    let mut a = agent(GhostId::Clyde, State::Eaten, Direction::Down, h.center);
    set_eaten_target(&mut a, &h, &open_board());
    // Clyde's respawn (14, 15) lies to the right of the center (13, 16)
    // on the axis orthogonal to the entrance orientation.
    assert_eq!(a.direction, Direction::Right);
    assert_eq!(a.target.inner, Some(pos(14, 15)));
}

#[test]
fn eaten_elsewhere_steps_toward_nearest_front_tile() {
    let h = house();
    // From (20, 19) the nearest front tile is (14, 19); the open
    // neighbour nearest to it (reverse excluded) lies to the left.
    let mut a = agent(GhostId::Blinky, State::Eaten, Direction::Left, pos(20, 19));
    set_eaten_target(&mut a, &h, &open_board());
    assert_eq!(a.direction, Direction::Left);
    assert_eq!(a.target.inner, Some(pos(19, 19)));
}

#[test]
fn eaten_dead_end_falls_back_behind() {
    let h = house();
    let board = Board::new(vec![pos(0, 1), pos(0, -1), pos(1, 0)]);
    let mut a = agent(GhostId::Blinky, State::Eaten, Direction::Right, pos(0, 0));
    set_eaten_target(&mut a, &h, &board);
    assert_eq!(a.direction, Direction::Left);
    assert_eq!(a.target.inner, Some(pos(-1, 0)));
}

#[test]
fn eaten_walk_converges_front_tile_to_respawn() {
    // Three applications of the eaten rule, each followed by a move to
    // the target, lead from a front tile to the in-front coordinate,
    // the house center, and the identity's respawn tile.
    let h = house();
    let board = open_board();
    let mut a = agent(GhostId::Pinky, State::Eaten, Direction::Right, pos(14, 19));

    set_eaten_target(&mut a, &h, &board);
    assert_eq!(a.target.inner, Some(pos(13, 19)));
    a.position = a.target.inner.unwrap();
    a.target = Target { inner: None };

    set_eaten_target(&mut a, &h, &board);
    assert_eq!(a.target.inner, Some(pos(13, 16)));
    a.position = a.target.inner.unwrap();
    a.target = Target { inner: None };

    set_eaten_target(&mut a, &h, &board);
    assert_eq!(a.target.inner, Some(pos(13, 15)));
    a.position = a.target.inner.unwrap();
    assert_eq!(a.position, h.pinky_spawn);
}

#[test]
fn wall_lookup() {
    let board = Board::new(vec![pos(1, 2), pos(3, 4)]);
    assert!(board.position_is_wall(&pos(3, 4)));
    assert!(!board.position_is_wall(&pos(4, 3)));
}
