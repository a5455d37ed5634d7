use ghost_core::common::Position;
use ghost_core::dots::EatenDots;
use ghost_core::ghosts::GhostId;
use ghost_core::speed::{
    is_in_tunnel, update_ghost_speed, update_pacman_speed, LevelSpec, SpecsPerLevel, Speed,
    GHOST_BASE_SPEED, PACMAN_BASE_SPEED,
};
use ghost_core::state::State;

fn pos(x: i64, y: i64) -> Position {
    Position { x, y }
}

fn spec() -> LevelSpec {
    LevelSpec {
        ghost_normal_percent: 75,
        ghost_frightened_percent: 50,
        ghost_tunnel_percent: 40,
        elroy_1_dots_left: 20,
        elroy_1_percent: 80,
        elroy_2_dots_left: 10,
        elroy_2_percent: 85,
        pacman_normal_percent: 80,
        pacman_frightened_percent: 90,
    }
}

#[test]
fn eaten_doubles_base_speed() {
    let r = update_ghost_speed(GhostId::Clyde, State::Eaten, &spec(), 0, true);
    assert_eq!(r, Speed(2 * GHOST_BASE_SPEED));
}

#[test]
fn tunnel_overrides_frightened() {
    let r = update_ghost_speed(GhostId::Pinky, State::Frightened, &spec(), 100, true);
    assert_eq!(r, Speed(GHOST_BASE_SPEED * 40 / 100));
}

#[test]
fn frightened_modifier_applies() {
    let r = update_ghost_speed(GhostId::Pinky, State::Frightened, &spec(), 100, false);
    assert_eq!(r, Speed(GHOST_BASE_SPEED * 50 / 100));
}

#[test]
fn lead_at_first_threshold_uses_first_tier() {
    // Remaining dots 20 with thresholds 20 and 10: the first elroy tier
    // applies, not the second.
    let r = update_ghost_speed(GhostId::Blinky, State::Chase, &spec(), 20, false);
    assert_eq!(r, Speed(GHOST_BASE_SPEED * 80 / 100));
    assert_eq!(r, Speed(640));
}

#[test]
fn lead_at_second_threshold_uses_second_tier() {
    let r = update_ghost_speed(GhostId::Blinky, State::Chase, &spec(), 10, false);
    assert_eq!(r, Speed(GHOST_BASE_SPEED * 85 / 100));
}

#[test]
fn lead_above_thresholds_runs_normal() {
    let r = update_ghost_speed(GhostId::Blinky, State::Scatter, &spec(), 21, false);
    assert_eq!(r, Speed(GHOST_BASE_SPEED * 75 / 100));
}

#[test]
fn elroy_never_applies_to_other_identities() {
    for id in [GhostId::Pinky, GhostId::Inky, GhostId::Clyde] {
        for dots in [0, 5, 10, 20, 100] {
            let r = update_ghost_speed(id, State::Chase, &spec(), dots, false);
            assert_eq!(r, Speed(GHOST_BASE_SPEED * 75 / 100));
        }
    }
}

#[test]
fn elroy_modifiers_are_ordered() {
    let s = spec();
    assert!(s.elroy_2_percent >= s.elroy_1_percent);
    assert!(s.elroy_1_percent >= s.ghost_normal_percent);
}

#[test]
fn pacman_speed_follows_energizer_timer() {
    let fast = update_pacman_speed(&spec(), true);
    let normal = update_pacman_speed(&spec(), false);
    assert_eq!(fast, Speed(PACMAN_BASE_SPEED * 90 / 100));
    assert_eq!(normal, Speed(PACMAN_BASE_SPEED * 80 / 100));
}

#[test]
fn tunnel_membership_lookup() {
    let tiles = vec![pos(0, 10), pos(1, 10)];
    assert!(is_in_tunnel(&pos(1, 10), &tiles));
    assert!(!is_in_tunnel(&pos(2, 10), &tiles));
}

#[test]
fn default_table_clamps_to_last_entry() {
    let table = SpecsPerLevel::default();
    let first = table.get_for(1);
    let second = table.get_for(2);
    let late = table.get_for(99);
    assert_eq!(first.ghost_normal_percent, 75);
    assert_eq!(second.ghost_normal_percent, 85);
    assert_eq!(late.ghost_normal_percent, 95);
    assert_eq!(late, table.get_for(3));
}

#[test]
fn dot_counter_tracks_remaining() {
    let mut dots = EatenDots::new(244);
    assert_eq!(dots.get_eaten(), 0);
    assert_eq!(dots.get_remaining(), 244);
    dots.eat();
    dots.eat();
    assert_eq!(dots.get_eaten(), 2);
    assert_eq!(dots.get_remaining(), 242);
}

#[test]
fn dot_counter_saturates_at_total() {
    let mut dots = EatenDots::new(2);
    dots.eat();
    dots.eat();
    dots.eat();
    assert_eq!(dots.get_eaten(), 2);
    assert_eq!(dots.get_remaining(), 0);
}

#[test]
fn dot_counter_resets_at_level_start() {
    let mut dots = EatenDots::new(100);
    dots.eat();
    dots.reset();
    assert_eq!(dots.get_eaten(), 0);
    assert_eq!(dots.get_remaining(), 100);
}
