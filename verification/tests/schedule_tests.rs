use ghost_core::schedule::{Phase, Schedule};
use ghost_core::state::State;

fn two_phase_schedule() -> Schedule {
    Schedule::new(vec![
        Phase { duration_ms: 7000, mode: State::Scatter },
        Phase { duration_ms: 20000, mode: State::Chase },
    ])
}

#[test]
fn schedule_starts_in_first_phase() {
    let s = two_phase_schedule();
    assert_eq!(s.current_state(), State::Scatter);
}

#[test]
fn schedule_phase_boundary() {
    let mut s = two_phase_schedule();
    s.advance(6900);
    assert_eq!(s.current_state(), State::Scatter);
    s.advance(200);
    assert_eq!(s.current_state(), State::Chase);
}

#[test]
fn schedule_switches_exactly_at_phase_end() {
    let mut s = two_phase_schedule();
    s.advance(7000);
    assert_eq!(s.current_state(), State::Chase);
}

#[test]
fn schedule_last_phase_is_sticky() {
    let mut s = two_phase_schedule();
    s.advance(7000 + 20000 + 123_456);
    assert_eq!(s.current_state(), State::Chase);
}

#[test]
fn schedule_single_phase_holds_forever() {
    let mut s = Schedule::new(vec![Phase { duration_ms: 5000, mode: State::Chase }]);
    assert_eq!(s.current_state(), State::Chase);
    s.advance(1_000_000);
    assert_eq!(s.current_state(), State::Chase);
}

#[test]
fn schedule_reset_returns_to_first_phase() {
    let mut s = two_phase_schedule();
    s.advance(10_000);
    assert_eq!(s.current_state(), State::Chase);
    s.reset();
    assert_eq!(s.elapsed_ms, 0);
    assert_eq!(s.current_state(), State::Scatter);
}

#[test]
fn schedule_advance_saturates() {
    let mut s = two_phase_schedule();
    s.advance(u64::MAX - 5);
    s.advance(100);
    assert_eq!(s.elapsed_ms, u64::MAX);
    assert_eq!(s.current_state(), State::Chase);
}
