//! Scenario tests for the stated properties of the sequence controller.

use led_sequence::config::{LED_COUNT, SEQUENCE_DELAY_MS};
use led_sequence::led::{led_state_to_level, LedSequenceController, LedState};

fn states(ctrl: &LedSequenceController) -> Vec<LedState> {
    (0..ctrl.led_count()).map(|i| ctrl.led_state(i)).collect()
}

#[test]
fn test_scenario_count_4_state_vectors() {
    let mut ctrl = LedSequenceController::new();
    assert_eq!(ctrl.led_count(), 4);
    assert_eq!(
        states(&ctrl),
        vec![LedState::On, LedState::Off, LedState::Off, LedState::Off]
    );
    ctrl.advance();
    assert_eq!(
        states(&ctrl),
        vec![LedState::Off, LedState::On, LedState::Off, LedState::Off]
    );
    ctrl.advance();
    ctrl.advance();
    ctrl.advance();
    assert_eq!(
        states(&ctrl),
        vec![LedState::On, LedState::Off, LedState::Off, LedState::Off]
    );
}

#[test]
fn test_scenario_count_1_always_active() {
    let mut ctrl = LedSequenceController::with_config(1, SEQUENCE_DELAY_MS).unwrap();
    assert_eq!(ctrl.current_index(), 0);
    assert_eq!(ctrl.led_state(0), LedState::On);
    for _ in 0..10 {
        let new_index = ctrl.advance();
        assert_eq!(new_index, 0);
        assert_eq!(ctrl.current_index(), 0);
        assert_eq!(ctrl.led_state(0), LedState::On);
    }
}

#[test]
fn test_with_config_zero_count_rejected() {
    assert!(LedSequenceController::with_config(0, SEQUENCE_DELAY_MS).is_none());
    assert!(LedSequenceController::with_config(0, 0).is_none());
}

#[test]
fn test_with_config_fields() {
    let ctrl = LedSequenceController::with_config(7, 125).unwrap();
    assert_eq!(ctrl.current_index(), 0);
    assert_eq!(ctrl.led_count(), 7);
    assert_eq!(ctrl.delay_ms(), 125);
}

#[test]
fn test_cycle_closure_concrete() {
    let mut ctrl = LedSequenceController::with_config(5, 100).unwrap();
    ctrl.advance();
    ctrl.advance();
    let start = ctrl;
    for _ in 0..ctrl.led_count() {
        ctrl.advance();
    }
    assert_eq!(ctrl, start);
}

#[test]
fn test_whole_cycles_leave_position_unchanged() {
    for k in 0..4 {
        let mut ctrl = LedSequenceController::with_config(3, 50).unwrap();
        ctrl.advance();
        let start = ctrl;
        for _ in 0..ctrl.led_count() * k {
            ctrl.advance();
        }
        assert_eq!(ctrl, start, "after {} full cycles", k);
    }
}

#[test]
fn test_exactly_one_active_every_step() {
    let mut ctrl = LedSequenceController::with_config(6, 20).unwrap();
    for _ in 0..20 {
        let on_count = (0..ctrl.led_count())
            .filter(|&i| ctrl.led_state(i) == LedState::On)
            .count();
        assert_eq!(on_count, 1);
        assert_eq!(ctrl.led_state(ctrl.current_index()), LedState::On);
        ctrl.advance();
    }
}

#[test]
fn test_led_state_out_of_range_is_off() {
    let ctrl = LedSequenceController::new();
    assert_eq!(ctrl.led_state(LED_COUNT), LedState::Off);
    assert_eq!(ctrl.led_state(LED_COUNT + 1), LedState::Off);
    assert_eq!(ctrl.led_state(usize::MAX), LedState::Off);
}

#[test]
fn test_wrap_with_two_positions() {
    let mut ctrl = LedSequenceController::with_config(2, 10).unwrap();
    assert_eq!(ctrl.advance(), 1);
    assert_eq!(ctrl.advance(), 0);
    assert_eq!(ctrl.advance(), 1);
}

#[test]
fn test_drive_signal_follows_state() {
    let mut ctrl = LedSequenceController::with_config(3, 10).unwrap();
    for _ in 0..7 {
        for i in 0..ctrl.led_count() {
            let expected = i == ctrl.current_index();
            assert_eq!(led_state_to_level(ctrl.led_state(i)), expected);
        }
        ctrl.advance();
    }
}
