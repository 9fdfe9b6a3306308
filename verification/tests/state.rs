use tomata::settings::Settings;
use tomata::state::TomataState;
use tomata::tomata::{Period, HOUR_S};

fn make_default_test_state() -> TomataState {
    // One-second periods, two short breaks before a long one, long breaks
    // and auto-start enabled, notifications and the beep sound disabled.
    let settings = Settings::new(1, 1, 1, 2, true, true, false, false, 100);
    TomataState::new(settings)
}

#[test]
fn remaining_time_is_zero_when_elapsed_time_is_bigger_than_period_time() {
    let mut state = make_default_test_state();
    state.elapsed_time = HOUR_S;
    let remaining_time = state.calculate_remaining_time();
    assert_eq!(remaining_time, 0);
}

#[test]
fn increasing_elapsed_time() {
    let duration = HOUR_S;
    let mut state = make_default_test_state();
    state.increase_elapsed_time(duration);
    assert_eq!(state.elapsed_time, duration);
}

#[test]
fn activating_work_period() {
    let mut state = make_default_test_state();
    state.activate_period(Period::Work);
    assert_eq!(state.current_period, Period::Work);
    assert_eq!(
        state.stopwatch_is_paused,
        !state.settings.does_next_period_start_automatically()
    );
    assert_eq!(state.elapsed_time, 0);
}

#[test]
fn activating_short_break() {
    let mut state = make_default_test_state();
    state.activate_period(Period::ShortBreak);
    assert_eq!(state.current_period, Period::ShortBreak);
    assert_eq!(
        state.stopwatch_is_paused,
        !state.settings.does_next_period_start_automatically()
    );
    assert_eq!(state.elapsed_time, 0);
}

#[test]
fn activating_long_break() {
    let mut state = make_default_test_state();
    state.activate_period(Period::LongBreak);
    assert_eq!(state.current_period, Period::LongBreak);
    assert_eq!(
        state.stopwatch_is_paused,
        !state.settings.does_next_period_start_automatically()
    );
    assert_eq!(state.elapsed_time, 0);
}

#[test]
fn cycling_over_all_periods() {
    let mut state = make_default_test_state();
    let short_breaks_number = state.settings.get_short_breaks_number();
    for _ in 0..short_breaks_number {
        assert_eq!(state.current_period, Period::Work);
        state.cycle_to_next_period();
        assert_eq!(state.current_period, Period::ShortBreak);
        state.cycle_to_next_period();
    }
    assert_eq!(state.current_period, Period::Work);
    if state.settings.are_long_breaks_included() {
        state.cycle_to_next_period();
        assert_eq!(state.current_period, Period::LongBreak);
        state.cycle_to_next_period();
        assert_eq!(state.current_period, Period::Work);
    }
}

#[test]
fn checking_if_period_is_finishing() {
    let state = make_default_test_state();
    assert!(state.is_period_finishing());
}

#[test]
fn short_breaks_counter_follows_the_cycle() {
    let mut state = make_default_test_state();
    assert_eq!(state.short_breaks_finished, 0);
    state.cycle_to_next_period();
    assert_eq!(state.current_period, Period::ShortBreak);
    assert_eq!(state.short_breaks_finished, 0);
    state.cycle_to_next_period();
    assert_eq!(state.current_period, Period::Work);
    assert_eq!(state.short_breaks_finished, 1);
    state.cycle_to_next_period();
    state.cycle_to_next_period();
    assert_eq!(state.short_breaks_finished, 2);
    state.cycle_to_next_period();
    assert_eq!(state.current_period, Period::LongBreak);
    assert_eq!(state.short_breaks_finished, 2);
    state.cycle_to_next_period();
    assert_eq!(state.current_period, Period::Work);
    assert_eq!(state.short_breaks_finished, 0);
}

#[test]
fn cycling_with_no_short_breaks_goes_straight_to_a_long_break() {
    let settings = Settings::new(1, 1, 1, 0, true, true, false, false, 100);
    let mut state = TomataState::new(settings);
    assert_eq!(state.current_period, Period::Work);
    state.cycle_to_next_period();
    assert_eq!(state.current_period, Period::LongBreak);
}

#[test]
fn cycling_with_no_breaks_at_all_restarts_work() {
    let settings = Settings::new(1, 1, 1, 0, false, true, false, false, 100);
    let mut state = TomataState::new(settings);
    state.cycle_to_next_period();
    assert_eq!(state.current_period, Period::Work);
    assert_eq!(state.elapsed_time, 0);
}

#[test]
fn one_second_work_period_finishes_after_one_tick() {
    let settings = Settings::new(1, 300, 480, 3, true, false, false, false, 100);
    let mut state = TomataState::new(settings);
    state.increase_elapsed_time(1);
    assert!(state.is_period_finished());
    assert_eq!(state.calculate_remaining_time(), 0);
}

#[test]
fn pausing_twice_equals_pausing_once() {
    let mut once = make_default_test_state();
    once.start_stopwatch();
    once.pause_stopwatch();
    let mut twice = once.clone();
    twice.pause_stopwatch();
    assert_eq!(once, twice);
}

#[test]
fn starting_twice_equals_starting_once() {
    let mut once = make_default_test_state();
    once.start_stopwatch();
    let mut twice = once.clone();
    twice.start_stopwatch();
    assert_eq!(once, twice);
}

#[test]
fn resetting_restarts_the_current_period_from_zero() {
    let mut state = make_default_test_state();
    state.activate_period(Period::ShortBreak);
    state.increase_elapsed_time(1);
    assert!(state.is_period_finished());
    state.reset_stopwatch();
    assert_eq!(state.current_period, Period::ShortBreak);
    assert_eq!(state.elapsed_time, 0);
    assert!(!state.is_period_finished());
}

#[test]
fn finished_flag_is_recomputed_with_the_same_tick() {
    let settings = Settings::new(10, 1, 1, 2, true, true, false, false, 100);
    let mut state = TomataState::new(settings);
    state.increase_elapsed_time(9);
    assert!(!state.is_period_finished());
    assert_eq!(state.calculate_remaining_time(), 1);
    state.increase_elapsed_time(1);
    assert!(state.is_period_finished());
    assert_eq!(state.calculate_remaining_time(), 0);
}

#[test]
fn finished_flag_clears_when_the_duration_is_raised_mid_period() {
    let settings = Settings::new(1, 1, 1, 2, true, true, false, false, 100);
    let mut state = TomataState::new(settings);
    state.increase_elapsed_time(1);
    assert!(state.is_period_finished());
    state.settings.increase_period_duration(Period::Work, 10);
    state.increase_elapsed_time(1);
    assert!(!state.is_period_finished());
    assert_eq!(state.calculate_remaining_time(), 9);
}

#[test]
fn activation_respects_the_auto_start_toggle() {
    let manual = Settings::new(1, 1, 1, 2, true, false, false, false, 100);
    let mut state = TomataState::new(manual);
    state.activate_period(Period::Work);
    assert!(state.is_stopwatch_paused());

    let automatic = Settings::new(1, 1, 1, 2, true, true, false, false, 100);
    let mut state = TomataState::new(automatic);
    state.activate_period(Period::Work);
    assert!(!state.is_stopwatch_paused());
}

#[test]
fn a_fresh_state_starts_paused_at_work() {
    let state = TomataState::default();
    assert_eq!(state.current_period, Period::Work);
    assert!(state.is_stopwatch_paused());
    assert!(!state.is_period_finished());
    assert_eq!(state.elapsed_time, 0);
    assert_eq!(state.short_breaks_finished, 0);
    assert_eq!(state.settings, Settings::default());
}
