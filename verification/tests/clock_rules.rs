use chess_engine::timer::millis_between;
use chess_engine::timer::ChessTimer;
use chess_engine::timer::TimerDirection;
use chess_engine::timer::TimerError;
use std::cell::RefCell;

/// Nanoseconds in a millisecond: readings are in nanoseconds.
const MS: u128 = 1_000_000;

fn countdown<'a>(budget_ms: u32, adjustment_ms: i64) -> ChessTimer<'a> {
    ChessTimer::new(TimerDirection::Down, Some([budget_ms; 2]), Some([adjustment_ms; 2])).unwrap()
}

#[test]
fn countdown_without_budget_is_a_settings_conflict() {
    let result = ChessTimer::new(TimerDirection::Down, None, None);
    match result {
        Err(TimerError::SettingsConflict(reason)) => {
            assert_eq!(reason, "Down counting timer requires a maxtime");
        }
        Ok(_) => panic!("a countdown without budgets was accepted"),
    }
    assert!(ChessTimer::new(TimerDirection::Down, None, Some([5, 5])).is_err());
    assert!(ChessTimer::new(TimerDirection::Down, Some([1, 2]), None).is_ok());
}

#[test]
fn fresh_clock_is_stopped_with_player_zero_on_turn() {
    let timer = ChessTimer::new(TimerDirection::Down, Some([1000, 2500]), None).unwrap();
    assert_eq!(timer.current_player(), Some(0));
    assert_eq!(timer.check_elapsed_time_for_player(0), Some(0));
    assert_eq!(timer.check_elapsed_time_for_player(1), Some(0));
    assert_eq!(timer.check_remaining_time_for_player(0), Some(1000));
    assert_eq!(timer.check_remaining_time_for_player(1), Some(2500));
}

#[test]
fn count_up_without_budget_gets_zero_budgets() {
    let timer = ChessTimer::new(TimerDirection::Up, None, None).unwrap();
    assert_eq!(timer.current_player(), Some(0));
    assert_eq!(timer.check_elapsed_time_for_player(1), Some(0));
    assert_eq!(timer.check_remaining_time_for_player(0), Some(0));
    assert_eq!(timer.check_remaining_time_for_player(1), Some(0));
}

#[test]
fn second_start_in_a_row_changes_nothing() {
    let mut timer = countdown(1000, 0);
    timer.start_at(0);
    timer.start_at(5 * MS);
    timer.stop_at(10 * MS);
    // charged from the first start, not the second
    assert_eq!(timer.check_elapsed_time_for_player(0), Some(10));
}

#[test]
fn second_stop_in_a_row_charges_nothing() {
    let mut timer = countdown(1000, 0);
    timer.start_at(0);
    timer.stop_at(10 * MS);
    timer.stop_at(30 * MS);
    assert_eq!(timer.check_elapsed_time_for_player(0), Some(10));
    assert_eq!(timer.check_remaining_time_for_player(0), Some(990));
}

#[test]
fn stop_on_a_clock_never_started_changes_nothing() {
    let mut timer = countdown(1000, 0);
    timer.stop_at(500 * MS);
    timer.stop();
    assert_eq!(timer.check_elapsed_time_for_player(0), Some(0));
    assert_eq!(timer.current_player(), Some(0));
}

#[test]
fn successive_stops_charge_more() {
    let mut timer = countdown(1000, 0);
    timer.start_at(0);
    timer.stop_at(10 * MS);
    assert_eq!(timer.check_elapsed_time_for_player(0), Some(10));
    timer.start_at(100 * MS);
    timer.stop_at(125 * MS);
    assert_eq!(timer.check_elapsed_time_for_player(0), Some(35));
    // the other player was never on turn
    assert_eq!(timer.check_elapsed_time_for_player(1), Some(0));
}

#[test]
fn stop_charges_whole_milliseconds_only() {
    let mut timer = countdown(1000, 0);
    timer.start_at(0);
    timer.stop_at(MS - 1);
    assert_eq!(timer.check_elapsed_time_for_player(0), Some(0));
    timer.start_at(MS);
    timer.stop_at(3 * MS + 999_999);
    assert_eq!(timer.check_elapsed_time_for_player(0), Some(2));
}

#[test]
fn readings_that_run_backwards_charge_nothing() {
    let mut timer = countdown(1000, 0);
    timer.start_at(100 * MS);
    timer.stop_at(50 * MS);
    assert_eq!(timer.check_elapsed_time_for_player(0), Some(0));
}

#[test]
fn countdown_stops_counting_at_the_budget() {
    let mut timer = countdown(1000, 0);
    timer.adjust_elapsed_time_for_player(0, 5000);
    assert_eq!(timer.check_elapsed_time_for_player(0), Some(1000));
    assert_eq!(timer.check_remaining_time_for_player(0), Some(0));
    timer.adjust_elapsed_time_for_player(0, i64::MAX);
    assert_eq!(timer.check_elapsed_time_for_player(0), Some(1000));
    timer.adjust_elapsed_time_for_player(0, -300);
    assert_eq!(timer.check_elapsed_time_for_player(0), Some(700));
    assert_eq!(timer.check_remaining_time_for_player(0), Some(300));
    // the budget is reached exactly
    timer.adjust_elapsed_time_for_player(0, 300);
    assert_eq!(timer.check_elapsed_time_for_player(0), Some(1000));
    timer.start_at(0);
    timer.stop_at(10_000 * MS);
    assert_eq!(timer.check_elapsed_time_for_player(0), Some(1000));
}

#[test]
fn accounts_stay_within_the_range_of_their_type() {
    let mut timer = countdown(1000, 0);
    timer.adjust_elapsed_time_for_player(1, i64::MIN);
    assert_eq!(timer.check_elapsed_time_for_player(1), Some(i64::MIN));
    timer.adjust_elapsed_time_for_player(1, -1);
    assert_eq!(timer.check_elapsed_time_for_player(1), Some(i64::MIN));
    assert_eq!(timer.check_remaining_time_for_player(1), Some(u32::MAX));

    let mut up = ChessTimer::new(TimerDirection::Up, None, None).unwrap();
    up.adjust_elapsed_time_for_player(0, i64::MAX);
    up.adjust_elapsed_time_for_player(0, 1);
    assert_eq!(up.check_elapsed_time_for_player(0), Some(i64::MAX));
}

#[test]
fn count_up_is_not_capped() {
    let mut timer = ChessTimer::new(TimerDirection::Up, None, None).unwrap();
    timer.adjust_elapsed_time_for_player(0, -100);
    assert_eq!(timer.check_elapsed_time_for_player(0), Some(-100));
    timer.adjust_elapsed_time_for_player(0, 5100);
    assert_eq!(timer.check_elapsed_time_for_player(0), Some(5000));
    assert_eq!(timer.check_remaining_time_for_player(0), Some(0));
}

#[test]
fn count_up_counts_a_nonnegative_account_as_expired() {
    let fired = RefCell::new(Vec::new());
    let mut timer = ChessTimer::new(TimerDirection::Up, None, None).unwrap();
    timer.set_callback(|player| fired.borrow_mut().push(player));
    timer.adjust_elapsed_time_for_player(1, -50);
    assert_eq!(*fired.borrow(), Vec::<usize>::new());
    timer.adjust_elapsed_time_for_player(1, 50);
    assert_eq!(*fired.borrow(), vec![1]);
}

#[test]
fn expiry_notifies_once_and_leaves_the_turn() {
    let fired = RefCell::new(Vec::new());
    let mut timer = countdown(1000, 0);
    timer.set_callback(|player| fired.borrow_mut().push(player));

    timer.adjust_elapsed_time_for_player(0, 999);
    assert_eq!(*fired.borrow(), Vec::<usize>::new());

    timer.adjust_elapsed_time_for_player(0, 1);
    assert_eq!(*fired.borrow(), vec![0]);
    assert_eq!(timer.current_player(), Some(0));
    assert_eq!(timer.check_elapsed_time_for_player(0), Some(1000));

    // every further adjustment that leaves the player without time notifies again
    timer.adjust_elapsed_time_for_player(0, 10);
    assert_eq!(*fired.borrow(), vec![0, 0]);
    timer.adjust_elapsed_time_for_player(0, -10);
    assert_eq!(*fired.borrow(), vec![0, 0]);
}

#[test]
fn expiry_of_the_waiting_player_stops_a_running_clock() {
    let fired = RefCell::new(Vec::new());
    let mut timer = countdown(1000, 0);
    timer.set_callback(|player| fired.borrow_mut().push(player));

    timer.start_at(0);
    timer.adjust_elapsed_time_for_player_at(1, 1000, 5 * MS);
    assert_eq!(*fired.borrow(), vec![1]);
    assert_eq!(timer.current_player(), Some(0));
    // the stop charged the player on turn for the five milliseconds of the run
    assert_eq!(timer.check_elapsed_time_for_player(0), Some(5));
    assert_eq!(timer.check_elapsed_time_for_player(1), Some(1000));
    // and the clock no longer runs
    timer.stop_at(50 * MS);
    assert_eq!(timer.check_elapsed_time_for_player(0), Some(5));
}

#[test]
fn expiry_of_the_player_on_turn_is_found_again_by_the_stop() {
    let fired = RefCell::new(Vec::new());
    let mut timer = countdown(1000, 0);
    timer.set_callback(|player| fired.borrow_mut().push(player));

    timer.start_at(0);
    timer.adjust_elapsed_time_for_player_at(0, 1000, 5 * MS);
    assert_eq!(*fired.borrow(), vec![0, 0]);
    assert_eq!(timer.current_player(), Some(0));
    assert_eq!(timer.check_elapsed_time_for_player(0), Some(1000));
    timer.stop_at(50 * MS);
    assert_eq!(*fired.borrow(), vec![0, 0]);
}

#[test]
fn stop_finds_the_expiry_of_the_player_on_turn() {
    let fired = RefCell::new(Vec::new());
    let mut timer = countdown(1000, 0);
    timer.set_callback(|player| fired.borrow_mut().push(player));

    timer.start_at(0);
    timer.stop_at(2000 * MS);
    assert_eq!(*fired.borrow(), vec![0]);
    assert_eq!(timer.check_elapsed_time_for_player(0), Some(1000));
    assert_eq!(timer.check_remaining_time_for_player(0), Some(0));
    assert_eq!(timer.current_player(), Some(0));
}

#[test]
fn switch_charges_the_outgoing_player_less_their_adjustment() {
    let mut timer = countdown(1000, 5000);
    timer.start_at(0);
    timer.switch_to_player_at(1, 40 * MS);
    timer.stop_at(50 * MS);

    assert_eq!(timer.current_player(), Some(1));
    assert_eq!(timer.check_elapsed_time_for_player(0), Some(40 - 5000));
    assert_eq!(timer.check_remaining_time_for_player(0), Some(1000 + 4960));
    assert_eq!(timer.check_elapsed_time_for_player(1), Some(10));
    assert_eq!(timer.check_remaining_time_for_player(1), Some(990));
}

#[test]
fn negative_switch_adjustment_is_a_penalty() {
    let mut timer =
        ChessTimer::new(TimerDirection::Down, Some([1000, 1000]), Some([-20, 0])).unwrap();
    timer.start_at(0);
    timer.switch_to_player_at(1, 40 * MS);
    assert_eq!(timer.check_elapsed_time_for_player(0), Some(60));
    timer.switch_to_player_at(0, 100 * MS);
    assert_eq!(timer.check_elapsed_time_for_player(1), Some(60));
}

#[test]
fn switch_that_uses_up_the_budget_notifies_and_stops() {
    let fired = RefCell::new(Vec::new());
    let mut timer = countdown(1000, 0);
    timer.set_callback(|player| fired.borrow_mut().push(player));

    timer.start_at(0);
    timer.switch_to_player_at(1, 1500 * MS);
    assert_eq!(timer.check_elapsed_time_for_player(0), Some(1000));
    assert_eq!(fired.borrow().first(), Some(&0));
    assert_eq!(timer.current_player(), Some(1));
    // the clock stopped: nothing is charged to the incoming player
    timer.stop_at(1600 * MS);
    assert_eq!(timer.check_elapsed_time_for_player(1), Some(0));
}

#[test]
fn nothing_is_charged_before_a_timestamp_is_recorded() {
    let mut timer = countdown(1000, 0);
    timer.switch_to_player_at(1, 10 * MS);
    assert_eq!(timer.current_player(), Some(1));
    assert_eq!(timer.check_elapsed_time_for_player(0), Some(0));
    // that switch recorded a timestamp, so the next one charges from it
    timer.switch_to_player_at(0, 30 * MS);
    assert_eq!(timer.current_player(), Some(0));
    assert_eq!(timer.check_elapsed_time_for_player(1), Some(20));
}

#[test]
fn next_player_wraps_around() {
    let mut timer = countdown(1000, 0);
    timer.start_at(0);
    assert_eq!(timer.current_player(), Some(0));
    timer.switch_to_next_player_at(10 * MS);
    assert_eq!(timer.current_player(), Some(1));
    timer.switch_to_next_player_at(30 * MS);
    assert_eq!(timer.current_player(), Some(0));
    timer.switch_to_next_player();
    assert_eq!(timer.current_player(), Some(1));
    assert_eq!(timer.check_elapsed_time_for_player(0), Some(10));
    assert_eq!(timer.check_elapsed_time_for_player(1), Some(20));
}

#[test]
fn restart_leaves_the_turn_where_it_was() {
    let mut timer = countdown(1000, 0);
    timer.start_at(0);
    timer.stop_at(10 * MS);
    timer.start_at(20 * MS);
    assert_eq!(timer.current_player(), Some(0));
    timer.stop();
    timer.start();
    assert_eq!(timer.current_player(), Some(0));
}

#[test]
fn restart_hands_the_turn_to_the_remembered_player() {
    let mut timer = countdown(1000, 0);
    timer.start_at(0);
    timer.switch_to_player_at(1, 10 * MS);
    timer.stop_at(20 * MS);
    assert_eq!(timer.current_player(), Some(1));
    timer.start_at(30 * MS);
    assert_eq!(timer.current_player(), Some(0));
}

#[test]
fn players_the_clock_does_not_know_are_ignored() {
    let fired = RefCell::new(Vec::new());
    let mut timer = countdown(1000, 0);
    timer.set_callback(|player| fired.borrow_mut().push(player));

    assert_eq!(timer.check_elapsed_time_for_player(2), None);
    assert_eq!(timer.check_remaining_time_for_player(2), None);
    assert_eq!(timer.check_elapsed_time_for_player(usize::MAX), None);

    timer.adjust_elapsed_time_for_player(2, 5000);
    timer.start_at(0);
    timer.switch_to_player_at(2, 10 * MS);
    timer.switch_to_player(usize::MAX);
    timer.stop_at(20 * MS);

    assert_eq!(timer.current_player(), Some(0));
    assert_eq!(timer.check_elapsed_time_for_player(0), Some(20));
    assert_eq!(timer.check_elapsed_time_for_player(1), Some(0));
    assert_eq!(*fired.borrow(), Vec::<usize>::new());
    assert!(ChessTimer::player_index_supported(0));
    assert!(ChessTimer::player_index_supported(1));
    assert!(!ChessTimer::player_index_supported(2));
}

#[test]
fn a_new_callback_replaces_the_old_one() {
    let first = RefCell::new(Vec::new());
    let second = RefCell::new(Vec::new());
    let mut timer = countdown(1000, 0);
    timer.set_callback(|player| first.borrow_mut().push(player));
    timer.adjust_elapsed_time_for_player(0, 1000);
    timer.set_callback(|player| second.borrow_mut().push(player));
    timer.adjust_elapsed_time_for_player(1, 1000);
    assert_eq!(*first.borrow(), vec![0]);
    assert_eq!(*second.borrow(), vec![1]);
}

#[test]
fn only_the_callback_registered_last_is_called() {
    let a = RefCell::new(Vec::new());
    let b = RefCell::new(Vec::new());
    let mut timer = ChessTimer::new(TimerDirection::Down, Some([1000, 1000]), None).unwrap();
    timer.set_callback(|player| a.borrow_mut().push(player));
    timer.set_callback(|player| b.borrow_mut().push(player));
    // registering calls neither of them and leaves the clock as it was
    assert_eq!(*a.borrow(), Vec::<usize>::new());
    assert_eq!(*b.borrow(), Vec::<usize>::new());
    assert_eq!(timer.current_player(), Some(0));
    assert_eq!(timer.check_elapsed_time_for_player(1), Some(0));

    timer.adjust_elapsed_time_for_player(1, 1000);
    assert_eq!(*a.borrow(), Vec::<usize>::new());
    assert_eq!(*b.borrow(), vec![1]);
}

#[test]
fn a_clock_without_a_callback_expires_quietly() {
    let mut timer = countdown(1000, 0);
    timer.start_at(0);
    timer.stop_at(5000 * MS);
    assert_eq!(timer.check_remaining_time_for_player(0), Some(0));
}

#[test]
fn remaining_time_at_the_edges() {
    assert_eq!(ChessTimer::elapsed_to_remaining(0, 0), 0);
    assert_eq!(ChessTimer::elapsed_to_remaining(0, 1000), 1000);
    assert_eq!(ChessTimer::elapsed_to_remaining(1000, 1000), 0);
    assert_eq!(ChessTimer::elapsed_to_remaining(999, 1000), 1);
    assert_eq!(ChessTimer::elapsed_to_remaining(i64::MAX, u32::MAX), 0);
    assert_eq!(ChessTimer::elapsed_to_remaining(i64::MIN, 0), u32::MAX);
    assert_eq!(ChessTimer::elapsed_to_remaining(i64::MIN, u32::MAX), u32::MAX);
    assert_eq!(ChessTimer::elapsed_to_remaining(-1, u32::MAX), u32::MAX);
    // one short of the top, at it, and past it
    let headroom = (u32::MAX - 1000) as i64;
    assert_eq!(ChessTimer::elapsed_to_remaining(-(headroom - 1), 1000), u32::MAX - 1);
    assert_eq!(ChessTimer::elapsed_to_remaining(-headroom, 1000), u32::MAX);
    assert_eq!(ChessTimer::elapsed_to_remaining(-(headroom + 1), 1000), u32::MAX);
}

#[test]
fn whole_milliseconds_between_readings() {
    assert_eq!(millis_between(0, 0), 0);
    assert_eq!(millis_between(0, 999_999), 0);
    assert_eq!(millis_between(0, 1_000_000), 1);
    assert_eq!(millis_between(250_000, 42 * MS + 250_000), 42);
    assert_eq!(millis_between(5 * MS, 3 * MS), 0);
    assert_eq!(millis_between(0, u128::MAX), i64::MAX);
    assert_eq!(millis_between(0, (i64::MAX as u128) * MS), i64::MAX);
    assert_eq!(millis_between(0, (i64::MAX as u128 - 1) * MS), i64::MAX - 1);
}
