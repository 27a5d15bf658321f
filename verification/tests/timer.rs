use pomodoro::clock::Clock;
use pomodoro::duration::micro_seconds_to_seconds;
use pomodoro::timer::Timer;
use std::time::Duration;
use std::time::Instant;

const SECOND: u128 = 1_000_000;
const WORK: i128 = 1_500_000_000;

fn wait_for(span: Duration) {
    let begin = Instant::now();
    while begin.elapsed() < span {
        std::hint::spin_loop();
    }
}

#[test]
fn new_timer_reads_its_full_length() {
    let mut timer = Timer::new(WORK);
    assert_eq!(timer.get_length(), 1500);
    assert_eq!(timer.get_state(), (1500, 0));
    assert_eq!(timer.get_time_remaining(), 1500);
    assert!(!timer.is_finished());
    assert!(!timer.is_running());
}

#[test]
fn new_timer_of_any_length_has_nothing_elapsed() {
    let lengths: [i128; 7] = [0, 1, 999_999, 1_000_000, 1_000_001, 60_000_000, 300_000_000];
    for length in lengths {
        let mut timer = Timer::new(length);
        let (remaining, elapsed) = timer.get_state_at(5 * SECOND);
        assert_eq!(remaining, length / 1_000_000);
        assert_eq!(elapsed, 0);
        assert!(!timer.is_finished());
    }
}

#[test]
fn running_timer_loses_the_elapsed_time() {
    let mut timer = Timer::new(WORK);
    timer.start_at(0);
    assert!(timer.is_running());
    assert_eq!(timer.get_state_at(SECOND), (1499, 1));
    assert!(!timer.is_finished());
    assert!(timer.is_running());
    assert_eq!(timer.get_state_at(10 * SECOND), (1490, 10));
    assert_eq!(timer.get_time_remaining_at(600 * SECOND), 900);
}

#[test]
fn time_counts_from_the_start() {
    let mut timer = Timer::new(WORK);
    timer.start_at(7_000 * SECOND);
    assert_eq!(timer.get_state_at(7_000 * SECOND), (1500, 0));
    assert_eq!(timer.get_state_at(7_001 * SECOND), (1499, 1));
    assert_eq!(timer.get_state_at(7_060 * SECOND), (1440, 60));
}

#[test]
fn readings_do_not_count_time_twice() {
    let mut timer = Timer::new(WORK);
    timer.start_at(0);
    assert_eq!(timer.get_state_at(2 * SECOND), (1498, 2));
    assert_eq!(timer.get_state_at(2 * SECOND), (1498, 2));
    assert_eq!(timer.get_state_at(2 * SECOND), (1498, 2));
    assert_eq!(timer.get_state_at(3 * SECOND), (1497, 3));

    let mut read_often = Timer::new(WORK);
    let mut read_once = Timer::new(WORK);
    read_often.start_at(0);
    read_once.start_at(0);
    for step in 1..=1000u128 {
        read_often.get_time_remaining_at(step * 333_333);
    }
    assert_eq!(read_often.get_state_at(400 * SECOND), read_once.get_state_at(400 * SECOND));
    assert_eq!(read_once.get_state_at(400 * SECOND), (1100, 400));
}

#[test]
fn a_reading_before_the_last_update_counts_no_time() {
    let mut timer = Timer::new(WORK);
    timer.start_at(100 * SECOND);
    assert_eq!(timer.get_state_at(50 * SECOND), (1500, 0));
    assert_eq!(timer.get_state_at(51 * SECOND), (1499, 1));
}

#[test]
fn seconds_are_truncated_not_rounded() {
    let mut timer = Timer::new(WORK);
    timer.start_at(0);
    assert_eq!(timer.get_state_at(1), (1499, 1));
    assert_eq!(timer.get_state_at(999_999), (1499, 1));
    assert_eq!(timer.get_state_at(1_000_000), (1499, 1));
    assert_eq!(timer.get_state_at(1_000_001), (1498, 2));
}

#[test]
fn timer_finishes_when_its_time_is_up() {
    let mut timer = Timer::new(WORK);
    timer.start_at(0);
    assert_eq!(timer.get_state_at(1500 * SECOND - 1), (0, 1500));
    assert!(!timer.is_finished());
    assert!(timer.is_running());
    assert_eq!(timer.get_state_at(1500 * SECOND), (0, 1500));
    assert!(timer.is_finished());
    assert!(!timer.is_running());
    assert_eq!(timer.get_state_at(1501 * SECOND), (0, 1500));
    assert_eq!(timer.get_state(), (0, 1500));
    assert!(timer.is_finished());
}

#[test]
fn timer_finishes_when_read_late() {
    let mut timer = Timer::new(WORK);
    timer.start_at(0);
    assert_eq!(timer.get_state_at(1499 * SECOND), (1, 1499));
    assert_eq!(timer.get_state_at(u128::MAX), (0, 1500));
    assert!(timer.is_finished());
    assert!(!timer.is_running());
}

#[test]
fn finished_timer_stays_at_zero_when_started_again() {
    let mut timer = Timer::new(WORK);
    timer.start_at(0);
    assert_eq!(timer.get_time_remaining_at(2000 * SECOND), 0);
    timer.start_at(2001 * SECOND);
    assert!(timer.is_running());
    assert_eq!(timer.get_state_at(2001 * SECOND), (0, 1500));
    assert!(timer.is_finished());
    assert!(!timer.is_running());
    timer.pause();
    assert_eq!(timer.get_state_at(2002 * SECOND), (0, 1500));
    timer.start();
    assert_eq!(timer.get_state(), (0, 1500));
    assert!(timer.is_finished());
}

#[test]
fn paused_timer_does_not_decay() {
    let mut timer = Timer::new(WORK);
    timer.start_at(0);
    assert_eq!(timer.get_state_at(10 * SECOND), (1490, 10));
    timer.pause();
    assert!(!timer.is_running());
    assert_eq!(timer.get_state_at(110 * SECOND), (1490, 10));
    assert_eq!(timer.get_state_at(210 * SECOND), (1490, 10));
    wait_for(Duration::from_millis(5));
    assert_eq!(timer.get_state(), (1490, 10));
    timer.start_at(300 * SECOND);
    assert_eq!(timer.get_state_at(301 * SECOND), (1489, 11));
}

#[test]
fn reset_restores_the_full_length() {
    let mut timer = Timer::new(WORK);
    timer.start_at(0);
    assert_eq!(timer.get_state_at(1500 * SECOND), (0, 1500));
    assert!(timer.is_finished());
    timer.reset();
    assert!(!timer.is_finished());
    assert!(!timer.is_running());
    assert_eq!(timer.get_state(), (1500, 0));
    assert_eq!(timer.get_length(), 1500);

    timer.start_at(0);
    assert_eq!(timer.get_state_at(3 * SECOND), (1497, 3));
    timer.reset();
    assert_eq!(timer.get_state_at(6 * SECOND), (1500, 0));
}

#[test]
fn starting_twice_keeps_what_is_left() {
    let mut timer = Timer::new(WORK);
    timer.start_at(0);
    assert_eq!(timer.get_state_at(4 * SECOND), (1496, 4));
    timer.start_at(4 * SECOND);
    assert!(timer.is_running());
    assert_eq!(timer.get_state_at(4 * SECOND), (1496, 4));
    assert_eq!(timer.get_state_at(5 * SECOND), (1495, 5));
    timer.start_at(7 * SECOND);
    assert_eq!(timer.get_state_at(8 * SECOND), (1494, 6));
}

#[test]
fn running_timer_follows_the_clock() {
    let mut timer = Timer::new(WORK);
    timer.start();
    wait_for(Duration::from_millis(5));
    let (remaining, elapsed) = timer.get_state();
    assert!(remaining < 1500);
    assert!(elapsed >= 1);
    assert_eq!(remaining + elapsed, 1500);
}

#[test]
fn short_timer_finishes_by_the_clock() {
    let mut timer = Timer::new(2_000);
    timer.start();
    assert!(timer.is_running());
    wait_for(Duration::from_millis(5));
    assert_eq!(timer.get_time_remaining(), 0);
    assert!(timer.is_finished());
    assert!(!timer.is_running());
    assert_eq!(timer.get_time_remaining(), 0);
}

#[test]
fn time_before_the_start_is_not_counted_by_the_clock() {
    let mut timer = Timer::new(20_000_000);
    wait_for(Duration::from_millis(30));
    timer.start();
    timer.pause();
    wait_for(Duration::from_millis(30));
    timer.start();
    let (remaining, elapsed) = timer.get_state();
    assert_eq!(remaining + elapsed, 20);
    assert!(remaining == 19 || remaining == 20);
    assert!(!timer.is_finished());
}

#[test]
fn timer_of_no_length_finishes_at_its_first_running_read() {
    let mut timer = Timer::new(0);
    assert_eq!(timer.get_state(), (0, 0));
    assert!(!timer.is_finished());
    timer.start();
    assert_eq!(timer.get_state(), (0, 0));
    assert!(timer.is_finished());
    assert!(!timer.is_running());
}

#[test]
fn timer_of_negative_length_finishes_at_its_first_running_read() {
    let mut timer = Timer::new(-5_000_000);
    assert_eq!(timer.get_length(), -5);
    assert_eq!(timer.get_state_at(SECOND), (-5, 0));
    assert!(!timer.is_finished());
    timer.start_at(SECOND);
    assert_eq!(timer.get_state_at(SECOND), (0, -5));
    assert!(timer.is_finished());
    assert!(!timer.is_running());
    timer.reset();
    assert_eq!(timer.get_state_at(SECOND), (-5, 0));
    assert!(!timer.is_finished());
}

#[test]
fn clock_does_not_go_back() {
    let clock = Clock::new();
    let first = clock.micros();
    wait_for(Duration::from_millis(2));
    let second = clock.micros();
    assert!(second >= first + 2_000);
    assert!(second < 60 * SECOND);
}

#[test]
fn micro_seconds_become_whole_seconds() {
    assert_eq!(micro_seconds_to_seconds(0), 0);
    assert_eq!(micro_seconds_to_seconds(999_999), 0);
    assert_eq!(micro_seconds_to_seconds(1_000_000), 1);
    assert_eq!(micro_seconds_to_seconds(1_999_999), 1);
    assert_eq!(micro_seconds_to_seconds(1_500_000_000), 1500);
    assert_eq!(micro_seconds_to_seconds(-999_999), 0);
    assert_eq!(micro_seconds_to_seconds(-1_999_999), -1);
    assert_eq!(micro_seconds_to_seconds(i128::MAX), i128::MAX / 1_000_000);
    assert_eq!(micro_seconds_to_seconds(i128::MIN), i128::MIN / 1_000_000);
}
