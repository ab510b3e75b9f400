use std::time::Duration;
use std::time::Instant;
use sw3d::time::seconds_in;
use sw3d::time::Clock;
use sw3d::time::MAX_DURATION_NANOS;
use sw3d::time::NANOS_PER_SEC;

#[test]
fn longest_duration_is_that_of_the_standard_library() {
    assert_eq!(MAX_DURATION_NANOS, Duration::MAX.as_nanos());
    assert_eq!(NANOS_PER_SEC, Duration::from_secs(1).as_nanos());
}

#[test]
fn seconds_in_rounds_down() {
    assert_eq!(seconds_in(0), 0);
    assert_eq!(seconds_in(999_999_999), 0);
    assert_eq!(seconds_in(1_000_000_000), 1);
    assert_eq!(seconds_in(2_999_999_999), 2);
    assert_eq!(seconds_in(MAX_DURATION_NANOS), u64::MAX);
}

#[test]
fn new_clock_has_counted_nothing() {
    let clock = Clock::new();
    assert_eq!(clock.frame_count, 0);
    assert_eq!(clock.frame_durations, 0);
    assert_eq!(clock.residual_update_dt, 0);
    assert!(clock.init_instant <= clock.last_instant);
}

#[test]
fn default_clock_has_counted_nothing() {
    let clock = Clock::default();
    assert_eq!(clock.frame_count, 0);
    assert_eq!(clock.frame_durations, 0);
    assert_eq!(clock.residual_update_dt, 0);
}

#[test]
fn from_instants_keeps_both() {
    let init = Instant::now();
    let last = init + Duration::from_millis(5);
    let clock = Clock::from_instants(init, last);
    assert_eq!(clock.init_instant, init);
    assert_eq!(clock.last_instant, last);
    assert_eq!(clock.frame_count, 0);
}

#[test]
fn tick_counts_a_frame() {
    let mut clock = Clock::new();
    let made = clock.init_instant;
    clock.tick();
    assert_eq!(clock.frame_count, 1);
    assert_eq!(clock.residual_update_dt, clock.frame_durations);
    assert_eq!(clock.init_instant, made);
    let first = clock.frame_durations;
    clock.tick();
    assert_eq!(clock.frame_count, 2);
    assert_eq!(clock.residual_update_dt, first + clock.frame_durations);
    assert!(clock.frame_durations <= MAX_DURATION_NANOS);
}

#[test]
fn tick_measures_from_the_tick_before() {
    let start = Instant::now();
    let mut clock = Clock::from_instants(start, start);
    while start.elapsed() < Duration::from_millis(20) {
        std::hint::spin_loop();
    }
    clock.tick();
    assert!(clock.frame_durations >= 20_000_000);
    assert!(clock.last_instant > start);
    assert_eq!(clock.last_instant.duration_since(start).as_nanos(), clock.frame_durations);
}

#[test]
fn tick_at_adds_up() {
    let start = Instant::now();
    let mut clock = Clock::from_instants(start, start);
    let first = start + Duration::from_nanos(16_000_000);
    clock.tick_at(first, 16_000_000);
    assert_eq!(clock.frame_count, 1);
    assert_eq!(clock.frame_durations, 16_000_000);
    assert_eq!(clock.residual_update_dt, 16_000_000);
    assert_eq!(clock.last_instant, first);
    assert_eq!(clock.init_instant, start);
    let second = first + Duration::from_nanos(2_500_000_000);
    clock.tick_at(second, 2_500_000_000);
    assert_eq!(clock.frame_count, 2);
    assert_eq!(clock.frame_durations, 2_500_000_000);
    assert_eq!(clock.residual_update_dt, 2_516_000_000);
    assert_eq!(clock.last_instant, second);
}

#[test]
fn total_stops_at_the_longest_duration() {
    let start = Instant::now();
    let mut clock = Clock::from_instants(start, start);
    clock.tick_at(start, MAX_DURATION_NANOS - 5);
    assert_eq!(clock.residual_update_dt, MAX_DURATION_NANOS - 5);
    clock.tick_at(start, 5);
    assert_eq!(clock.residual_update_dt, MAX_DURATION_NANOS);
    clock.tick_at(start, 1);
    assert_eq!(clock.residual_update_dt, MAX_DURATION_NANOS);
    assert_eq!(clock.frame_durations, 1);
    assert_eq!(clock.frame_count, 3);
}

#[test]
fn seconds_per_frame_are_whole_seconds() {
    let start = Instant::now();
    let mut clock = Clock::from_instants(start, start);
    assert_eq!(clock.seconds_per_frame(), 0);
    clock.tick_at(start, 16_000_000);
    assert_eq!(clock.seconds_per_frame(), 0);
    clock.tick_at(start, 3_200_000_000);
    assert_eq!(clock.seconds_per_frame(), 3);
}

#[test]
fn time_since_start_leaves_the_clock() {
    let start = Instant::now();
    let mut clock = Clock::from_instants(start, start);
    clock.tick_at(start, 7);
    let secs = clock.get_time_since_start();
    assert!(secs < 60);
    assert_eq!(clock.frame_count, 1);
    assert_eq!(clock.frame_durations, 7);
    assert_eq!(clock.residual_update_dt, 7);
    assert_eq!(clock.init_instant, start);
    assert_eq!(clock.last_instant, start);
}

#[test]
fn time_since_start_counts_from_the_making() {
    let now = Instant::now();
    let start = match now.checked_sub(Duration::from_secs(3)) {
        Some(start) => start,
        None => now,
    };
    let mut clock = Clock::from_instants(start, now);
    let secs = clock.get_time_since_start();
    if start < now {
        assert!(secs >= 3);
        assert!(secs < 63);
    }
}

#[test]
fn a_clock_is_well_formed_until_it_is_written_to() {
    let start = Instant::now();
    let mut clock = Clock::from_instants(start, start);
    assert!(clock.is_well_formed());
    clock.tick();
    assert!(clock.is_well_formed());
    clock.frame_durations = MAX_DURATION_NANOS + 1;
    assert!(!clock.is_well_formed());
    clock.frame_durations = MAX_DURATION_NANOS;
    clock.residual_update_dt = u128::MAX;
    assert!(!clock.is_well_formed());
}

#[test]
fn tick_takes_the_time_between_the_two_instants() {
    let now = Instant::now();
    let start = match now.checked_sub(Duration::from_secs(2)) {
        Some(start) => start,
        None => now,
    };
    let mut clock = Clock::from_instants(start, start);
    clock.tick();
    assert_eq!(clock.last_instant.duration_since(start).as_nanos(), clock.frame_durations);
    if start < now {
        assert!(clock.frame_durations >= 2_000_000_000);
        assert_eq!(clock.seconds_per_frame(), 2);
    }
    let later = clock.last_instant + Duration::from_secs(3600);
    let mut ahead = Clock::from_instants(start, later);
    ahead.tick();
    assert_eq!(ahead.frame_durations, 0);
    assert_eq!(ahead.frame_count, 1);
}
