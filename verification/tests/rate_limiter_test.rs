use std::time::Duration;

use dtvmgr::syoboi::rate_limiter::{
    SyoboiRateLimiter, WaitPhase, DAY_NANOS, HOUR_NANOS, SECOND_NANOS,
};
use dtvmgr::tmdb::rate_limiter::{SpacingPhase, TmdbRateLimiter};

fn nanos(d: Duration) -> u64 {
    u64::try_from(d.as_nanos()).unwrap()
}

/// Runs one acquisition on a clock that only moves while the caller
/// sleeps, and returns the instant after the record.
fn acquire(limiter: &mut SyoboiRateLimiter, clock: &mut u64) {
    let mut phase = WaitPhase::Spacing;
    loop {
        let step = limiter.wait(phase, *clock);
        *clock += step.delay;
        match step.next {
            Some(next) => phase = next,
            None => break,
        }
    }
}

fn acquire_tmdb(limiter: &mut TmdbRateLimiter, clock: &mut u64) {
    let mut phase = SpacingPhase::Spacing;
    loop {
        let step = limiter.wait(phase, *clock);
        *clock += step.delay;
        match step.next {
            Some(next) => phase = next,
            None => break,
        }
    }
}

#[test]
fn test_rate_limiter_min_interval() {
    let mut limiter = SyoboiRateLimiter::new(nanos(Duration::from_millis(50)), 500, 10_000);

    let start = 0u64;
    let mut clock = start;
    acquire(&mut limiter, &mut clock);
    acquire(&mut limiter, &mut clock);
    let elapsed = Duration::from_nanos(clock - start);

    assert!(elapsed >= Duration::from_millis(50));
    assert_eq!(elapsed, Duration::from_millis(50));
}

#[test]
fn test_rate_limiter_first_request_no_wait() {
    let mut limiter = SyoboiRateLimiter::new(nanos(Duration::from_secs(1)), 500, 10_000);

    let mut clock = 7u64;
    acquire(&mut limiter, &mut clock);
    let elapsed = Duration::from_nanos(clock - 7);

    assert!(elapsed < Duration::from_millis(100));
    assert_eq!(limiter.last_request(), Some(7));
}

#[test]
fn test_rate_limiter_records_timestamps() {
    let mut limiter = SyoboiRateLimiter::new(nanos(Duration::from_millis(0)), 500, 10_000);

    let mut clock = 0u64;
    acquire(&mut limiter, &mut clock);
    acquire(&mut limiter, &mut clock);
    acquire(&mut limiter, &mut clock);

    assert_eq!(limiter.hourly_count(), 3);
    assert_eq!(limiter.daily_count(), 3);
}

#[test]
fn rate_limiter_test_rate_limiter_first_request_no_wait() {
    let mut limiter = TmdbRateLimiter::new(nanos(Duration::from_secs(1)));

    let mut clock = 0u64;
    acquire_tmdb(&mut limiter, &mut clock);

    assert!(Duration::from_nanos(clock) < Duration::from_millis(100));
}

#[test]
fn rate_limiter_test_rate_limiter_min_interval() {
    let mut limiter = TmdbRateLimiter::new(nanos(Duration::from_millis(50)));

    let mut clock = 0u64;
    acquire_tmdb(&mut limiter, &mut clock);
    acquire_tmdb(&mut limiter, &mut clock);

    assert!(Duration::from_nanos(clock) >= Duration::from_millis(50));
}

#[test]
fn test_rate_limiter_records_timestamp() {
    let mut limiter = TmdbRateLimiter::new(nanos(Duration::from_millis(0)));

    let mut clock = 3u64;
    acquire_tmdb(&mut limiter, &mut clock);

    assert!(limiter.last_request.is_some());
    assert_eq!(limiter.last_request, Some(3));
}

#[test]
fn spacing_over_a_run_of_requests() {
    let spacing = nanos(Duration::from_millis(250));
    let mut limiter = SyoboiRateLimiter::new(spacing, 500, 10_000);

    let mut clock = 1_000u64;
    let mut grants = Vec::new();
    for _ in 0..8 {
        acquire(&mut limiter, &mut clock);
        grants.push(limiter.last_request().unwrap());
    }

    assert_eq!(grants[7] - grants[0], 7 * spacing);
    for pair in grants.windows(2) {
        assert!(pair[1] - pair[0] >= spacing);
    }
}

#[test]
fn spacing_counts_time_that_has_already_passed() {
    let mut limiter = SyoboiRateLimiter::new(SECOND_NANOS, 500, 10_000);
    let mut clock = 0u64;
    acquire(&mut limiter, &mut clock);

    let step = limiter.wait(WaitPhase::Spacing, 400_000_000);
    assert_eq!(step.delay, 600_000_000);
    assert_eq!(step.next, Some(WaitPhase::Hourly));

    let step = limiter.wait(WaitPhase::Spacing, 2 * SECOND_NANOS);
    assert_eq!(step.delay, 0);
}

#[test]
fn hourly_cap_waits_for_the_oldest_request_to_age_out() {
    let mut limiter = SyoboiRateLimiter::new(0, 2, 10_000);
    let mut clock = 0u64;
    acquire(&mut limiter, &mut clock);
    clock = 1_800 * SECOND_NANOS;
    acquire(&mut limiter, &mut clock);
    assert_eq!(limiter.hourly_count(), 2);

    clock = 1_801 * SECOND_NANOS;
    let step = limiter.wait(WaitPhase::Spacing, clock);
    assert_eq!(step.delay, 0);
    let step = limiter.wait(WaitPhase::Hourly, clock);
    assert_eq!(step.delay, HOUR_NANOS - 1_801 * SECOND_NANOS);
    assert_eq!(step.next, Some(WaitPhase::Daily));
    clock += step.delay;
    let step = limiter.wait(WaitPhase::Daily, clock);
    assert_eq!(step.delay, 0);
    let step = limiter.wait(WaitPhase::Record, clock);
    assert_eq!(step.next, None);
    assert_eq!(limiter.last_request(), Some(HOUR_NANOS));
}

#[test]
fn daily_cap_waits_a_day() {
    let mut limiter = SyoboiRateLimiter::new(0, 500, 1);
    let mut clock = 5u64;
    acquire(&mut limiter, &mut clock);

    let before = clock;
    acquire(&mut limiter, &mut clock);

    assert_eq!(clock - before, DAY_NANOS);
    assert_eq!(limiter.daily_count(), 2);
}

#[test]
fn cleanup_drops_what_is_older_than_the_window() {
    let mut limiter = SyoboiRateLimiter::new(0, 500, 10_000);
    let mut clock = 0u64;
    acquire(&mut limiter, &mut clock);
    clock = 10 * SECOND_NANOS;
    acquire(&mut limiter, &mut clock);

    limiter.cleanup_windows(HOUR_NANOS + SECOND_NANOS);
    assert_eq!(limiter.hourly_count(), 1);
    assert_eq!(limiter.daily_count(), 2);

    limiter.cleanup_windows(HOUR_NANOS + 10 * SECOND_NANOS);
    assert_eq!(limiter.hourly_count(), 1);

    limiter.cleanup_windows(DAY_NANOS + 11 * SECOND_NANOS);
    assert_eq!(limiter.hourly_count(), 0);
    assert_eq!(limiter.daily_count(), 0);
}

#[test]
fn window_cap_holds_after_each_record() {
    let mut limiter = SyoboiRateLimiter::new(0, 3, 10_000);
    let mut clock = 0u64;
    let mut grants: Vec<u64> = Vec::new();
    for i in 0..12u64 {
        clock += i * 700 * SECOND_NANOS + 1;
        acquire(&mut limiter, &mut clock);
        let now = limiter.last_request().unwrap();
        grants.push(now);
        let newer = grants.iter().filter(|t| **t + HOUR_NANOS > now).count();
        assert!(newer <= 3);
    }
}

#[test]
fn a_request_at_the_instant_of_a_capped_one_is_not_held_back() {
    let mut limiter = SyoboiRateLimiter::new(0, 2, 10_000);
    let mut clock = 0u64;
    acquire(&mut limiter, &mut clock);
    clock = 1_800 * SECOND_NANOS;
    acquire(&mut limiter, &mut clock);
    clock = 1_801 * SECOND_NANOS;
    acquire(&mut limiter, &mut clock);
    assert_eq!(clock, HOUR_NANOS);

    acquire(&mut limiter, &mut clock);

    assert_eq!(clock, HOUR_NANOS);
    assert_eq!(limiter.hourly_count(), 4);

    clock += 1;
    acquire(&mut limiter, &mut clock);
    assert_eq!(clock, 1_800 * SECOND_NANOS + HOUR_NANOS);
    assert_eq!(limiter.hourly_count(), 4);
}
