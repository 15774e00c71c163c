use std::time::{Duration, Instant, SystemTime, UNIX_EPOCH};

use shared_rust::utils::sysinfo::{cpu_count, elapsed_secs, timestamp_from, unix_timestamp};

/// The seconds since the epoch, read straight from the host.
fn reference_seconds() -> u64 {
    SystemTime::now()
        .duration_since(UNIX_EPOCH)
        .expect("the host's clock stands before the epoch")
        .as_secs()
}

/// Spins until `wait` has passed on the monotonic clock.
fn wait_for(wait: Duration) {
    let start = Instant::now();
    while start.elapsed() < wait {
        std::hint::spin_loop();
    }
}

#[test]
fn test_unix_timestamp() {
    let ts = unix_timestamp();
    assert!(ts > 0, "timestamp should be positive");
}

#[test]
fn test_cpu_count() {
    for answer in [None, Some(0), Some(1), Some(8)] {
        let count = cpu_count(answer);
        assert!(count >= 1, "should have at least 1 CPU");
    }
}

#[test]
fn timestamp_lies_between_fixed_dates() {
    let ts = unix_timestamp();
    assert!(ts > 1_600_000_000);
    assert!(ts < 4_000_000_000);
}

#[test]
fn timestamp_agrees_with_the_host_clock() {
    let before = reference_seconds();
    let ts = unix_timestamp();
    let after = reference_seconds();
    assert!(ts + 5 >= before, "{} is more than 5 s before {}", ts, before);
    assert!(ts <= after + 5, "{} is more than 5 s after {}", ts, after);
}

#[test]
fn timestamp_does_not_decrease_between_calls() {
    let first = unix_timestamp();
    let second = unix_timestamp();
    assert!(second >= first);
}

#[test]
fn timestamp_grows_after_more_than_a_second() {
    let first = unix_timestamp();
    wait_for(Duration::from_millis(1100));
    let second = unix_timestamp();
    assert!(second > first);
}

#[test]
fn elapsed_secs_is_none_before_the_epoch() {
    let before = UNIX_EPOCH - Duration::from_secs(5);
    let measured = before.duration_since(UNIX_EPOCH);
    assert!(measured.is_err());
    assert_eq!(elapsed_secs(measured), None);
    assert_eq!(timestamp_from(elapsed_secs(before.duration_since(UNIX_EPOCH))), 0);
}

#[test]
fn elapsed_secs_drops_the_fraction_of_a_second() {
    let at = UNIX_EPOCH + Duration::new(1_700_000_000, 999_999_999);
    assert_eq!(elapsed_secs(at.duration_since(UNIX_EPOCH)), Some(1_700_000_000));
    assert_eq!(
        timestamp_from(elapsed_secs(at.duration_since(UNIX_EPOCH))),
        1_700_000_000
    );
}

#[test]
fn elapsed_secs_at_the_epoch_is_zero_seconds() {
    assert_eq!(elapsed_secs(UNIX_EPOCH.duration_since(UNIX_EPOCH)), Some(0));
    let just_after = UNIX_EPOCH + Duration::from_nanos(1);
    assert_eq!(elapsed_secs(just_after.duration_since(UNIX_EPOCH)), Some(0));
    let just_before = UNIX_EPOCH - Duration::from_nanos(1);
    assert_eq!(elapsed_secs(just_before.duration_since(UNIX_EPOCH)), None);
}

#[test]
fn timestamp_from_keeps_the_seconds() {
    assert_eq!(timestamp_from(Some(1_700_000_000)), 1_700_000_000);
    assert_eq!(timestamp_from(Some(1)), 1);
    assert_eq!(timestamp_from(Some(0)), 0);
    assert_eq!(timestamp_from(Some(u64::MAX)), u64::MAX);
}

#[test]
fn timestamp_from_is_zero_before_the_epoch() {
    assert_eq!(timestamp_from(None), 0);
}

#[test]
fn timestamp_from_is_monotone() {
    let readings = [None, Some(0), Some(1), Some(59), Some(1_700_000_000), Some(u64::MAX)];
    for (i, first) in readings.iter().enumerate() {
        for second in &readings[i..] {
            assert!(timestamp_from(*first) <= timestamp_from(*second));
        }
    }
}

#[test]
fn cpu_count_keeps_a_positive_answer() {
    assert_eq!(cpu_count(Some(1)), 1);
    assert_eq!(cpu_count(Some(2)), 2);
    assert_eq!(cpu_count(Some(8)), 8);
    assert_eq!(cpu_count(Some(128)), 128);
    assert_eq!(cpu_count(Some(usize::MAX)), usize::MAX);
}

#[test]
fn cpu_count_falls_back_to_one() {
    assert_eq!(cpu_count(None), 1);
    assert_eq!(cpu_count(Some(0)), 1);
}

#[test]
fn cpu_count_is_the_same_on_every_call() {
    for answer in [None, Some(0), Some(1), Some(6), Some(usize::MAX)] {
        let first = cpu_count(answer);
        let second = cpu_count(answer);
        assert_eq!(first, second);
    }
}

#[test]
fn cpu_count_accepts_its_own_result() {
    for answer in [None, Some(0), Some(1), Some(6), Some(usize::MAX)] {
        let count = cpu_count(answer);
        assert_eq!(cpu_count(Some(count)), count);
    }
}

#[test]
fn cpu_count_can_divide() {
    for answer in [None, Some(0), Some(3)] {
        let count = cpu_count(answer);
        assert_eq!((12 / count) * count, 12);
    }
}
