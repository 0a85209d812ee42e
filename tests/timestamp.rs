use heimdall::timestamp::{TimeSpan, Timestamp, TimestampSource};
use std::time::{Duration, SystemTime};

#[test]
fn test_timestamp_creation() {
    let ts = Timestamp::now();
    assert!(ts.seconds > 0);

    let ts2 = Timestamp::from_seconds_nanos(100, 200);
    assert_eq!(ts2.seconds, 100);
    assert_eq!(ts2.nanoseconds, 200);

    let system_time = SystemTime::now();
    let ts3 = Timestamp::from_system_time(system_time);
    let back_to_system = ts3.to_system_time();

    let diff = if back_to_system > system_time {
        back_to_system.duration_since(system_time).unwrap()
    } else {
        system_time.duration_since(back_to_system).unwrap()
    };

    assert!(diff < Duration::from_micros(1));
}

#[test]
fn test_timestamp_comparison() {
    let ts1 = Timestamp::from_seconds_nanos(100, 200);
    let ts2 = Timestamp::from_seconds_nanos(100, 300);
    let ts3 = Timestamp::from_seconds_nanos(101, 100);

    assert!(ts1 < ts2);
    assert!(ts2 < ts3);
    assert!(ts1 < ts3);

    assert_eq!(ts1.diff_nanos(&ts2), -100);
    assert_eq!(ts3.diff_nanos(&ts1), 999_999_900);
}

#[test]
fn test_timestamp_arithmetic() {
    let ts = Timestamp::from_seconds_nanos(100, 500_000_000);

    let ts_plus = ts.add_duration(TimeSpan::from_millis(600));
    assert_eq!(ts_plus.seconds, 101);
    assert_eq!(ts_plus.nanoseconds, 100_000_000);

    let ts_minus = ts.sub_duration(TimeSpan::from_millis(600));
    assert_eq!(ts_minus.seconds, 99);
    assert_eq!(ts_minus.nanoseconds, 900_000_000);

    let duration = ts_plus.abs_diff(&ts_minus);
    assert_eq!(duration.as_millis(), 1200);
}

#[test]
fn test_timestamp_monotonic() {
    let mut source = TimestampSource::new();
    let ts1 = source.now();
    let ts2 = source.now();

    assert!(ts1.monotonic_counter < ts2.monotonic_counter);

    // Four clients drawing 1000 timestamps each from one shared source, in
    // interleaved turns.
    let timestamps_per_client = 1000;
    let client_count = 4;
    let mut per_client: Vec<Vec<Timestamp>> = vec![Vec::new(); client_count];
    for _ in 0..timestamps_per_client {
        for client in per_client.iter_mut() {
            client.push(source.now());
        }
    }

    let mut all_timestamps: Vec<Timestamp> = per_client.into_iter().flatten().collect();
    all_timestamps.sort();

    for i in 1..all_timestamps.len() {
        assert!(all_timestamps[i - 1].monotonic_counter < all_timestamps[i].monotonic_counter);
    }
}

#[test]
fn timestamp_source_ignores_clock_steps_back() {
    let mut source = TimestampSource::new();
    let a = source.stamp(100, 500, 10);
    let b = source.stamp(90, 0, 5);
    assert!(a < b);
    assert_eq!((b.seconds, b.nanoseconds, b.monotonic_counter), (100, 500, 11));
    let c = source.stamp(120, 0, 50);
    assert_eq!((c.seconds, c.monotonic_counter), (120, 50));
}

#[test]
fn derived_timestamps_get_larger_counters() {
    let ts = Timestamp::from_seconds_nanos(100, 500_000_000);
    let later = ts.add_duration(TimeSpan::from_millis(600));
    let earlier = ts.sub_duration(TimeSpan::from_millis(600));
    assert!(later.monotonic_counter > ts.monotonic_counter);
    assert!(earlier.monotonic_counter > ts.monotonic_counter);
}

#[test]
fn timestamp_counter_breaks_ties() {
    let a = Timestamp { seconds: 5, nanoseconds: 7, monotonic_counter: 1 };
    let b = Timestamp { seconds: 5, nanoseconds: 7, monotonic_counter: 2 };
    assert!(a < b);
    assert!(a.precedes(&b));
    assert!(!b.precedes(&a));
    assert_eq!(a.diff_nanos(&b), 0);
}

#[test]
fn timestamp_diff_truncates_toward_zero() {
    let a = Timestamp::from_seconds_nanos(10, 0);
    let b = Timestamp::from_seconds_nanos(10, 1_500_000);
    assert_eq!(b.diff_millis(&a), 1);
    assert_eq!(a.diff_millis(&b), -1);
    assert_eq!(b.diff_micros(&a), 1_500);
    assert_eq!(a.diff_micros(&b), -1_500);
}

#[test]
fn timestamp_sub_clamps_at_epoch() {
    let ts = Timestamp::from_seconds_nanos(1, 0);
    let back = ts.sub_duration(TimeSpan::from_secs(5));
    assert_eq!(back.seconds, 0);
    assert_eq!(back.nanoseconds, 0);
}

#[test]
fn timestamp_elapsed_since_is_zero_for_later_instants() {
    let a = Timestamp::from_seconds_nanos(3, 0);
    let b = Timestamp::from_seconds_nanos(5, 250);
    assert_eq!(b.elapsed_since(&a).as_nanos(), 2_000_000_250);
    assert_eq!(a.elapsed_since(&b).as_nanos(), 0);
    assert_eq!(b.to_duration().as_nanos(), 5_000_000_250);
}

#[test]
fn timestamp_renders_rfc3339() {
    let ts = Timestamp::from_seconds_nanos(1_431_648_000, 0);
    assert_eq!(ts.to_iso8601(), "2015-05-15T00:00:00+00:00");
    let later = Timestamp::from_seconds_nanos(0, 500_000_000);
    assert_eq!(later.to_iso8601(), "1970-01-01T00:00:00.500+00:00");
}

#[test]
fn timestamp_past_and_age() {
    let old = Timestamp::from_seconds_nanos(1, 0);
    assert!(old.is_past());
    assert!(!old.is_future());
    assert!(old.age().as_secs() > 0);
}

#[test]
fn time_span_conversions() {
    let d = TimeSpan::from_secs(3665);
    assert_eq!(d.as_secs(), 3665);
    assert_eq!(d.as_millis(), 3_665_000);
    assert_eq!(TimeSpan::from_micros(1_500).as_nanos(), 1_500_000);
    assert_eq!(TimeSpan::from_nanos(1_234_567_890).subsec_nanos(), 234_567_890);
    assert_eq!(TimeSpan::from_nanos(1_234_567_890).subsec_millis(), 234);
    assert!(TimeSpan::zero().is_zero());
    assert_eq!(TimeSpan::from_nanos(5).saturating_sub(TimeSpan::from_nanos(9)).as_nanos(), 0);
    assert_eq!(TimeSpan::from_nanos(u64::MAX).saturating_add(TimeSpan::from_nanos(1)).as_nanos(), u64::MAX);
}
