use heimdall::timestamp::TimeSpan;
use heimdall::timing::{HighPrecisionTimer, JitterMeasurement, LatencyMeasurement};
use heimdall::window::{SlidingWindow, Timer};

#[test]
fn jitter_measurement_stats() {
    let mut m = JitterMeasurement::new();
    for v in [10u64, 20, 30, 40] {
        m.add(TimeSpan::from_nanos(v));
    }
    assert_eq!(m.mean().as_nanos(), 25);
    assert_eq!(m.jitter().as_nanos(), 30);
    // Sample variance 500/3 = 166; square root 12.
    assert_eq!(m.std_dev().as_nanos(), 12);
    let stats = m.get_stats();
    assert_eq!(stats.count, 4);
    assert_eq!(stats.min.as_nanos(), 10);
    assert_eq!(stats.max.as_nanos(), 40);
    m.reset();
    assert_eq!(m.get_stats().count, 0);
    assert_eq!(m.mean().as_nanos(), 0);
    assert_eq!(m.jitter().as_nanos(), 0);
}

#[test]
fn latency_measurement_pairs_events() {
    let mut l = LatencyMeasurement::new();
    assert_eq!(l.end_at(5), None);
    l.start_at(100);
    assert_eq!(l.end_at(350), Some(TimeSpan::from_nanos(250)));
    assert_eq!(l.end_at(400), None);
    l.start();
    assert!(l.end().is_some());
    assert_eq!(l.get_stats().count, 2);
    l.reset();
    assert_eq!(l.get_stats().count, 0);
}

#[test]
fn high_precision_timer() {
    let mut t = HighPrecisionTimer::new();
    t.start_at(1_000, TimeSpan::from_nanos(500));
    assert_eq!(t.elapsed_at(1_200).as_nanos(), 200);
    assert!(!t.is_elapsed_at(1_400));
    assert!(t.is_elapsed_at(1_500));
    t.calibrate_with(TimeSpan::from_nanos(5_000));
    t.calibrate();
    t.start(TimeSpan::from_nanos(0));
    assert!(t.is_elapsed());
    let _ = t.elapsed();
}

#[test]
fn sliding_window_keeps_recent_values() {
    let mut w: SlidingWindow<u64> = SlidingWindow::new(3);
    assert!(w.is_empty());
    assert_eq!(w.average(), None);
    for v in [5u64, 1, 9, 4] {
        w.push(v);
    }
    assert_eq!(w.len(), 3);
    assert_eq!(w.first(), Some(1));
    assert_eq!(w.last(), Some(4));
    assert_eq!(w.min(), Some(1));
    assert_eq!(w.max(), Some(9));
    assert_eq!(w.average(), Some(4));
    assert_eq!(w.values().iter().copied().collect::<Vec<_>>(), vec![1, 9, 4]);
    w.clear();
    assert!(w.is_empty());
    assert_eq!(w.min(), None);
}

#[test]
fn stopwatch_keeps_durations() {
    let mut t = Timer::new("acq", 2);
    assert_eq!(t.name(), "acq");
    assert_eq!(t.average(), None);
    t.restart_at(100);
    assert_eq!(t.stop_at(160).as_nanos(), 60);
    t.restart_at(200);
    assert_eq!(t.stop_at(220).as_nanos(), 20);
    t.restart_at(300);
    assert_eq!(t.stop_at(400).as_nanos(), 100);
    assert_eq!(t.min(), Some(TimeSpan::from_nanos(20)));
    assert_eq!(t.max(), Some(TimeSpan::from_nanos(100)));
    assert_eq!(t.average(), Some(TimeSpan::from_nanos(60)));
    assert_eq!(t.elapsed_at(450).as_nanos(), 150);
    t.restart();
    let _ = t.stop();
    let _ = t.elapsed();
}

#[test]
fn sliding_window_of_size_zero_holds_one_value() {
    let mut w: SlidingWindow<u64> = SlidingWindow::new(0);
    w.push(3);
    w.push(4);
    assert_eq!(w.len(), 1);
    assert_eq!(w.last(), Some(4));
}
