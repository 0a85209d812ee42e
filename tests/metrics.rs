use heimdall::metrics::{latency_bucket, PipelineMetrics};

#[test]
fn test_metrics_basic() {
    let mut metrics = PipelineMetrics::new();

    metrics.record_acquisition(1_000, 5_000);
    metrics.record_processing(1_000, 10_000);
    metrics.record_dropped_frame();
    metrics.update_buffer_usage(5, 10);

    let stats = metrics.get_stats();

    assert_eq!(stats.total_frames_acquired, 1);
    assert_eq!(stats.total_frames_processed, 1);
    assert_eq!(stats.total_frames_dropped, 1);
    assert_eq!(stats.avg_buffer_usage_percent, 50);
    assert_eq!(stats.avg_acquisition_latency_us, 5_000);
}

#[test]
fn test_metrics_concurrent() {
    let mut metrics = PipelineMetrics::new();
    let thread_count = 4u64;
    let operations_per_thread = 1000u64;
    for j in 0..operations_per_thread {
        for i in 0..thread_count {
            metrics.record_acquisition(j, (i * j % 20) * 1000);
            if j % 2 == 0 {
                metrics.record_processing(j, (i * j % 30) * 1000);
            }
            if j % 10 == 0 {
                metrics.record_dropped_frame();
            }
            if j % 100 == 0 {
                metrics.update_buffer_usage((j % 20) as usize, 20);
            }
        }
    }
    let stats = metrics.get_stats();
    assert_eq!(stats.total_frames_acquired, thread_count * operations_per_thread);
    assert_eq!(stats.total_frames_processed, thread_count * (operations_per_thread / 2));
    assert_eq!(stats.total_frames_dropped, thread_count * (operations_per_thread / 10));
}

#[test]
fn metrics_rate_window_prunes_old_events() {
    let mut metrics = PipelineMetrics::new();
    for k in 0..120u64 {
        metrics.record_acquisition(k * 1_000, 100);
    }
    // At 119 s only events from 59 s onward remain: 61 of them.
    let stats = metrics.get_stats();
    assert_eq!(stats.avg_acquisition_rate_milli, 61 * 1000 / 60);
}

#[test]
fn metrics_histogram_buckets() {
    assert_eq!(latency_bucket(0), 0);
    assert_eq!(latency_bucket(100), 0);
    assert_eq!(latency_bucket(101), 1);
    assert_eq!(latency_bucket(1_000), 2);
    assert_eq!(latency_bucket(100_000), 8);
    assert_eq!(latency_bucket(100_001), 9);
}

#[test]
fn metrics_event_counters() {
    let mut metrics = PipelineMetrics::new();
    metrics.record_buffer_overflow();
    metrics.record_desync();
    metrics.record_recovery();
    metrics.record_recovery();
    let stats = metrics.get_stats();
    assert_eq!(stats.buffer_overflows, 1);
    assert_eq!(stats.desync_events, 1);
    assert_eq!(stats.recovery_events, 2);
    metrics.reset();
    let stats = metrics.get_stats();
    assert_eq!(stats.recovery_events, 2);
    assert_eq!(stats.avg_acquisition_rate_milli, 0);
    assert_eq!(stats.avg_buffer_usage_percent, 0);
}
