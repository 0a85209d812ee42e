use heimdall::pipeline::{
    acquisition_task_config, effective_affinity, processing_task_config, AcquisitionPipeline,
    PipelineImage,
};
use heimdall::scheduler::TaskState;
use heimdall::sync::{SyncManager, SyncMode};
use heimdall::timestamp::{TimeSpan, Timestamp};
use heimdall::types::{
    CameraFrame, OverflowStrategy, PipelineConfig, PipelineError, PipelineState, PixelFormat,
    RtPriority,
};

fn frame(bytes: Vec<u8>, at: Timestamp) -> CameraFrame {
    CameraFrame {
        data: bytes,
        width: 4,
        height: 2,
        pixel_format: PixelFormat::Mono8,
        timestamp: at,
        frame_id: 0,
        metadata: Vec::new(),
    }
}

fn config(capacity: usize, strategy: OverflowStrategy) -> PipelineConfig {
    PipelineConfig {
        buffer_capacity: capacity,
        max_image_size: 1024,
        acquisition_threads: 2,
        processing_threads: 1,
        acquisition_priority: RtPriority::High,
        processing_priority: RtPriority::Normal,
        acquisition_cpu_affinity: vec![0],
        processing_cpu_affinity: vec![1],
        metrics_interval_ms: 1000,
        enable_auto_recovery: true,
        max_wait_time_ms: 100,
        overflow_strategy: strategy,
    }
}

fn at_ms(ms: u64) -> Timestamp {
    Timestamp::from_seconds_nanos(1_000 + ms / 1000, ((ms % 1000) * 1_000_000) as u32)
}

/// Runs one processing step at `now` with callbacks that fail on the given
/// sequence numbers; returns the sequence processed.
fn process(p: &mut AcquisitionPipeline, now: Timestamp, fail: impl Fn(u64) -> bool) -> Option<u64> {
    match p.take_frame() {
        Ok((index, image)) => {
            let failed = if fail(image.sequence) { 1 } else { 0 };
            assert!(p.release_frame(index, now, failed));
            Some(image.sequence)
        }
        Err(_) => {
            p.check_desync();
            None
        }
    }
}

fn running(cfg: PipelineConfig, cameras: usize) -> AcquisitionPipeline {
    let mut p = AcquisitionPipeline::new(cfg).unwrap();
    p.initialize(cameras).unwrap();
    p.start().unwrap();
    p
}

#[test]
fn test_pipeline_image() {
    let frame = CameraFrame {
        data: vec![0, 1, 2, 3, 4],
        width: 10,
        height: 20,
        pixel_format: PixelFormat::RGB8,
        timestamp: Timestamp::now(),
        frame_id: 42,
        metadata: Vec::new(),
    };

    let image = PipelineImage::from_camera_frame(&frame, 42);

    assert_eq!(image.data, vec![0, 1, 2, 3, 4]);
    assert_eq!(image.width, 10);
    assert_eq!(image.height, 20);
    assert_eq!(image.format, 2);
    assert_eq!(image.sequence, 42);
}

#[test]
fn test_pipeline_basic() {
    let config = PipelineConfig {
        buffer_capacity: 10,
        max_image_size: 1024,
        acquisition_threads: 1,
        processing_threads: 1,
        acquisition_priority: RtPriority::High,
        processing_priority: RtPriority::Normal,
        acquisition_cpu_affinity: vec![0],
        processing_cpu_affinity: vec![1],
        metrics_interval_ms: 100,
        enable_auto_recovery: true,
        max_wait_time_ms: 100,
        overflow_strategy: OverflowStrategy::DropOldest,
    };

    let mut pipeline = AcquisitionPipeline::new(config).unwrap();
    assert_eq!(pipeline.get_state(), PipelineState::Uninitialized);

    let slot = pipeline.register_processor().unwrap();
    assert_eq!(slot, 0);
    assert_eq!(pipeline.processor_count(), 1);
}

#[test]
fn pipeline_rejects_invalid_config() {
    let mut cfg = config(0, OverflowStrategy::Block);
    assert!(matches!(AcquisitionPipeline::new(cfg.clone()), Err(PipelineError::ConfigError(_))));
    cfg.buffer_capacity = 4;
    cfg.overflow_strategy = OverflowStrategy::Resize;
    assert!(matches!(AcquisitionPipeline::new(cfg.clone()), Err(PipelineError::ConfigError(_))));
    cfg.overflow_strategy = OverflowStrategy::Block;
    cfg.processing_threads = 17;
    assert!(matches!(AcquisitionPipeline::new(cfg.clone()), Err(PipelineError::ConfigError(_))));
    cfg.processing_threads = 16;
    cfg.max_image_size = 0;
    assert!(matches!(AcquisitionPipeline::new(cfg), Err(PipelineError::ConfigError(_))));
    assert!(PipelineConfig::default().validate().is_ok());
}

#[test]
fn pipeline_lifecycle() {
    let mut p = AcquisitionPipeline::new(config(4, OverflowStrategy::Block)).unwrap();
    assert!(matches!(p.start(), Err(PipelineError::InitError(_))));
    assert!(matches!(p.initialize(0), Err(PipelineError::InitError(_))));
    assert!(matches!(p.initialize(3), Err(PipelineError::InitError(_))));
    p.initialize(2).unwrap();
    assert_eq!(p.get_state(), PipelineState::Ready);
    assert_eq!(p.task_states().len(), 2 + 1 + 1);
    assert!(matches!(p.initialize(1), Err(PipelineError::InitError(_))));
    p.start().unwrap();
    assert_eq!(p.get_state(), PipelineState::Running);
    assert!(p.task_states().iter().all(|s| *s == TaskState::Running));
    assert!(p.register_processor().is_err());
    p.pause().unwrap();
    assert_eq!(p.get_state(), PipelineState::Paused);
    assert!(p.task_states().iter().all(|s| *s == TaskState::Paused));
    p.start().unwrap();
    assert!(p.task_states().iter().all(|s| *s == TaskState::Running));
    p.stop().unwrap();
    assert_eq!(p.get_state(), PipelineState::Stopped);
    assert!(p.task_states().iter().all(|s| *s == TaskState::Finished));
    assert!(p.stop().is_err());
    p.fail();
    assert_eq!(p.get_state(), PipelineState::Error);
    assert!(p.start().is_err());
    p.stop().unwrap();
    p.reset().unwrap();
    assert_eq!(p.get_state(), PipelineState::Ready);
}

#[test]
fn pipeline_restart_keeps_config_and_refreshes_tasks() {
    let mut p = running(config(4, OverflowStrategy::Block), 1);
    p.stop().unwrap();
    p.start().unwrap();
    assert_eq!(p.get_state(), PipelineState::Running);
    assert_eq!(p.get_config().buffer_capacity, 4);
    assert!(p.task_states().iter().all(|s| *s == TaskState::Running));
}

#[test]
fn pipeline_set_config_rules() {
    let mut p = running(config(4, OverflowStrategy::Block), 2);
    assert!(p.set_config(config(8, OverflowStrategy::Block)).is_err());
    p.stop().unwrap();
    let mut smaller = config(8, OverflowStrategy::Block);
    smaller.acquisition_threads = 1;
    assert!(p.set_config(smaller).is_err());
    p.set_config(config(8, OverflowStrategy::DropNewest)).unwrap();
    assert_eq!(p.buffer().capacity(), 8);
    assert_eq!(p.get_config().overflow_strategy, OverflowStrategy::DropNewest);
}

#[test]
fn pipeline_acquire_and_process() {
    let mut p = running(config(4, OverflowStrategy::Block), 1);
    let stamp = at_ms(2);
    let seq = p.acquire_frame(&frame(vec![9; 8], at_ms(0)), stamp).unwrap();
    assert_eq!(seq, 1);
    let (index, image) = p.take_frame().unwrap();
    assert_eq!(image.data, vec![9; 8]);
    assert_eq!(image.sequence, 1);
    assert_eq!(image.width, 4);
    assert_eq!(image.timestamp, stamp);
    assert!(!p.release_frame(index + 1, at_ms(3), 0));
    assert!(p.release_frame(index, at_ms(3), 0));
    assert!(p.take_frame().is_err());
    p.monitor_tick(0);
    let stats = p.get_stats();
    assert_eq!(stats.total_frames_acquired, 1);
    assert_eq!(stats.total_frames_processed, 1);
    assert_eq!(stats.avg_acquisition_latency_us, 2_000);
    assert_eq!(stats.avg_processing_latency_us, 1_000);
}

#[test]
fn pipeline_sequences_increase_per_camera() {
    let mut p = running(config(16, OverflowStrategy::Block), 2);
    let mut seen = Vec::new();
    for k in 0..6u64 {
        p.acquire_frame(&frame(vec![k as u8], at_ms(k)), at_ms(k)).unwrap();
    }
    while let Some(seq) = process(&mut p, at_ms(10), |_| false) {
        seen.push(seq);
    }
    assert_eq!(seen, vec![1, 2, 3, 4, 5, 6]);
}

#[test]
fn pipeline_zero_byte_frame_reaches_callbacks() {
    let mut p = running(config(2, OverflowStrategy::Block), 1);
    p.acquire_frame(&frame(Vec::new(), at_ms(0)), at_ms(0)).unwrap();
    let (_, image) = p.take_frame().unwrap();
    assert!(image.data.is_empty());
}

#[test]
fn pipeline_full_ring_under_block_counts_overflow() {
    let mut p = running(config(1, OverflowStrategy::Block), 1);
    p.acquire_frame(&frame(vec![1], at_ms(0)), at_ms(0)).unwrap();
    assert!(matches!(
        p.acquire_frame(&frame(vec![2], at_ms(1)), at_ms(1)),
        Err(PipelineError::BufferError(_))
    ));
    let stats = p.monitor_tick(0).stats;
    assert_eq!(stats.total_frames_dropped, 1);
    assert_eq!(stats.buffer_overflows, 1);
}

#[test]
fn pipeline_freerun_single_camera_100fps() {
    let mut p = running(config(32, OverflowStrategy::DropOldest), 1);
    for k in 0..100u64 {
        p.acquire_frame(&frame(vec![1; 64], at_ms(k * 10)), at_ms(k * 10)).unwrap();
        process(&mut p, at_ms(k * 10 + 1), |_| false).unwrap();
    }
    let stats = p.monitor_tick(0).stats;
    assert!(stats.total_frames_acquired >= 95 && stats.total_frames_acquired <= 105);
    assert!(stats.total_frames_processed >= 95 && stats.total_frames_processed <= 105);
    assert_eq!(stats.total_frames_dropped, 0);
    assert_eq!(stats.buffer_overflows, 0);
}

#[test]
fn pipeline_drop_oldest_backpressure() {
    // 200 fps acquisition, 50 fps processing, 2 s, four slots.
    let mut p = running(config(4, OverflowStrategy::DropOldest), 1);
    for k in 0..400u64 {
        p.acquire_frame(&frame(vec![1; 16], at_ms(k * 5)), at_ms(k * 5)).unwrap();
        if k % 4 == 3 {
            process(&mut p, at_ms(k * 5 + 1), |_| false).unwrap();
        }
    }
    let acquired = p.metrics().get_stats().total_frames_acquired;
    let processed = p.metrics().get_stats().total_frames_processed;
    let buffer = p.buffer();
    let dropped = buffer.dropped_count();
    let stats_dropped = p.metrics().get_stats().total_frames_dropped;
    assert_eq!(acquired, 400);
    assert_eq!(processed, 100);
    assert_eq!(stats_dropped, dropped);
    assert_eq!(acquired, processed + stats_dropped + buffer.len() as u64);
    assert!(dropped >= 290 && dropped <= 300);
}

#[test]
fn pipeline_desync_recovery() {
    let mut p = running(config(8, OverflowStrategy::DropOldest), 1);
    p.acquire_frame(&frame(vec![1], at_ms(0)), at_ms(0)).unwrap();
    process(&mut p, at_ms(1), |_| false).unwrap();
    // Processing stalls for 1.5 s while acquisition continues.
    for k in 1..=150u64 {
        p.acquire_frame(&frame(vec![1], at_ms(k * 10)), at_ms(k * 10)).unwrap();
    }
    let report = p.monitor_tick(0);
    assert!(report.desync_recovered);
    assert!(report.stats.desync_events >= 1);
    assert!(report.stats.recovery_events >= 1);
    assert_eq!(p.buffer().len(), 0);
    assert_eq!(p.get_state(), PipelineState::Running);
}

#[test]
fn pipeline_no_recovery_when_disabled() {
    let mut cfg = config(8, OverflowStrategy::DropOldest);
    cfg.enable_auto_recovery = false;
    let mut p = running(cfg, 1);
    p.acquire_frame(&frame(vec![1], at_ms(0)), at_ms(0)).unwrap();
    process(&mut p, at_ms(1), |_| false).unwrap();
    p.acquire_frame(&frame(vec![1], at_ms(3000)), at_ms(3000)).unwrap();
    assert!(!p.check_desync());
    assert_eq!(p.buffer().len(), 1);
}

#[test]
fn pipeline_forced_stop() {
    let mut p = running(config(8, OverflowStrategy::DropOldest), 1);
    p.acquire_frame(&frame(vec![1], at_ms(0)), at_ms(0)).unwrap();
    p.stop().unwrap();
    assert_eq!(p.get_state(), PipelineState::Stopped);
    assert!(p.task_states().iter().all(|s| *s == TaskState::Finished));
    let before = p.metrics().get_stats();
    assert!(matches!(
        p.acquire_frame(&frame(vec![2], at_ms(5)), at_ms(5)),
        Err(PipelineError::AcquisitionError(_))
    ));
    let index = p.buffer().read_slot().unwrap();
    assert!(!p.release_frame(index, at_ms(6), 0));
    assert!(!p.check_desync());
    let after = p.metrics().get_stats();
    assert_eq!(before, after);
}

#[test]
fn pipeline_software_sync_two_cameras() {
    let mut sync = SyncManager::new();
    sync.set_mode(SyncMode::Software);
    sync.set_camera_count(2);
    sync.start().unwrap();
    let mut p = running(config(8, OverflowStrategy::Block), 2);
    let mut per_camera = [0u32; 2];
    for k in 0..500u64 {
        let t = k * 10;
        sync.trigger_at(t * 1_000_000).unwrap();
        for camera in 0..2usize {
            let mut f = frame(vec![camera as u8], at_ms(t));
            f.frame_id = k;
            p.acquire_frame(&f, at_ms(t)).unwrap();
        }
        while let Ok((index, image)) = p.take_frame() {
            per_camera[image.data[0] as usize] += 1;
            assert!(p.release_frame(index, at_ms(t), 0));
        }
    }
    let status = sync.get_status();
    assert_eq!(status.trigger_count, 500);
    assert_eq!(status.average_interval_us, Some(10_000));
    assert!(status.sync_jitter_us.unwrap() < 1_000);
    assert_eq!(per_camera, [500, 500]);
}

#[test]
fn pipeline_callback_errors_are_counted() {
    let mut p = running(config(8, OverflowStrategy::DropOldest), 1);
    for k in 1..=30u64 {
        p.acquire_frame(&frame(vec![1], at_ms(k)), at_ms(k)).unwrap();
        process(&mut p, at_ms(k), |seq| seq % 10 == 0).unwrap();
    }
    assert_eq!(p.processing_errors(), 3);
    assert_eq!(p.metrics().get_stats().total_frames_processed, 30);
}

#[test]
fn pipeline_monitor_flags() {
    let mut p = running(config(10, OverflowStrategy::Block), 1);
    for k in 0..9u64 {
        p.acquire_frame(&frame(vec![1], at_ms(k)), at_ms(k)).unwrap();
    }
    let report = p.monitor_tick(1_000_000);
    assert!(report.overflow_pressure);
    assert!(report.acquisition_stalled);
    assert_eq!(report.stats.avg_buffer_usage_percent, 90);
}

#[test]
fn task_configs_follow_affinity_lists() {
    let cfg = config(4, OverflowStrategy::Block);
    assert_eq!(acquisition_task_config(&cfg, 0).cpu_affinity, vec![0]);
    assert!(acquisition_task_config(&cfg, 1).cpu_affinity.is_empty());
    assert_eq!(processing_task_config(&cfg, 0).cpu_affinity, vec![1]);
    assert_eq!(processing_task_config(&cfg, 0).priority, RtPriority::Normal);
}

#[test]
fn invalid_affinity_runs_unpinned() {
    assert!(effective_affinity(&vec![64, 65], 8).is_empty());
    assert_eq!(effective_affinity(&vec![3, 64, 1], 8), vec![3, 1]);
}

#[test]
fn pipeline_image_from_slot_copies_meaningful_bytes() {
    let mut p = running(config(2, OverflowStrategy::Block), 1);
    p.acquire_frame(&frame(vec![5, 6, 7], at_ms(0)), at_ms(0)).unwrap();
    let index = p.buffer().read_slot().unwrap();
    let image = PipelineImage::from_buffer_slot(p.buffer().slot(index));
    assert_eq!(image.data, vec![5, 6, 7]);
    assert_eq!(image.format, 0);
    assert!(image.metadata.is_empty());
    let later = image.timestamp.add_duration(TimeSpan::from_millis(1));
    assert_eq!(later.diff_millis(&image.timestamp), 1);
}

#[test]
fn pipeline_fails_once_every_camera_failed() {
    let mut p = running(config(4, OverflowStrategy::Block), 2);
    assert!(p.report_task_result(2, true));
    assert!(p.report_task_result(0, false));
    assert_eq!(p.get_state(), PipelineState::Running);
    assert_eq!(p.task_states()[0], TaskState::Error);
    assert!(p.report_task_result(1, false));
    assert_eq!(p.get_state(), PipelineState::Error);
    assert!(!p.report_task_result(9, false));
    p.stop().unwrap();
}

#[test]
fn pipeline_task_statistics_are_recorded() {
    let mut p = running(config(4, OverflowStrategy::Block), 1);
    assert!(p.task_started(1, 1_000));
    assert!(p.task_ended(1, 4_000));
    let stats = p.task_stats(1).unwrap();
    assert_eq!(stats.executions, 1);
    assert_eq!(stats.max_execution_time.as_nanos(), 3_000);
    assert!(p.task_stats(7).is_none());
}

#[test]
fn pipeline_camera_timeout_counts_as_dropped() {
    let mut p = running(config(4, OverflowStrategy::Block), 1);
    assert!(!p.frame_wait_exceeded(100));
    assert!(p.frame_wait_exceeded(101));
    assert!(p.record_frame_timeout());
    assert_eq!(p.metrics().get_stats().total_frames_dropped, 1);
    p.stop().unwrap();
    assert!(!p.record_frame_timeout());
}

#[test]
fn software_trigger_fans_out_to_every_camera() {
    let mut sync = SyncManager::new();
    sync.set_camera_count(3);
    assert_eq!(sync.trigger_targets(), vec![0, 1, 2]);
    sync.set_mode(SyncMode::Hardware);
    assert!(sync.trigger_targets().is_empty());
    sync.set_mode(SyncMode::Freerun);
    assert!(sync.trigger_targets().is_empty());
}

#[test]
fn desync_uses_absolute_spread() {
    let mut p = running(config(8, OverflowStrategy::DropOldest), 1);
    p.acquire_frame(&frame(vec![1], at_ms(0)), at_ms(0)).unwrap();
    // Processing stamped far after the last acquisition.
    let (index, _) = p.take_frame().unwrap();
    assert!(p.release_frame(index, at_ms(2_000), 0));
    assert!(p.check_desync());
}
