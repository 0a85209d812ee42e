use heimdall::sync::{isqrt, SyncConfig, SyncManager, SyncMode, TriggerSource};

#[test]
fn test_sync_manager_creation() {
    let manager = SyncManager::new();
    assert_eq!(manager.get_mode(), SyncMode::Software);
    assert!(!manager.is_active());
}

#[test]
fn test_sync_manager_with_config() {
    let config = SyncConfig {
        mode: SyncMode::Hardware,
        trigger_source: TriggerSource::Line2,
        trigger_delay_us: 100,
        trigger_interval_us: 10000,
        sync_exposures: true,
        sync_gains: false,
    };

    let manager = SyncManager::with_config(config);
    assert_eq!(manager.get_mode(), SyncMode::Hardware);
    assert_eq!(manager.get_config().trigger_source, TriggerSource::Line2);
    assert_eq!(manager.get_config().trigger_delay_us, 100);
    assert_eq!(manager.get_config().trigger_interval_us, 10000);
}

#[test]
fn test_sync_manager_start_stop() {
    let mut manager = SyncManager::new();

    let result = manager.start();
    assert!(result.is_ok());
    assert!(manager.is_active());

    let result = manager.stop();
    assert!(result.is_ok());
    assert!(!manager.is_active());
}

#[test]
fn test_sync_manager_trigger() {
    let mut manager = SyncManager::new();
    manager.start().unwrap();

    // Five triggers 10 ms apart.
    for k in 0..5u64 {
        let result = manager.trigger_at(1_000_000_000 + k * 10_000_000);
        assert!(result.is_ok());
    }

    assert_eq!(manager.trigger_count(), 5);

    let status = manager.get_status();
    assert_eq!(status.trigger_count, 5);
    assert!(status.average_interval_us.is_some());

    manager.stop().unwrap();
}

#[test]
fn test_sync_manager_freerun_mode() {
    let mut manager = SyncManager::new();
    manager.set_mode(SyncMode::Freerun);

    manager.start().unwrap();

    let result = manager.trigger();
    assert!(result.is_err());

    manager.stop().unwrap();
}

#[test]
fn sync_trigger_rejected_when_inactive() {
    let mut manager = SyncManager::new();
    assert!(manager.trigger_at(5).is_err());
    manager.start().unwrap();
    manager.trigger_at(10).unwrap();
    manager.stop().unwrap();
    assert!(manager.trigger_at(20).is_err());
    assert_eq!(manager.trigger_count(), 1);
    assert_eq!(manager.get_config().mode, SyncMode::Software);
}

#[test]
fn sync_status_mean_and_jitter() {
    let mut manager = SyncManager::new();
    manager.start().unwrap();
    // Intervals of 10 ms and 12 ms: mean 11 000 us, deviation 1 000 us.
    manager.trigger_at(0).unwrap();
    manager.trigger_at(10_000_000).unwrap();
    manager.trigger_at(22_000_000).unwrap();
    let status = manager.get_status();
    assert_eq!(status.trigger_count, 3);
    assert_eq!(status.average_interval_us, Some(11_000));
    assert_eq!(status.sync_jitter_us, Some(1_000));
    assert_eq!(status.last_trigger_time, Some(22_000_000));
    assert!(status.is_active);
}

#[test]
fn sync_status_without_intervals() {
    let mut manager = SyncManager::new();
    manager.start().unwrap();
    manager.trigger_at(42).unwrap();
    let status = manager.get_status();
    assert_eq!(status.average_interval_us, None);
    assert_eq!(status.sync_jitter_us, None);
}

#[test]
fn sync_window_keeps_last_hundred_intervals() {
    let mut manager = SyncManager::new();
    manager.start().unwrap();
    // 50 intervals of 1 ms, then 100 intervals of 2 ms: only the latter remain.
    let mut t = 0u64;
    manager.trigger_at(t).unwrap();
    for _ in 0..50 {
        t += 1_000_000;
        manager.trigger_at(t).unwrap();
    }
    for _ in 0..100 {
        t += 2_000_000;
        manager.trigger_at(t).unwrap();
    }
    let status = manager.get_status();
    assert_eq!(status.trigger_count, 151);
    assert_eq!(status.average_interval_us, Some(2_000));
    assert_eq!(status.sync_jitter_us, Some(0));
}

#[test]
fn sync_software_500_triggers_at_10ms() {
    let mut manager = SyncManager::new();
    manager.set_camera_count(2);
    manager.start().unwrap();
    for k in 0..500u64 {
        // 10 ms with a small alternating offset of 50 us.
        let offset = if k % 2 == 0 { 0 } else { 50_000 };
        manager.trigger_at(k * 10_000_000 + offset).unwrap();
    }
    let status = manager.get_status();
    assert_eq!(status.trigger_count, 500);
    let avg = status.average_interval_us.unwrap();
    assert!(avg >= 9_900 && avg <= 10_100);
    assert!(status.sync_jitter_us.unwrap() < 1_000);
}

#[test]
fn sync_restart_clears_history_and_keeps_config() {
    let mut manager = SyncManager::new();
    manager.set_mode(SyncMode::Hardware);
    manager.start().unwrap();
    manager.trigger_at(1).unwrap();
    manager.stop().unwrap();
    manager.start().unwrap();
    assert_eq!(manager.trigger_count(), 0);
    assert_eq!(manager.get_mode(), SyncMode::Hardware);
    assert_eq!(manager.get_config().mode, SyncMode::Hardware);
}

#[test]
fn integer_square_root() {
    assert_eq!(isqrt(0), 0);
    assert_eq!(isqrt(1), 1);
    assert_eq!(isqrt(15), 3);
    assert_eq!(isqrt(16), 4);
    assert_eq!(isqrt(u128::MAX), u64::MAX);
}
