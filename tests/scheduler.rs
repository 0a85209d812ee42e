use heimdall::rt::{fifo_priority, RtConfig, RtContext};
use heimdall::scheduler::{apply_control, TaskAction, TaskContext, TaskControl, TaskState, TaskType};
use heimdall::types::RtPriority;

const MS: u64 = 1_000_000;

#[test]
fn test_task_context() {
    let mut config = RtConfig::default();
    config.period_ms = 100;
    let mut context = TaskContext::new(TaskType::Processing, config);

    assert_eq!(context.get_state(), TaskState::NotStarted);

    context.handle_control(TaskControl::Start);
    assert_eq!(context.get_state(), TaskState::Running);

    context.start_execution_at(1_000 * MS);
    let wait_time = context.time_until_next_execution_at(1_050 * MS).unwrap();
    assert!(wait_time / MS <= 50);
    assert_eq!(wait_time, 50 * MS);

    context.end_execution_at(1_060 * MS);
    assert_eq!(context.get_rt_stats().executions, 1);
}

#[test]
fn test_scheduler_basic() {
    // Drive one aperiodic task's loop by hand until its body has run ten times.
    let mut context = TaskContext::new(TaskType::Processing, RtConfig::default());
    let mut counter = 0;
    let mut now = 0u64;
    context.handle_control(TaskControl::Start);
    loop {
        match context.next_action(now) {
            TaskAction::Execute => {
                context.start_execution_at(now);
                counter += 1;
                now += 10 * MS;
                context.end_execution_at(now);
                if counter >= 10 {
                    context.handle_control(TaskControl::Stop);
                }
            }
            TaskAction::Exit => break,
            other => panic!("unexpected action {:?}", other),
        }
    }
    assert!(counter >= 10);
    assert_eq!(context.get_state(), TaskState::Finished);
}

#[test]
fn task_control_transitions() {
    assert_eq!(apply_control(TaskState::NotStarted, TaskControl::Start), TaskState::Running);
    assert_eq!(apply_control(TaskState::Running, TaskControl::Pause), TaskState::Paused);
    assert_eq!(apply_control(TaskState::Paused, TaskControl::Resume), TaskState::Running);
    assert_eq!(apply_control(TaskState::Paused, TaskControl::Stop), TaskState::Finished);
    assert_eq!(apply_control(TaskState::Error, TaskControl::Stop), TaskState::Finished);
    // Messages that do not apply are no-ops.
    assert_eq!(apply_control(TaskState::Running, TaskControl::Start), TaskState::Running);
    assert_eq!(apply_control(TaskState::NotStarted, TaskControl::Resume), TaskState::NotStarted);
    assert_eq!(apply_control(TaskState::Finished, TaskControl::Start), TaskState::Finished);
    assert_eq!(apply_control(TaskState::Paused, TaskControl::Reset), TaskState::Paused);
}

#[test]
fn task_body_failure_is_final() {
    let mut context = TaskContext::new(TaskType::Acquisition, RtConfig::default());
    context.handle_control(TaskControl::Start);
    context.record_body_result(true);
    assert_eq!(context.get_state(), TaskState::Running);
    context.record_body_result(false);
    assert_eq!(context.get_state(), TaskState::Error);
    assert_eq!(context.next_action(0), TaskAction::Exit);
}

#[test]
fn periodic_task_sleeps_until_absolute_deadline() {
    let mut config = RtConfig::default();
    config.period_ms = 10;
    let mut context = TaskContext::new(TaskType::Monitoring, config);
    assert_eq!(context.next_action(0), TaskAction::Idle);
    context.handle_control(TaskControl::Start);
    assert_eq!(context.next_action(0), TaskAction::Execute);
    context.start_execution_at(0);
    context.end_execution_at(2 * MS);
    assert_eq!(context.next_action(3 * MS), TaskAction::SleepNanos(7 * MS));
    // A late start does not shift the following deadlines.
    context.start_execution_at(13 * MS);
    context.end_execution_at(14 * MS);
    assert_eq!(context.next_action(15 * MS), TaskAction::SleepNanos(5 * MS));
}

#[test]
fn periodic_execution_count_matches_duration() {
    // Period 10 ms for 1 s: the task starts on each deadline until the run ends.
    let mut config = RtConfig::default();
    config.period_ms = 10;
    let mut context = TaskContext::new(TaskType::Monitoring, config);
    context.handle_control(TaskControl::Start);
    let mut now = 0u64;
    let end = 1_000 * MS;
    while now < end {
        match context.next_action(now) {
            TaskAction::Execute => {
                context.start_execution_at(now);
                context.end_execution_at(now + MS);
                now += MS;
            }
            TaskAction::SleepNanos(w) => now += w,
            other => panic!("unexpected action {:?}", other),
        }
    }
    let executions = context.get_rt_stats().executions;
    assert!(executions >= 99 && executions <= 101);
}

#[test]
fn rt_context_statistics() {
    let config = RtConfig {
        priority: RtPriority::High,
        period_ms: 10,
        deadline_ms: 2,
        cpu_affinity: vec![0],
        lock_memory: false,
        use_rt_scheduler: false,
    };
    let mut ctx = RtContext::new(config);
    ctx.start_execution_at(0);
    ctx.end_execution_at(MS);
    ctx.start_execution_at(10 * MS + 300);
    ctx.end_execution_at(13 * MS + 300);
    ctx.start_execution_at(20 * MS);
    ctx.end_execution_at(22 * MS);
    let stats = ctx.get_stats();
    assert_eq!(stats.executions, 3);
    assert_eq!(stats.deadline_misses, 1);
    assert_eq!(stats.min_execution_time.as_nanos(), MS);
    assert_eq!(stats.max_execution_time.as_nanos(), 3 * MS);
    assert_eq!(stats.avg_execution_time.as_nanos(), 2 * MS);
    assert_eq!(stats.min_jitter.as_nanos(), 0);
    assert_eq!(stats.max_jitter.as_nanos(), 300);
    assert_eq!(stats.avg_jitter.as_nanos(), 150);
    assert_eq!(ctx.get_config().deadline_ms, 2);
    ctx.reset_stats();
    assert_eq!(ctx.get_stats().executions, 0);
    ctx.start_execution();
    ctx.end_execution();
    assert_eq!(ctx.get_stats().executions, 1);
}

#[test]
fn priority_bands_map_to_fifo_levels() {
    assert_eq!(fifo_priority(RtPriority::Low), 1);
    assert_eq!(fifo_priority(RtPriority::Normal), 50);
    assert_eq!(fifo_priority(RtPriority::High), 80);
    assert_eq!(fifo_priority(RtPriority::Critical), 99);
}
