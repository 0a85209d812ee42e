//! Task lifecycle: control messages, body outcomes, and the decision of what
//! a task's thread does next. The thread loop itself lives with the caller,
//! which performs each decision and reports back.

use vstd::prelude::*;
use crate::rt::{RtConfig, RtContext, RtStats};

verus! {

/// Role of a task in the pipeline.
#[derive(Clone, Copy, Debug, PartialEq, Eq, Structural, Hash)]
pub enum TaskType {
    Acquisition,
    Processing,
    Monitoring,
}

/// Runtime state of a task.
#[derive(Clone, Copy, Debug, PartialEq, Eq, Structural, Hash)]
pub enum TaskState {
    NotStarted,
    Running,
    Paused,
    Finished,
    Error,
}

/// Control messages a task accepts.
#[derive(Clone, Copy, Debug, PartialEq, Eq, Structural, Hash)]
pub enum TaskControl {
    Start,
    Pause,
    Resume,
    Stop,
    Reset,
}

/// The state after `control`: Start leaves NotStarted for Running, Pause
/// leaves Running for Paused, Resume leaves Paused for Running, Stop ends any
/// state in Finished; every other pairing leaves the state as it is.
pub open spec fn control_transition(state: TaskState, control: TaskControl) -> TaskState {
    match (state, control) {
        (TaskState::NotStarted, TaskControl::Start) => TaskState::Running,
        (TaskState::Running, TaskControl::Pause) => TaskState::Paused,
        (TaskState::Paused, TaskControl::Resume) => TaskState::Running,
        (_, TaskControl::Stop) => TaskState::Finished,
        _ => state,
    }
}

/// Applies a control message to a task state.
pub fn apply_control(state: TaskState, control: TaskControl) -> (r: TaskState)
    ensures
        r == control_transition(state, control),
{
    match (state, control) {
        (TaskState::NotStarted, TaskControl::Start) => TaskState::Running,
        (TaskState::Running, TaskControl::Pause) => TaskState::Paused,
        (TaskState::Paused, TaskControl::Resume) => TaskState::Running,
        (_, TaskControl::Stop) => TaskState::Finished,
        _ => state,
    }
}

/// What a task's thread does next.
#[derive(Clone, Copy, Debug, PartialEq, Eq, Structural)]
pub enum TaskAction {
    /// Leave the loop: the task finished or failed.
    Exit,
    /// Wait for a control message: the task is not running.
    Idle,
    /// Sleep this many nanoseconds, then ask again.
    SleepNanos(u64),
    /// Run the body once now.
    Execute,
}

/// A task's identity, state and real-time accounting.
pub struct TaskContext {
    task_type: TaskType,
    state: TaskState,
    rt: RtContext,
    period_ms: u64,
}

impl TaskContext {
    pub closed spec fn task_type_spec(&self) -> TaskType {
        self.task_type
    }

    pub closed spec fn state_spec(&self) -> TaskState {
        self.state
    }

    pub closed spec fn rt_spec(&self) -> RtContext {
        self.rt
    }

    pub closed spec fn period_ms_spec(&self) -> u64 {
        self.period_ms
    }

    pub closed spec fn wf(&self) -> bool {
        &&& self.rt.wf()
        &&& self.period_ms == self.rt.config_spec().period_ms
    }

    /// A task that has not started yet.
    pub fn new(task_type: TaskType, rt_config: RtConfig) -> (r: Self)
        requires
            rt_config.wf(),
        ensures
            r.wf(),
            r.task_type_spec() == task_type,
            r.state_spec() == TaskState::NotStarted,
            r.period_ms_spec() == rt_config.period_ms,
            r.rt_spec().config_spec() == rt_config,
            r.rt_spec().stats_spec() == RtStats::empty_spec(),
            r.rt_spec().next_deadline() is None,
    {
        let period_ms = rt_config.period_ms;
        TaskContext { task_type, state: TaskState::NotStarted, rt: RtContext::new(rt_config), period_ms }
    }

    pub fn task_type(&self) -> (r: TaskType)
        ensures
            r == self.task_type_spec(),
    {
        self.task_type
    }

    pub fn get_state(&self) -> (r: TaskState)
        ensures
            r == self.state_spec(),
    {
        self.state
    }

    pub fn get_rt_stats(&self) -> (r: RtStats)
        ensures
            r == self.rt_spec().stats_spec(),
    {
        self.rt.get_stats()
    }

    /// Applies a control message; Reset clears the statistics and keeps the state.
    pub fn handle_control(&mut self, control: TaskControl)
        requires
            old(self).wf(),
        ensures
            final(self).wf(),
            final(self).task_type_spec() == old(self).task_type_spec(),
            final(self).period_ms_spec() == old(self).period_ms_spec(),
            final(self).state_spec() == control_transition(old(self).state_spec(), control),
            final(self).rt_spec().config_spec() == old(self).rt_spec().config_spec(),
            control == TaskControl::Reset ==> final(self).rt_spec().stats_spec()
                == RtStats::empty_spec(),
            control != TaskControl::Reset ==> final(self).rt_spec() == old(self).rt_spec(),
    {
        self.state = apply_control(self.state, control);
        if control == TaskControl::Reset {
            self.rt.reset_stats();
        }
    }

    /// Records the outcome of one run of the body: a failure puts the task
    /// in Error for good, a success leaves the state alone.
    pub fn record_body_result(&mut self, succeeded: bool)
        ensures
            final(self).task_type_spec() == old(self).task_type_spec(),
            final(self).period_ms_spec() == old(self).period_ms_spec(),
            final(self).rt_spec() == old(self).rt_spec(),
            final(self).state_spec() == (if succeeded {
                old(self).state_spec()
            } else {
                TaskState::Error
            }),
            final(self).wf() == old(self).wf(),
    {
        if !succeeded {
            self.state = TaskState::Error;
        }
    }

    /// Nanoseconds to wait before the next run at `now`: none for an
    /// aperiodic task, zero before the first run or once the deadline passed.
    pub fn time_until_next_execution_at(&self, now: u64) -> (r: Option<u64>)
        requires
            self.wf(),
        ensures
            self.period_ms_spec() == 0 <==> r is None,
            r matches Some(w) ==> w == match self.rt_spec().next_deadline() {
                Some(d) => if now < d {
                    d - now
                } else {
                    0
                },
                None => 0,
            },
    {
        if self.period_ms == 0 {
            return None;
        }
        match self.rt.next_deadline_value() {
            Some(d) => {
                if now < d {
                    Some(d - now)
                } else {
                    Some(0)
                }
            },
            None => Some(0),
        }
    }

    /// What the thread does next at `now`: leave once finished or failed,
    /// idle unless running, sleep until the next deadline, or run the body.
    pub fn next_action(&self, now: u64) -> (r: TaskAction)
        requires
            self.wf(),
        ensures
            (self.state_spec() == TaskState::Finished || self.state_spec() == TaskState::Error)
                <==> r == TaskAction::Exit,
            (self.state_spec() == TaskState::NotStarted || self.state_spec() == TaskState::Paused)
                <==> r == TaskAction::Idle,
            self.state_spec() == TaskState::Running ==> match self.rt_spec().next_deadline() {
                Some(d) => if self.period_ms_spec() > 0 && now < d {
                    r == TaskAction::SleepNanos((d - now) as u64)
                } else {
                    r == TaskAction::Execute
                },
                None => r == TaskAction::Execute,
            },
    {
        match self.state {
            TaskState::Finished | TaskState::Error => TaskAction::Exit,
            TaskState::NotStarted | TaskState::Paused => TaskAction::Idle,
            TaskState::Running => {
                match self.time_until_next_execution_at(now) {
                    Some(w) => {
                        if w > 0 {
                            TaskAction::SleepNanos(w)
                        } else {
                            TaskAction::Execute
                        }
                    },
                    None => TaskAction::Execute,
                }
            },
        }
    }

    /// Marks the start of a run at `now`.
    pub fn start_execution_at(&mut self, now: u64)
        requires
            old(self).wf(),
        ensures
            final(self).wf(),
            final(self).task_type_spec() == old(self).task_type_spec(),
            final(self).state_spec() == old(self).state_spec(),
            final(self).period_ms_spec() == old(self).period_ms_spec(),
            RtContext::start_marked(old(self).rt_spec(), final(self).rt_spec(), now),
    {
        self.rt.start_execution_at(now);
    }

    /// Marks the end of a run at `now`.
    pub fn end_execution_at(&mut self, now: u64)
        requires
            old(self).wf(),
        ensures
            final(self).wf(),
            final(self).task_type_spec() == old(self).task_type_spec(),
            final(self).state_spec() == old(self).state_spec(),
            final(self).period_ms_spec() == old(self).period_ms_spec(),
            RtContext::end_marked(old(self).rt_spec(), final(self).rt_spec(), now),
    {
        self.rt.end_execution_at(now);
    }
}

} // verus!
