//! The acquisition pipeline: lifecycle, the acquisition and processing steps
//! that move frames through the ring, desynchronisation recovery, and the
//! monitor's checks. Threads, cameras and processor callbacks are driven by the
//! caller, which hands each step plain values and acts on what it returns.

use vstd::prelude::*;
use crate::buffer::{ImageSlot, LockFreeRingBuffer};
use crate::metrics::{PipelineMetrics, PipelineStats};
use crate::rt::RtConfig;
use crate::scheduler::{control_transition, TaskContext, TaskControl, TaskState, TaskType};
use crate::timestamp::Timestamp;
use crate::types::{
    format_tag_of, CameraFrame, PipelineConfig, PipelineError, PipelineState, RtPriority,
};

verus! {

/// A frame as handed to processor callbacks.
#[derive(Clone, Debug)]
pub struct PipelineImage {
    pub data: Vec<u8>,
    pub width: u32,
    pub height: u32,
    pub format: u32,
    pub timestamp: Timestamp,
    pub sequence: u64,
    pub metadata: Vec<(String, String)>,
}

/// The first `n` bytes of `src`.
fn copy_bytes(src: &[u8], n: usize) -> (r: Vec<u8>)
    requires
        n <= src@.len(),
    ensures
        r@ == src@.subrange(0, n as int),
{
    let mut out: Vec<u8> = Vec::with_capacity(n);
    let mut i: usize = 0;
    while i < n
        invariant
            i <= n,
            n <= src@.len(),
            out@ == src@.subrange(0, i as int),
        decreases n - i,
    {
        out.push(src[i]);
        i = i + 1;
        assert(out@ =~= src@.subrange(0, i as int));
    }
    out
}

impl PipelineImage {
    /// The image of a camera frame under sequence number `sequence`.
    pub fn from_camera_frame(frame: &CameraFrame, sequence: u64) -> (r: PipelineImage)
        ensures
            r.data@ == frame.data@,
            r.width == frame.width,
            r.height == frame.height,
            r.format == format_tag_of(frame.pixel_format),
            r.timestamp == frame.timestamp,
            r.sequence == sequence,
    {
        let data = copy_bytes(frame.data.as_slice(), frame.data.len());
        assert(frame.data@.subrange(0, frame.data@.len() as int) =~= frame.data@);
        PipelineImage {
            data,
            width: frame.width,
            height: frame.height,
            format: frame.pixel_format.tag(),
            timestamp: frame.timestamp,
            sequence,
            metadata: frame.metadata.clone(),
        }
    }

    /// The image held by a slot: its meaningful bytes and its header.
    pub fn from_buffer_slot(slot: &ImageSlot) -> (r: PipelineImage)
        requires
            slot.size <= slot.data@.len(),
        ensures
            r.data@ == slot.data@.subrange(0, slot.size as int),
            r.width == slot.width,
            r.height == slot.height,
            r.format == slot.format,
            r.timestamp == slot.timestamp,
            r.sequence == slot.sequence,
            r.metadata@.len() == 0,
    {
        PipelineImage {
            data: copy_bytes(slot.data.as_slice(), slot.size),
            width: slot.width,
            height: slot.height,
            format: slot.format,
            timestamp: slot.timestamp,
            sequence: slot.sequence,
            metadata: Vec::new(),
        }
    }
}

} // verus!

verus! {

/// The CPU list of the `i`-th task: the `i`-th requested CPU, if there is one.
pub open spec fn pinned(affinity: Seq<usize>, i: int) -> Seq<usize> {
    if 0 <= i < affinity.len() {
        seq![affinity[i]]
    } else {
        Seq::empty()
    }
}

/// `c` holds the settings of the `i`-th acquisition task.
pub open spec fn acquisition_config_ok(c: RtConfig, config: PipelineConfig, i: int) -> bool {
    &&& c.priority == config.acquisition_priority
    &&& c.period_ms == 0
    &&& c.deadline_ms == 0
    &&& c.cpu_affinity@ == pinned(config.acquisition_cpu_affinity@, i)
    &&& c.lock_memory
    &&& c.use_rt_scheduler
}

/// `c` holds the settings of the `i`-th processing task.
pub open spec fn processing_config_ok(c: RtConfig, config: PipelineConfig, i: int) -> bool {
    &&& c.priority == config.processing_priority
    &&& c.period_ms == 0
    &&& c.deadline_ms == 0
    &&& c.cpu_affinity@ == pinned(config.processing_cpu_affinity@, i)
    &&& c.lock_memory
    &&& c.use_rt_scheduler
}

/// `c` holds the monitor's settings.
pub open spec fn monitoring_config_ok(c: RtConfig, config: PipelineConfig) -> bool {
    &&& c.priority == RtPriority::Normal
    &&& c.period_ms == config.metrics_interval_ms
    &&& c.deadline_ms == 0
    &&& c.cpu_affinity@.len() == 0
    &&& !c.lock_memory
    &&& !c.use_rt_scheduler
}

fn pin_for(affinity: &Vec<usize>, i: usize) -> (r: Vec<usize>)
    ensures
        r@ == pinned(affinity@, i as int),
{
    let mut r: Vec<usize> = Vec::new();
    if i < affinity.len() {
        r.push(affinity[i]);
    }
    assert(r@ =~= pinned(affinity@, i as int));
    r
}

/// Real-time settings of the `i`-th acquisition task: aperiodic, memory
/// locked, on the real-time scheduler, pinned to the `i`-th acquisition CPU.
pub fn acquisition_task_config(config: &PipelineConfig, i: usize) -> (r: RtConfig)
    ensures
        r.wf(),
        r.priority == config.acquisition_priority,
        r.period_ms == 0,
        r.deadline_ms == 0,
        r.cpu_affinity@ == pinned(config.acquisition_cpu_affinity@, i as int),
        r.lock_memory,
        r.use_rt_scheduler,
        acquisition_config_ok(r, *config, i as int),
{
    RtConfig {
        priority: config.acquisition_priority,
        period_ms: 0,
        deadline_ms: 0,
        cpu_affinity: pin_for(&config.acquisition_cpu_affinity, i),
        lock_memory: true,
        use_rt_scheduler: true,
    }
}

/// Real-time settings of the `i`-th processing task: aperiodic, memory
/// locked, on the real-time scheduler, pinned to the `i`-th processing CPU.
pub fn processing_task_config(config: &PipelineConfig, i: usize) -> (r: RtConfig)
    ensures
        r.wf(),
        r.priority == config.processing_priority,
        r.period_ms == 0,
        r.deadline_ms == 0,
        r.cpu_affinity@ == pinned(config.processing_cpu_affinity@, i as int),
        r.lock_memory,
        r.use_rt_scheduler,
        processing_config_ok(r, *config, i as int),
{
    RtConfig {
        priority: config.processing_priority,
        period_ms: 0,
        deadline_ms: 0,
        cpu_affinity: pin_for(&config.processing_cpu_affinity, i),
        lock_memory: true,
        use_rt_scheduler: true,
    }
}

/// Real-time settings of the monitor: normal priority, one run per metrics
/// interval, unpinned, neither memory locked nor on the real-time scheduler.
pub fn monitoring_task_config(config: &PipelineConfig) -> (r: RtConfig)
    requires
        config.is_valid(),
    ensures
        r.wf(),
        r.priority == RtPriority::Normal,
        r.period_ms == config.metrics_interval_ms,
        r.deadline_ms == 0,
        r.cpu_affinity@.len() == 0,
        !r.lock_memory,
        !r.use_rt_scheduler,
        monitoring_config_ok(r, *config),
{
    RtConfig {
        priority: RtPriority::Normal,
        period_ms: config.metrics_interval_ms,
        deadline_ms: 0,
        cpu_affinity: Vec::new(),
        lock_memory: false,
        use_rt_scheduler: false,
    }
}

/// The CPUs of `requested` that exist on a machine with `cpu_count` CPUs, in
/// order. When none exists the result is empty and the task runs unpinned.
pub fn effective_affinity(requested: &Vec<usize>, cpu_count: usize) -> (r: Vec<usize>)
    ensures
        r@ == requested@.filter(|c: usize| c < cpu_count),
        (forall|k: int| 0 <= k < requested@.len() ==> requested@[k] >= cpu_count) ==> r@.len()
            == 0,
{
    let mut r: Vec<usize> = Vec::new();
    let mut i: usize = 0;
    while i < requested.len()
        invariant
            i <= requested@.len(),
            r@ == requested@.subrange(0, i as int).filter(|c: usize| c < cpu_count),
        decreases requested@.len() - i,
    {
        reveal_with_fuel(Seq::filter, 1);
        assert(requested@.subrange(0, i + 1).drop_last() =~= requested@.subrange(0, i as int));
        if requested[i] < cpu_count {
            r.push(requested[i]);
        }
        i = i + 1;
    }
    assert(requested@.subrange(0, requested@.len() as int) =~= requested@);
    proof {
        if forall|k: int| 0 <= k < requested@.len() ==> requested@[k] >= cpu_count {
            lemma_filter_none(requested@, cpu_count);
        }
    }
    r
}

proof fn lemma_filter_none(s: Seq<usize>, cpu_count: usize)
    requires
        forall|k: int| 0 <= k < s.len() ==> s[k] >= cpu_count,
    ensures
        s.filter(|c: usize| c < cpu_count).len() == 0,
    decreases s.len(),
{
    reveal_with_fuel(Seq::filter, 1);
    if s.len() > 0 {
        lemma_filter_none(s.drop_last(), cpu_count);
    }
}

} // verus!

verus! {

/// Tasks for `camera_count` cameras: one acquisition task per camera, then
/// the processing tasks, then the monitor, none of them started.
pub open spec fn task_plan_ok(config: PipelineConfig, camera_count: nat, tasks: Seq<TaskContext>) -> bool {
    &&& tasks.len() == camera_count + config.processing_threads + 1
    &&& forall|k: int|
        0 <= k < tasks.len() ==> {
            &&& (#[trigger] tasks[k]).wf()
            &&& tasks[k].state_spec() == TaskState::NotStarted
            &&& tasks[k].rt_spec().stats_spec() == crate::rt::RtStats::empty_spec()
            &&& (if k < camera_count {
                acquisition_config_ok(tasks[k].rt_spec().config_spec(), config, k)
            } else if k < camera_count + config.processing_threads {
                processing_config_ok(tasks[k].rt_spec().config_spec(), config, k - camera_count)
            } else {
                monitoring_config_ok(tasks[k].rt_spec().config_spec(), config)
            })
            &&& tasks[k].task_type_spec() == (if k < camera_count {
                TaskType::Acquisition
            } else if k < camera_count + config.processing_threads {
                TaskType::Processing
            } else {
                TaskType::Monitoring
            })
        }
}

fn build_tasks(config: &PipelineConfig, camera_count: usize) -> (r: Vec<TaskContext>)
    requires
        config.is_valid(),
        camera_count <= crate::types::MAX_ACQUISITION_THREADS,
    ensures
        task_plan_ok(*config, camera_count as nat, r@),
{
    let mut tasks: Vec<TaskContext> = Vec::new();
    let mut i: usize = 0;
    while i < camera_count
        invariant
            i <= camera_count,
            tasks@.len() == i,
            forall|k: int|
                0 <= k < i ==> (#[trigger] tasks@[k]).wf() && tasks@[k].state_spec()
                    == TaskState::NotStarted && tasks@[k].task_type_spec() == TaskType::Acquisition
                    && tasks@[k].rt_spec().stats_spec() == crate::rt::RtStats::empty_spec()
                    && acquisition_config_ok(tasks@[k].rt_spec().config_spec(), *config, k),
        decreases camera_count - i,
    {
        tasks.push(TaskContext::new(TaskType::Acquisition, acquisition_task_config(config, i)));
        i = i + 1;
    }
    let mut j: usize = 0;
    while j < config.processing_threads
        invariant
            config.is_valid(),
            camera_count <= crate::types::MAX_ACQUISITION_THREADS,
            j <= config.processing_threads,
            tasks@.len() == camera_count + j,
            forall|k: int|
                0 <= k < camera_count + j ==> (#[trigger] tasks@[k]).wf() && tasks@[k].state_spec()
                    == TaskState::NotStarted && tasks@[k].rt_spec().stats_spec()
                    == crate::rt::RtStats::empty_spec() && tasks@[k].task_type_spec() == (if k
                    < camera_count {
                    TaskType::Acquisition
                } else {
                    TaskType::Processing
                }) && (if k < camera_count {
                    acquisition_config_ok(tasks@[k].rt_spec().config_spec(), *config, k)
                } else {
                    processing_config_ok(tasks@[k].rt_spec().config_spec(), *config, k - camera_count)
                }),
        decreases config.processing_threads - j,
    {
        tasks.push(TaskContext::new(TaskType::Processing, processing_task_config(config, j)));
        j = j + 1;
    }
    tasks.push(TaskContext::new(TaskType::Monitoring, monitoring_task_config(config)));
    tasks
}

/// Delivers `control` to every task.
fn broadcast(tasks: &mut Vec<TaskContext>, control: TaskControl)
    requires
        forall|k: int| 0 <= k < old(tasks)@.len() ==> (#[trigger] old(tasks)@[k]).wf(),
    ensures
        final(tasks)@.len() == old(tasks)@.len(),
        forall|k: int|
            0 <= k < final(tasks)@.len() ==> {
                &&& (#[trigger] final(tasks)@[k]).wf()
                &&& final(tasks)@[k].state_spec() == control_transition(
                    old(tasks)@[k].state_spec(),
                    control,
                )
                &&& final(tasks)@[k].task_type_spec() == old(tasks)@[k].task_type_spec()
                &&& control != TaskControl::Reset ==> final(tasks)@[k].rt_spec() == old(tasks)@[k].rt_spec()
            },
{
    let mut i: usize = 0;
    while i < tasks.len()
        invariant
            i <= tasks@.len(),
            tasks@.len() == old(tasks)@.len(),
            forall|k: int|
                0 <= k < tasks@.len() ==> {
                    &&& (#[trigger] tasks@[k]).wf()
                    &&& tasks@[k].task_type_spec() == old(tasks)@[k].task_type_spec()
                    &&& control != TaskControl::Reset ==> tasks@[k].rt_spec() == old(tasks)@[k].rt_spec()
                    &&& tasks@[k].state_spec() == (if k < i {
                        control_transition(old(tasks)@[k].state_spec(), control)
                    } else {
                        old(tasks)@[k].state_spec()
                    })
                },
        decreases tasks@.len() - i,
    {
        tasks[i].handle_control(control);
        i = i + 1;
    }
}

/// The acquisition pipeline.
pub struct AcquisitionPipeline {
    config: PipelineConfig,
    state: PipelineState,
    buffer: LockFreeRingBuffer,
    metrics: PipelineMetrics,
    tasks: Vec<TaskContext>,
    camera_count: usize,
    sequence_counter: u64,
    last_acquisition: Option<Timestamp>,
    last_processing: Option<Timestamp>,
    processor_count: usize,
    processing_errors: u64,
    stats: PipelineStats,
}

impl AcquisitionPipeline {
    pub closed spec fn config_spec(&self) -> PipelineConfig {
        self.config
    }

    pub closed spec fn state_spec(&self) -> PipelineState {
        self.state
    }

    pub closed spec fn buffer_spec(&self) -> LockFreeRingBuffer {
        self.buffer
    }

    pub closed spec fn metrics_spec(&self) -> PipelineMetrics {
        self.metrics
    }

    pub closed spec fn tasks_spec(&self) -> Seq<TaskContext> {
        self.tasks@
    }

    pub closed spec fn camera_count_spec(&self) -> nat {
        self.camera_count as nat
    }

    /// The last sequence number handed out.
    pub closed spec fn sequence_spec(&self) -> u64 {
        self.sequence_counter
    }

    pub closed spec fn last_acquisition_spec(&self) -> Option<Timestamp> {
        self.last_acquisition
    }

    pub closed spec fn last_processing_spec(&self) -> Option<Timestamp> {
        self.last_processing
    }

    pub closed spec fn processor_count_spec(&self) -> nat {
        self.processor_count as nat
    }

    /// Failures reported by processor callbacks.
    pub closed spec fn processing_errors_spec(&self) -> u64 {
        self.processing_errors
    }

    pub closed spec fn stats_spec(&self) -> PipelineStats {
        self.stats
    }

    pub closed spec fn wf(&self) -> bool {
        &&& self.config.is_valid()
        &&& self.buffer.wf()
        &&& self.metrics.wf()
        &&& self.buffer.capacity_spec() == self.config.buffer_capacity
        &&& self.buffer.max_image_size_spec() == self.config.max_image_size
        &&& self.buffer.strategy_spec() == self.config.overflow_strategy
        &&& self.camera_count <= crate::types::MAX_ACQUISITION_THREADS
        &&& forall|k: int| 0 <= k < self.tasks@.len() ==> (#[trigger] self.tasks@[k]).wf()
        &&& (self.state == PipelineState::Uninitialized) == (self.tasks@.len() == 0)
        &&& self.state != PipelineState::Uninitialized ==> self.tasks@.len() == self.camera_count
            + self.config.processing_threads + 1
        &&& self.state == PipelineState::Ready ==> forall|k: int|
            0 <= k < self.tasks@.len() ==> (#[trigger] self.tasks@[k]).state_spec()
                == TaskState::NotStarted
    }

    /// `post` is `pre` after a successful `stop`.
    pub open spec fn stopped(pre: Self, post: Self) -> bool {
        &&& post.state_spec() == PipelineState::Stopped
        &&& post.config_spec() == pre.config_spec()
        &&& post.buffer_spec() == pre.buffer_spec()
        &&& post.camera_count_spec() == pre.camera_count_spec()
        &&& post.tasks_spec().len() == pre.tasks_spec().len()
        &&& forall|k: int|
            0 <= k < post.tasks_spec().len() ==> (#[trigger] post.tasks_spec()[k]).state_spec()
                == TaskState::Finished
    }

    /// `post` is `pre` after a successful `start`.
    pub open spec fn started(pre: Self, post: Self) -> bool {
        &&& post.state_spec() == PipelineState::Running
        &&& post.config_spec() == pre.config_spec()
        &&& post.buffer_spec() == pre.buffer_spec()
        &&& post.camera_count_spec() == pre.camera_count_spec()
        &&& post.tasks_spec().len() == pre.tasks_spec().len()
        &&& pre.state_spec() != PipelineState::Paused ==> forall|k: int|
            0 <= k < post.tasks_spec().len() ==> (#[trigger] post.tasks_spec()[k]).state_spec()
                == TaskState::Running
        &&& pre.state_spec() == PipelineState::Stopped ==> forall|k: int|
            0 <= k < post.tasks_spec().len() ==> (#[trigger] post.tasks_spec()[k]).rt_spec().stats_spec()
                == crate::rt::RtStats::empty_spec()
        &&& pre.state_spec() == PipelineState::Paused ==> forall|k: int|
            0 <= k < post.tasks_spec().len() ==> (#[trigger] post.tasks_spec()[k]).state_spec()
                == control_transition(pre.tasks_spec()[k].state_spec(), TaskControl::Resume)
    }

    /// A pipeline for `config`, which must pass the configuration checks.
    pub fn new(config: PipelineConfig) -> (r: Result<Self, PipelineError>)
        ensures
            r is Ok <==> config.is_valid(),
            r matches Err(e) ==> e is ConfigError,
            r matches Ok(p) ==> {
                &&& p.wf()
                &&& p.config_spec() == config
                &&& p.state_spec() == PipelineState::Uninitialized
                &&& p.buffer_spec().len_spec() == 0
                &&& p.buffer_spec().produced_spec() == 0
                &&& p.buffer_spec().discarded_spec() == 0
                &&& p.metrics_spec().acquired() == 0
                &&& p.metrics_spec().processed() == 0
                &&& p.metrics_spec().desyncs() == 0
                &&& p.metrics_spec().recoveries() == 0
                &&& p.sequence_spec() == 0
                &&& p.processor_count_spec() == 0
                &&& p.tasks_spec().len() == 0
            },
    {
        match config.validate() {
            Err(e) => Err(e),
            Ok(()) => {
                let buffer = LockFreeRingBuffer::new(
                    config.buffer_capacity,
                    config.max_image_size,
                    config.overflow_strategy,
                );
                let metrics = PipelineMetrics::new();
                let stats = metrics.get_stats();
                Ok(AcquisitionPipeline {
                    config,
                    state: PipelineState::Uninitialized,
                    buffer,
                    metrics,
                    tasks: Vec::new(),
                    camera_count: 0,
                    sequence_counter: 0,
                    last_acquisition: None,
                    last_processing: None,
                    processor_count: 0,
                    processing_errors: 0,
                    stats,
                })
            },
        }
    }

    /// Sets up the tasks for `camera_count` initialized cameras: one
    /// acquisition task per camera, the configured processing tasks and one
    /// monitor. Only an uninitialized pipeline with at least one camera, and no
    /// more cameras than acquisition threads, becomes Ready.
    pub fn initialize(&mut self, camera_count: usize) -> (r: Result<(), PipelineError>)
        requires
            old(self).wf(),
        ensures
            final(self).wf(),
            r is Ok <==> old(self).state_spec() == PipelineState::Uninitialized && 1 <= camera_count
                <= old(self).config_spec().acquisition_threads,
            r matches Err(e) ==> e is InitError && *final(self) == *old(self),
            r is Ok ==> {
                &&& final(self).state_spec() == PipelineState::Ready
                &&& final(self).camera_count_spec() == camera_count
                &&& task_plan_ok(final(self).config_spec(), camera_count as nat, final(self).tasks_spec())
                &&& final(self).config_spec() == old(self).config_spec()
                &&& final(self).buffer_spec() == old(self).buffer_spec()
            },
    {
        if self.state != PipelineState::Uninitialized {
            return Err(PipelineError::InitError("pipeline already initialized".to_string()));
        }
        if camera_count == 0 || camera_count > self.config.acquisition_threads {
            return Err(PipelineError::InitError("camera count out of range".to_string()));
        }
        self.tasks = build_tasks(&self.config, camera_count);
        self.camera_count = camera_count;
        self.state = PipelineState::Ready;
        Ok(())
    }

    /// Starts or resumes the pipeline. From Ready every task receives Start;
    /// from Stopped the tasks are rebuilt with fresh statistics and receive
    /// Start; from Paused every task receives Resume. Other states are refused.
    pub fn start(&mut self) -> (r: Result<(), PipelineError>)
        requires
            old(self).wf(),
        ensures
            final(self).wf(),
            r is Ok <==> (old(self).state_spec() == PipelineState::Ready || old(self).state_spec()
                == PipelineState::Paused || old(self).state_spec() == PipelineState::Stopped),
            r matches Err(e) ==> e is InitError && *final(self) == *old(self),
            r is Ok ==> Self::started(*old(self), *final(self)),
    {
        match self.state {
            PipelineState::Ready => {
                broadcast(&mut self.tasks, TaskControl::Start);
            },
            PipelineState::Stopped => {
                self.tasks = build_tasks(&self.config, self.camera_count);
                broadcast(&mut self.tasks, TaskControl::Start);
            },
            PipelineState::Paused => {
                broadcast(&mut self.tasks, TaskControl::Resume);
            },
            _ => {
                return Err(PipelineError::InitError("pipeline not ready to start".to_string()));
            },
        }
        self.state = PipelineState::Running;
        Ok(())
    }

    /// Pauses a running pipeline; every task receives Pause.
    pub fn pause(&mut self) -> (r: Result<(), PipelineError>)
        requires
            old(self).wf(),
        ensures
            final(self).wf(),
            r is Ok <==> old(self).state_spec() == PipelineState::Running,
            r matches Err(e) ==> e is InitError && *final(self) == *old(self),
            r is Ok ==> {
                &&& final(self).state_spec() == PipelineState::Paused
                &&& final(self).config_spec() == old(self).config_spec()
                &&& final(self).buffer_spec() == old(self).buffer_spec()
                &&& final(self).tasks_spec().len() == old(self).tasks_spec().len()
                &&& forall|k: int|
                    0 <= k < final(self).tasks_spec().len() ==> (#[trigger] final(self).tasks_spec()[k]).state_spec() == control_transition(
                        old(self).tasks_spec()[k].state_spec(),
                        TaskControl::Pause,
                    )
            },
    {
        if self.state != PipelineState::Running {
            return Err(PipelineError::InitError("pipeline not running".to_string()));
        }
        broadcast(&mut self.tasks, TaskControl::Pause);
        self.state = PipelineState::Paused;
        Ok(())
    }

    /// Stops a running, paused or failed pipeline; every task receives Stop
    /// and finishes.
    pub fn stop(&mut self) -> (r: Result<(), PipelineError>)
        requires
            old(self).wf(),
        ensures
            final(self).wf(),
            r is Ok <==> (old(self).state_spec() == PipelineState::Running || old(self).state_spec()
                == PipelineState::Paused || old(self).state_spec() == PipelineState::Error),
            r matches Err(e) ==> e is InitError && *final(self) == *old(self),
            r is Ok ==> Self::stopped(*old(self), *final(self)),
    {
        if self.state != PipelineState::Running && self.state != PipelineState::Paused
            && self.state != PipelineState::Error {
            return Err(PipelineError::InitError("pipeline neither running nor paused".to_string()));
        }
        broadcast(&mut self.tasks, TaskControl::Stop);
        self.state = PipelineState::Stopped;
        Ok(())
    }

    /// Puts the pipeline in Error after a fatal failure (all cameras down, a
    /// task that cannot be spawned); only `stop` is accepted afterwards.
    pub fn fail(&mut self)
        requires
            old(self).wf(),
        ensures
            final(self).wf(),
            old(self).state_spec() != PipelineState::Uninitialized ==> final(self).state_spec()
                == PipelineState::Error,
            old(self).state_spec() == PipelineState::Uninitialized ==> *final(self) == *old(self),
            final(self).buffer_spec() == old(self).buffer_spec(),
            final(self).tasks_spec() == old(self).tasks_spec(),
    {
        if self.state != PipelineState::Uninitialized {
            self.state = PipelineState::Error;
        }
    }

    /// Clears the ring, the metrics' windows and histograms, the sequence
    /// counter and the last activity times, rebuilds the tasks, and makes the
    /// pipeline Ready. Refused while uninitialized, running or failed.
    pub fn reset(&mut self) -> (r: Result<(), PipelineError>)
        requires
            old(self).wf(),
        ensures
            final(self).wf(),
            r is Ok <==> old(self).state_spec() != PipelineState::Uninitialized && old(self).state_spec()
                != PipelineState::Running && old(self).state_spec() != PipelineState::Error,
            r matches Err(e) ==> e is InitError && *final(self) == *old(self),
            r is Ok ==> {
                &&& final(self).state_spec() == PipelineState::Ready
                &&& final(self).config_spec() == old(self).config_spec()
                &&& final(self).buffer_spec().len_spec() == 0
                &&& final(self).buffer_spec().produced_spec() == old(self).buffer_spec().produced_spec()
                &&& final(self).buffer_spec().consumed_spec() == old(self).buffer_spec().consumed_spec()
                &&& final(self).buffer_spec().dropped_spec() == old(self).buffer_spec().dropped_spec()
                &&& final(self).metrics_spec().same_counters(&old(self).metrics_spec())
                &&& final(self).sequence_spec() == 0
                &&& final(self).last_acquisition_spec() is None
                &&& final(self).last_processing_spec() is None
                &&& task_plan_ok(final(self).config_spec(), final(self).camera_count_spec(), final(self).tasks_spec())
            },
    {
        if self.state == PipelineState::Uninitialized || self.state == PipelineState::Running
            || self.state == PipelineState::Error {
            return Err(PipelineError::InitError("pipeline cannot be reset in this state".to_string()));
        }
        self.buffer.reset();
        self.metrics.reset();
        self.sequence_counter = 0;
        self.last_acquisition = None;
        self.last_processing = None;
        self.tasks = build_tasks(&self.config, self.camera_count);
        self.state = PipelineState::Ready;
        Ok(())
    }

    /// Replaces the configuration and rebuilds the ring (and the tasks, once
    /// initialized) to match it. Refused while running, paused or failed, for a
    /// configuration that fails the checks, and for one with fewer acquisition
    /// threads than initialized cameras.
    pub fn set_config(&mut self, config: PipelineConfig) -> (r: Result<(), PipelineError>)
        requires
            old(self).wf(),
        ensures
            final(self).wf(),
            r is Ok <==> old(self).state_spec() != PipelineState::Running && old(self).state_spec()
                != PipelineState::Paused && old(self).state_spec() != PipelineState::Error
                && config.is_valid() && old(self).camera_count_spec()
                <= config.acquisition_threads,
            r matches Err(e) ==> e is ConfigError && *final(self) == *old(self),
            r is Ok ==> {
                &&& final(self).config_spec() == config
                &&& final(self).state_spec() == old(self).state_spec()
                &&& final(self).buffer_spec().len_spec() == 0
                &&& final(self).buffer_spec().capacity_spec() == config.buffer_capacity
            },
    {
        if self.state == PipelineState::Running || self.state == PipelineState::Paused
            || self.state == PipelineState::Error {
            return Err(
                PipelineError::ConfigError("configuration cannot change in this state".to_string()),
            );
        }
        match config.validate() {
            Err(e) => {
                return Err(e);
            },
            Ok(()) => {},
        }
        if self.camera_count > config.acquisition_threads {
            return Err(
                PipelineError::ConfigError("fewer acquisition threads than cameras".to_string()),
            );
        }
        self.buffer = LockFreeRingBuffer::new(
            config.buffer_capacity,
            config.max_image_size,
            config.overflow_strategy,
        );
        if self.state != PipelineState::Uninitialized {
            self.tasks = build_tasks(&config, self.camera_count);
        }
        self.config = config;
        Ok(())
    }

    /// Reserves the next place in the processor registry, in registration
    /// order; refused while running.
    pub fn register_processor(&mut self) -> (r: Result<usize, PipelineError>)
        requires
            old(self).wf(),
        ensures
            final(self).wf(),
            r is Ok <==> old(self).state_spec() != PipelineState::Running
                && old(self).processor_count_spec() < usize::MAX,
            r matches Err(e) ==> e is ConfigError && *final(self) == *old(self),
            r matches Ok(k) ==> k == old(self).processor_count_spec() && final(self).processor_count_spec() == old(self).processor_count_spec() + 1,
            final(self).state_spec() == old(self).state_spec(),
    {
        if self.state == PipelineState::Running {
            return Err(
                PipelineError::ConfigError("processors cannot be added while running".to_string()),
            );
        }
        if self.processor_count == usize::MAX {
            return Err(PipelineError::ConfigError("processor registry full".to_string()));
        }
        let k = self.processor_count;
        self.processor_count = k + 1;
        Ok(k)
    }

    pub fn processor_count(&self) -> (r: usize)
        ensures
            r == self.processor_count_spec(),
    {
        self.processor_count
    }

    /// Acquisition step for a frame delivered at `now`: reserve a slot under
    /// the overflow policy, copy the frame in (cut to the slot's capacity),
    /// record its header, commit it under the next sequence number, and
    /// account for it. A refused reservation counts a dropped frame and an
    /// overflow. Outside Running nothing changes.
    pub fn acquire_frame(&mut self, frame: &CameraFrame, now: Timestamp) -> (r: Result<
        u64,
        PipelineError,
    >)
        requires
            old(self).wf(),
        ensures
            final(self).wf(),
            final(self).state_spec() == old(self).state_spec(),
            final(self).config_spec() == old(self).config_spec(),
            final(self).tasks_spec() == old(self).tasks_spec(),
            r is Ok <==> old(self).state_spec() == PipelineState::Running && old(self).sequence_spec()
                < u64::MAX && old(self).buffer_spec().reservation_succeeds(),
            (old(self).state_spec() != PipelineState::Running || old(self).sequence_spec() == u64::MAX)
                ==> (r matches Err(e) && e is AcquisitionError) && *final(self) == *old(self),
            old(self).state_spec() == PipelineState::Running && old(self).sequence_spec() < u64::MAX
                && r is Err ==> {
                &&& r matches Err(e) && e is BufferError
                &&& LockFreeRingBuffer::reserved(old(self).buffer_spec(), final(self).buffer_spec(), Err(r->Err_0))
                &&& final(self).metrics_spec().dropped() == crate::metrics::bump(old(self).metrics_spec().dropped())
                &&& final(self).metrics_spec().overflows() == crate::metrics::bump(old(self).metrics_spec().overflows())
                &&& final(self).metrics_spec().acquired() == old(self).metrics_spec().acquired()
                &&& final(self).sequence_spec() == old(self).sequence_spec()
            },
            r matches Ok(seq) ==> {
                let pre = old(self).buffer_spec();
                let b = final(self).buffer_spec();
                let i = b.live().last();
                let full = pre.len_spec() >= pre.capacity_spec();
                let n = if frame.data@.len() <= pre.max_image_size_spec() {
                    frame.data@.len()
                } else {
                    pre.max_image_size_spec()
                };
                &&& seq == old(self).sequence_spec() + 1
                &&& final(self).sequence_spec() == seq
                &&& b.live().len() > 0
                &&& b.live() == (if full {
                    pre.live().drop_first()
                } else {
                    pre.live()
                }).push(i)
                &&& b.slot_spec(i).valid
                &&& b.slot_spec(i).sequence == seq
                &&& b.slot_spec(i).size == n
                &&& b.slot_spec(i).data@.subrange(0, n as int) == frame.data@.subrange(0, n as int)
                &&& b.slot_spec(i).width == frame.width
                &&& b.slot_spec(i).height == frame.height
                &&& b.slot_spec(i).format == format_tag_of(frame.pixel_format)
                &&& b.slot_spec(i).timestamp == now
                &&& b.produced_spec() == pre.produced_spec() + 1
                &&& b.consumed_spec() == pre.consumed_spec()
                &&& b.dropped_spec() == pre.dropped_spec() + (if full {
                    1int
                } else {
                    0int
                })
                &&& final(self).last_acquisition_spec() == Some(now)
                &&& final(self).metrics_spec().acquired() == crate::metrics::bump(old(self).metrics_spec().acquired())
                &&& final(self).metrics_spec().dropped() == (if full {
                    crate::metrics::bump(old(self).metrics_spec().dropped())
                } else {
                    old(self).metrics_spec().dropped()
                })
                &&& final(self).metrics_spec().overflows() == (if full {
                    crate::metrics::bump(old(self).metrics_spec().overflows())
                } else {
                    old(self).metrics_spec().overflows()
                })
                &&& final(self).metrics_spec().processed() == old(self).metrics_spec().processed()
            },
    {
        if self.state != PipelineState::Running {
            return Err(PipelineError::AcquisitionError("pipeline not running".to_string()));
        }
        if self.sequence_counter == u64::MAX {
            return Err(PipelineError::AcquisitionError("sequence numbers exhausted".to_string()));
        }
        let was_full = self.buffer.is_full();
        let reserved = self.buffer.reserve_write_slot();
        match reserved {
            Err(e) => {
                self.metrics.record_dropped_frame();
                self.metrics.record_buffer_overflow();
                Err(e)
            },
            Ok(index) => {
                if was_full {
                    self.metrics.record_dropped_frame();
                    self.metrics.record_buffer_overflow();
                }
                let ghost b1 = self.buffer;
                self.buffer.write_slot(
                    index,
                    frame.data.as_slice(),
                    frame.width,
                    frame.height,
                    frame.pixel_format.tag(),
                    now,
                );
                let seq = self.sequence_counter + 1;
                self.buffer.commit_write(index, seq);
                assert(b1.live().last() == index);
                self.sequence_counter = seq;
                self.last_acquisition = Some(now);
                let latency = now.abs_diff(&frame.timestamp).as_micros();
                let now_ms = now.to_duration().as_millis();
                self.metrics.record_acquisition(now_ms, latency);
                let used = self.buffer.len();
                let cap = self.buffer.capacity();
                self.metrics.update_buffer_usage(used, cap);
                Ok(seq)
            },
        }
    }

    /// Processing step, first half: the oldest committed frame, if there is
    /// one, as an image for the processor callbacks.
    pub fn take_frame(&self) -> (r: Result<(usize, PipelineImage), PipelineError>)
        requires
            self.wf(),
        ensures
            r is Ok <==> self.buffer_spec().len_spec() > 0 && self.buffer_spec().slot_spec(
                self.buffer_spec().entry(0),
            ).valid,
            r matches Err(e) ==> e is BufferError,
            r matches Ok((i, img)) ==> {
                let slot = self.buffer_spec().slot_spec(i as int);
                &&& self.buffer_spec().read_result(Ok(i))
                &&& slot.valid
                &&& slot.size <= self.config_spec().max_image_size
                &&& img.data@ == slot.data@.subrange(0, slot.size as int)
                &&& img.width == slot.width
                &&& img.height == slot.height
                &&& img.format == slot.format
                &&& img.timestamp == slot.timestamp
                &&& img.sequence == slot.sequence
            },
    {
        let read = self.buffer.read_slot();
        match read {
            Err(e) => Err(e),
            Ok(i) => {
                let slot = self.buffer.slot(i);
                Ok((i, PipelineImage::from_buffer_slot(slot)))
            },
        }
    }

    /// Processing step, second half: releases the frame taken from slot
    /// `index` once its callbacks ran at `now`, of which `failed_callbacks`
    /// reported an error. Returns whether the pipeline was running or paused
    /// and the slot was the oldest committed one, and so was released;
    /// otherwise nothing changes.
    pub fn release_frame(&mut self, index: usize, now: Timestamp, failed_callbacks: u64) -> (r: bool)
        requires
            old(self).wf(),
        ensures
            final(self).wf(),
            final(self).state_spec() == old(self).state_spec(),
            final(self).config_spec() == old(self).config_spec(),
            final(self).tasks_spec() == old(self).tasks_spec(),
            final(self).sequence_spec() == old(self).sequence_spec(),
            r == ((old(self).state_spec() == PipelineState::Running || old(self).state_spec()
                == PipelineState::Paused) && old(self).buffer_spec().len_spec() > 0 && index == old(self).buffer_spec().entry(0) && old(self).buffer_spec().slot_spec(index as int).valid),
            r ==> LockFreeRingBuffer::released(old(self).buffer_spec(), final(self).buffer_spec(), index as int),
            !r ==> *final(self) == *old(self),
            r ==> {
                &&& final(self).last_processing_spec() == Some(now)
                &&& final(self).metrics_spec().processed() == crate::metrics::bump(old(self).metrics_spec().processed())
                &&& final(self).metrics_spec().acquired() == old(self).metrics_spec().acquired()
                &&& final(self).processing_errors_spec() == old(self).processing_errors_spec().saturating_add(failed_callbacks)
            },
    {
        if self.state != PipelineState::Running && self.state != PipelineState::Paused {
            return false;
        }
        match self.buffer.read_slot() {
            Ok(oldest) => {
                if oldest != index {
                    return false;
                }
            },
            Err(_) => {
                return false;
            },
        }
        let stamped = self.buffer.slot(index).timestamp;
        self.buffer.commit_read(index);
        self.last_processing = Some(now);
        let latency = now.abs_diff(&stamped).as_micros();
        let now_ms = now.to_duration().as_millis();
        self.metrics.record_processing(now_ms, latency);
        let used = self.buffer.len();
        let cap = self.buffer.capacity();
        self.metrics.update_buffer_usage(used, cap);
        self.processing_errors = self.processing_errors.saturating_add(failed_callbacks);
        true
    }

    /// Whether, in a running pipeline with auto-recovery enabled, the last
    /// acquisition and the last processing lie more than
    /// `DESYNC_THRESHOLD_NS` apart.
    pub open spec fn desync_detected(&self) -> bool {
        &&& self.state_spec() == PipelineState::Running
        &&& self.config_spec().enable_auto_recovery
        &&& self.last_acquisition_spec() is Some
        &&& self.last_processing_spec() is Some
        &&& crate::timestamp::abs_int(self.last_acquisition_spec()->Some_0.total_nanos()
            - self.last_processing_spec()->Some_0.total_nanos()) > DESYNC_THRESHOLD_NS
    }

    /// Recovers from desynchronisation: when the pipeline runs, the last
    /// acquisition and the last processing lie more than one second apart and
    /// auto-recovery is enabled, empties
    /// the ring and counts one desync event and one recovery. Returns whether
    /// it did.
    pub fn check_desync(&mut self) -> (r: bool)
        requires
            old(self).wf(),
        ensures
            final(self).wf(),
            r == old(self).desync_detected(),
            !r ==> *final(self) == *old(self),
            r ==> {
                let pre = old(self).buffer_spec();
                let post = final(self).buffer_spec();
                &&& post.len_spec() == 0
                &&& post.capacity_spec() == pre.capacity_spec()
                &&& post.produced_spec() == pre.produced_spec()
                &&& post.consumed_spec() == pre.consumed_spec()
                &&& post.dropped_spec() == pre.dropped_spec()
                &&& final(self).metrics_spec().desyncs() == crate::metrics::bump(old(self).metrics_spec().desyncs())
                &&& final(self).metrics_spec().recoveries() == crate::metrics::bump(old(self).metrics_spec().recoveries())
                &&& final(self).metrics_spec().acquired() == old(self).metrics_spec().acquired()
                &&& final(self).metrics_spec().processed() == old(self).metrics_spec().processed()
                &&& final(self).metrics_spec().dropped() == old(self).metrics_spec().dropped()
                &&& final(self).metrics_spec().overflows() == old(self).metrics_spec().overflows()
                &&& final(self).state_spec() == old(self).state_spec()
                &&& final(self).config_spec() == old(self).config_spec()
                &&& final(self).tasks_spec() == old(self).tasks_spec()
                &&& final(self).sequence_spec() == old(self).sequence_spec()
            },
    {
        if self.state != PipelineState::Running || !self.config.enable_auto_recovery {
            return false;
        }
        let (acq, proc) = match (self.last_acquisition, self.last_processing) {
            (Some(a), Some(p)) => (a, p),
            _ => {
                return false;
            },
        };
        if !lags_behind(&acq, &proc) {
            return false;
        }
        self.buffer.reset();
        self.metrics.record_desync();
        self.metrics.record_recovery();
        true
    }

    /// The monitor's periodic check at `now`: recovers from desynchronisation,
    /// refreshes the buffer usage and the published statistics, and flags
    /// overflow pressure (usage at or above `OVERFLOW_PRESSURE_PERCENT`) and a
    /// stalled acquisition (a rate under half of `target_rate_milli`).
    pub fn monitor_tick(&mut self, target_rate_milli: u64) -> (r: MonitorReport)
        requires
            old(self).wf(),
        ensures
            final(self).wf(),
            r.desync_recovered == old(self).desync_detected(),
            r.stats == final(self).stats_spec(),
            r.stats == final(self).metrics_spec().snapshot(),
            r.stats.total_frames_dropped == old(self).metrics_spec().dropped(),
            r.stats.buffer_overflows == final(self).metrics_spec().overflows(),
            r.stats.desync_events == final(self).metrics_spec().desyncs(),
            r.stats.recovery_events == final(self).metrics_spec().recoveries(),
            r.stats.total_frames_acquired == old(self).metrics_spec().acquired(),
            r.stats.total_frames_processed == old(self).metrics_spec().processed(),
            r.stats.avg_buffer_usage_percent == crate::metrics::usage_percent(
                final(self).buffer_spec().len_spec() as usize,
                final(self).buffer_spec().capacity_spec() as usize,
            ),
            r.overflow_pressure == (r.stats.avg_buffer_usage_percent >= OVERFLOW_PRESSURE_PERCENT),
            r.acquisition_stalled == (r.stats.avg_acquisition_rate_milli * 2 < target_rate_milli),
            final(self).state_spec() == old(self).state_spec(),
            final(self).config_spec() == old(self).config_spec(),
    {
        let recovered = self.check_desync();
        let used = self.buffer.len();
        let cap = self.buffer.capacity();
        self.metrics.update_buffer_usage(used, cap);
        let stats = self.metrics.get_stats();
        self.stats = stats;
        MonitorReport {
            stats,
            overflow_pressure: stats.avg_buffer_usage_percent >= OVERFLOW_PRESSURE_PERCENT,
            acquisition_stalled: (stats.avg_acquisition_rate_milli as u128) * 2 < target_rate_milli as u128,
            desync_recovered: recovered,
        }
    }

    /// Every acquisition task has failed: no camera delivers frames any more.
    pub open spec fn all_acquisition_failed(&self) -> bool {
        &&& self.camera_count_spec() > 0
        &&& forall|k: int|
            0 <= k < self.camera_count_spec() ==> (#[trigger] self.tasks_spec()[k]).state_spec()
                == TaskState::Error
    }

    fn acquisition_all_failed(&self) -> (r: bool)
        requires
            self.wf(),
            self.state_spec() != PipelineState::Uninitialized,
        ensures
            r == self.all_acquisition_failed(),
    {
        if self.camera_count == 0 {
            return false;
        }
        let mut k: usize = 0;
        while k < self.camera_count
            invariant
                k <= self.camera_count,
                self.camera_count <= self.tasks@.len(),
                forall|j: int| 0 <= j < k ==> (#[trigger] self.tasks@[j]).state_spec() == TaskState::Error,
            decreases self.camera_count - k,
        {
            if self.tasks[k].get_state() != TaskState::Error {
                return false;
            }
            k = k + 1;
        }
        true
    }

    /// Records the outcome of one run of task `task`'s body while the
    /// pipeline runs or is paused: a failure puts the task in Error, and once
    /// every acquisition task has failed the pipeline itself goes to Error.
    /// Returns whether the report was taken; otherwise nothing changes.
    pub fn report_task_result(&mut self, task: usize, succeeded: bool) -> (r: bool)
        requires
            old(self).wf(),
        ensures
            final(self).wf(),
            r == ((old(self).state_spec() == PipelineState::Running || old(self).state_spec()
                == PipelineState::Paused) && task < old(self).tasks_spec().len()),
            !r ==> *final(self) == *old(self),
            r ==> {
                &&& final(self).tasks_spec().len() == old(self).tasks_spec().len()
                &&& final(self).tasks_spec()[task as int].state_spec() == (if succeeded {
                    old(self).tasks_spec()[task as int].state_spec()
                } else {
                    TaskState::Error
                })
                &&& forall|k: int|
                    0 <= k < final(self).tasks_spec().len() && k != task ==> #[trigger] final(self).tasks_spec()[k] == old(self).tasks_spec()[k]
                &&& final(self).state_spec() == (if final(self).all_acquisition_failed() {
                    PipelineState::Error
                } else {
                    old(self).state_spec()
                })
                &&& final(self).config_spec() == old(self).config_spec()
                &&& final(self).buffer_spec() == old(self).buffer_spec()
                &&& final(self).metrics_spec() == old(self).metrics_spec()
            },
    {
        if !(self.state == PipelineState::Running || self.state == PipelineState::Paused)
            || task >= self.tasks.len() {
            return false;
        }
        self.tasks[task].record_body_result(succeeded);
        if self.acquisition_all_failed() {
            self.state = PipelineState::Error;
        }
        true
    }

    /// Marks the start of a run of task `task` at `now`; other indices change nothing.
    pub fn task_started(&mut self, task: usize, now: u64) -> (r: bool)
        requires
            old(self).wf(),
        ensures
            final(self).wf(),
            r == (task < old(self).tasks_spec().len()),
            !r ==> *final(self) == *old(self),
            r ==> {
                &&& final(self).tasks_spec().len() == old(self).tasks_spec().len()
                &&& crate::rt::RtContext::start_marked(
                    old(self).tasks_spec()[task as int].rt_spec(),
                    final(self).tasks_spec()[task as int].rt_spec(),
                    now,
                )
                &&& final(self).tasks_spec()[task as int].state_spec() == old(self).tasks_spec()[task as int].state_spec()
                &&& forall|k: int|
                    0 <= k < final(self).tasks_spec().len() && k != task ==> #[trigger] final(self).tasks_spec()[k] == old(self).tasks_spec()[k]
                &&& final(self).state_spec() == old(self).state_spec()
                &&& final(self).buffer_spec() == old(self).buffer_spec()
                &&& final(self).metrics_spec() == old(self).metrics_spec()
            },
    {
        if task >= self.tasks.len() {
            return false;
        }
        self.tasks[task].start_execution_at(now);
        true
    }

    /// Marks the end of a run of task `task` at `now`; other indices change nothing.
    pub fn task_ended(&mut self, task: usize, now: u64) -> (r: bool)
        requires
            old(self).wf(),
        ensures
            final(self).wf(),
            r == (task < old(self).tasks_spec().len()),
            !r ==> *final(self) == *old(self),
            r ==> {
                &&& final(self).tasks_spec().len() == old(self).tasks_spec().len()
                &&& crate::rt::RtContext::end_marked(
                    old(self).tasks_spec()[task as int].rt_spec(),
                    final(self).tasks_spec()[task as int].rt_spec(),
                    now,
                )
                &&& final(self).tasks_spec()[task as int].state_spec() == old(self).tasks_spec()[task as int].state_spec()
                &&& forall|k: int|
                    0 <= k < final(self).tasks_spec().len() && k != task ==> #[trigger] final(self).tasks_spec()[k] == old(self).tasks_spec()[k]
                &&& final(self).state_spec() == old(self).state_spec()
                &&& final(self).buffer_spec() == old(self).buffer_spec()
                &&& final(self).metrics_spec() == old(self).metrics_spec()
            },
    {
        if task >= self.tasks.len() {
            return false;
        }
        self.tasks[task].end_execution_at(now);
        true
    }

    /// Statistics of task `task`, if there is such a task.
    pub fn task_stats(&self, task: usize) -> (r: Option<crate::rt::RtStats>)
        ensures
            task < self.tasks_spec().len() <==> r is Some,
            r matches Some(s) ==> s == self.tasks_spec()[task as int].rt_spec().stats_spec(),
    {
        if task < self.tasks.len() {
            Some(self.tasks[task].get_rt_stats())
        } else {
            None
        }
    }

    /// Whether a camera wait of `waited_ms` milliseconds exceeded the
    /// configured cap.
    pub fn frame_wait_exceeded(&self, waited_ms: u64) -> (r: bool)
        ensures
            r == (waited_ms > self.config_spec().max_wait_time_ms),
    {
        waited_ms > self.config.max_wait_time_ms
    }

    /// Counts a camera wait that exceeded its cap as a dropped frame, while
    /// the pipeline runs; otherwise nothing changes. Returns whether it counted.
    pub fn record_frame_timeout(&mut self) -> (r: bool)
        requires
            old(self).wf(),
        ensures
            final(self).wf(),
            r == (old(self).state_spec() == PipelineState::Running),
            !r ==> *final(self) == *old(self),
            r ==> {
                &&& final(self).metrics_spec().dropped() == crate::metrics::bump(old(self).metrics_spec().dropped())
                &&& final(self).metrics_spec().acquired() == old(self).metrics_spec().acquired()
                &&& final(self).metrics_spec().processed() == old(self).metrics_spec().processed()
                &&& final(self).metrics_spec().overflows() == old(self).metrics_spec().overflows()
                &&& final(self).buffer_spec() == old(self).buffer_spec()
                &&& final(self).state_spec() == old(self).state_spec()
            },
    {
        if self.state != PipelineState::Running {
            return false;
        }
        self.metrics.record_dropped_frame();
        true
    }

    pub fn get_state(&self) -> (r: PipelineState)
        ensures
            r == self.state_spec(),
    {
        self.state
    }

    pub fn get_config(&self) -> (r: &PipelineConfig)
        ensures
            *r == self.config_spec(),
    {
        &self.config
    }

    pub fn get_stats(&self) -> (r: PipelineStats)
        ensures
            r == self.stats_spec(),
    {
        self.stats
    }

    pub fn buffer(&self) -> (r: &LockFreeRingBuffer)
        ensures
            *r == self.buffer_spec(),
    {
        &self.buffer
    }

    pub fn metrics(&self) -> (r: &PipelineMetrics)
        ensures
            *r == self.metrics_spec(),
    {
        &self.metrics
    }

    /// States of the tasks, in task order.
    pub fn task_states(&self) -> (r: Vec<TaskState>)
        ensures
            r@.len() == self.tasks_spec().len(),
            forall|k: int| 0 <= k < r@.len() ==> r@[k] == (#[trigger] self.tasks_spec()[k]).state_spec(),
    {
        let mut r: Vec<TaskState> = Vec::new();
        let mut i: usize = 0;
        while i < self.tasks.len()
            invariant
                i <= self.tasks@.len(),
                r@.len() == i,
                forall|k: int| 0 <= k < i ==> r@[k] == (#[trigger] self.tasks@[k]).state_spec(),
            decreases self.tasks@.len() - i,
        {
            r.push(self.tasks[i].get_state());
            i = i + 1;
        }
        r
    }

    pub fn processing_errors(&self) -> (r: u64)
        ensures
            r == self.processing_errors_spec(),
    {
        self.processing_errors
    }
}

} // verus!

verus! {

/// Lag of processing behind acquisition, in nanoseconds, beyond which the
/// pipeline is desynchronised.
pub const DESYNC_THRESHOLD_NS: u64 = 1_000_000_000;

/// Buffer usage in percent from which the monitor reports overflow pressure.
pub const OVERFLOW_PRESSURE_PERCENT: u64 = 90;

/// What the monitor found on one check.
#[derive(Clone, Copy, Debug, PartialEq, Eq)]
pub struct MonitorReport {
    pub stats: PipelineStats,
    pub overflow_pressure: bool,
    pub acquisition_stalled: bool,
    pub desync_recovered: bool,
}

/// Whether acquisition at `acq` and processing at `proc` lie more than the
/// desync threshold apart.
fn lags_behind(acq: &Timestamp, proc: &Timestamp) -> (r: bool)
    ensures
        r == (crate::timestamp::abs_int(acq.total_nanos() - proc.total_nanos()) > DESYNC_THRESHOLD_NS),
{
    let a: u128 = acq.seconds as u128 * 1_000_000_000 + acq.nanoseconds as u128;
    let p: u128 = proc.seconds as u128 * 1_000_000_000 + proc.nanoseconds as u128;
    if a >= p {
        a - p > DESYNC_THRESHOLD_NS as u128
    } else {
        p - a > DESYNC_THRESHOLD_NS as u128
    }
}

/// Stopping a running pipeline and starting it again brings it back to
/// Running with the same configuration, the same ring, and tasks whose
/// statistics start afresh.
pub proof fn lemma_restart(running: AcquisitionPipeline, halted: AcquisitionPipeline, resumed: AcquisitionPipeline)
    requires
        running.wf(),
        running.state_spec() == PipelineState::Running,
        AcquisitionPipeline::stopped(running, halted),
        AcquisitionPipeline::started(halted, resumed),
    ensures
        resumed.state_spec() == PipelineState::Running,
        resumed.config_spec() == running.config_spec(),
        resumed.buffer_spec() == running.buffer_spec(),
        resumed.tasks_spec().len() == running.tasks_spec().len(),
        forall|k: int|
            0 <= k < resumed.tasks_spec().len() ==> {
                &&& (#[trigger] resumed.tasks_spec()[k]).rt_spec().stats_spec()
                    == crate::rt::RtStats::empty_spec()
                &&& resumed.tasks_spec()[k].state_spec() == TaskState::Running
            },
{
}

} // verus!
