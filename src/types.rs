//! Errors, configuration and the small value types shared by the pipeline.

use vstd::prelude::*;
use crate::timestamp::Timestamp;

verus! {

/// Largest number of acquisition tasks a pipeline runs.
pub const MAX_ACQUISITION_THREADS: usize = 8;

/// Largest number of processing tasks a pipeline runs.
pub const MAX_PROCESSING_THREADS: usize = 16;

/// Longest period in milliseconds whose length fits in nanoseconds.
pub const MAX_PERIOD_MS: u64 = 18_446_744_073_709;

/// Default number of slots in the ring.
pub const DEFAULT_BUFFER_CAPACITY: usize = 32;

/// Default bytes per slot: one full-HD RGB frame.
pub const DEFAULT_MAX_IMAGE_SIZE: usize = 6_220_800;

/// Failures reported by a camera.
#[derive(Clone, Debug, PartialEq, Eq)]
pub enum CameraError {
    InitError(String),
    ConfigError(String),
    AcquisitionError(String),
    NotFound(String),
    ConversionError(String),
    AravisError(String),
}

/// Failures of the real-time layer (priority, affinity, memory locking).
#[derive(Clone, Debug, PartialEq, Eq)]
pub enum RtError {
    SchedulingError(String),
    SyncError(String),
    TimeoutError(String),
    SystemError(String),
}

/// Error kinds of the pipeline.
#[derive(Clone, Debug, PartialEq, Eq)]
pub enum PipelineError {
    InitError(String),
    ConfigError(String),
    AcquisitionError(String),
    BufferError(String),
    SyncError(String),
    TimeoutError(String),
    ProcessingError(String),
    CameraError(CameraError),
    RtError(RtError),
}

/// Priority bands of real-time tasks, lowest first.
#[derive(Clone, Copy, Debug, PartialEq, Eq, Structural, PartialOrd, Ord, Hash)]
pub enum RtPriority {
    Low,
    Normal,
    High,
    Critical,
}

/// What a full ring does with a new frame.
#[derive(Clone, Copy, Debug, PartialEq, Eq, Structural, Hash)]
pub enum OverflowStrategy {
    /// Refuse the reservation; the caller decides whether to retry.
    Block,
    /// Evict the oldest entry and store the new frame.
    DropOldest,
    /// Refuse the new frame and count it as dropped.
    DropNewest,
    /// Growing the ring; refused by configuration checks.
    Resize,
}

/// Lifecycle states of a pipeline.
#[derive(Clone, Copy, Debug, PartialEq, Eq, Structural, Hash)]
pub enum PipelineState {
    Uninitialized,
    Ready,
    Running,
    Paused,
    Stopped,
    Error,
}

/// Pixel layouts a camera can deliver.
#[derive(Clone, Copy, Debug, PartialEq, Eq, Structural, Hash)]
pub enum PixelFormat {
    Mono8,
    Mono16,
    RGB8,
    BGR8,
    RGBA8,
    BGRA8,
    YUV422,
    YUV422Packed,
    BayerRG8,
    BayerGB8,
    BayerGR8,
    BayerBG8,
}

/// Numeric tag stored in a slot for a pixel format; formats without a tag of
/// their own share the tag of `Mono8`.
pub open spec fn format_tag_of(format: PixelFormat) -> u32 {
    match format {
        PixelFormat::Mono16 => 1,
        PixelFormat::RGB8 => 2,
        PixelFormat::BGR8 => 3,
        PixelFormat::RGBA8 => 4,
        PixelFormat::BGRA8 => 5,
        _ => 0,
    }
}

impl PixelFormat {
    /// The numeric tag stored in a slot for this format.
    pub fn tag(&self) -> (r: u32)
        ensures
            r == format_tag_of(*self),
    {
        match self {
            PixelFormat::Mono16 => 1,
            PixelFormat::RGB8 => 2,
            PixelFormat::BGR8 => 3,
            PixelFormat::RGBA8 => 4,
            PixelFormat::BGRA8 => 5,
            _ => 0,
        }
    }
}

/// How a camera starts an exposure.
#[derive(Clone, Copy, Debug, PartialEq, Eq, Structural, Hash)]
pub enum TriggerMode {
    Continuous,
    Software,
    Hardware,
}

/// A frame as delivered by a camera.
#[derive(Clone, Debug)]
pub struct CameraFrame {
    pub data: Vec<u8>,
    pub width: u32,
    pub height: u32,
    pub pixel_format: PixelFormat,
    pub timestamp: Timestamp,
    pub frame_id: u64,
    pub metadata: Vec<(String, String)>,
}

/// Options recognised by the pipeline.
#[derive(Clone, Debug)]
pub struct PipelineConfig {
    pub buffer_capacity: usize,
    pub max_image_size: usize,
    pub acquisition_threads: usize,
    pub processing_threads: usize,
    pub acquisition_priority: RtPriority,
    pub processing_priority: RtPriority,
    pub acquisition_cpu_affinity: Vec<usize>,
    pub processing_cpu_affinity: Vec<usize>,
    pub metrics_interval_ms: u64,
    pub enable_auto_recovery: bool,
    pub max_wait_time_ms: u64,
    pub overflow_strategy: OverflowStrategy,
}

impl PipelineConfig {
    /// The configuration checks: non-empty ring and slots, thread counts within
    /// their caps, an overflow strategy other than `Resize`, and a monitor
    /// period that fits in nanoseconds.
    pub open spec fn is_valid(&self) -> bool {
        &&& self.buffer_capacity >= 1
        &&& self.max_image_size >= 1
        &&& 1 <= self.acquisition_threads <= MAX_ACQUISITION_THREADS
        &&& 1 <= self.processing_threads <= MAX_PROCESSING_THREADS
        &&& self.overflow_strategy != OverflowStrategy::Resize
        &&& self.metrics_interval_ms <= MAX_PERIOD_MS
    }

    /// Checks the configuration; every failure is a `ConfigError`.
    pub fn validate(&self) -> (r: Result<(), PipelineError>)
        ensures
            r is Ok <==> self.is_valid(),
            r matches Err(e) ==> e is ConfigError,
    {
        if self.buffer_capacity == 0 {
            return Err(PipelineError::ConfigError("buffer capacity must be at least 1".to_string()));
        }
        if self.max_image_size == 0 {
            return Err(PipelineError::ConfigError("max image size must be at least 1".to_string()));
        }
        if self.acquisition_threads == 0 || self.acquisition_threads > MAX_ACQUISITION_THREADS {
            return Err(
                PipelineError::ConfigError("acquisition thread count out of range".to_string()),
            );
        }
        if self.processing_threads == 0 || self.processing_threads > MAX_PROCESSING_THREADS {
            return Err(
                PipelineError::ConfigError("processing thread count out of range".to_string()),
            );
        }
        if self.overflow_strategy == OverflowStrategy::Resize {
            return Err(
                PipelineError::ConfigError("the Resize overflow strategy is not supported".to_string()),
            );
        }
        if self.metrics_interval_ms > MAX_PERIOD_MS {
            return Err(PipelineError::ConfigError("metrics interval too long".to_string()));
        }
        Ok(())
    }
}

impl Default for PipelineConfig {
    fn default() -> (r: PipelineConfig)
        ensures
            r.buffer_capacity == DEFAULT_BUFFER_CAPACITY,
            r.max_image_size == DEFAULT_MAX_IMAGE_SIZE,
            r.acquisition_threads == 1,
            r.processing_threads == 2,
            r.acquisition_priority == RtPriority::Critical,
            r.processing_priority == RtPriority::High,
            r.acquisition_cpu_affinity@ == seq![0usize],
            r.processing_cpu_affinity@ == seq![1usize, 2],
            r.metrics_interval_ms == 1000,
            r.enable_auto_recovery,
            r.max_wait_time_ms == 100,
            r.overflow_strategy == OverflowStrategy::DropOldest,
            r.is_valid(),
    {
        PipelineConfig {
            buffer_capacity: DEFAULT_BUFFER_CAPACITY,
            max_image_size: DEFAULT_MAX_IMAGE_SIZE,
            acquisition_threads: 1,
            processing_threads: 2,
            acquisition_priority: RtPriority::Critical,
            processing_priority: RtPriority::High,
            acquisition_cpu_affinity: vec![0],
            processing_cpu_affinity: vec![1, 2],
            metrics_interval_ms: 1000,
            enable_auto_recovery: true,
            max_wait_time_ms: 100,
            overflow_strategy: OverflowStrategy::DropOldest,
        }
    }
}

} // verus!
