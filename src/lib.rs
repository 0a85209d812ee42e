//! Real-time image acquisition pipeline: a bounded ring of preallocated image
//! slots, per-task real-time accounting, multi-camera trigger synchronisation,
//! and the lifecycle and recovery rules that tie them together.

pub mod timestamp;
pub mod types;
pub mod buffer;
pub mod metrics;
pub mod rt;
pub mod scheduler;
pub mod sync;
pub mod pipeline;
pub mod timing;
pub mod window;
pub mod utils;
