//! Core of a parallel story scheduler: dependency-ordered dispatch, file-lock
//! conflict control, bounded queues with backpressure, token budgeting,
//! quality-gate output analysis, durable run evidence and metrics.

pub mod budget;
pub mod clock;
pub mod collections;
pub mod duration;
pub mod evidence;
pub mod heartbeat;
pub mod json;
pub mod mcp;
pub mod metrics;
pub mod parallel;
pub mod quality;
pub mod text;
pub mod timeout;

pub use duration::DurationMs;
