//! The parallel story scheduler: stories and their dependency graph,
//! execution state with file locks, pre-execution conflict control, and the
//! run loop over simulated or real executors.

pub mod conflicts;
pub mod config;
pub mod graph;
pub mod reconcile;
pub mod scheduler;
pub mod state;
pub mod story;
