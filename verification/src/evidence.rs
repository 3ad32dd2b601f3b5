//! Durable run evidence: append-only lifecycle records, run metadata, and
//! retention rules.

pub mod config;
pub mod export;
pub mod labels;
pub mod lifecycle;
pub mod record;
pub mod store;
pub mod writer;
