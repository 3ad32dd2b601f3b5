//! Token budgeting: configuration, estimation, usage parsing, enforcement,
//! and budget-aware execution strategy.

pub mod config;
pub mod estimator;
pub mod parser;
pub mod strategy;
pub mod tracker;
