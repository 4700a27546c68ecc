//! The records the service keeps and exchanges.

pub mod metrics;
pub mod plan;
pub mod setting;
pub mod task;
