//! The metrics a task may collect.

use vstd::prelude::*;

verus! {

/// A metric that can be collected.
#[derive(Debug, Clone)]
pub struct MetricDefinition {
    pub id: String,
    pub name: String,
    pub display_name: String,
    pub category: String,
    pub collector: String,
    pub description: Option<String>,
    pub cost_level: String,
    pub default_enable: i32,
}

/// The metrics chosen for a task, by id.
#[derive(Debug, Clone)]
pub struct MetricConfig {
    pub metric_ids: Vec<String>,
}

/// The metrics chosen for a task, by name, when any are chosen.
#[derive(Debug, Clone)]
pub struct MetricsPayload {
    pub metrics: Option<Vec<String>>,
}

} // verus!
