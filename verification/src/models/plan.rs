//! Test plans: a named list of test items, run on demand or on a schedule.

use vstd::prelude::*;
use crate::text::owned;

verus! {

/// A stored plan.
#[derive(Debug, Clone)]
pub struct TaskPlan {
    pub id: String,
    pub user_id: String,
    pub name: String,
    pub description: Option<String>,
    pub cron_expression: Option<String>,
    pub enabled: i32,
    pub last_run_at: Option<String>,
    pub next_run_at: Option<String>,
    pub created_at: String,
    pub updated_at: String,
}

/// A stored plan item; `urls` is a JSON list of strings and `options` JSON
/// text.
#[derive(Debug, Clone)]
pub struct TaskPlanItem {
    pub id: String,
    pub plan_id: String,
    pub task_type: String,
    pub urls: String,
    pub options: Option<String>,
    pub repeat_count: i32,
    pub engine: Option<String>,
    pub order_index: i32,
    pub created_at: String,
}

/// A record of one run of a plan; `task_ids` is a JSON list of the tasks it
/// started.
#[derive(Debug, Clone)]
pub struct TaskPlanRun {
    pub id: String,
    pub plan_id: String,
    pub task_ids: String,
    pub triggered_by: String,
    pub started_at: String,
    pub finished_at: Option<String>,
    pub status: String,
    pub created_at: String,
}

/// A run with how many of its tasks there are and how many have finished.
#[derive(Debug, Clone)]
pub struct PlanRunWithTasks {
    pub run: TaskPlanRun,
    pub task_count: usize,
    pub completed_count: usize,
}

/// A plan item as submitted; `options` is its options as JSON text, absent
/// when they are JSON `null`.
#[derive(Debug, Clone)]
pub struct PlanItemInput {
    pub task_type: String,
    pub urls: Vec<String>,
    pub options: Option<String>,
    pub repeat_count: i32,
    pub engine: String,
}

/// How many times an item's targets are tested when the request does not
/// say.
pub fn default_repeat() -> (r: i32)
    ensures
        r == 1,
{
    1
}

/// The browser engine an item uses when the request does not say.
pub fn default_engine() -> (r: String)
    ensures
        r@ == "headless_chrome"@,
{
    owned("headless_chrome")
}

/// Whether a plan is enabled when the request does not say.
pub fn default_enabled() -> (r: bool)
    ensures
        r,
{
    true
}

/// A request to create a plan.
#[derive(Debug, Clone)]
pub struct CreatePlanRequest {
    pub name: String,
    pub description: Option<String>,
    pub cron_expression: Option<String>,
    pub enabled: bool,
    pub items: Vec<PlanItemInput>,
}

/// A request to replace a plan.
#[derive(Debug, Clone)]
pub struct UpdatePlanRequest {
    pub name: String,
    pub description: Option<String>,
    pub cron_expression: Option<String>,
    pub enabled: bool,
    pub items: Vec<PlanItemInput>,
}

/// A plan with its items.
#[derive(Debug, Clone)]
pub struct PlanWithItems {
    pub plan: TaskPlan,
    pub items: Vec<TaskPlanItem>,
}

/// The answer to running a plan now.
#[derive(Debug, Clone)]
pub struct RunPlanResponse {
    pub plan_run_id: String,
    pub task_ids: Vec<String>,
}

/// A page of plans.
#[derive(Debug, Clone)]
pub struct PlanListResponse {
    pub plans: Vec<PlanWithItems>,
    pub total: u32,
    pub page: u32,
    pub size: u32,
}

} // verus!
