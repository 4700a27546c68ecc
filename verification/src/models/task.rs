//! Test tasks: their kinds, their states and their settings.

use vstd::prelude::*;
use crate::text::{chars_of, seq_eq};

verus! {

/// The kind of a test.
#[derive(Debug, Clone, Copy, PartialEq, Eq, Structural)]
pub enum TaskType {
    Website,
    Download,
    Video,
}

/// The name of a task kind, as stored and exchanged.
pub open spec fn task_type_name(t: TaskType) -> Seq<char> {
    match t {
        TaskType::Website => "website"@,
        TaskType::Download => "download"@,
        TaskType::Video => "video"@,
    }
}

impl TaskType {
    /// The kind's name.
    pub fn as_str(&self) -> (r: &'static str)
        ensures
            r@ == task_type_name(*self),
    {
        match self {
            TaskType::Website => "website",
            TaskType::Download => "download",
            TaskType::Video => "video",
        }
    }

    /// The kind that a name names.
    pub fn from_name(name: &str) -> (r: Option<TaskType>)
        ensures
            forall|t: TaskType| r == Some(t) <==> task_type_name(t) == name@,
    {
        proof {
            reveal_strlit("website");
            reveal_strlit("download");
            reveal_strlit("video");
        }
        let n = chars_of(name);
        let r = if seq_eq(&n, &chars_of("website")) {
            Some(TaskType::Website)
        } else if seq_eq(&n, &chars_of("download")) {
            Some(TaskType::Download)
        } else if seq_eq(&n, &chars_of("video")) {
            Some(TaskType::Video)
        } else {
            None
        };
        proof {
            assert forall|t: TaskType| r == Some(t) <==> task_type_name(t) == name@ by {
                if let Some(u) = r {
                    task_type_names_round_trip(t, u);
                }
            }
        }
        r
    }
}

/// The state of a task.
#[derive(Debug, Clone, Copy, PartialEq, Eq, Structural)]
pub enum TaskStatus {
    Pending,
    Running,
    Completed,
    Failed,
    Cancelled,
}

/// The name of a task state, as stored and exchanged.
pub open spec fn task_status_name(s: TaskStatus) -> Seq<char> {
    match s {
        TaskStatus::Pending => "pending"@,
        TaskStatus::Running => "running"@,
        TaskStatus::Completed => "completed"@,
        TaskStatus::Failed => "failed"@,
        TaskStatus::Cancelled => "cancelled"@,
    }
}

impl TaskStatus {
    /// The state's name.
    pub fn as_str(&self) -> (r: &'static str)
        ensures
            r@ == task_status_name(*self),
    {
        match self {
            TaskStatus::Pending => "pending",
            TaskStatus::Running => "running",
            TaskStatus::Completed => "completed",
            TaskStatus::Failed => "failed",
            TaskStatus::Cancelled => "cancelled",
        }
    }

    /// The state that a name names.
    pub fn from_name(name: &str) -> (r: Option<TaskStatus>)
        ensures
            forall|s: TaskStatus| r == Some(s) <==> task_status_name(s) == name@,
    {
        proof {
            reveal_strlit("pending");
            reveal_strlit("running");
            reveal_strlit("completed");
            reveal_strlit("failed");
            reveal_strlit("cancelled");
        }
        let n = chars_of(name);
        let r = if seq_eq(&n, &chars_of("pending")) {
            Some(TaskStatus::Pending)
        } else if seq_eq(&n, &chars_of("running")) {
            Some(TaskStatus::Running)
        } else if seq_eq(&n, &chars_of("completed")) {
            Some(TaskStatus::Completed)
        } else if seq_eq(&n, &chars_of("failed")) {
            Some(TaskStatus::Failed)
        } else if seq_eq(&n, &chars_of("cancelled")) {
            Some(TaskStatus::Cancelled)
        } else {
            None
        };
        proof {
            assert forall|t: TaskStatus| r == Some(t) <==> task_status_name(t) == name@ by {
                if let Some(u) = r {
                    task_status_names_round_trip(t, u);
                }
            }
        }
        r
    }

    /// A task in this state is still to finish: pending or running.
    pub fn is_active(&self) -> (r: bool)
        ensures
            r == (*self == TaskStatus::Pending || *self == TaskStatus::Running),
    {
        match self {
            TaskStatus::Pending | TaskStatus::Running => true,
            _ => false,
        }
    }
}

/// Every task kind's name reads back as that kind, and no two kinds share a
/// name.
pub proof fn task_type_names_round_trip(t: TaskType, u: TaskType)
    ensures
        task_type_name(t) == task_type_name(u) ==> t == u,
{
    reveal_strlit("website");
    reveal_strlit("download");
    reveal_strlit("video");
    if task_type_name(t) == task_type_name(u) && t != u {
        assert(task_type_name(t).len() != task_type_name(u).len() || task_type_name(t)[0]
            != task_type_name(u)[0]);
    }
}

/// Every task state's name reads back as that state, and no two states
/// share a name.
pub proof fn task_status_names_round_trip(s: TaskStatus, u: TaskStatus)
    ensures
        task_status_name(s) == task_status_name(u) ==> s == u,
{
    reveal_strlit("pending");
    reveal_strlit("running");
    reveal_strlit("completed");
    reveal_strlit("failed");
    reveal_strlit("cancelled");
    if task_status_name(s) == task_status_name(u) && s != u {
        assert(task_status_name(s).len() != task_status_name(u).len() || task_status_name(s)[0]
            != task_status_name(u)[0] || task_status_name(s)[1] != task_status_name(u)[1]);
    }
}

/// The answer to a task that was created.
#[derive(Debug, Clone)]
pub struct CreateTaskResponse {
    pub task_id: String,
    pub status: String,
}

/// The settings read from a task's options.
#[derive(Debug, Clone, PartialEq, Eq, Structural)]
pub struct TestConfig {
    pub repeat_count: usize,
}

/// How many times each target is tested when the options do not say.
pub fn default_repeat_count() -> (r: usize)
    ensures
        r == 1,
{
    1
}

impl Default for TestConfig {
    fn default() -> (r: TestConfig)
        ensures
            r.repeat_count == 1,
    {
        TestConfig { repeat_count: default_repeat_count() }
    }
}

/// A line of a task's log.
#[derive(Debug, Clone)]
pub struct TaskLog {
    pub id: String,
    pub task_id: String,
    pub level: String,
    pub message: String,
    pub created_at: String,
}

} // verus!
