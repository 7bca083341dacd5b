//! Tasks: immutable-after-construction records describing one unit of
//! work, addressed to a capability by name.

use vstd::prelude::*;
use crate::json::JsonValue;
use crate::json::JsonView;

verus! {

/// The declared lifecycle of a task.  The library itself never drives a
/// task past `Pending`: the transitions belong to an external
/// orchestrator.
#[derive(Debug, Clone, Copy, PartialEq, Eq, Structural)]
pub enum TaskStatus {
    Pending,
    Running,
    Completed,
    Failed,
    Cancelled,
}

/// One unit of work: a target capability name, an operation name, and
/// opaque structured parameters, together with a fresh identifier and
/// creation timestamp (milliseconds since the Unix epoch).
#[derive(Debug)]
pub struct Task {
    pub id: u128,
    pub executor: String,
    pub operation: String,
    pub params: JsonValue,
    pub status: TaskStatus,
    pub created_at: i64,
    pub started_at: Option<i64>,
    pub completed_at: Option<i64>,
}

/// The mathematical shape of a [`Task`].
pub struct TaskView {
    pub id: u128,
    pub executor: Seq<char>,
    pub operation: Seq<char>,
    pub params: JsonView,
    pub status: TaskStatus,
    pub created_at: i64,
    pub started_at: Option<i64>,
    pub completed_at: Option<i64>,
}

impl View for Task {
    type V = TaskView;

    open spec fn view(&self) -> TaskView {
        TaskView {
            id: self.id,
            executor: self.executor@,
            operation: self.operation@,
            params: self.params@,
            status: self.status,
            created_at: self.created_at,
            started_at: self.started_at,
            completed_at: self.completed_at,
        }
    }
}

/// Relies on `uuid::Uuid::new_v4` for a fresh random identifier, taken
/// as its 128-bit value.  Nothing can be promised of a random number.
#[verifier::external_body]
fn fresh_task_id() -> u128 {
    uuid::Uuid::new_v4().as_u128()
}

/// Relies on `chrono::Utc::now` for the current wall-clock instant,
/// taken as milliseconds since the Unix epoch.  Nothing can be promised
/// of the clock.
#[verifier::external_body]
fn now_millis() -> i64 {
    chrono::Utc::now().timestamp_millis()
}

impl Task {
    /// A fresh task: a new identifier, `Pending` status, the creation
    /// instant recorded, and no start or completion instants.
    pub fn new(executor: String, operation: String, params: JsonValue) -> (r: Task)
        ensures
            r@.executor == executor@,
            r@.operation == operation@,
            r@.params == params@,
            r@.status == TaskStatus::Pending,
            r@.started_at is None,
            r@.completed_at is None,
    {
        Task {
            id: fresh_task_id(),
            executor,
            operation,
            params,
            status: TaskStatus::Pending,
            created_at: now_millis(),
            started_at: None,
            completed_at: None,
        }
    }
}

} // verus!
