//! Actor protocol values: identity, task and result.

use vstd::prelude::*;

verus! {

/// Unique identifier of an actor.
#[derive(Debug, Clone)]
pub struct ActorId(pub String);

impl ActorId {
    /// Creates an identifier from the given string.
    pub fn new(id: &str) -> (r: ActorId)
        ensures
            r.0@ == id@,
    {
        ActorId(String::from_str(id))
    }

    /// The identifier as displayed: the string itself.
    pub fn to_string(&self) -> (r: String)
        ensures
            r@ == self.0@,
    {
        String::from_str(self.0.as_str())
    }
}

/// Payload sent to a worker for processing.
#[derive(Debug, Clone)]
pub struct Task {
    /// Optional task id for tracing.
    pub id: Option<String>,
    /// Task content.
    pub payload: String,
}

impl Task {
    /// Builds a task with the given payload and no id.
    pub fn new(payload: &str) -> (r: Task)
        ensures
            r.id is None,
            r.payload@ == payload@,
    {
        Task { id: None, payload: String::from_str(payload) }
    }

    /// Sets the task id, keeping the payload.
    pub fn with_id(self, id: &str) -> (r: Task)
        ensures
            r.id matches Some(s) && s@ == id@,
            r.payload == self.payload,
    {
        Task { id: Some(String::from_str(id)), payload: self.payload }
    }
}

/// Result of a worker processing a task.
#[derive(Debug, Clone)]
pub struct TaskResult {
    /// Whether the task succeeded.
    pub success: bool,
    /// Main result on success, error description on failure.
    pub output: String,
}

impl TaskResult {
    /// A successful result with the given output.
    pub fn ok(output: &str) -> (r: TaskResult)
        ensures
            r.success,
            r.output@ == output@,
    {
        TaskResult { success: true, output: String::from_str(output) }
    }

    /// A failed result with the given message.
    pub fn err(msg: &str) -> (r: TaskResult)
        ensures
            !r.success,
            r.output@ == msg@,
    {
        TaskResult { success: false, output: String::from_str(msg) }
    }
}

} // verus!
