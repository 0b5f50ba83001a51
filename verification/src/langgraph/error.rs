//! Errors of agent execution, state machines, tool calls and actors.

use vstd::prelude::*;

verus! {

/// `prefix` followed by `detail`.
fn prefixed(prefix: &str, detail: &str) -> (r: String)
    ensures
        r@ == prefix@ + detail@,
{
    let mut s = String::from_str(prefix);
    s.append(detail);
    s
}

/// The minimal error of agent execution.
#[derive(Debug)]
pub enum AgentError {
    /// Execution failed, with a description of the cause.
    ExecutionFailed(String),
}

impl AgentError {
    /// The human-readable form of the error.
    pub fn message(&self) -> (r: String)
        ensures
            match self {
                AgentError::ExecutionFailed(d) => r@ == "execution failed: "@ + d@,
            },
    {
        match self {
            AgentError::ExecutionFailed(d) => prefixed("execution failed: ", d.as_str()),
        }
    }
}

/// Errors of state-machine transitions and runs.
#[derive(Debug)]
pub enum StateError {
    /// An invalid state transition.
    InvalidTransition(String),
    /// The step limit was exceeded.
    MaxStepsExceeded(usize),
    /// An internal failure (LLM or tool call).
    Internal(String),
}

impl StateError {
    /// The human-readable form of the error.
    pub fn message(&self) -> (r: String)
        ensures
            match self {
                StateError::InvalidTransition(d) => r@ == "invalid transition: "@ + d@,
                StateError::MaxStepsExceeded(n) => r@ == "max steps exceeded: "@ + crate::text::decimal(*n as nat),
                StateError::Internal(d) => r@ == "internal: "@ + d@,
            },
    {
        match self {
            StateError::InvalidTransition(d) => prefixed("invalid transition: ", d.as_str()),
            StateError::MaxStepsExceeded(n) => {
                let digits = crate::text::decimal_string(*n as u64);
                prefixed("max steps exceeded: ", digits.as_str())
            },
            StateError::Internal(d) => prefixed("internal: ", d.as_str()),
        }
    }
}

/// An argument validation failure (missing required field, wrong type).
#[derive(Debug, Clone)]
pub struct ValidationError(pub String);

impl ValidationError {
    /// The human-readable form of the error.
    pub fn message(&self) -> (r: String)
        ensures
            r@ == "validation failed: "@ + self.0@,
    {
        prefixed("validation failed: ", self.0.as_str())
    }
}

/// Errors of tool execution and argument validation.
#[derive(Debug)]
pub enum ToolError {
    /// No tool of that name.
    NotFound(String),
    /// Argument validation failed.
    ValidationFailed(String),
    /// Execution failed.
    ExecutionFailed(String),
}

impl ToolError {
    /// The human-readable form of the error.
    pub fn message(&self) -> (r: String)
        ensures
            match self {
                ToolError::NotFound(d) => r@ == "tool not found: "@ + d@,
                ToolError::ValidationFailed(d) => r@ == "validation failed: "@ + d@,
                ToolError::ExecutionFailed(d) => r@ == "execution failed: "@ + d@,
            },
    {
        match self {
            ToolError::NotFound(d) => prefixed("tool not found: ", d.as_str()),
            ToolError::ValidationFailed(d) => prefixed("validation failed: ", d.as_str()),
            ToolError::ExecutionFailed(d) => prefixed("execution failed: ", d.as_str()),
        }
    }
}

impl From<ValidationError> for ToolError {
    fn from(e: ValidationError) -> (r: ToolError) {
        ToolError::ValidationFailed(e.0)
    }
}

impl vstd::std_specs::convert::FromSpecImpl<ValidationError> for ToolError {
    open spec fn obeys_from_spec() -> bool {
        true
    }

    open spec fn from_spec(e: ValidationError) -> ToolError {
        ToolError::ValidationFailed(e.0)
    }
}

/// Errors of actor and worker communication and handling.
#[derive(Debug)]
pub enum ActorError {
    /// Handling a message failed.
    HandleFailed(String),
    /// Sending timed out.
    SendTimeout,
    /// The channel is closed.
    ChannelClosed,
    /// The request got no (or an erroneous) reply.
    RequestFailed(String),
}

impl ActorError {
    /// The human-readable form of the error.
    pub fn message(&self) -> (r: String)
        ensures
            match self {
                ActorError::HandleFailed(d) => r@ == "handle failed: "@ + d@,
                ActorError::SendTimeout => r@ == "send timeout"@,
                ActorError::ChannelClosed => r@ == "channel closed"@,
                ActorError::RequestFailed(d) => r@ == "request failed: "@ + d@,
            },
    {
        match self {
            ActorError::HandleFailed(d) => prefixed("handle failed: ", d.as_str()),
            ActorError::SendTimeout => String::from_str("send timeout"),
            ActorError::ChannelClosed => String::from_str("channel closed"),
            ActorError::RequestFailed(d) => prefixed("request failed: ", d.as_str()),
        }
    }
}

} // verus!
