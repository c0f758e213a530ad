//! Plain-value models of the A2A protocol messages that the agent runtime
//! produces, together with the numeric encodings that the protocol crate
//! assigns to its enumerations.

use vstd::prelude::*;

verus! {

/// The lifecycle state of an A2A task.
#[derive(Clone, Copy, Debug, PartialEq, Eq, Structural)]
pub enum TaskState {
    Unspecified,
    Submitted,
    Working,
    Completed,
    Failed,
    Canceled,
    InputRequired,
    Rejected,
    AuthRequired,
}

/// The wire number of each task state, as the protocol definition fixes it.
pub open spec fn task_state_number(state: TaskState) -> i32 {
    match state {
        TaskState::Unspecified => 0,
        TaskState::Submitted => 1,
        TaskState::Working => 2,
        TaskState::Completed => 3,
        TaskState::Failed => 4,
        TaskState::Canceled => 5,
        TaskState::InputRequired => 6,
        TaskState::Rejected => 7,
        TaskState::AuthRequired => 8,
    }
}

/// The task state that a wire number denotes, if it denotes one.
pub open spec fn task_state_of_number(code: i32) -> Option<TaskState> {
    if code == 0 {
        Some(TaskState::Unspecified)
    } else if code == 1 {
        Some(TaskState::Submitted)
    } else if code == 2 {
        Some(TaskState::Working)
    } else if code == 3 {
        Some(TaskState::Completed)
    } else if code == 4 {
        Some(TaskState::Failed)
    } else if code == 5 {
        Some(TaskState::Canceled)
    } else if code == 6 {
        Some(TaskState::InputRequired)
    } else if code == 7 {
        Some(TaskState::Rejected)
    } else if code == 8 {
        Some(TaskState::AuthRequired)
    } else {
        None
    }
}

/// Trusted: `i32::from(a2a_types::TaskState)`, the `From` impl that prost derives
/// for the protocol enumeration. The contract claims that it gives the number
/// that the protocol definition assigns to the variant.
#[verifier::external_body]
fn protocol_task_state_number(state: TaskState) -> (code: i32)
    ensures
        code == task_state_number(state),
{
    let proto = match state {
        TaskState::Unspecified => a2a_types::TaskState::Unspecified,
        TaskState::Submitted => a2a_types::TaskState::Submitted,
        TaskState::Working => a2a_types::TaskState::Working,
        TaskState::Completed => a2a_types::TaskState::Completed,
        TaskState::Failed => a2a_types::TaskState::Failed,
        TaskState::Canceled => a2a_types::TaskState::Canceled,
        TaskState::InputRequired => a2a_types::TaskState::InputRequired,
        TaskState::Rejected => a2a_types::TaskState::Rejected,
        TaskState::AuthRequired => a2a_types::TaskState::AuthRequired,
    };
    i32::from(proto)
}

/// Trusted: `<a2a_types::TaskState as TryFrom<i32>>::try_from`, which prost derives
/// for the protocol enumeration. The contract claims that it succeeds exactly on
/// the numbers that the protocol definition lists, with the matching variant,
/// and fails on every other number.
#[verifier::external_body]
fn protocol_task_state_of_number(code: i32) -> (state: Option<TaskState>)
    ensures
        state == task_state_of_number(code),
{
    match a2a_types::TaskState::try_from(code) {
        Ok(a2a_types::TaskState::Unspecified) => Some(TaskState::Unspecified),
        Ok(a2a_types::TaskState::Submitted) => Some(TaskState::Submitted),
        Ok(a2a_types::TaskState::Working) => Some(TaskState::Working),
        Ok(a2a_types::TaskState::Completed) => Some(TaskState::Completed),
        Ok(a2a_types::TaskState::Failed) => Some(TaskState::Failed),
        Ok(a2a_types::TaskState::Canceled) => Some(TaskState::Canceled),
        Ok(a2a_types::TaskState::InputRequired) => Some(TaskState::InputRequired),
        Ok(a2a_types::TaskState::Rejected) => Some(TaskState::Rejected),
        Ok(a2a_types::TaskState::AuthRequired) => Some(TaskState::AuthRequired),
        Err(_) => None,
    }
}

impl TaskState {
    /// The wire number of this state (what `state as i32` gives on the protocol enum).
    pub fn number(self) -> (code: i32)
        ensures
            code == task_state_number(self),
    {
        protocol_task_state_number(self)
    }

    /// The state that a wire number denotes, or `None` for a number that the
    /// protocol does not define.
    pub fn from_number(code: i32) -> (state: Option<TaskState>)
        ensures
            state == task_state_of_number(code),
    {
        protocol_task_state_of_number(code)
    }
}

/// Every task state survives a trip through its wire number, and no two states
/// share a number.
pub proof fn lemma_task_state_number_roundtrip(state: TaskState, other: TaskState)
    ensures
        task_state_of_number(task_state_number(state)) == Some(state),
        task_state_number(state) == task_state_number(other) ==> state == other,
{
}

/// The sender of an A2A message.
#[derive(Clone, Copy, Debug, PartialEq, Eq, Structural)]
pub enum ProtocolRole {
    Unspecified,
    User,
    Agent,
}

/// The wire number of each message role, as the protocol definition fixes it.
pub open spec fn protocol_role_number(role: ProtocolRole) -> i32 {
    match role {
        ProtocolRole::Unspecified => 0,
        ProtocolRole::User => 1,
        ProtocolRole::Agent => 2,
    }
}

/// Trusted: `i32::from(a2a_types::Role)`, the `From` impl that prost derives for
/// the protocol enumeration. The contract claims that it gives the number that
/// the protocol definition assigns to the variant.
#[verifier::external_body]
fn protocol_role_number_of(role: ProtocolRole) -> (code: i32)
    ensures
        code == protocol_role_number(role),
{
    let proto = match role {
        ProtocolRole::Unspecified => a2a_types::Role::Unspecified,
        ProtocolRole::User => a2a_types::Role::User,
        ProtocolRole::Agent => a2a_types::Role::Agent,
    };
    i32::from(proto)
}

impl ProtocolRole {
    /// The wire number of this role (what `role as i32` gives on the protocol enum).
    pub fn number(self) -> (code: i32)
        ensures
            code == protocol_role_number(self),
    {
        protocol_role_number_of(self)
    }
}

/// A point in time: whole seconds since the Unix epoch and the nanoseconds
/// past that second.
#[derive(Clone, Copy, Debug, PartialEq, Eq, Structural)]
pub struct Timestamp {
    pub seconds: i64,
    pub nanos: i32,
}

/// The content carried by one part of a protocol message.
#[derive(Clone, Debug, PartialEq, Eq)]
pub enum PartContent {
    Text(String),
    Raw(Vec<u8>),
    Url(String),
}

/// One part of a protocol message or artifact.
#[derive(Clone, Debug, PartialEq, Eq)]
pub struct Part {
    pub content: Option<PartContent>,
    pub filename: String,
    pub media_type: String,
}

/// A protocol message; `role` holds the wire number of a `ProtocolRole`.
#[derive(Clone, Debug, PartialEq, Eq)]
pub struct Message {
    pub message_id: String,
    pub context_id: String,
    pub task_id: String,
    pub role: i32,
    pub parts: Vec<Part>,
    pub extensions: Vec<String>,
    pub reference_task_ids: Vec<String>,
}

/// A protocol artifact: an output that a task produced.
#[derive(Clone, Debug, PartialEq, Eq)]
pub struct Artifact {
    pub artifact_id: String,
    pub name: String,
    pub description: String,
    pub parts: Vec<Part>,
    pub extensions: Vec<String>,
}

/// The status of a task; `state` holds the wire number of a `TaskState`.
#[derive(Clone, Debug, PartialEq, Eq)]
pub struct TaskStatus {
    pub state: i32,
    pub message: Option<Message>,
    pub timestamp: Option<Timestamp>,
}

/// The event that announces a new status of a task.
#[derive(Clone, Debug, PartialEq, Eq)]
pub struct TaskStatusUpdateEvent {
    pub task_id: String,
    pub context_id: String,
    pub status: Option<TaskStatus>,
}

} // verus!
