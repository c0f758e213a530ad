//! Status mapping from skill results to A2A task statuses.
//!
//! Every conversion between what a skill hands back and the protocol's task
//! status stands here, so that the boundary between the runtime's own types
//! and the protocol stays in one place.

use vstd::prelude::*;
use crate::agent::{OnInputResult, OnRequestResult};
use crate::protocol::{
    TaskState, TaskStatus, TaskStatusUpdateEvent, Timestamp, task_state_number,
    task_state_of_number,
};

verus! {

/// Trusted: `chrono::Utc::now`, read through `DateTime::timestamp` and
/// `DateTime::timestamp_subsec_nanos`. The contract claims only what chrono
/// keeps of every time it can represent: the nanoseconds past the second stay
/// below two seconds' worth (a leap second may push them past one second).
/// Which time comes back is left open; chrono panics when the system clock
/// reads a time before the Unix epoch.
#[verifier::external_body]
fn utc_clock_now() -> (now: (i64, u32))
    ensures
        now.1 < 2_000_000_000,
{
    let now = chrono::Utc::now();
    (now.timestamp(), now.timestamp_subsec_nanos())
}

/// The protocol timestamp of a clock reading: `seconds` since the Unix epoch
/// and `nanos` past that second.
pub fn timestamp_of(seconds: i64, nanos: u32) -> (t: Timestamp)
    requires
        nanos < 2_000_000_000,
    ensures
        t.seconds == seconds,
        t.nanos == nanos,
{
    Timestamp { seconds, nanos: nanos as i32 }
}

/// The current UTC time as a protocol timestamp.
fn now() -> (t: Timestamp)
    ensures
        0 <= t.nanos < 2_000_000_000,
{
    let (seconds, nanos) = utc_clock_now();
    timestamp_of(seconds, nanos)
}

/// The task status that records `state` at time `timestamp`.
pub open spec fn status_of(state: TaskState, timestamp: Timestamp) -> TaskStatus {
    TaskStatus { state: task_state_number(state), message: None, timestamp: Some(timestamp) }
}

/// The task state that answers a skill's result for a new request.
pub open spec fn request_state(result: OnRequestResult) -> TaskState {
    match result {
        OnRequestResult::InputRequired { .. } => TaskState::InputRequired,
        OnRequestResult::Completed { .. } => TaskState::Completed,
        OnRequestResult::Failed { .. } => TaskState::Failed,
        OnRequestResult::Rejected { .. } => TaskState::Rejected,
    }
}

/// The task state that answers a skill's result for input that it asked for.
pub open spec fn input_state(result: OnInputResult) -> TaskState {
    match result {
        OnInputResult::InputRequired { .. } => TaskState::InputRequired,
        OnInputResult::Completed { .. } => TaskState::Completed,
        OnInputResult::Failed { .. } => TaskState::Failed,
    }
}

/// A task in `state` cannot move to another state.
pub open spec fn state_is_terminal(state: TaskState) -> bool {
    match state {
        TaskState::Completed
        | TaskState::Failed
        | TaskState::Rejected
        | TaskState::Canceled
        | TaskState::Unspecified => true,
        _ => false,
    }
}

/// A task with `status` cannot move on: its state is terminal, or its state
/// number denotes no state at all.
pub open spec fn status_is_terminal(status: TaskStatus) -> bool {
    match task_state_of_number(status.state) {
        Some(state) => state_is_terminal(state),
        None => true,
    }
}

/// A task with `status` can be resumed with new input.
pub open spec fn status_can_continue(status: TaskStatus) -> bool {
    task_state_of_number(status.state) == Some(TaskState::InputRequired)
}

/// The status that records `state` at time `timestamp`, with no message.
pub fn task_status(state: TaskState, timestamp: Timestamp) -> (status: TaskStatus)
    ensures
        status == status_of(state, timestamp),
{
    TaskStatus { state: state.number(), timestamp: Some(timestamp), message: None }
}

/// Creates a `TaskStatus` for the Working state, stamped with the current time.
pub fn working_status() -> (status: TaskStatus)
    ensures
        status.state == task_state_number(TaskState::Working),
        status.message is None,
        status.timestamp matches Some(t) && 0 <= t.nanos < 2_000_000_000,
{
    task_status(TaskState::Working, now())
}

/// The task state that answers a skill's result for a new request.
pub fn on_request_state(result: &OnRequestResult) -> (state: TaskState)
    ensures
        state == request_state(*result),
{
    match result {
        OnRequestResult::InputRequired { .. } => TaskState::InputRequired,
        OnRequestResult::Completed { .. } => TaskState::Completed,
        OnRequestResult::Failed { .. } => TaskState::Failed,
        OnRequestResult::Rejected { .. } => TaskState::Rejected,
    }
}

/// The task state that answers a skill's result for input that it asked for.
pub fn on_input_state(result: &OnInputResult) -> (state: TaskState)
    ensures
        state == input_state(*result),
{
    match result {
        OnInputResult::InputRequired { .. } => TaskState::InputRequired,
        OnInputResult::Completed { .. } => TaskState::Completed,
        OnInputResult::Failed { .. } => TaskState::Failed,
    }
}

/// Converts an `OnRequestResult` to a task status stamped with the current time.
pub fn on_request_to_status(result: &OnRequestResult) -> (status: TaskStatus)
    ensures
        status.state == task_state_number(request_state(*result)),
        status.message is None,
        status.timestamp matches Some(t) && 0 <= t.nanos < 2_000_000_000,
{
    task_status(on_request_state(result), now())
}

/// Converts an `OnInputResult` to a task status stamped with the current time.
pub fn on_input_to_status(result: &OnInputResult) -> (status: TaskStatus)
    ensures
        status.state == task_state_number(input_state(*result)),
        status.message is None,
        status.timestamp matches Some(t) && 0 <= t.nanos < 2_000_000_000,
{
    task_status(on_input_state(result), now())
}

/// Creates the event that announces `status` for a task in a context. Whether
/// the status is final is not part of the event.
pub fn create_status_update_event(
    task_id: &str,
    context_id: &str,
    status: TaskStatus,
    _is_final: bool,
) -> (event: TaskStatusUpdateEvent)
    ensures
        event.task_id@ == task_id@,
        event.context_id@ == context_id@,
        event.status == Some(status),
{
    TaskStatusUpdateEvent {
        task_id: task_id.to_owned(),
        context_id: context_id.to_owned(),
        status: Some(status),
    }
}

/// Checks if a task state is terminal (cannot transition further).
pub fn is_terminal_state(state: &TaskState) -> (terminal: bool)
    ensures
        terminal == state_is_terminal(*state),
{
    match state {
        TaskState::Completed
        | TaskState::Failed
        | TaskState::Rejected
        | TaskState::Canceled
        | TaskState::Unspecified => true,
        _ => false,
    }
}

/// Checks if a task status (by its state number) is terminal; a number that
/// denotes no state counts as terminal.
pub fn is_terminal_status(status: &TaskStatus) -> (terminal: bool)
    ensures
        terminal == status_is_terminal(*status),
{
    match TaskState::from_number(status.state) {
        Some(state) => is_terminal_state(&state),
        None => true,
    }
}

/// Checks if a task can be continued (resumed with new input).
pub fn can_continue(status: &TaskStatus) -> (resumable: bool)
    ensures
        resumable == status_can_continue(*status),
{
    match TaskState::from_number(status.state) {
        Some(TaskState::InputRequired) => true,
        _ => false,
    }
}

/// A task that can be resumed is never terminal.
pub proof fn lemma_continuable_is_not_terminal(status: TaskStatus)
    ensures
        status_can_continue(status) ==> !status_is_terminal(status),
{
}

/// The status recorded for a state is terminal exactly when the state is, and
/// can be continued exactly when the state asks for input; the time does not
/// matter.
pub proof fn lemma_status_of_classifies_like_state(state: TaskState, timestamp: Timestamp)
    ensures
        status_is_terminal(status_of(state, timestamp)) == state_is_terminal(state),
        status_can_continue(status_of(state, timestamp)) == (state == TaskState::InputRequired),
{
}

/// The status that answers a new request is terminal unless the skill asked for
/// input, and can be continued exactly when it did.
pub proof fn lemma_request_status_classification(result: OnRequestResult, timestamp: Timestamp)
    ensures
        status_is_terminal(status_of(request_state(result), timestamp))
            == !(result is InputRequired),
        status_can_continue(status_of(request_state(result), timestamp))
            == (result is InputRequired),
{
}

/// The status that answers input is terminal unless the skill asked for more
/// input, and can be continued exactly when it did.
pub proof fn lemma_input_status_classification(result: OnInputResult, timestamp: Timestamp)
    ensures
        status_is_terminal(status_of(input_state(result), timestamp))
            == !(result is InputRequired),
        status_can_continue(status_of(input_state(result), timestamp))
            == (result is InputRequired),
{
}

/// A working task is neither finished nor waiting for input.
pub proof fn lemma_working_is_live(timestamp: Timestamp)
    ensures
        !status_is_terminal(status_of(TaskState::Working, timestamp)),
        !status_can_continue(status_of(TaskState::Working, timestamp)),
{
}

} // verus!
