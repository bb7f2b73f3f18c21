use vstd::prelude::*;

use crate::model::{fields_of, CreateTaskInput, Task};
use crate::table::{StoreCall, StoreReply};
use crate::task_id::{identifier_value, parse_task_id};

verus! {

/// The most tasks the table may hold.
pub const MAX_TASKS: u64 = 100;

/// Why a request failed.
#[derive(Debug, Clone, Copy, PartialEq, Eq, Structural)]
pub enum TaskError {
    /// A malformed id or a missing title; the store was not asked.
    InvalidInput,
    /// No task has the id.
    NotFound,
    /// The table already holds the most tasks it may.
    QuotaExceeded,
    /// The store did not complete the statement.
    StoreFailure,
}

impl TaskError {
    /// The error is the caller's to correct.
    pub open spec fn is_client_error(self) -> bool {
        self != TaskError::StoreFailure
    }

    /// The HTTP status for this error: 400 for what the caller can correct,
    /// 500 for a store failure.
    pub fn status_code(&self) -> (r: u16)
        ensures
            self.is_client_error() ==> r == 400,
            !self.is_client_error() ==> r == 500,
    {
        match self {
            TaskError::StoreFailure => 500,
            _ => 400,
        }
    }

    /// A machine-readable code for the error.
    pub fn code(&self) -> (r: &'static str)
        ensures
            *self == TaskError::InvalidInput ==> r@ == "invalid_input"@,
            *self == TaskError::NotFound ==> r@ == "not_found"@,
            *self == TaskError::QuotaExceeded ==> r@ == "quota_exceeded"@,
            *self == TaskError::StoreFailure ==> r@ == "store_unavailable"@,
    {
        match self {
            TaskError::InvalidInput => "invalid_input",
            TaskError::NotFound => "not_found",
            TaskError::QuotaExceeded => "quota_exceeded",
            TaskError::StoreFailure => "store_unavailable",
        }
    }
}

/// A request that succeeded.
#[derive(Debug, Clone, PartialEq, Eq)]
pub enum Outcome {
    /// Every task.
    Listed(Vec<Task>),
    /// The task created, with the id the store gave it.
    Created(Task),
    /// The task as it stands after the update.
    Updated(Task),
    /// The task was removed.
    Deleted,
}

impl Outcome {
    /// The HTTP status for a success: 201 for a creation, 200 otherwise.
    pub fn status_code(&self) -> (r: u16)
        ensures
            self is Created ==> r == 201,
            !(self is Created) ==> r == 200,
    {
        match self {
            Outcome::Created(_) => 201,
            _ => 200,
        }
    }
}

/// The statement behind a list request.
pub open spec fn list_request() -> StoreCall {
    StoreCall::SelectAll
}

/// The statement behind a create request, or why it is refused.
pub open spec fn create_request(input: CreateTaskInput) -> Result<StoreCall, TaskError> {
    if input.title@.len() == 0 {
        Err(TaskError::InvalidInput)
    } else {
        Ok(StoreCall::InsertBelowCeiling { fields: fields_of(input), ceiling: MAX_TASKS })
    }
}

/// The statement behind an update request, or why it is refused. The id is
/// checked first.
pub open spec fn update_request(id: Seq<char>, input: CreateTaskInput) -> Result<
    StoreCall,
    TaskError,
> {
    match identifier_value(id) {
        None => Err(TaskError::InvalidInput),
        Some(v) => if input.title@.len() == 0 {
            Err(TaskError::InvalidInput)
        } else {
            Ok(StoreCall::UpdateById { id: v, fields: fields_of(input) })
        },
    }
}

/// The statement behind a delete request, or why it is refused.
pub open spec fn delete_request(id: Seq<char>) -> Result<StoreCall, TaskError> {
    match identifier_value(id) {
        None => Err(TaskError::InvalidInput),
        Some(v) => Ok(StoreCall::DeleteById { id: v }),
    }
}

/// What a request answers once the store has answered its statement. A reply
/// of another kind than the statement asks for counts as a store failure.
pub open spec fn outcome_of(call: StoreCall, reply: StoreReply) -> Result<Outcome, TaskError> {
    match reply {
        StoreReply::Failed => Err(TaskError::StoreFailure),
        StoreReply::Rows(v) => if call is SelectAll {
            Ok(Outcome::Listed(v))
        } else {
            Err(TaskError::StoreFailure)
        },
        StoreReply::Inserted(r) => if call is InsertBelowCeiling {
            match r {
                Some(t) => Ok(Outcome::Created(t)),
                None => Err(TaskError::QuotaExceeded),
            }
        } else {
            Err(TaskError::StoreFailure)
        },
        StoreReply::Updated(r) => if call is UpdateById {
            match r {
                Some(t) => Ok(Outcome::Updated(t)),
                None => Err(TaskError::NotFound),
            }
        } else {
            Err(TaskError::StoreFailure)
        },
        StoreReply::Deleted(n) => if call is DeleteById {
            if n == 0 {
                Err(TaskError::NotFound)
            } else {
                Ok(Outcome::Deleted)
            }
        } else {
            Err(TaskError::StoreFailure)
        },
    }
}

/// What a whole request answers: its refusal, or the outcome of its statement.
pub open spec fn request_result(
    request: Result<StoreCall, TaskError>,
    reply: StoreReply,
) -> Result<Outcome, TaskError> {
    match request {
        Err(e) => Err(e),
        Ok(call) => outcome_of(call, reply),
    }
}

/// Starts a list request: every row is read.
pub fn list_tasks() -> (r: StoreCall)
    ensures
        r == list_request(),
{
    StoreCall::SelectAll
}

/// Starts a create request. An empty title is refused; otherwise the task is
/// inserted with `completed` defaulting to `false`, in one step with the check
/// that the table is below its ceiling.
pub fn create_task(input: CreateTaskInput) -> (r: Result<StoreCall, TaskError>)
    ensures
        r == create_request(input),
{
    if input.title.as_str().is_empty() {
        return Err(TaskError::InvalidInput);
    }
    Ok(StoreCall::InsertBelowCeiling { fields: input.into_fields(), ceiling: MAX_TASKS })
}

/// Starts an update request. A malformed id or an empty title is refused;
/// otherwise every field but the id is overwritten, and no row with the id
/// is reported as not found.
pub fn update_task(id: &str, input: CreateTaskInput) -> (r: Result<StoreCall, TaskError>)
    ensures
        r == update_request(id@, input),
{
    let v = match parse_task_id(id) {
        Ok(v) => v,
        Err(_) => return Err(TaskError::InvalidInput),
    };
    if input.title.as_str().is_empty() {
        return Err(TaskError::InvalidInput);
    }
    Ok(StoreCall::UpdateById { id: v, fields: input.into_fields() })
}

/// Starts a delete request. A malformed id is refused; removing no row is
/// reported as not found.
pub fn delete_task(id: &str) -> (r: Result<StoreCall, TaskError>)
    ensures
        r == delete_request(id@),
{
    match parse_task_id(id) {
        Ok(v) => Ok(StoreCall::DeleteById { id: v }),
        Err(_) => Err(TaskError::InvalidInput),
    }
}

/// Ends a request, given the statement issued and the store's reply.
pub fn finish_request(call: &StoreCall, reply: StoreReply) -> (r: Result<Outcome, TaskError>)
    ensures
        r == outcome_of(*call, reply),
{
    match reply {
        StoreReply::Failed => Err(TaskError::StoreFailure),
        StoreReply::Rows(v) => match call {
            StoreCall::SelectAll => Ok(Outcome::Listed(v)),
            _ => Err(TaskError::StoreFailure),
        },
        StoreReply::Inserted(r) => match call {
            StoreCall::InsertBelowCeiling { .. } => match r {
                Some(t) => Ok(Outcome::Created(t)),
                None => Err(TaskError::QuotaExceeded),
            },
            _ => Err(TaskError::StoreFailure),
        },
        StoreReply::Updated(r) => match call {
            StoreCall::UpdateById { .. } => match r {
                Some(t) => Ok(Outcome::Updated(t)),
                None => Err(TaskError::NotFound),
            },
            _ => Err(TaskError::StoreFailure),
        },
        StoreReply::Deleted(n) => match call {
            StoreCall::DeleteById { .. } => if n == 0 {
                Err(TaskError::NotFound)
            } else {
                Ok(Outcome::Deleted)
            },
            _ => Err(TaskError::StoreFailure),
        },
    }
}

} // verus!
