//! Decisions of the HTTP submission/result API: which requests are accepted,
//! and what a result lookup reports. The handlers around them only move bytes
//! between the network and the store.

use vstd::prelude::*;
use vstd::string::StringExecFns;
use crate::json::{string_field, string_field_of, JsonValue};

verus! {

/// Why a submission is rejected: an empty task identifier, or a null input.
#[derive(Debug)]
pub enum ValidationError {
    EmptyTaskId,
    NullInput,
}

impl ValidationError {
    /// The diagnostic sent back to the submitter.
    pub fn message(&self) -> (r: String)
        ensures
            *self is EmptyTaskId ==> r@ == "task_id cannot be empty"@,
            *self is NullInput ==> r@ == "input cannot be null"@,
    {
        match self {
            ValidationError::EmptyTaskId => String::from_str("task_id cannot be empty"),
            ValidationError::NullInput => String::from_str("input cannot be null"),
        }
    }
}

/// The submission API's validation rule: a request is accepted exactly when
/// its task identifier is non-empty and its input is not null; an empty
/// identifier is reported before a null input.
pub fn validate_request(task_id: &String, input: &JsonValue) -> (r: Result<(), ValidationError>)
    ensures
        r is Ok <==> (task_id@.len() > 0 && !(*input is Null)),
        task_id@.len() == 0 ==> r matches Err(ValidationError::EmptyTaskId),
        task_id@.len() > 0 && *input is Null ==> r matches Err(ValidationError::NullInput),
{
    if task_id.as_str().is_empty() {
        return Err(ValidationError::EmptyTaskId);
    }
    match input {
        JsonValue::Null => Err(ValidationError::NullInput),
        _ => Ok(()),
    }
}

/// What a result lookup reports for a task identifier.
#[derive(Debug, PartialEq)]
pub enum LookupOutcome {
    /// A result record exists: the task is finished.
    Completed,
    /// No result yet, but the task record exists; carries the record's
    /// `status` field, or `unknown` when the record has no readable one.
    InProgress(String),
    /// Neither a result nor a task record exists.
    NotFound,
}

/// The result API's decision, given whether a result record exists and the
/// raw task record fetched from the store (or nothing): a found result means
/// the task completed; otherwise a found task record reports its status word,
/// falling back to `unknown`; otherwise the task is unknown to the store.
pub fn lookup_response(result_found: bool, task_raw: &Option<String>) -> (r: LookupOutcome)
    ensures
        result_found ==> r is Completed,
        !result_found && task_raw is None ==> r is NotFound,
        !result_found ==> (task_raw matches Some(raw) ==> (r matches LookupOutcome::InProgress(s)
            && (match string_field_of(raw@, "status"@) {
            Option::Some(t) => s@ == t,
            Option::None => s@ == "unknown"@,
        }))),
{
    if result_found {
        return LookupOutcome::Completed;
    }
    match task_raw {
        None => LookupOutcome::NotFound,
        Some(raw) => match string_field(raw.as_str(), "status") {
            Some(status) => LookupOutcome::InProgress(status),
            None => LookupOutcome::InProgress(String::from_str("unknown")),
        },
    }
}

} // verus!
