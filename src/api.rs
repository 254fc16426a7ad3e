//! What each task endpoint answers, given the outcome of its statement.

use vstd::prelude::*;
use vstd::string::StringExecFns;
use crate::model::Task;
use crate::uid::{TaskUid, hyphenated};

verus! {

/// Status code of a successful read.
pub const STATUS_OK: u16 = 200;

/// Status code of a successful creation.
pub const STATUS_CREATED: u16 = 201;

/// Status code of a lookup that found nothing.
pub const STATUS_NOT_FOUND: u16 = 404;

/// Status code of a failed statement.
pub const STATUS_INTERNAL_ERROR: u16 = 500;

/// The answer of a task endpoint: a status and a body.
#[derive(Clone, Debug)]
pub enum TaskReply {
    /// One task, as JSON.
    Found(Task),
    /// All tasks, as a JSON list.
    Listed(Vec<Task>),
    /// The task just created, as JSON.
    Created(Task),
    /// No task has the identifier: the text says which.
    NotFound(String),
    /// The statement failed: the text is its error.
    Failed(String),
}

impl TaskReply {
    pub open spec fn spec_status(&self) -> u16 {
        match self {
            TaskReply::Found(_) => STATUS_OK,
            TaskReply::Listed(_) => STATUS_OK,
            TaskReply::Created(_) => STATUS_CREATED,
            TaskReply::NotFound(_) => STATUS_NOT_FOUND,
            TaskReply::Failed(_) => STATUS_INTERNAL_ERROR,
        }
    }

    /// The HTTP status code of the answer.
    pub fn status_code(&self) -> (r: u16)
        ensures
            r == self.spec_status(),
    {
        match self {
            TaskReply::Found(_) => STATUS_OK,
            TaskReply::Listed(_) => STATUS_OK,
            TaskReply::Created(_) => STATUS_CREATED,
            TaskReply::NotFound(_) => STATUS_NOT_FOUND,
            TaskReply::Failed(_) => STATUS_INTERNAL_ERROR,
        }
    }
}

/// The body of the answer to a lookup of an identifier whose text is `key`
/// and that no task has.
pub open spec fn not_found_text(key: Seq<char>) -> Seq<char> {
    "No task found with UID: "@ + key
}

/// The answer to a lookup of `uid`, given what the lookup returned: the task,
/// no task, or the text of its error.
pub fn lookup_reply(uid: &TaskUid, outcome: Result<Option<Task>, String>) -> (r: TaskReply)
    ensures
        match outcome {
            Ok(Some(t)) => r == TaskReply::Found(t),
            Ok(None) => r matches TaskReply::NotFound(text)
                && text@ == not_found_text(hyphenated(uid.bytes@)),
            Err(e) => r == TaskReply::Failed(e),
        },
{
    match outcome {
        Ok(Some(t)) => TaskReply::Found(t),
        Ok(None) => {
            let key = uid.to_text();
            let text = "No task found with UID: ".to_owned().concat(key.as_str());
            TaskReply::NotFound(text)
        },
        Err(e) => TaskReply::Failed(e),
    }
}

/// The answer to a listing, given the tasks read or the text of the error.
pub fn list_reply(outcome: Result<Vec<Task>, String>) -> (r: TaskReply)
    ensures
        match outcome {
            Ok(ts) => r == TaskReply::Listed(ts),
            Err(e) => r == TaskReply::Failed(e),
        },
{
    match outcome {
        Ok(ts) => TaskReply::Listed(ts),
        Err(e) => TaskReply::Failed(e),
    }
}

/// The answer to a creation, given the task inserted or the text of the error.
pub fn created_reply(outcome: Result<Task, String>) -> (r: TaskReply)
    ensures
        match outcome {
            Ok(t) => r == TaskReply::Created(t),
            Err(e) => r == TaskReply::Failed(e),
        },
{
    match outcome {
        Ok(t) => TaskReply::Created(t),
        Err(e) => TaskReply::Failed(e),
    }
}

/// The message that answers a deletion, given the number of rows deleted or
/// the text of the error: `deleted`, or that text.
pub fn delete_message(outcome: Result<usize, String>) -> (r: String)
    ensures
        match outcome {
            Ok(_) => r@ == "deleted"@,
            Err(e) => r == e,
        },
{
    match outcome {
        Ok(_) => "deleted".to_owned(),
        Err(e) => e,
    }
}

} // verus!
