//! What a caller hands to `UpdateTask`.

use crate::domain::task::task_id::TaskId;
use crate::uuid_text::parse_uuid;
use vstd::prelude::*;

verus! {

/// Why no command could be made.
#[derive(Debug, PartialEq, Eq, Clone, Copy, Structural)]
pub enum UpdateTaskCommandError {
    InvalidFormatTaskID,
}

/// The identifier of the task to change, and a new value for each field
/// that is to change. A field that is `None` stays as it is.
#[derive(Debug)]
pub struct UpdateTaskCommand {
    pub id: u128,
    pub title: Option<String>,
    pub description: Option<String>,
    pub status: Option<i32>,
}

/// The characters of an optional text.
pub open spec fn text_of(text: Option<String>) -> Option<Seq<char>> {
    match text {
        Some(text) => Some(text@),
        None => None,
    }
}

/// The characters of an optional borrowed text.
pub open spec fn str_of(text: Option<&str>) -> Option<Seq<char>> {
    match text {
        Some(text) => Some(text@),
        None => None,
    }
}

fn owned(text: Option<&str>) -> (copy: Option<String>)
    ensures
        text_of(copy) == str_of(text),
{
    match text {
        Some(text) => Some(String::from_str(text)),
        None => None,
    }
}

impl UpdateTaskCommand {
    /// A command for the task whose identifier the text `id` writes. It
    /// fails exactly if the text writes no identifier.
    pub fn new(
        id: &str,
        title: Option<&str>,
        description: Option<&str>,
        status: Option<i32>,
    ) -> (r: Result<UpdateTaskCommand, UpdateTaskCommandError>)
        ensures
            match r {
                Ok(command) => {
                    &&& parse_uuid(id@) == Some(command.id)
                    &&& text_of(command.title) == str_of(title)
                    &&& text_of(command.description) == str_of(description)
                    &&& command.status == status
                },
                Err(_) => parse_uuid(id@) is None,
            },
    {
        let id = match TaskId::try_from(id) {
            Ok(id) => id.value(),
            Err(_) => return Err(UpdateTaskCommandError::InvalidFormatTaskID),
        };
        Ok(UpdateTaskCommand { id, title: owned(title), description: owned(description), status })
    }
}

} // verus!
