//! What a caller hands to `DeleteTask`.

use crate::domain::task::task_id::TaskId;
use crate::uuid_text::parse_uuid;
use vstd::prelude::*;

verus! {

/// Why no command could be made.
#[derive(Debug, PartialEq, Eq, Clone, Copy, Structural)]
pub enum DeleteTaskCommandError {
    InvalidFormatTaskId,
}

/// The identifier of the task to delete.
#[derive(Debug)]
pub struct DeleteTaskCommand {
    pub id: u128,
}

impl DeleteTaskCommand {
    /// A command for the task whose identifier the text `id` writes. It
    /// fails exactly if the text writes no identifier.
    pub fn new(id: &str) -> (r: Result<Self, DeleteTaskCommandError>)
        ensures
            match r {
                Ok(command) => parse_uuid(id@) == Some(command.id),
                Err(_) => parse_uuid(id@) is None,
            },
    {
        let id = match TaskId::try_from(id) {
            Ok(id) => id.value(),
            Err(_) => return Err(DeleteTaskCommandError::InvalidFormatTaskId),
        };
        Ok(Self { id })
    }
}

} // verus!
