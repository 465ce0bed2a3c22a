//! What `UpdateTask` hands back.

use crate::domain::task::task::{Task, TaskView};
use crate::uuid_text::hyphenated;
use vstd::prelude::*;

verus! {

/// The fields of the task after the update, as text and integer.
#[derive(Debug)]
pub struct UpdateTaskResult {
    pub id: String,
    pub title: String,
    pub description: String,
    pub status: i32,
}

impl UpdateTaskResult {
    /// Whether the result shows the given task: the identifier in its
    /// canonical text, the title and the description as they are, and the
    /// status by its code.
    pub open spec fn shows(&self, task: TaskView) -> bool {
        &&& self.id@ == hyphenated(task.id)
        &&& self.title@ == task.title
        &&& self.description@ == task.description
        &&& self.status == task.status.code()
    }

    pub fn from(task: &Task) -> (result: Self)
        ensures
            result.shows(task@),
    {
        Self {
            id: task.id.to_string(),
            title: task.title.to_string(),
            description: task.description.to_string(),
            status: task.status.to_int(),
        }
    }
}

} // verus!
