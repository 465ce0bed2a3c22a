//! Removing a stored task.

use crate::domain::task::task_id::TaskId;
use crate::domain::task::task_repository::{deleted, TaskRepository};
use crate::use_cases::task::delete_task_command::DeleteTaskCommand;
use vstd::prelude::*;

verus! {

/// The use case that deletes a task.
pub struct DeleteTask<'a, T: TaskRepository> {
    pub repository: &'a mut T,
}

impl<'a, T: TaskRepository> DeleteTask<'a, T> {
    /// The use case on the given repository, which it hands back as it
    /// leaves it.
    pub fn new(repository: &'a mut T) -> (use_case: Self)
        ensures
            *use_case.repository == *old(repository),
            *final(use_case.repository) == *final(repository),
    {
        Self { repository }
    }

    /// Removes the task of the command. That no such task was stored is no
    /// error here, nor is any other failure of the repository: the answer
    /// is always `Ok`. On a modelled store no task stands under the
    /// identifier afterwards, and the other tasks are as they were.
    pub fn execute(&mut self, command: DeleteTaskCommand) -> (r: Result<(), ()>)
        ensures
            r is Ok,
            *final(final(self).repository) == *final(old(self).repository),
            T::modelled() ==> (*final(self).repository).tasks() == deleted(
                (*old(self).repository).tasks(),
                command.id,
            ),
    {
        let id = TaskId::from(command.id);
        let _ = self.repository.delete(&id);
        Ok(())
    }
}

} // verus!
