//! Storing a new task under a fresh identifier.

use crate::domain::task::task::{Task, TaskView};
use crate::domain::task::task_description::{parse_task_description, TaskDescription};
use crate::domain::task::task_id::TaskId;
use crate::domain::task::task_repository::{TaskRepository, TaskRepositoryError};
use crate::domain::task::task_status::TaskStatus;
use crate::domain::task::task_title::{parse_task_title, TaskTitle};
use crate::use_cases::task::register_task_command::RegisterTaskCommand;
use crate::use_cases::task::register_task_result::RegisterTaskResult;
use crate::uuid_text::is_random_uuid;
use vstd::prelude::*;

verus! {

/// Why a task was not registered.
#[derive(Debug, PartialEq, Eq, Clone, Copy, Structural)]
pub enum RegisterTaskError {
    InvalidTitle,
    InvalidDescription,
    InvalidStatus,
    RepositoryError,
}

/// The task that raw values make under an identifier. The first invalid
/// value, in the order title, description, status, decides the error.
pub open spec fn assembled(id: u128, title: Seq<char>, description: Seq<char>, status: i32) -> Result<
    TaskView,
    RegisterTaskError,
> {
    match (parse_task_title(title), parse_task_description(description), TaskStatus::of_code(
        status as int,
    )) {
        (Err(_), _, _) => Err(RegisterTaskError::InvalidTitle),
        (Ok(_), Err(_), _) => Err(RegisterTaskError::InvalidDescription),
        (Ok(_), Ok(_), None) => Err(RegisterTaskError::InvalidStatus),
        (Ok(title), Ok(description), Some(status)) => Ok(
            TaskView { id, title, description, status },
        ),
    }
}

/// What the use case answers on a modelled store, once the identifier is
/// chosen: the error of `assembled`, or `RepositoryError` if the identifier
/// is in use, or the new task.
pub open spec fn register_task_result(
    tasks: Map<u128, TaskView>,
    id: u128,
    title: Seq<char>,
    description: Seq<char>,
    status: i32,
) -> Result<TaskView, RegisterTaskError> {
    match assembled(id, title, description, status) {
        Ok(task) => if tasks.contains_key(id) {
            Err(RegisterTaskError::RepositoryError)
        } else {
            Ok(task)
        },
        Err(e) => Err(e),
    }
}

/// Whether an answer and the tasks stored after it are what the use case
/// owes for a command and an identifier on a modelled store: the answer is
/// `register_task_result`; on success the new task stands under the
/// identifier, and on any error the store is as it was.
pub open spec fn register_task_conforms(
    before: Map<u128, TaskView>,
    after: Map<u128, TaskView>,
    id: u128,
    title: Seq<char>,
    description: Seq<char>,
    status: i32,
    r: Result<RegisterTaskResult, RegisterTaskError>,
) -> bool {
    match (r, register_task_result(before, id, title, description, status)) {
        (Ok(result), Ok(task)) => result.shows(task) && after == before.insert(id, task),
        (Err(e), Err(f)) => e == f && after == before,
        _ => false,
    }
}

/// Whether an answer is one that the use case can give for a command and
/// an identifier, whatever the store does: the error of `assembled` where
/// a value is invalid, and else success or `RepositoryError`.
pub open spec fn register_task_answers(
    id: u128,
    title: Seq<char>,
    description: Seq<char>,
    status: i32,
    r: Result<RegisterTaskResult, RegisterTaskError>,
) -> bool {
    match assembled(id, title, description, status) {
        Ok(_) => r is Ok || r == Err::<RegisterTaskResult, RegisterTaskError>(
            RegisterTaskError::RepositoryError,
        ),
        Err(e) => r == Err::<RegisterTaskResult, RegisterTaskError>(e),
    }
}

/// Validates the values of a command and makes a task of them.
pub fn assemble(id: TaskId, command: &RegisterTaskCommand) -> (r: Result<Task, RegisterTaskError>)
    ensures
        match r {
            Ok(task) => assembled(
                id@,
                command.spec_title(),
                command.spec_description(),
                command.spec_status(),
            ) == Ok::<TaskView, RegisterTaskError>(task@),
            Err(e) => assembled(
                id@,
                command.spec_title(),
                command.spec_description(),
                command.spec_status(),
            ) == Err::<TaskView, RegisterTaskError>(e),
        },
{
    let title = match TaskTitle::try_from(command.title()) {
        Ok(title) => title,
        Err(_) => return Err(RegisterTaskError::InvalidTitle),
    };
    let description = match TaskDescription::try_from(command.description()) {
        Ok(description) => description,
        Err(_) => return Err(RegisterTaskError::InvalidDescription),
    };
    let status = match TaskStatus::try_from(command.status()) {
        Ok(status) => status,
        Err(_) => return Err(RegisterTaskError::InvalidStatus),
    };
    Ok(Task::new(id, title, description, status))
}

/// What the use case answers for what the repository answered.
pub fn registered_result(outcome: Result<Task, TaskRepositoryError>) -> (r: Result<
    RegisterTaskResult,
    RegisterTaskError,
>)
    ensures
        match outcome {
            Ok(task) => r matches Ok(result) && result.shows(task@),
            Err(_) => r == Err::<RegisterTaskResult, RegisterTaskError>(
                RegisterTaskError::RepositoryError,
            ),
        },
{
    match outcome {
        Ok(task) => Ok(RegisterTaskResult::from(&task)),
        Err(_) => Err(RegisterTaskError::RepositoryError),
    }
}

/// The use case that registers a task.
pub struct RegisterTask<'a, T: TaskRepository> {
    pub repository: &'a mut T,
}

impl<'a, T: TaskRepository> RegisterTask<'a, T> {
    /// The use case on the given repository, which it hands back as it
    /// leaves it.
    pub fn new(repository: &'a mut T) -> (use_case: Self)
        ensures
            *use_case.repository == *old(repository),
            *final(use_case.repository) == *final(repository),
    {
        Self { repository }
    }

    /// Registers the task of the command under the given identifier. The
    /// values are validated before the repository is asked for anything,
    /// and whatever failure it answers is given as `RepositoryError`.
    ///
    /// The first clause says that the use case keeps the repository that
    /// it was given: what the lender gets back is what the use case
    /// leaves.
    pub fn execute_with_id(&mut self, id: TaskId, command: RegisterTaskCommand) -> (r: Result<
        RegisterTaskResult,
        RegisterTaskError,
    >)
        ensures
            *final(final(self).repository) == *final(old(self).repository),
            register_task_answers(
                id@,
                command.spec_title(),
                command.spec_description(),
                command.spec_status(),
                r,
            ),
            T::modelled() ==> register_task_conforms(
                (*old(self).repository).tasks(),
                (*final(self).repository).tasks(),
                id@,
                command.spec_title(),
                command.spec_description(),
                command.spec_status(),
                r,
            ),
    {
        let task = match assemble(id, &command) {
            Ok(task) => task,
            Err(e) => return Err(e),
        };
        registered_result(self.repository.register(task))
    }

    /// Registers the task of the command under a fresh random identifier.
    /// The identifier is not known beforehand, so the answer is the one
    /// that `execute_with_id` owes for some random identifier.
    pub fn execute(&mut self, command: RegisterTaskCommand) -> (r: Result<
        RegisterTaskResult,
        RegisterTaskError,
    >)
        ensures
            *final(final(self).repository) == *final(old(self).repository),
            exists|id: u128|
                {
                    &&& is_random_uuid(id)
                    &&& #[trigger] register_task_answers(
                        id,
                        command.spec_title(),
                        command.spec_description(),
                        command.spec_status(),
                        r,
                    )
                    &&& T::modelled() ==> register_task_conforms(
                        (*old(self).repository).tasks(),
                        (*final(self).repository).tasks(),
                        id,
                        command.spec_title(),
                        command.spec_description(),
                        command.spec_status(),
                        r,
                    )
                },
    {
        let id = TaskId::new();
        self.execute_with_id(id, command)
    }
}

} // verus!
