//! Changing some fields of a stored task.

use crate::domain::task::task::{Task, TaskView};
use crate::domain::task::task_description::{parse_task_description, TaskDescription};
use crate::domain::task::task_id::TaskId;
use crate::domain::task::task_repository::{found, TaskRepository, TaskRepositoryError};
use crate::domain::task::task_status::TaskStatus;
use crate::domain::task::task_title::{parse_task_title, TaskTitle};
use crate::use_cases::task::update_task_command::{text_of, UpdateTaskCommand};
use crate::use_cases::task::update_task_result::UpdateTaskResult;
use crate::text::lemma_trimmed;
use crate::uuid_text::lemma_hyphenated_parses;
use vstd::prelude::*;

verus! {

/// Why a task was not updated.
#[derive(Debug, PartialEq, Eq, Clone, Copy, Structural)]
pub enum UpdateTaskError {
    InvalidID,
    InvalidTitle,
    InvalidDescription,
    InvalidStatus,
    TaskNotFound,
}

/// The task that the new values make of a task: each value that is given
/// takes the place of the field, if it is valid. The first invalid one, in
/// the order title, description, status, decides the error.
pub open spec fn revised(
    task: TaskView,
    title: Option<Seq<char>>,
    description: Option<Seq<char>>,
    status: Option<i32>,
) -> Result<TaskView, UpdateTaskError> {
    let title = match title {
        Some(raw) => parse_task_title(raw).ok(),
        None => Some(task.title),
    };
    let description = match description {
        Some(raw) => parse_task_description(raw).ok(),
        None => Some(task.description),
    };
    let status = match status {
        Some(code) => TaskStatus::of_code(code as int),
        None => Some(task.status),
    };
    if title is None {
        Err(UpdateTaskError::InvalidTitle)
    } else if description is None {
        Err(UpdateTaskError::InvalidDescription)
    } else if status is None {
        Err(UpdateTaskError::InvalidStatus)
    } else {
        Ok(TaskView { id: task.id, title: title->0, description: description->0, status: status->0 })
    }
}

/// What the use case answers on a modelled store: `TaskNotFound` if no
/// task stands under the identifier, else what `revised` makes of the one
/// that does.
pub open spec fn update_task_result(
    tasks: Map<u128, TaskView>,
    id: u128,
    title: Option<Seq<char>>,
    description: Option<Seq<char>>,
    status: Option<i32>,
) -> Result<TaskView, UpdateTaskError> {
    match found(tasks, id) {
        Ok(task) => revised(task, title, description, status),
        Err(_) => Err(UpdateTaskError::TaskNotFound),
    }
}

/// New values never change the identifier of a task, and they leave a
/// valid task valid.
pub proof fn lemma_revised_is_same_task(
    task: TaskView,
    title: Option<Seq<char>>,
    description: Option<Seq<char>>,
    status: Option<i32>,
)
    ensures
        revised(task, title, description, status) matches Ok(new) ==> {
            &&& new.id == task.id
            &&& task.is_valid() ==> new.is_valid()
        },
{
    if title is Some {
        lemma_trimmed(title->0);
    }
    if description is Some {
        lemma_trimmed(description->0);
    }
}

/// An update that gives no new value answers with the stored task as it
/// is, and leaves the store as it was.
pub proof fn lemma_update_without_values(tasks: Map<u128, TaskView>, id: u128)
    requires
        tasks.contains_key(id),
    ensures
        update_task_result(tasks, id, None, None, None) == Ok::<TaskView, UpdateTaskError>(
            tasks[id],
        ),
        tasks.insert(id, tasks[id]) == tasks,
{
    assert(tasks.insert(id, tasks[id]) =~= tasks);
}

/// An update that gives only a status changes only the status: the code 2
/// makes it `Doing`, and title, description and identifier stay.
pub proof fn lemma_update_status_only(tasks: Map<u128, TaskView>, id: u128, code: i32)
    requires
        tasks.contains_key(id),
    ensures
        update_task_result(tasks, id, None, None, Some(code)) == match TaskStatus::of_code(
            code as int,
        ) {
            Some(status) => Ok::<TaskView, UpdateTaskError>(TaskView { status, ..tasks[id] }),
            None => Err::<TaskView, UpdateTaskError>(UpdateTaskError::InvalidStatus),
        },
        update_task_result(tasks, id, None, None, Some(2)) == Ok::<TaskView, UpdateTaskError>(
            TaskView { status: TaskStatus::Doing, ..tasks[id] },
        ),
{
}

/// Whether an answer and the tasks stored after it are what the use case
/// owes for a command on a modelled store: the answer is
/// `update_task_result`; on success the new task stands under the
/// identifier, and on any error the store is as it was.
pub open spec fn update_task_conforms(
    before: Map<u128, TaskView>,
    after: Map<u128, TaskView>,
    id: u128,
    title: Option<Seq<char>>,
    description: Option<Seq<char>>,
    status: Option<i32>,
    r: Result<UpdateTaskResult, UpdateTaskError>,
) -> bool {
    match (r, update_task_result(before, id, title, description, status)) {
        (Ok(result), Ok(task)) => result.shows(task) && after == before.insert(id, task),
        (Err(e), Err(f)) => e == f && after == before,
        _ => false,
    }
}

/// Whether an answer is one that the use case can give for new values,
/// whatever the store does: `TaskNotFound`, or what `revised` makes of
/// some task, by its kind. So an error names the first invalid value,
/// success means that every value is valid, and `InvalidID` is never given.
pub open spec fn update_task_answers(
    title: Option<Seq<char>>,
    description: Option<Seq<char>>,
    status: Option<i32>,
    r: Result<UpdateTaskResult, UpdateTaskError>,
) -> bool {
    ||| r matches Err(UpdateTaskError::TaskNotFound)
    ||| exists|task: TaskView|
        match (r, #[trigger] revised(task, title, description, status)) {
            (Ok(_), Ok(_)) => true,
            (Err(e), Err(f)) => e == f,
            _ => false,
        }
}

/// Puts the new values of a command in the place of the fields of a task.
pub fn revise(task: Task, command: &UpdateTaskCommand) -> (r: Result<Task, UpdateTaskError>)
    ensures
        match r {
            Ok(new) => revised(
                task@,
                text_of(command.title),
                text_of(command.description),
                command.status,
            ) == Ok::<TaskView, UpdateTaskError>(new@),
            Err(e) => revised(
                task@,
                text_of(command.title),
                text_of(command.description),
                command.status,
            ) == Err::<TaskView, UpdateTaskError>(e),
        },
{
    let mut task = task;
    if let Some(title) = &command.title {
        let title = match TaskTitle::try_from(title.as_str()) {
            Ok(title) => title,
            Err(_) => return Err(UpdateTaskError::InvalidTitle),
        };
        task = task.change_title(title);
    }
    if let Some(description) = &command.description {
        let description = match TaskDescription::try_from(description.as_str()) {
            Ok(description) => description,
            Err(_) => return Err(UpdateTaskError::InvalidDescription),
        };
        task = task.change_description(description);
    }
    if let Some(status) = command.status {
        let status = match TaskStatus::try_from(status) {
            Ok(status) => status,
            Err(_) => return Err(UpdateTaskError::InvalidStatus),
        };
        task = task.change_status(status);
    }
    Ok(task)
}

/// The task to change, for what the repository answered when it was asked
/// for it: any failure is given as `TaskNotFound`.
pub fn fetched(outcome: Result<Task, TaskRepositoryError>) -> (r: Result<Task, UpdateTaskError>)
    ensures
        match outcome {
            Ok(task) => r == Ok::<Task, UpdateTaskError>(task),
            Err(_) => r == Err::<Task, UpdateTaskError>(UpdateTaskError::TaskNotFound),
        },
{
    match outcome {
        Ok(task) => Ok(task),
        Err(_) => Err(UpdateTaskError::TaskNotFound),
    }
}

/// What the use case answers for what the repository answered when the
/// new task was handed to it: any failure is given as `TaskNotFound`.
pub fn updated_result(outcome: Result<Task, TaskRepositoryError>) -> (r: Result<
    UpdateTaskResult,
    UpdateTaskError,
>)
    ensures
        match outcome {
            Ok(task) => r matches Ok(result) && result.shows(task@),
            Err(_) => r == Err::<UpdateTaskResult, UpdateTaskError>(UpdateTaskError::TaskNotFound),
        },
{
    match outcome {
        Ok(task) => Ok(UpdateTaskResult::from(&task)),
        Err(_) => Err(UpdateTaskError::TaskNotFound),
    }
}

/// The use case that changes a stored task.
pub struct UpdateTask<'a, T: TaskRepository> {
    pub repository: &'a mut T,
}

impl<'a, T: TaskRepository> UpdateTask<'a, T> {
    /// The use case on the given repository, which it hands back as it
    /// leaves it.
    pub fn new(repository: &'a mut T) -> (use_case: Self)
        ensures
            *use_case.repository == *old(repository),
            *final(use_case.repository) == *final(repository),
    {
        Self { repository }
    }

    /// Fetches the task of the command, puts the new values in their
    /// places and stores the result. Nothing is written unless every new
    /// value is valid. Any failure of the repository is answered as
    /// `TaskNotFound`, and no command gives `InvalidID`: the identifier of
    /// a command is always one.
    ///
    /// The first clause says that the use case keeps the repository that
    /// it was given: what the lender gets back is what the use case
    /// leaves.
    pub fn execute(&mut self, command: UpdateTaskCommand) -> (r: Result<
        UpdateTaskResult,
        UpdateTaskError,
    >)
        ensures
            *final(final(self).repository) == *final(old(self).repository),
            update_task_answers(
                text_of(command.title),
                text_of(command.description),
                command.status,
                r,
            ),
            T::modelled() ==> update_task_conforms(
                (*old(self).repository).tasks(),
                (*final(self).repository).tasks(),
                command.id,
                text_of(command.title),
                text_of(command.description),
                command.status,
                r,
            ),
    {
        let id_text = TaskId::from(command.id).to_string();
        proof {
            lemma_hyphenated_parses(command.id);
        }
        let id = match TaskId::try_from(id_text.as_str()) {
            Ok(id) => id,
            Err(_) => return Err(UpdateTaskError::InvalidID),
        };
        let task = match fetched(self.repository.get_by_id(&id)) {
            Ok(task) => task,
            Err(e) => return Err(e),
        };
        let ghost current = task@;
        let task = match revise(task, &command) {
            Ok(task) => task,
            Err(e) => return Err(e),
        };
        let r = updated_result(self.repository.update(task));
        assert(revised(
            current,
            text_of(command.title),
            text_of(command.description),
            command.status,
        ) is Ok);
        r
    }
}

} // verus!
