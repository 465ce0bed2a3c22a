//! What a store of tasks offers, whatever keeps the tasks, and what each
//! operation does to the tasks that are stored.

use crate::domain::task::task::{Task, TaskView};
use crate::domain::task::task_id::TaskId;
use vstd::prelude::*;

verus! {

/// Why an operation of a repository did not succeed.
#[derive(Debug, PartialEq, Eq)]
pub enum TaskRepositoryError {
    /// No task is stored under the identifier.
    NotFound,
    /// A task is stored under the identifier already.
    AlreadyExists,
    /// The storage itself failed; the text says how.
    StorageError(String),
}

/// Whether every task stands under its own identifier.
pub open spec fn is_store(tasks: Map<u128, TaskView>) -> bool {
    forall|id: u128| tasks.contains_key(id) ==> (#[trigger] tasks[id]).id == id
}

/// What `get_by_id` answers on a modelled store.
pub open spec fn found(tasks: Map<u128, TaskView>, id: u128) -> Result<
    TaskView,
    TaskRepositoryError,
> {
    if tasks.contains_key(id) {
        Ok(tasks[id])
    } else {
        Err(TaskRepositoryError::NotFound)
    }
}

/// What `register` answers on a modelled store.
pub open spec fn register_result(tasks: Map<u128, TaskView>, task: TaskView) -> Result<
    TaskView,
    TaskRepositoryError,
> {
    if tasks.contains_key(task.id) {
        Err(TaskRepositoryError::AlreadyExists)
    } else {
        Ok(task)
    }
}

/// The tasks of a modelled store after `register`.
pub open spec fn registered(tasks: Map<u128, TaskView>, task: TaskView) -> Map<u128, TaskView> {
    if tasks.contains_key(task.id) {
        tasks
    } else {
        tasks.insert(task.id, task)
    }
}

/// What `update` answers on a modelled store.
pub open spec fn update_result(tasks: Map<u128, TaskView>, task: TaskView) -> Result<
    TaskView,
    TaskRepositoryError,
> {
    if tasks.contains_key(task.id) {
        Ok(task)
    } else {
        Err(TaskRepositoryError::NotFound)
    }
}

/// The tasks of a modelled store after `update`.
pub open spec fn updated(tasks: Map<u128, TaskView>, task: TaskView) -> Map<u128, TaskView> {
    if tasks.contains_key(task.id) {
        tasks.insert(task.id, task)
    } else {
        tasks
    }
}

/// What `delete` answers on a modelled store.
pub open spec fn delete_result(tasks: Map<u128, TaskView>, id: u128) -> Result<
    (),
    TaskRepositoryError,
> {
    if tasks.contains_key(id) {
        Ok(())
    } else {
        Err(TaskRepositoryError::NotFound)
    }
}

/// The tasks of a modelled store after `delete`.
pub open spec fn deleted(tasks: Map<u128, TaskView>, id: u128) -> Map<u128, TaskView> {
    tasks.remove(id)
}

/// Whether a list holds each stored task once, and nothing else. The order
/// is left open.
pub open spec fn lists_all(list: Seq<TaskView>, tasks: Map<u128, TaskView>) -> bool {
    &&& forall|i: int|
        0 <= i < list.len() ==> tasks.contains_key((#[trigger] list[i]).id) && tasks[list[i].id]
            == list[i]
    &&& forall|id: u128| #[trigger]
        tasks.contains_key(id) ==> exists|i: int| 0 <= i < list.len() && (#[trigger] list[i]).id == id
    &&& forall|i: int, j: int|
        0 <= i < j < list.len() ==> (#[trigger] list[i]).id != (#[trigger] list[j]).id
}

/// The tasks of a list, as plain values.
pub open spec fn task_views(list: Seq<Task>) -> Seq<TaskView> {
    list.map_values(|task: Task| task@)
}

/// Whether an answer with a task in it is the expected one.
pub open spec fn agrees(
    r: Result<Task, TaskRepositoryError>,
    expected: Result<TaskView, TaskRepositoryError>,
) -> bool {
    match (r, expected) {
        (Ok(task), Ok(view)) => task@ == view,
        (Err(e), Err(f)) => e == f,
        _ => false,
    }
}

/// A list that holds each stored task once is as long as the store is
/// large.
pub proof fn lemma_list_counts_tasks(list: Seq<TaskView>, tasks: Map<u128, TaskView>)
    requires
        lists_all(list, tasks),
    ensures
        tasks.dom().finite(),
        tasks.dom().len() == list.len(),
    decreases list.len(),
{
    if list.len() == 0 {
        assert(tasks.dom() =~= Set::<u128>::empty());
    } else {
        let last = list.last();
        let rest = list.drop_last();
        let others = tasks.remove(last.id);
        assert forall|id: u128| #[trigger] others.contains_key(id) implies exists|i: int|
            0 <= i < rest.len() && (#[trigger] rest[i]).id == id by {
            let i = choose|i: int| 0 <= i < list.len() && (#[trigger] list[i]).id == id;
            assert(rest[i] == list[i]);
        }
        assert forall|i: int| 0 <= i < rest.len() implies others.contains_key(
            (#[trigger] rest[i]).id,
        ) && others[rest[i].id] == rest[i] by {
            assert(rest[i] == list[i]);
            assert(list[i].id != list[list.len() - 1].id);
        }
        assert forall|i: int, j: int| 0 <= i < j < rest.len() implies (#[trigger] rest[i]).id != (
        #[trigger] rest[j]).id by {
            assert(rest[i] == list[i] && rest[j] == list[j]);
        }
        lemma_list_counts_tasks(rest, others);
        assert(tasks.contains_key(list[list.len() - 1].id));
        assert(tasks.dom() =~= others.dom().insert(last.id));
    }
}

/// A task that was registered is found under its identifier, equal in
/// every field to what was registered.
pub proof fn lemma_registered_is_found(tasks: Map<u128, TaskView>, task: TaskView)
    requires
        register_result(tasks, task) is Ok,
    ensures
        found(registered(tasks, task), task.id) == Ok::<TaskView, TaskRepositoryError>(task),
{
}

/// A task that was put in the place of another is found under its
/// identifier, equal in every field to what was put there.
pub proof fn lemma_updated_is_found(tasks: Map<u128, TaskView>, task: TaskView)
    requires
        update_result(tasks, task) is Ok,
    ensures
        found(updated(tasks, task), task.id) == Ok::<TaskView, TaskRepositoryError>(task),
{
}

/// After a deletion no task is found under the identifier, whether one
/// stood there or not, and every other identifier finds what it found
/// before.
pub proof fn lemma_deleted_is_not_found(tasks: Map<u128, TaskView>, id: u128)
    ensures
        found(deleted(tasks, id), id) == Err::<TaskView, TaskRepositoryError>(
            TaskRepositoryError::NotFound,
        ),
        forall|other: u128| other != id ==> found(deleted(tasks, id), other) == found(tasks, other),
        delete_result(tasks, id) is Err ==> deleted(tasks, id) == tasks,
{
    if !tasks.contains_key(id) {
        assert(deleted(tasks, id) =~= tasks);
    }
}

/// Registering, updating and deleting keep every task under its own
/// identifier.
pub proof fn lemma_store_is_kept(tasks: Map<u128, TaskView>, task: TaskView, id: u128)
    requires
        is_store(tasks),
    ensures
        is_store(registered(tasks, task)),
        is_store(updated(tasks, task)),
        is_store(deleted(tasks, id)),
{
}

/// A store of tasks, each under its identifier.
///
/// A store is modelled if this library can say what it holds: it keeps its
/// tasks itself, and nothing else changes them. `tasks` is then what it
/// holds, every answer is the one that the functions above give, and the
/// store changes as they say; it never answers `StorageError`. The store in
/// memory is modelled.
///
/// A store whose tasks lie elsewhere, as in a database, is not: the
/// defaults stand, and the contracts promise nothing of it. What it should
/// do is the same, but for `StorageError`, which it may answer whenever the
/// storage fails, and never in place of `NotFound` or `AlreadyExists`.
pub trait TaskRepository {
    /// Whether the store is modelled.
    open spec fn modelled() -> bool {
        false
    }

    /// The tasks that a modelled store holds, by identifier. Of another
    /// store this says nothing.
    open spec fn tasks(&self) -> Map<u128, TaskView> {
        arbitrary()
    }

    /// All the stored tasks, in no order that a caller may rely on.
    fn list(&self) -> (r: Result<Vec<Task>, TaskRepositoryError>)
        ensures
            Self::modelled() ==> (r matches Ok(list) && lists_all(
                task_views(list@),
                self.tasks(),
            )),
    ;

    /// The task that is stored under the identifier, or `NotFound`.
    fn get_by_id(&self, id: &TaskId) -> (r: Result<Task, TaskRepositoryError>)
        ensures
            Self::modelled() ==> agrees(r, found(self.tasks(), id@)),
            Self::modelled() ==> (r matches Ok(task) ==> task.id == *id),
    ;

    /// Stores a task under its identifier, or answers `AlreadyExists` if
    /// the identifier is in use.
    fn register(&mut self, task: Task) -> (r: Result<Task, TaskRepositoryError>)
        ensures
            Self::modelled() ==> agrees(r, register_result(old(self).tasks(), task@)),
            Self::modelled() ==> final(self).tasks() == registered(old(self).tasks(), task@),
    ;

    /// Puts a task in the place of the one that is stored under its
    /// identifier, or answers `NotFound` if there is none.
    fn update(&mut self, task: Task) -> (r: Result<Task, TaskRepositoryError>)
        ensures
            Self::modelled() ==> agrees(r, update_result(old(self).tasks(), task@)),
            Self::modelled() ==> final(self).tasks() == updated(old(self).tasks(), task@),
    ;

    /// Removes the task that is stored under the identifier, or answers
    /// `NotFound` if there is none.
    fn delete(&mut self, task_id: &TaskId) -> (r: Result<(), TaskRepositoryError>)
        ensures
            Self::modelled() ==> r == delete_result(old(self).tasks(), task_id@),
            Self::modelled() ==> final(self).tasks() == deleted(old(self).tasks(), task_id@),
    ;
}

} // verus!
