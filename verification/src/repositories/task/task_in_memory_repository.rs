//! A store that keeps its tasks in memory, for tests and for development.

use crate::domain::task::task::{Task, TaskView};
use crate::domain::task::task_description::{is_task_description, TaskDescription};
use crate::domain::task::task_id::TaskId;
use crate::domain::task::task_repository::{
    agrees, delete_result, deleted, found, lists_all, register_result, registered, task_views,
    update_result, updated, TaskRepository, TaskRepositoryError,
};
use crate::domain::task::task_status::TaskStatus;
use crate::domain::task::task_title::{is_task_title, TaskTitle};
use crate::text::lemma_trimmed_fixed;
use std::collections::HashMap;
use vstd::prelude::*;

verus! {

broadcast use vstd::std_specs::hash::group_hash_axioms;

/// Tasks in a hash map, each under the bits of its identifier. The store
/// is modelled: it answers `NotFound` and `AlreadyExists` exactly when they
/// are due, and never `StorageError`. Whoever changes the store holds it
/// alone, so no two changes run at once, and nothing is kept when the
/// program ends.
pub struct TaskInMemoryRepository {
    data: HashMap<u128, Task>,
}

/// The sample task that `register_test_data` stores under an identifier.
pub open spec fn sample_task(id: u128, text: Seq<char>) -> TaskView {
    TaskView { id, title: text, description: text, status: TaskStatus::Todo }
}

impl TaskInMemoryRepository {
    #[verifier::type_invariant]
    spec fn keyed_by_id(&self) -> bool {
        forall|id: u128| self.data@.contains_key(id) ==> (#[trigger] self.data@[id]).id@ == id
    }

    /// An empty store.
    pub fn new() -> (repository: Self)
        ensures
            repository.tasks() == Map::<u128, TaskView>::empty(),
    {
        let repository = Self { data: HashMap::new() };
        assert(repository.tasks() =~= Map::<u128, TaskView>::empty());
        repository
    }

    /// Puts a task under its identifier, in the place of any that stood
    /// there. The map leaves the store while it changes, so that the store
    /// is never seen with a task under a wrong key.
    fn put(&mut self, task: Task)
        ensures
            final(self).tasks() == old(self).tasks().insert(task@.id, task@),
    {
        proof {
            use_type_invariant(&*self);
        }
        let mut data: HashMap<u128, Task> = HashMap::new();
        std::mem::swap(&mut self.data, &mut data);
        data.insert(task.id.value(), task);
        std::mem::swap(&mut self.data, &mut data);
        assert(self.tasks() =~= old(self).tasks().insert(task@.id, task@));
    }

    /// Takes out the task that stands under an identifier, if one does.
    fn take(&mut self, id: u128) -> (had: bool)
        ensures
            had == old(self).tasks().contains_key(id),
            final(self).tasks() == old(self).tasks().remove(id),
    {
        proof {
            use_type_invariant(&*self);
        }
        let mut data: HashMap<u128, Task> = HashMap::new();
        std::mem::swap(&mut self.data, &mut data);
        let had = data.remove(&id).is_some();
        std::mem::swap(&mut self.data, &mut data);
        assert(self.tasks() =~= old(self).tasks().remove(id));
        had
    }

    /// Stores a new task whose title and description are both `text`,
    /// with the status `Todo`, under a fresh identifier.
    fn put_sample(&mut self, text: &str) -> (id: TaskId)
        requires
            is_task_title(text@),
            is_task_description(text@),
        ensures
            final(self).tasks() == old(self).tasks().insert(id@, sample_task(id@, text@)),
    {
        proof {
            lemma_trimmed_fixed(text@);
        }
        let task = Task::new(
            TaskId::new(),
            TaskTitle::try_from(text).unwrap(),
            TaskDescription::try_from(text).unwrap(),
            TaskStatus::Todo,
        );
        let id = task.id;
        self.put(task);
        id
    }

    /// Stores three sample tasks, `AAA`, `BBB` and `CCC`, each under a
    /// fresh identifier, and gives the identifiers in that order.
    pub fn register_test_data(&mut self) -> (ids: Vec<TaskId>)
        ensures
            ids.len() == 3,
            final(self).tasks() == old(self).tasks().insert(
                ids[0]@,
                sample_task(ids[0]@, "AAA"@),
            ).insert(ids[1]@, sample_task(ids[1]@, "BBB"@)).insert(
                ids[2]@,
                sample_task(ids[2]@, "CCC"@),
            ),
    {
        proof {
            reveal_strlit("AAA");
            reveal_strlit("BBB");
            reveal_strlit("CCC");
        }
        let mut ids = Vec::new();
        ids.push(self.put_sample("AAA"));
        ids.push(self.put_sample("BBB"));
        ids.push(self.put_sample("CCC"));
        ids
    }

    /// Whether a task stands under an identifier.
    fn holds(&self, id: u128) -> (had: bool)
        ensures
            had == self.tasks().contains_key(id),
    {
        self.data.contains_key(&id)
    }
}

impl TaskRepository for TaskInMemoryRepository {
    closed spec fn tasks(&self) -> Map<u128, TaskView> {
        self.data@.map_values(|task: Task| task@)
    }

    open spec fn modelled() -> bool {
        true
    }

    fn list(&self) -> (r: Result<Vec<Task>, TaskRepositoryError>)
        ensures
            r matches Ok(list) && lists_all(task_views(list@), self.tasks()),
    {
        proof {
            use_type_invariant(self);
        }
        let mut list: Vec<Task> = Vec::new();
        for entry in it: self.data.iter()
            invariant
                self.keyed_by_id(),
                list.len() == it.index(),
                it.seq().no_duplicates(),
                forall|i: int|
                    0 <= i < it.seq().len() ==> self.data@.contains_key(*(#[trigger] it.seq()[i]).0)
                        && self.data@[*it.seq()[i].0] == *it.seq()[i].1,
                forall|i: int| 0 <= i < list.len() ==> (#[trigger] list[i]) == *it.seq()[i].1,
                forall|i: int|
                    0 <= i < list.len() ==> self.tasks().contains_key(
                        (#[trigger] task_views(list@)[i]).id,
                    ) && self.tasks()[task_views(list@)[i].id] == task_views(list@)[i],
                forall|i: int, j: int|
                    0 <= i < j < list.len() ==> (#[trigger] task_views(list@)[i]).id != (
                    #[trigger] task_views(list@)[j]).id,
                forall|id: u128| #[trigger]
                    self.tasks().contains_key(id) ==> (exists|i: int|
                        0 <= i < list.len() && (#[trigger] task_views(list@)[i]).id == id) || (
                    exists|i: int|
                        it.index() <= i < it.seq().len() && *(#[trigger] it.seq()[i]).0 == id),
        {
            let ghost before = list@;
            let ghost at = it.index();
            list.push(entry.1.clone());
            proof {
                let views = task_views(list@);
                let entries = it.seq();
                assert(list@[at] == *entries[at].1);
                assert(views[at].id == *entries[at].0);
                assert forall|i: int| 0 <= i < at implies (#[trigger] views[i]) == task_views(
                    before,
                )[i] by {
                    assert(list@[i] == before[i]);
                }
                assert forall|i: int, j: int| 0 <= i < j < list.len() implies (
                #[trigger] views[i]).id != (#[trigger] views[j]).id by {
                    if j == at && views[i].id == views[j].id {
                        assert(list@[i] == *entries[i].1);
                        assert(*entries[i].0 == *entries[at].0);
                        assert(entries[i] == entries[at]);
                    }
                }
                assert forall|id: u128| #[trigger] self.tasks().contains_key(id) implies (exists|
                    i: int,
                |
                    0 <= i < list.len() && (#[trigger] views[i]).id == id) || (exists|i: int|
                    at + 1 <= i < entries.len() && *(#[trigger] entries[i]).0 == id) by {
                    if exists|i: int|
                        0 <= i < before.len() && (#[trigger] task_views(before)[i]).id == id {
                        let i = choose|i: int|
                            0 <= i < before.len() && (#[trigger] task_views(before)[i]).id == id;
                        assert(views[i].id == id);
                    } else {
                        let i = choose|i: int|
                            at <= i < entries.len() && *(#[trigger] entries[i]).0 == id;
                        if i == at {
                            assert(views[at].id == id);
                        }
                    }
                }
            }
        }
        Ok(list)
    }

    fn get_by_id(&self, id: &TaskId) -> (r: Result<Task, TaskRepositoryError>)
        ensures
            agrees(r, found(self.tasks(), id@)),
            r matches Ok(task) ==> task.id == *id,
    {
        proof {
            use_type_invariant(self);
        }
        match self.data.get(&id.value()) {
            Some(task) => {
                proof {
                    TaskId::lemma_view_decides(task.id, *id);
                }
                Ok(task.clone())
            },
            None => Err(TaskRepositoryError::NotFound),
        }
    }

    fn register(&mut self, task: Task) -> (r: Result<Task, TaskRepositoryError>)
        ensures
            agrees(r, register_result(old(self).tasks(), task@)),
            final(self).tasks() == registered(old(self).tasks(), task@),
    {
        if self.holds(task.id.value()) {
            return Err(TaskRepositoryError::AlreadyExists);
        }
        self.put(task.clone());
        Ok(task)
    }

    fn update(&mut self, task: Task) -> (r: Result<Task, TaskRepositoryError>)
        ensures
            agrees(r, update_result(old(self).tasks(), task@)),
            final(self).tasks() == updated(old(self).tasks(), task@),
    {
        if !self.holds(task.id.value()) {
            return Err(TaskRepositoryError::NotFound);
        }
        self.put(task.clone());
        Ok(task)
    }

    fn delete(&mut self, task_id: &TaskId) -> (r: Result<(), TaskRepositoryError>)
        ensures
            r == delete_result(old(self).tasks(), task_id@),
            final(self).tasks() == deleted(old(self).tasks(), task_id@),
    {
        if self.take(task_id.value()) {
            Ok(())
        } else {
            Err(TaskRepositoryError::NotFound)
        }
    }
}

} // verus!
