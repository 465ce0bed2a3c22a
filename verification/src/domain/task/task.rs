//! The task aggregate: an identifier, a title, a description and a status.

use crate::domain::task::task_description::{is_task_description, TaskDescription};
use crate::domain::task::task_id::TaskId;
use crate::domain::task::task_status::TaskStatus;
use crate::domain::task::task_title::{is_task_title, TaskTitle};
use vstd::prelude::*;
use vstd::std_specs::cmp::PartialEqSpecImpl;

verus! {

/// What a task holds, as plain values.
pub struct TaskView {
    pub id: u128,
    pub title: Seq<char>,
    pub description: Seq<char>,
    pub status: TaskStatus,
}

impl TaskView {
    /// Whether the title and the description are valid, as those of every
    /// `Task` are.
    pub open spec fn is_valid(self) -> bool {
        &&& is_task_title(self.title)
        &&& is_task_description(self.description)
    }
}

/// A task. Its fields are validated value objects, so no task holds an
/// invalid field. A change gives a new task; the identifier stays.
#[derive(Debug)]
pub struct Task {
    pub id: TaskId,
    pub title: TaskTitle,
    pub description: TaskDescription,
    pub status: TaskStatus,
}

impl View for Task {
    type V = TaskView;

    open spec fn view(&self) -> TaskView {
        TaskView {
            id: self.id@,
            title: self.title@,
            description: self.description@,
            status: self.status,
        }
    }
}

impl Task {
    pub fn new(id: TaskId, title: TaskTitle, description: TaskDescription, status: TaskStatus) -> (task:
        Task)
        ensures
            task == (Task { id, title, description, status }),
    {
        Task { id, title, description, status }
    }

    /// The task with another title.
    pub fn change_title(self, title: TaskTitle) -> (task: Self)
        ensures
            task == (Task { title, ..self }),
    {
        Self { title, ..self }
    }

    /// The task with another description.
    pub fn change_description(self, description: TaskDescription) -> (task: Self)
        ensures
            task == (Task { description, ..self }),
    {
        Self { description, ..self }
    }

    /// The task with another status.
    pub fn change_status(self, status: TaskStatus) -> (task: Self)
        ensures
            task == (Task { status, ..self }),
    {
        Self { status, ..self }
    }

    /// Shows that the fields of the task are valid, as those of every task
    /// are. It computes nothing.
    pub fn check_valid(&self)
        ensures
            self@.is_valid(),
    {
        self.title.check_valid();
        self.description.check_valid();
    }
}

impl PartialEq for Task {
    /// Tasks are equal exactly if they are equal in every field.
    fn eq(&self, other: &Self) -> (equal: bool) {
        proof {
            TaskId::lemma_view_decides(self.id, other.id);
        }
        self.id == other.id && self.title == other.title && self.description == other.description
            && self.status == other.status
    }
}

impl PartialEqSpecImpl for Task {
    open spec fn obeys_eq_spec() -> bool {
        true
    }

    open spec fn eq_spec(&self, other: &Self) -> bool {
        self@ == other@
    }
}

impl Eq for Task {

}

impl Clone for Task {
    fn clone(&self) -> (copy: Self)
        ensures
            copy == *self,
    {
        Task {
            id: self.id,
            title: self.title.clone(),
            description: self.description.clone(),
            status: self.status,
        }
    }
}

} // verus!
