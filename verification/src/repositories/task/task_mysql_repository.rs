//! What a store in a relational table decides for itself: how a task is
//! laid out in a row and read back, and what the answers of the database
//! mean. Talking to the database is the program's.
//!
//! The table has one row for each task: the identifier in its canonical
//! text, which is the key, the title, the description, and the code of the
//! status.

use crate::domain::task::task::{Task, TaskView};
use crate::domain::task::task_description::TaskDescription;
use crate::domain::task::task_id::TaskId;
use crate::domain::task::task_repository::{task_views, TaskRepositoryError};
use crate::domain::task::task_status::TaskStatus;
use crate::domain::task::task_title::TaskTitle;
use crate::text::lemma_trimmed_fixed;
use crate::use_cases::task::register_task::{assembled, RegisterTaskError};
use crate::uuid_text::{hyphenated, lemma_hyphenated_parses, parse_uuid};
use vstd::prelude::*;

verus! {

/// The code with which the database refuses a second row under one key.
pub const DUPLICATE_ENTRY: u16 = 1062;

/// A row of the table.
#[derive(Debug)]
pub struct TaskRow {
    pub id: String,
    pub title: String,
    pub description: String,
    pub status: i32,
}

/// A row of the table, as plain values.
pub struct TaskRowView {
    pub id: Seq<char>,
    pub title: Seq<char>,
    pub description: Seq<char>,
    pub status: i32,
}

impl View for TaskRow {
    type V = TaskRowView;

    open spec fn view(&self) -> TaskRowView {
        TaskRowView {
            id: self.id@,
            title: self.title@,
            description: self.description@,
            status: self.status,
        }
    }
}

/// Which column of a row holds no valid value.
#[derive(Debug, PartialEq, Eq, Clone, Copy, Structural)]
pub enum TaskRowError {
    InvalidId,
    InvalidTitle,
    InvalidDescription,
    InvalidStatus,
}

/// The row of a task.
pub open spec fn row_of(task: TaskView) -> TaskRowView {
    TaskRowView {
        id: hyphenated(task.id),
        title: task.title,
        description: task.description,
        status: task.status.code() as i32,
    }
}

/// The task that a row holds. The first invalid column, in the order
/// identifier, title, description, status, decides the error.
pub open spec fn task_of(row: TaskRowView) -> Result<TaskView, TaskRowError> {
    match parse_uuid(row.id) {
        None => Err(TaskRowError::InvalidId),
        Some(id) => match assembled(id, row.title, row.description, row.status) {
            Ok(task) => Ok(task),
            Err(RegisterTaskError::InvalidTitle) => Err(TaskRowError::InvalidTitle),
            Err(RegisterTaskError::InvalidDescription) => Err(TaskRowError::InvalidDescription),
            Err(_) => Err(TaskRowError::InvalidStatus),
        },
    }
}

/// The tasks that rows hold, in the order of the rows, or the error of the
/// first row that holds none.
pub open spec fn tasks_of(rows: Seq<TaskRowView>) -> Result<Seq<TaskView>, TaskRowError>
    decreases rows.len(),
{
    if rows.len() == 0 {
        Ok(Seq::empty())
    } else {
        match tasks_of(rows.drop_last()) {
            Err(e) => Err(e),
            Ok(tasks) => match task_of(rows.last()) {
                Err(e) => Err(e),
                Ok(task) => Ok(tasks.push(task)),
            },
        }
    }
}

/// The rows of a list, as plain values.
pub open spec fn row_views(rows: Seq<TaskRow>) -> Seq<TaskRowView> {
    rows.map_values(|row: TaskRow| row@)
}

/// What a statement that changes or removes the row of a task means, by
/// the number of rows that it matched: none means that no task stood under
/// the identifier.
pub open spec fn written_result(matched_rows: u64) -> Result<(), TaskRepositoryError> {
    if matched_rows == 0 {
        Err(TaskRepositoryError::NotFound)
    } else {
        Ok(())
    }
}

/// The row of a valid task reads back as that task.
pub proof fn lemma_row_reads_back(task: TaskView)
    requires
        task.is_valid(),
    ensures
        task_of(row_of(task)) == Ok::<TaskView, TaskRowError>(task),
{
    lemma_hyphenated_parses(task.id);
    lemma_trimmed_fixed(task.title);
    lemma_trimmed_fixed(task.description);
    TaskStatus::lemma_code_round_trip(0, task.status);
}

/// Lays a task out in a row.
pub fn write_row(task: &Task) -> (row: TaskRow)
    ensures
        row@ == row_of(task@),
{
    TaskRow {
        id: task.id.to_string(),
        title: task.title.to_string(),
        description: task.description.to_string(),
        status: task.status.to_int(),
    }
}

/// Reads the task that a row holds.
pub fn read_row(row: &TaskRow) -> (r: Result<Task, TaskRowError>)
    ensures
        match r {
            Ok(task) => task_of(row@) == Ok::<TaskView, TaskRowError>(task@),
            Err(e) => task_of(row@) == Err::<TaskView, TaskRowError>(e),
        },
{
    let id = match TaskId::try_from(row.id.as_str()) {
        Ok(id) => id,
        Err(_) => return Err(TaskRowError::InvalidId),
    };
    let title = match TaskTitle::try_from(row.title.as_str()) {
        Ok(title) => title,
        Err(_) => return Err(TaskRowError::InvalidTitle),
    };
    let description = match TaskDescription::try_from(row.description.as_str()) {
        Ok(description) => description,
        Err(_) => return Err(TaskRowError::InvalidDescription),
    };
    let status = match TaskStatus::try_from(row.status) {
        Ok(status) => status,
        Err(_) => return Err(TaskRowError::InvalidStatus),
    };
    Ok(Task::new(id, title, description, status))
}

/// Reads the tasks that rows hold, in the order of the rows.
pub fn read_rows(rows: &Vec<TaskRow>) -> (r: Result<Vec<Task>, TaskRowError>)
    ensures
        match r {
            Ok(tasks) => tasks_of(row_views(rows@)) == Ok::<Seq<TaskView>, TaskRowError>(
                task_views(tasks@),
            ),
            Err(e) => tasks_of(row_views(rows@)) == Err::<Seq<TaskView>, TaskRowError>(e),
        },
{
    let mut tasks: Vec<Task> = Vec::new();
    let mut i: usize = 0;
    assert(row_views(rows@).take(0).len() == 0);
    assert(task_views(tasks@) =~= Seq::<TaskView>::empty());
    while i < rows.len()
        invariant
            i <= rows.len(),
            tasks_of(row_views(rows@).take(i as int)) == Ok::<Seq<TaskView>, TaskRowError>(
                task_views(tasks@),
            ),
        decreases rows.len() - i,
    {
        let ghost before = row_views(rows@).take(i as int);
        let ghost next = row_views(rows@).take(i + 1);
        assert(next.drop_last() =~= before);
        assert(next.last() == rows[i as int]@);
        match read_row(&rows[i]) {
            Ok(task) => {
                let ghost read = task_views(tasks@);
                tasks.push(task);
                assert(task_views(tasks@) =~= read.push(task@));
            },
            Err(e) => {
                proof {
                    lemma_first_error_stays(row_views(rows@), i + 1);
                }
                return Err(e);
            },
        }
        i += 1;
    }
    assert(row_views(rows@).take(i as int) =~= row_views(rows@));
    Ok(tasks)
}

/// An error among the first rows is the error of all the rows.
proof fn lemma_first_error_stays(rows: Seq<TaskRowView>, count: int)
    requires
        0 <= count <= rows.len(),
        tasks_of(rows.take(count)) is Err,
    ensures
        tasks_of(rows) == tasks_of(rows.take(count)),
    decreases rows.len() - count,
{
    if count < rows.len() {
        let more = rows.take(count + 1);
        assert(more.drop_last() =~= rows.take(count));
        lemma_first_error_stays(rows, count + 1);
    } else {
        assert(rows.take(count) =~= rows);
    }
}

/// What `get_by_id` answers for what the database answered: `NotFound`
/// where there is no row, the task of the row, or `StorageError` where the
/// row holds no task.
pub fn found_task(row: Option<TaskRow>) -> (r: Result<Task, TaskRepositoryError>)
    ensures
        match row {
            None => r == Err::<Task, TaskRepositoryError>(TaskRepositoryError::NotFound),
            Some(row) => match task_of(row@) {
                Ok(task) => r matches Ok(read) && read@ == task,
                Err(_) => r matches Err(TaskRepositoryError::StorageError(_)),
            },
        },
{
    match row {
        None => Err(TaskRepositoryError::NotFound),
        Some(row) => match read_row(&row) {
            Ok(task) => Ok(task),
            Err(e) => Err(invalid_row(e)),
        },
    }
}

/// What `list` answers for the rows that the database answered: their
/// tasks, or `StorageError` where a row holds no task.
pub fn listed_tasks(rows: Vec<TaskRow>) -> (r: Result<Vec<Task>, TaskRepositoryError>)
    ensures
        match tasks_of(row_views(rows@)) {
            Ok(tasks) => r matches Ok(read) && task_views(read@) == tasks,
            Err(_) => r matches Err(TaskRepositoryError::StorageError(_)),
        },
{
    match read_rows(&rows) {
        Ok(tasks) => Ok(tasks),
        Err(e) => Err(invalid_row(e)),
    }
}

/// The failure of the storage that an invalid row is.
pub fn invalid_row(error: TaskRowError) -> (r: TaskRepositoryError)
    ensures
        r matches TaskRepositoryError::StorageError(detail) && detail@ == (match error {
            TaskRowError::InvalidId => "stored task has an invalid id"@,
            TaskRowError::InvalidTitle => "stored task has an invalid title"@,
            TaskRowError::InvalidDescription => "stored task has an invalid description"@,
            TaskRowError::InvalidStatus => "stored task has an invalid status"@,
        }),
{
    let detail = match error {
        TaskRowError::InvalidId => "stored task has an invalid id",
        TaskRowError::InvalidTitle => "stored task has an invalid title",
        TaskRowError::InvalidDescription => "stored task has an invalid description",
        TaskRowError::InvalidStatus => "stored task has an invalid status",
    };
    TaskRepositoryError::StorageError(String::from_str(detail))
}

/// What `update` and `delete` answer once their statement has run, by the
/// number of rows that it matched.
pub fn written(matched_rows: u64) -> (r: Result<(), TaskRepositoryError>)
    ensures
        r == written_result(matched_rows),
{
    if matched_rows == 0 {
        Err(TaskRepositoryError::NotFound)
    } else {
        Ok(())
    }
}

/// What `register` answers where the database refused the new row:
/// `AlreadyExists` where it says that the key is in use, and else
/// `StorageError` with what it said.
pub fn insert_failure(code: Option<u16>, detail: String) -> (r: TaskRepositoryError)
    ensures
        r == (if code == Some(DUPLICATE_ENTRY) {
            TaskRepositoryError::AlreadyExists
        } else {
            TaskRepositoryError::StorageError(detail)
        }),
{
    match code {
        Some(code) if code == DUPLICATE_ENTRY => TaskRepositoryError::AlreadyExists,
        _ => TaskRepositoryError::StorageError(detail),
    }
}

} // verus!
