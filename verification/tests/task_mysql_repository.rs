use api_server::domain::task::task::Task;
use api_server::domain::task::task_description::TaskDescription;
use api_server::domain::task::task_id::TaskId;
use api_server::domain::task::task_repository::TaskRepositoryError;
use api_server::domain::task::task_status::TaskStatus;
use api_server::domain::task::task_title::TaskTitle;
use api_server::repositories::task::task_mysql_repository::{
    found_task, insert_failure, invalid_row, listed_tasks, read_row, read_rows, write_row,
    written, TaskRow, TaskRowError, DUPLICATE_ENTRY,
};

fn row(id: &str, title: &str, description: &str, status: i32) -> TaskRow {
    TaskRow {
        id: String::from(id),
        title: String::from(title),
        description: String::from(description),
        status,
    }
}

const ID: &str = "67e55044-10b1-426f-9247-bb680e5fe0c8";

#[test]
fn a_task_is_laid_out_in_a_row() {
    let task = Task::new(
        TaskId::from(0x67e55044_10b1_426f_9247_bb680e5fe0c8),
        TaskTitle::try_from("Title").unwrap(),
        TaskDescription::try_from("Description").unwrap(),
        TaskStatus::Done,
    );
    let row = write_row(&task);
    assert_eq!(row.id, ID);
    assert_eq!(row.title, "Title");
    assert_eq!(row.description, "Description");
    assert_eq!(row.status, 3);
}

#[test]
fn a_row_reads_back_as_its_task() {
    let task = Task::new(
        TaskId::new(),
        TaskTitle::try_from("Title").unwrap(),
        TaskDescription::try_from("Description").unwrap(),
        TaskStatus::Doing,
    );
    let read = read_row(&write_row(&task)).unwrap();
    assert_eq!(read.id, task.id);
    assert_eq!(read.title.to_string(), "Title");
    assert_eq!(read.description.to_string(), "Description");
    assert_eq!(read.status, TaskStatus::Doing);
}

#[test]
fn a_row_with_an_invalid_column_holds_no_task() {
    assert_eq!(read_row(&row("x", "", "", 0)).unwrap_err(), TaskRowError::InvalidId);
    assert_eq!(read_row(&row(ID, "", "", 0)).unwrap_err(), TaskRowError::InvalidTitle);
    assert_eq!(read_row(&row(ID, "Title", " ", 0)).unwrap_err(), TaskRowError::InvalidDescription);
    assert_eq!(read_row(&row(ID, "Title", "Description", 0)).unwrap_err(), TaskRowError::InvalidStatus);
}

#[test]
fn rows_are_read_in_order() {
    let rows = vec![row(ID, "A", "a", 1), row(ID, "B", "b", 2), row(ID, "C", "c", 3)];
    let tasks = read_rows(&rows).unwrap();
    let titles: Vec<String> = tasks.iter().map(|task| task.title.to_string()).collect();
    assert_eq!(titles, vec!["A", "B", "C"]);
    assert_eq!(read_rows(&Vec::new()).unwrap().len(), 0);
}

#[test]
fn the_first_invalid_row_decides_the_error() {
    let rows = vec![row(ID, "A", "a", 1), row(ID, "B", "", 2), row("x", "C", "c", 3)];
    assert_eq!(read_rows(&rows).unwrap_err(), TaskRowError::InvalidDescription);
    let answer = listed_tasks(rows).unwrap_err();
    assert_eq!(
        answer,
        TaskRepositoryError::StorageError(String::from("stored task has an invalid description"))
    );
}

#[test]
fn no_row_means_not_found() {
    assert_eq!(found_task(None).unwrap_err(), TaskRepositoryError::NotFound);
    let task = found_task(Some(row(ID, " Title ", "Description", 1))).unwrap();
    assert_eq!(task.title.to_string(), "Title");
    assert_eq!(
        found_task(Some(row(ID, "Title", "Description", 9))).unwrap_err(),
        TaskRepositoryError::StorageError(String::from("stored task has an invalid status"))
    );
}

#[test]
fn invalid_rows_are_storage_failures() {
    assert_eq!(
        invalid_row(TaskRowError::InvalidId),
        TaskRepositoryError::StorageError(String::from("stored task has an invalid id"))
    );
    assert_eq!(
        invalid_row(TaskRowError::InvalidTitle),
        TaskRepositoryError::StorageError(String::from("stored task has an invalid title"))
    );
}

#[test]
fn no_matched_row_means_not_found() {
    assert_eq!(written(0), Err(TaskRepositoryError::NotFound));
    assert_eq!(written(1), Ok(()));
    assert_eq!(written(2), Ok(()));
}

#[test]
fn a_duplicate_entry_means_already_exists() {
    assert_eq!(DUPLICATE_ENTRY, 1062);
    assert_eq!(insert_failure(Some(1062), String::from("dup")), TaskRepositoryError::AlreadyExists);
    assert_eq!(
        insert_failure(Some(1061), String::from("other")),
        TaskRepositoryError::StorageError(String::from("other"))
    );
    assert_eq!(
        insert_failure(None, String::from("io")),
        TaskRepositoryError::StorageError(String::from("io"))
    );
}
