use api_server::domain::task::task_id::TaskId;
use api_server::domain::task::task_repository::TaskRepository;
use api_server::domain::task::task_status::TaskStatus;
use api_server::repositories::task::task_in_memory_repository::TaskInMemoryRepository;
use api_server::use_cases::task::register_task::{assemble, RegisterTask, RegisterTaskError};
use api_server::use_cases::task::register_task_command::RegisterTaskCommand;

#[test]
fn execute_when_valid_input_then_returns_registered_task() {
    let mut repository = TaskInMemoryRepository::new();
    let mut register_task = RegisterTask::new(&mut repository);
    let command = RegisterTaskCommand::new("Task Title", "Task Description", 2);
    let result = register_task.execute(command).ok().unwrap();
    assert_eq!(result.title, "Task Title");
    assert_eq!(result.description, "Task Description");
    assert_eq!(result.status, 2);
}

#[test]
fn execute_when_task_title_is_empty_then_returns_error() {
    let mut repository = TaskInMemoryRepository::new();
    let mut register_task = RegisterTask::new(&mut repository);
    let command = RegisterTaskCommand::new("", "Task Description", 2);
    let result = register_task.execute(command).err().unwrap();
    assert_eq!(result, RegisterTaskError::InvalidTitle);
}

#[test]
fn execute_when_task_title_is_too_long_then_returns_error() {
    let mut repository = TaskInMemoryRepository::new();
    let mut register_task = RegisterTask::new(&mut repository);
    let task_title = String::from("A").repeat(65);
    let command = RegisterTaskCommand::new(task_title.as_str(), "Task Description", 2);
    let result = register_task.execute(command).err().unwrap();
    assert_eq!(result, RegisterTaskError::InvalidTitle);
}

#[test]
fn execute_when_task_description_is_empty_then_returns_error() {
    let mut repository = TaskInMemoryRepository::new();
    let mut register_task = RegisterTask::new(&mut repository);
    let command = RegisterTaskCommand::new("Task Title", "", 2);
    let result = register_task.execute(command).err().unwrap();
    assert_eq!(result, RegisterTaskError::InvalidDescription);
}

#[test]
fn execute_when_task_description_is_too_long_then_returns_error() {
    let mut repository = TaskInMemoryRepository::new();
    let mut register_task = RegisterTask::new(&mut repository);
    let task_description = String::from("A").repeat(257);
    let command = RegisterTaskCommand::new("Task Title", task_description.as_str(), 2);
    let result = register_task.execute(command).err().unwrap();
    assert_eq!(result, RegisterTaskError::InvalidDescription);
}

#[test]
fn execute_when_task_status_is_invalid_then_returns_error() {
    let mut repository = TaskInMemoryRepository::new();
    let mut register_task = RegisterTask::new(&mut repository);
    let command = RegisterTaskCommand::new("Task Title", "Task Description", 5);
    let result = register_task.execute(command).err().unwrap();
    assert_eq!(result, RegisterTaskError::InvalidStatus);
}

#[test]
fn execute_when_task_status_is_empty_then_returns_error() {
    let mut repository = TaskInMemoryRepository::new();
    let mut register_task = RegisterTask::new(&mut repository);
    let command = RegisterTaskCommand::new("Task Title", "Task Description", 5);
    let result = register_task.execute(command).err().unwrap();
    assert_eq!(result, RegisterTaskError::InvalidStatus);
}

#[test]
fn register_command_keeps_its_values() {
    let command = RegisterTaskCommand::new(" Task Title ", "Task Description", 7);
    assert_eq!(command.title(), " Task Title ");
    assert_eq!(command.description(), "Task Description");
    assert_eq!(command.status(), 7);
}

#[test]
fn register_stores_the_task_under_the_id_of_the_result() {
    let mut repository = TaskInMemoryRepository::new();
    let result = RegisterTask::new(&mut repository)
        .execute(RegisterTaskCommand::new("  Task Title ", "\tTask Description\n", 3))
        .unwrap();
    assert_eq!(result.title, "Task Title");
    assert_eq!(result.description, "Task Description");
    assert_eq!(result.status, 3);
    let id = TaskId::try_from(result.id.as_str()).unwrap();
    assert_eq!(result.id, id.to_string());
    let stored = repository.get_by_id(&id).unwrap();
    assert_eq!(stored.title.to_string(), "Task Title");
    assert_eq!(stored.description.to_string(), "Task Description");
    assert_eq!(stored.status, TaskStatus::Done);
    assert_eq!(repository.list().unwrap().len(), 1);
}

#[test]
fn register_reports_the_first_invalid_field() {
    let mut repository = TaskInMemoryRepository::new();
    let mut register_task = RegisterTask::new(&mut repository);
    let long = "A".repeat(300);
    assert_eq!(
        register_task.execute(RegisterTaskCommand::new("", "", 9)).unwrap_err(),
        RegisterTaskError::InvalidTitle
    );
    assert_eq!(
        register_task.execute(RegisterTaskCommand::new(long.as_str(), long.as_str(), 9)).unwrap_err(),
        RegisterTaskError::InvalidTitle
    );
    assert_eq!(
        register_task.execute(RegisterTaskCommand::new("Task Title", " ", 9)).unwrap_err(),
        RegisterTaskError::InvalidDescription
    );
    assert_eq!(
        register_task.execute(RegisterTaskCommand::new("Task Title", "Task Description", 0)).unwrap_err(),
        RegisterTaskError::InvalidStatus
    );
    assert_eq!(repository.list().unwrap().len(), 0);
}

#[test]
fn register_under_an_id_in_use_gives_repository_error() {
    let mut repository = TaskInMemoryRepository::new();
    let id = TaskId::new();
    let mut register_task = RegisterTask::new(&mut repository);
    let first = register_task
        .execute_with_id(id, RegisterTaskCommand::new("First", "First", 1))
        .unwrap();
    assert_eq!(first.id, id.to_string());
    let second = register_task
        .execute_with_id(id, RegisterTaskCommand::new("Second", "Second", 2))
        .unwrap_err();
    assert_eq!(second, RegisterTaskError::RepositoryError);
    let invalid = register_task
        .execute_with_id(id, RegisterTaskCommand::new("", "Second", 2))
        .unwrap_err();
    assert_eq!(invalid, RegisterTaskError::InvalidTitle);
    assert_eq!(repository.get_by_id(&id).unwrap().title.to_string(), "First");
}

#[test]
fn assemble_makes_the_task_of_a_command() {
    let id = TaskId::from(42);
    let task = assemble(id, &RegisterTaskCommand::new(" a ", " b ", 1)).unwrap();
    assert_eq!(task.id, id);
    assert_eq!(task.title.to_string(), "a");
    assert_eq!(task.description.to_string(), "b");
    assert_eq!(task.status, TaskStatus::Todo);
    assert_eq!(
        assemble(id, &RegisterTaskCommand::new("a", "b", 4)).err(),
        Some(RegisterTaskError::InvalidStatus)
    );
}
