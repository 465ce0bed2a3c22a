use api_server::domain::task::task_status::{StatusParseError, TaskStatus};

#[test]
fn task_status_try_from_when_valid_value_then_returns_instance() {
    let task_status = TaskStatus::try_from(1).unwrap();
    assert_eq!(task_status, TaskStatus::Todo);

    let task_status = TaskStatus::try_from(2).unwrap();
    assert_eq!(task_status, TaskStatus::Doing);

    let task_status = TaskStatus::try_from(3).unwrap();
    assert_eq!(task_status, TaskStatus::Done);
}

#[test]
fn try_from_when_invalid_value_then_returns_error() {
    let err = TaskStatus::try_from(10).unwrap_err();
    assert_eq!(err, StatusParseError::InvalidStatus);
}

#[test]
fn status_codes_are_one_two_three() {
    assert_eq!(TaskStatus::Todo.to_int(), 1);
    assert_eq!(TaskStatus::Doing.to_int(), 2);
    assert_eq!(TaskStatus::Done.to_int(), 3);
}

#[test]
fn status_code_round_trip() {
    for n in 1..=3 {
        assert_eq!(TaskStatus::try_from(n).unwrap().to_int(), n);
    }
    for status in [TaskStatus::Todo, TaskStatus::Doing, TaskStatus::Done] {
        assert_eq!(TaskStatus::try_from(status.to_int()).unwrap(), status);
    }
}

#[test]
fn status_rejects_every_other_integer() {
    for n in [0, 4, 5, -1, -3, i32::MIN, i32::MAX, 256 + 1, 65536 + 2] {
        assert_eq!(TaskStatus::try_from(n).unwrap_err(), StatusParseError::InvalidStatus);
    }
}
