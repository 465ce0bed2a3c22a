use api_server::domain::task::task_description::{
    TaskDescription, TaskDescriptionParseError, TASK_DESCRIPTION_MAX_LENGTH,
};

#[test]
fn task_description_try_from_when_valid_value_then_returns_instance() {
    let value = "Task Description";
    let task_description = TaskDescription::try_from(value).unwrap();
    assert_eq!(task_description.to_string(), value);

    let value = String::from("A").repeat(TASK_DESCRIPTION_MAX_LENGTH);
    let task_description = TaskDescription::try_from(value.as_str()).unwrap();
    assert_eq!(task_description.to_string(), value);
}

#[test]
fn task_description_try_from_when_value_is_empty_then_returns_error() {
    let err = TaskDescription::try_from("").unwrap_err();
    assert_eq!(err, TaskDescriptionParseError::Empty);
}

#[test]
fn _try_from_when_value_is_too_long_then_returns_error() {
    let value = String::from("A").repeat(TASK_DESCRIPTION_MAX_LENGTH + 1);
    let err = TaskDescription::try_from(value.as_str()).unwrap_err();
    assert_eq!(err, TaskDescriptionParseError::TooLong);
}

#[test]
fn description_is_trimmed_before_it_is_measured() {
    let description = TaskDescription::try_from("\n  Task Description\t ").unwrap();
    assert_eq!(description.to_string(), "Task Description");

    let padded = format!("  {}  ", "A".repeat(256));
    let description = TaskDescription::try_from(padded.as_str()).unwrap();
    assert_eq!(description.to_string(), "A".repeat(256));

    let padded = format!("  {}  ", "A".repeat(257));
    assert_eq!(
        TaskDescription::try_from(padded.as_str()).unwrap_err(),
        TaskDescriptionParseError::TooLong
    );
}

#[test]
fn description_of_whitespace_only_is_empty() {
    assert_eq!(TaskDescription::try_from(" \u{3000} ").unwrap_err(), TaskDescriptionParseError::Empty);
}

#[test]
fn description_length_counts_characters() {
    let value = "\u{3042}".repeat(256);
    assert_eq!(TaskDescription::try_from(value.as_str()).unwrap().to_string(), value);
    let value = "\u{3042}".repeat(257);
    assert_eq!(
        TaskDescription::try_from(value.as_str()).unwrap_err(),
        TaskDescriptionParseError::TooLong
    );
}

#[test]
fn descriptions_are_equal_exactly_if_their_characters_are() {
    assert_eq!(
        TaskDescription::try_from("Task Description\n").unwrap(),
        TaskDescription::try_from("Task Description").unwrap()
    );
    assert_ne!(
        TaskDescription::try_from("Task Description").unwrap(),
        TaskDescription::try_from("Task description").unwrap()
    );
}
