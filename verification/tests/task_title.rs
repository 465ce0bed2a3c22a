use api_server::domain::task::task_title::{TaskTitle, TaskTitleParseError, TASK_TITLE_MAX_LENGTH};

#[test]
fn task_title_try_from_when_valid_value_then_returns_instance() {
    let value = String::from("Task Title");
    let task_title = TaskTitle::try_from(value.as_str()).unwrap();
    assert_eq!(task_title.to_string(), "Task Title");

    let value = String::from("A").repeat(TASK_TITLE_MAX_LENGTH);
    let task_title = TaskTitle::try_from(value.as_str()).unwrap();
    assert_eq!(task_title.to_string(), value);
}

#[test]
fn task_title_try_from_when_value_is_empty_then_returns_error() {
    let err = TaskTitle::try_from("").unwrap_err();
    assert_eq!(err, TaskTitleParseError::Empty);
}

#[test]
fn try_from_when_value_is_too_long_then_returns_error() {
    let value = String::from("A").repeat(TASK_TITLE_MAX_LENGTH + 1);
    let err = TaskTitle::try_from(value.as_str()).unwrap_err();
    assert_eq!(err, TaskTitleParseError::TooLong);
}

#[test]
fn title_is_trimmed_before_it_is_measured() {
    let title = TaskTitle::try_from("  \t Task Title \r\n").unwrap();
    assert_eq!(title.to_string(), "Task Title");

    let padded = format!("   {}   ", "A".repeat(64));
    let title = TaskTitle::try_from(padded.as_str()).unwrap();
    assert_eq!(title.to_string(), "A".repeat(64));

    let padded = format!(" {} ", "A".repeat(65));
    assert_eq!(TaskTitle::try_from(padded.as_str()).unwrap_err(), TaskTitleParseError::TooLong);
}

#[test]
fn title_of_whitespace_only_is_empty() {
    assert_eq!(TaskTitle::try_from("   ").unwrap_err(), TaskTitleParseError::Empty);
    assert_eq!(TaskTitle::try_from("\t\n\r").unwrap_err(), TaskTitleParseError::Empty);
    assert_eq!(
        TaskTitle::try_from("\u{85}\u{a0}\u{1680}\u{2000}\u{200a}\u{2028}\u{2029}\u{202f}\u{205f}\u{3000}")
            .unwrap_err(),
        TaskTitleParseError::Empty
    );
}

#[test]
fn title_keeps_inner_whitespace_and_other_characters() {
    let title = TaskTitle::try_from("\u{3000}a  b\u{200b}\u{3000}").unwrap();
    assert_eq!(title.to_string(), "a  b\u{200b}");
    let title = TaskTitle::try_from("\u{1c}x\u{1c}").unwrap();
    assert_eq!(title.to_string(), "\u{1c}x\u{1c}");
}

#[test]
fn title_length_counts_characters() {
    let value = "\u{e9}".repeat(64);
    let title = TaskTitle::try_from(value.as_str()).unwrap();
    assert_eq!(title.to_string(), value);
    let value = "\u{e9}".repeat(65);
    assert_eq!(TaskTitle::try_from(value.as_str()).unwrap_err(), TaskTitleParseError::TooLong);
}

#[test]
fn title_of_one_character_is_accepted() {
    assert_eq!(TaskTitle::try_from("x").unwrap().to_string(), "x");
    assert_eq!(TaskTitle::try_from(" x ").unwrap().to_string(), "x");
}

#[test]
fn title_clone_is_equal_text() {
    let title = TaskTitle::try_from("Task Title").unwrap();
    assert_eq!(title.clone().to_string(), title.to_string());
}

#[test]
fn title_trims_exactly_the_white_space_characters() {
    let white = |c: char| {
        matches!(
            c as u32,
            0x09..=0x0d
                | 0x20
                | 0x85
                | 0xa0
                | 0x1680
                | 0x2000..=0x200a
                | 0x2028
                | 0x2029
                | 0x202f
                | 0x205f
                | 0x3000
        )
    };
    let mut count = 0;
    for c in (0..=0x10ffffu32).filter_map(char::from_u32) {
        let text = format!("{}x{}", c, c);
        let title = TaskTitle::try_from(text.as_str()).unwrap().to_string();
        if white(c) {
            count += 1;
            assert_eq!(title, "x", "{:?}", c);
        } else {
            assert_eq!(title, text, "{:?}", c);
        }
    }
    assert_eq!(count, 25);
}

#[test]
fn titles_are_equal_exactly_if_their_characters_are() {
    assert_eq!(TaskTitle::try_from(" Task Title ").unwrap(), TaskTitle::try_from("Task Title").unwrap());
    assert_ne!(TaskTitle::try_from("Task Title").unwrap(), TaskTitle::try_from("Task  Title").unwrap());
    assert_ne!(TaskTitle::try_from("a").unwrap(), TaskTitle::try_from("A").unwrap());
}
