//! The title of a task: trimmed text of 1 to 64 characters.

use crate::text::{is_trimmed, lemma_trimmed, lemma_trimmed_idempotent, trim, trimmed};
use std::convert::TryFrom;
use vstd::prelude::*;
use vstd::std_specs::cmp::PartialEqSpecImpl;
use vstd::std_specs::convert::TryFromSpecImpl;

verus! {

/// The most characters that a title may have once it is trimmed.
pub const TASK_TITLE_MAX_LENGTH: usize = 64;

/// Why a text is not a title.
#[derive(Debug, PartialEq, Eq, Clone, Copy, Structural)]
pub enum TaskTitleParseError {
    Empty,
    TooLong,
}

/// A validated title. The only way to make one is `try_from`, so every
/// title satisfies `is_task_title`.
#[derive(Debug)]
pub struct TaskTitle {
    value: String,
}

/// Whether a text can stand as a title as it is.
pub open spec fn is_task_title(text: Seq<char>) -> bool {
    &&& is_trimmed(text)
    &&& 1 <= text.len() <= TASK_TITLE_MAX_LENGTH
}

/// The title that a raw text gives, or the reason why it gives none.
pub open spec fn parse_task_title(raw: Seq<char>) -> Result<Seq<char>, TaskTitleParseError> {
    let text = trimmed(raw);
    if text.len() == 0 {
        Err(TaskTitleParseError::Empty)
    } else if text.len() > TASK_TITLE_MAX_LENGTH {
        Err(TaskTitleParseError::TooLong)
    } else {
        Ok(text)
    }
}

/// A raw text gives a title exactly if 1 to 64 characters are left of it
/// when it is trimmed, and then it gives those characters, which are valid
/// as they are.
pub proof fn lemma_parse_task_title(raw: Seq<char>)
    ensures
        parse_task_title(raw) is Ok <==> 1 <= trimmed(raw).len() <= TASK_TITLE_MAX_LENGTH,
        parse_task_title(raw) matches Ok(text) ==> text == trimmed(raw) && is_task_title(text)
            && parse_task_title(text) == Ok::<Seq<char>, TaskTitleParseError>(text),
{
    lemma_trimmed(raw);
    lemma_trimmed_idempotent(raw);
}

impl View for TaskTitle {
    type V = Seq<char>;

    closed spec fn view(&self) -> Seq<char> {
        self.value@
    }
}

impl TaskTitle {
    #[verifier::type_invariant]
    spec fn valid(&self) -> bool {
        is_task_title(self.value@)
    }

    /// Shows that the title is valid, as every one is. It computes nothing.
    pub fn check_valid(&self)
        ensures
            is_task_title(self@),
    {
        proof {
            use_type_invariant(self);
        }
    }

    pub fn to_string(&self) -> (text: String)
        ensures
            text@ == self@,
            is_task_title(text@),
    {
        proof {
            use_type_invariant(self);
        }
        self.value.clone()
    }
}

impl<'a> TryFrom<&'a str> for TaskTitle {
    type Error = TaskTitleParseError;

    /// Trims the text and accepts it if 1 to 64 characters are left.
    fn try_from(value: &'a str) -> (r: Result<Self, Self::Error>)
        ensures
            match r {
                Ok(title) => parse_task_title(value@) == Ok::<Seq<char>, TaskTitleParseError>(
                    title@,
                ),
                Err(e) => parse_task_title(value@) == Err::<Seq<char>, TaskTitleParseError>(e),
            },
            r is Ok <==> 1 <= trimmed(value@).len() <= TASK_TITLE_MAX_LENGTH,
    {
        let text = trim(value);
        if text.is_empty() {
            return Err(TaskTitleParseError::Empty);
        }
        if text.unicode_len() > TASK_TITLE_MAX_LENGTH {
            return Err(TaskTitleParseError::TooLong);
        }
        proof {
            lemma_trimmed(value@);
        }
        Ok(TaskTitle { value: String::from_str(text) })
    }
}

/// A specification cannot build the `String` inside a title, so the
/// conversion is specified by the `ensures` of `try_from`, over
/// `parse_task_title`, and not by `try_from_spec`.
impl<'a> TryFromSpecImpl<&'a str> for TaskTitle {
    open spec fn obeys_try_from_spec() -> bool {
        false
    }

    open spec fn try_from_spec(value: &'a str) -> Result<Self, Self::Error> {
        arbitrary()
    }
}

impl PartialEq for TaskTitle {
    /// Titles are equal exactly if their characters are.
    fn eq(&self, other: &Self) -> (equal: bool) {
        self.value == other.value
    }
}

impl PartialEqSpecImpl for TaskTitle {
    open spec fn obeys_eq_spec() -> bool {
        true
    }

    open spec fn eq_spec(&self, other: &Self) -> bool {
        self@ == other@
    }
}

impl Eq for TaskTitle {

}

impl Clone for TaskTitle {
    fn clone(&self) -> (copy: Self)
        ensures
            copy == *self,
    {
        proof {
            use_type_invariant(self);
        }
        TaskTitle { value: self.value.clone() }
    }
}

} // verus!
