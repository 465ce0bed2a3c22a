//! The description of a task: trimmed text of 1 to 256 characters.

use crate::text::{is_trimmed, lemma_trimmed, lemma_trimmed_idempotent, trim, trimmed};
use std::convert::TryFrom;
use vstd::prelude::*;
use vstd::std_specs::cmp::PartialEqSpecImpl;
use vstd::std_specs::convert::TryFromSpecImpl;

verus! {

/// The most characters that a description may have once it is trimmed.
pub const TASK_DESCRIPTION_MAX_LENGTH: usize = 256;

/// Why a text is not a description.
#[derive(Debug, PartialEq, Eq, Clone, Copy, Structural)]
pub enum TaskDescriptionParseError {
    Empty,
    TooLong,
}

/// A validated description. The only way to make one is `try_from`, so
/// every description satisfies `is_task_description`.
#[derive(Debug)]
pub struct TaskDescription {
    value: String,
}

/// Whether a text can stand as a description as it is.
pub open spec fn is_task_description(text: Seq<char>) -> bool {
    &&& is_trimmed(text)
    &&& 1 <= text.len() <= TASK_DESCRIPTION_MAX_LENGTH
}

/// The description that a raw text gives, or the reason why it gives none.
pub open spec fn parse_task_description(raw: Seq<char>) -> Result<Seq<char>, TaskDescriptionParseError> {
    let text = trimmed(raw);
    if text.len() == 0 {
        Err(TaskDescriptionParseError::Empty)
    } else if text.len() > TASK_DESCRIPTION_MAX_LENGTH {
        Err(TaskDescriptionParseError::TooLong)
    } else {
        Ok(text)
    }
}

/// A raw text gives a description exactly if 1 to 256 characters are left of it
/// when it is trimmed, and then it gives those characters, which are valid
/// as they are.
pub proof fn lemma_parse_task_description(raw: Seq<char>)
    ensures
        parse_task_description(raw) is Ok <==> 1 <= trimmed(raw).len() <= TASK_DESCRIPTION_MAX_LENGTH,
        parse_task_description(raw) matches Ok(text) ==> text == trimmed(raw) && is_task_description(text)
            && parse_task_description(text) == Ok::<Seq<char>, TaskDescriptionParseError>(text),
{
    lemma_trimmed(raw);
    lemma_trimmed_idempotent(raw);
}

impl View for TaskDescription {
    type V = Seq<char>;

    closed spec fn view(&self) -> Seq<char> {
        self.value@
    }
}

impl TaskDescription {
    #[verifier::type_invariant]
    spec fn valid(&self) -> bool {
        is_task_description(self.value@)
    }

    /// Shows that the description is valid, as every one is. It computes nothing.
    pub fn check_valid(&self)
        ensures
            is_task_description(self@),
    {
        proof {
            use_type_invariant(self);
        }
    }

    pub fn to_string(&self) -> (text: String)
        ensures
            text@ == self@,
            is_task_description(text@),
    {
        proof {
            use_type_invariant(self);
        }
        self.value.clone()
    }
}

impl<'a> TryFrom<&'a str> for TaskDescription {
    type Error = TaskDescriptionParseError;

    /// Trims the text and accepts it if 1 to 256 characters are left.
    fn try_from(value: &'a str) -> (r: Result<Self, Self::Error>)
        ensures
            match r {
                Ok(description) => parse_task_description(value@) == Ok::<Seq<char>, TaskDescriptionParseError>(
                    description@,
                ),
                Err(e) => parse_task_description(value@) == Err::<Seq<char>, TaskDescriptionParseError>(e),
            },
            r is Ok <==> 1 <= trimmed(value@).len() <= TASK_DESCRIPTION_MAX_LENGTH,
    {
        let text = trim(value);
        if text.is_empty() {
            return Err(TaskDescriptionParseError::Empty);
        }
        if text.unicode_len() > TASK_DESCRIPTION_MAX_LENGTH {
            return Err(TaskDescriptionParseError::TooLong);
        }
        proof {
            lemma_trimmed(value@);
        }
        Ok(TaskDescription { value: String::from_str(text) })
    }
}

/// A specification cannot build the `String` inside a description, so the
/// conversion is specified by the `ensures` of `try_from`, over
/// `parse_task_description`, and not by `try_from_spec`.
impl<'a> TryFromSpecImpl<&'a str> for TaskDescription {
    open spec fn obeys_try_from_spec() -> bool {
        false
    }

    open spec fn try_from_spec(value: &'a str) -> Result<Self, Self::Error> {
        arbitrary()
    }
}

impl PartialEq for TaskDescription {
    /// Descriptions are equal exactly if their characters are.
    fn eq(&self, other: &Self) -> (equal: bool) {
        self.value == other.value
    }
}

impl PartialEqSpecImpl for TaskDescription {
    open spec fn obeys_eq_spec() -> bool {
        true
    }

    open spec fn eq_spec(&self, other: &Self) -> bool {
        self@ == other@
    }
}

impl Eq for TaskDescription {

}

impl Clone for TaskDescription {
    fn clone(&self) -> (copy: Self)
        ensures
            copy == *self,
    {
        proof {
            use_type_invariant(self);
        }
        TaskDescription { value: self.value.clone() }
    }
}

} // verus!
