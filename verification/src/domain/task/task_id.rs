//! The identifier of a task: 128 bits, written as a UUID.

use crate::uuid_text::{hyphenated, is_random_uuid, parse_uuid};
use std::convert::TryFrom;
use uuid::Uuid;
use vstd::prelude::*;
use vstd::std_specs::convert::TryFromSpecImpl;

verus! {

/// Why a text is not an identifier.
#[derive(Debug, PartialEq, Eq, Clone, Copy, Structural)]
pub enum TaskIdParseError {
    InvalidIdString,
}

/// The identifier of a task. It is the key under which a repository
/// holds the task, and it never changes.
#[derive(Debug, PartialEq, Eq, Hash, Clone, Copy, Structural)]
pub struct TaskId {
    value: u128,
}

impl View for TaskId {
    type V = u128;

    closed spec fn view(&self) -> u128 {
        self.value
    }
}

/// `uuid::Error`, with which `Uuid::parse_str` refuses a text. Nothing is
/// known of what it holds.
#[verifier::external_type_specification]
#[verifier::external_body]
pub struct ExUuidError(uuid::Error);

/// `Uuid::parse_str`, with the identifier as the number that
/// `Uuid::as_u128` gives: the text is accepted in the forms that
/// `parse_uuid` lists, and in no other.
#[verifier::external_body]
fn uuid_parse_str(text: &str) -> (r: Result<u128, uuid::Error>)
    ensures
        match r {
            Ok(id) => parse_uuid(text@) == Some(id),
            Err(_) => parse_uuid(text@) is None,
        },
{
    match Uuid::parse_str(text) {
        Ok(id) => Ok(id.as_u128()),
        Err(e) => Err(e),
    }
}

/// `Uuid::new_v4`, as a number: 122 random bits under the marks of
/// version 4 and variant 1. Nothing else is known of the result. It
/// panics if the operating system hands out no random bytes.
#[verifier::external_body]
fn uuid_new_v4() -> (id: u128)
    ensures
        is_random_uuid(id),
{
    Uuid::new_v4().as_u128()
}

/// `Uuid::to_string` of the identifier that `Uuid::from_u128` makes of the
/// number: the hyphenated form in lower case.
#[verifier::external_body]
fn uuid_to_string(id: u128) -> (text: String)
    ensures
        text@ == hyphenated(id),
{
    Uuid::from_u128(id).to_string()
}

impl TaskId {
    /// A fresh random identifier.
    pub fn new() -> (id: Self)
        ensures
            is_random_uuid(id@),
    {
        Self { value: uuid_new_v4() }
    }

    /// The identifier with the given 128 bits.
    pub fn from(value: u128) -> (id: Self)
        ensures
            id@ == value,
    {
        Self { value }
    }

    /// The 128 bits of the identifier.
    pub fn value(&self) -> (value: u128)
        ensures
            value == self@,
    {
        self.value
    }

    /// The canonical text of the identifier.
    pub fn to_string(&self) -> (text: String)
        ensures
            text@ == hyphenated(self@),
    {
        uuid_to_string(self.value)
    }

    /// Two identifiers are the same exactly if their bits are.
    pub proof fn lemma_view_decides(a: TaskId, b: TaskId)
        ensures
            a == b <==> a@ == b@,
    {
    }
}

impl<'a> TryFrom<&'a str> for TaskId {
    type Error = TaskIdParseError;

    /// Reads an identifier from any of the text forms of a UUID.
    fn try_from(value: &'a str) -> (r: Result<Self, Self::Error>)
        ensures
            match r {
                Ok(id) => parse_uuid(value@) == Some(id@),
                Err(_) => parse_uuid(value@) is None,
            },
    {
        match uuid_parse_str(value) {
            Ok(value) => Ok(Self { value }),
            Err(_) => Err(TaskIdParseError::InvalidIdString),
        }
    }
}

impl<'a> TryFromSpecImpl<&'a str> for TaskId {
    open spec fn obeys_try_from_spec() -> bool {
        true
    }

    closed spec fn try_from_spec(value: &'a str) -> Result<Self, Self::Error> {
        match parse_uuid(value@) {
            Some(value) => Ok(TaskId { value }),
            None => Err(TaskIdParseError::InvalidIdString),
        }
    }
}

} // verus!
