//! The status of a task and its integer code.

use std::convert::TryFrom;
use vstd::prelude::*;
use vstd::std_specs::convert::TryFromSpecImpl;

verus! {

/// Why an integer is not the code of a status.
#[derive(Debug, PartialEq, Eq, Clone, Copy, Structural)]
pub enum StatusParseError {
    InvalidStatus,
}

/// The status of a task. Any status may follow any other.
#[derive(Debug, PartialEq, Eq, Clone, Copy, Structural)]
pub enum TaskStatus {
    Todo,
    Doing,
    Done,
}

impl TaskStatus {
    /// The integer that stands for this status in storage and on the wire.
    pub open spec fn code(self) -> int {
        match self {
            TaskStatus::Todo => 1,
            TaskStatus::Doing => 2,
            TaskStatus::Done => 3,
        }
    }

    /// The status that an integer stands for, if any.
    pub open spec fn of_code(n: int) -> Option<TaskStatus> {
        if n == 1 {
            Some(TaskStatus::Todo)
        } else if n == 2 {
            Some(TaskStatus::Doing)
        } else if n == 3 {
            Some(TaskStatus::Done)
        } else {
            None
        }
    }

    /// Exactly 1, 2 and 3 are codes, and code and status turn into each
    /// other without loss.
    pub proof fn lemma_code_round_trip(n: int, status: TaskStatus)
        ensures
            TaskStatus::of_code(n) is Some <==> n == 1 || n == 2 || n == 3,
            TaskStatus::of_code(n) matches Some(s) ==> s.code() == n,
            TaskStatus::of_code(status.code()) == Some(status),
    {
    }

    /// The code of the status.
    pub fn to_int(&self) -> (code: i32)
        ensures
            code == self.code(),
            TaskStatus::of_code(code as int) == Some(*self),
    {
        match self {
            TaskStatus::Todo => 1,
            TaskStatus::Doing => 2,
            TaskStatus::Done => 3,
        }
    }
}

impl TryFrom<i32> for TaskStatus {
    type Error = StatusParseError;

    /// The status that the code stands for. Only 1, 2 and 3 are codes.
    fn try_from(value: i32) -> (r: Result<Self, Self::Error>)
        ensures
            r == match TaskStatus::of_code(value as int) {
                Some(status) => Ok::<TaskStatus, StatusParseError>(status),
                None => Err::<TaskStatus, StatusParseError>(StatusParseError::InvalidStatus),
            },
            r is Ok <==> value == 1 || value == 2 || value == 3,
            r matches Ok(status) ==> status.code() == value,
    {
        match value {
            1 => Ok(TaskStatus::Todo),
            2 => Ok(TaskStatus::Doing),
            3 => Ok(TaskStatus::Done),
            _ => Err(StatusParseError::InvalidStatus),
        }
    }
}

impl TryFromSpecImpl<i32> for TaskStatus {
    open spec fn obeys_try_from_spec() -> bool {
        true
    }

    open spec fn try_from_spec(value: i32) -> Result<Self, Self::Error> {
        match TaskStatus::of_code(value as int) {
            Some(status) => Ok(status),
            None => Err(StatusParseError::InvalidStatus),
        }
    }
}

} // verus!
