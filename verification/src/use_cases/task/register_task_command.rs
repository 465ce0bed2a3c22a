//! What a caller hands to `RegisterTask`.

use vstd::prelude::*;

verus! {

/// The raw title, description and status code of the task to register.
/// Nothing is validated yet.
pub struct RegisterTaskCommand {
    title: String,
    description: String,
    status: i32,
}

impl RegisterTaskCommand {
    pub closed spec fn spec_title(&self) -> Seq<char> {
        self.title@
    }

    pub closed spec fn spec_description(&self) -> Seq<char> {
        self.description@
    }

    pub closed spec fn spec_status(&self) -> i32 {
        self.status
    }

    pub fn new(title: &str, description: &str, status: i32) -> (command: RegisterTaskCommand)
        ensures
            command.spec_title() == title@,
            command.spec_description() == description@,
            command.spec_status() == status,
    {
        RegisterTaskCommand {
            title: String::from_str(title),
            description: String::from_str(description),
            status,
        }
    }

    pub fn title(&self) -> (title: &str)
        ensures
            title@ == self.spec_title(),
    {
        self.title.as_str()
    }

    pub fn description(&self) -> (description: &str)
        ensures
            description@ == self.spec_description(),
    {
        self.description.as_str()
    }

    pub fn status(&self) -> (status: i32)
        ensures
            status == self.spec_status(),
    {
        self.status
    }
}

} // verus!
