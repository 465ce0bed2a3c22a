//! The answers to the four requests on the collection of tasks. A request
//! comes here with its body decoded, and the answer leaves as a status code
//! and a body that is still to be encoded.

use crate::domain::task::task::{Task, TaskView};
use crate::domain::task::task_repository::{
    deleted, lists_all, task_views, TaskRepository, TaskRepositoryError,
};
use crate::use_cases::task::delete_task::DeleteTask;
use crate::use_cases::task::delete_task_command::DeleteTaskCommand;
use crate::use_cases::task::register_task::{
    register_task_answers, register_task_conforms, RegisterTask, RegisterTaskError,
};
use crate::use_cases::task::register_task_command::RegisterTaskCommand;
use crate::use_cases::task::register_task_result::RegisterTaskResult;
use crate::use_cases::task::update_task::{
    update_task_answers, update_task_conforms, UpdateTask, UpdateTaskError,
};
use crate::use_cases::task::update_task_command::{str_of, text_of, UpdateTaskCommand};
use crate::use_cases::task::update_task_result::UpdateTaskResult;
use crate::uuid_text::{hyphenated, is_random_uuid, parse_uuid};
use vstd::prelude::*;

verus! {

/// The status code of an answer to a request that was served.
pub const STATUS_OK: u16 = 200;

/// The status code of an answer to a request with an invalid value.
pub const STATUS_BAD_REQUEST: u16 = 400;

/// The status code of an answer to a request for what is not there.
pub const STATUS_NOT_FOUND: u16 = 404;

/// The status code of an answer to a request that the storage failed.
pub const STATUS_INTERNAL_SERVER_ERROR: u16 = 500;

/// A task as it goes over the wire.
#[derive(Debug)]
pub struct TaskDTO {
    pub id: String,
    pub title: String,
    pub description: String,
    pub status: i32,
}

/// A task as it goes over the wire, as plain values.
pub struct TaskDTOView {
    pub id: Seq<char>,
    pub title: Seq<char>,
    pub description: Seq<char>,
    pub status: i32,
}

impl View for TaskDTO {
    type V = TaskDTOView;

    open spec fn view(&self) -> TaskDTOView {
        TaskDTOView {
            id: self.id@,
            title: self.title@,
            description: self.description@,
            status: self.status,
        }
    }
}

/// The body of a request to register a task.
#[derive(Debug)]
pub struct TaskPostInput {
    pub title: String,
    pub description: String,
    pub status: i32,
}

/// The body of the answer to a request to register a task.
#[derive(Debug)]
pub struct TaskPostOutput {
    pub data: TaskDTO,
}

/// The body of the answer to a request for all tasks.
#[derive(Debug)]
pub struct TaskListOutput {
    pub data: Vec<TaskDTO>,
}

/// The body of a request to update a task.
#[derive(Debug)]
pub struct TaskPatchInput {
    pub id: String,
    pub title: Option<String>,
    pub description: Option<String>,
    pub status: Option<i32>,
}

/// The body of the answer to a request to update a task.
#[derive(Debug)]
pub struct TaskPatchOutput {
    pub data: TaskDTO,
}

/// The body of a request to delete a task.
#[derive(Debug)]
pub struct TaskDeleteInput {
    pub id: String,
}

/// The body of an answer.
#[derive(Debug)]
pub enum ResponseBody {
    /// A plain text that says what went wrong.
    Text(String),
    Posted(TaskPostOutput),
    Patched(TaskPatchOutput),
    Listed(TaskListOutput),
    Empty,
}

/// The body of an answer, as plain values.
pub enum ResponseBodyView {
    Text(Seq<char>),
    Posted(TaskDTOView),
    Patched(TaskDTOView),
    Listed(Seq<TaskDTOView>),
    Empty,
}

impl View for ResponseBody {
    type V = ResponseBodyView;

    open spec fn view(&self) -> ResponseBodyView {
        match self {
            ResponseBody::Text(text) => ResponseBodyView::Text(text@),
            ResponseBody::Posted(output) => ResponseBodyView::Posted(output.data@),
            ResponseBody::Patched(output) => ResponseBodyView::Patched(output.data@),
            ResponseBody::Listed(output) => ResponseBodyView::Listed(wire_views(output.data@)),
            ResponseBody::Empty => ResponseBodyView::Empty,
        }
    }
}

/// An answer: a status code and a body.
#[derive(Debug)]
pub struct Response {
    pub status: u16,
    pub body: ResponseBody,
}

/// An answer, as plain values.
pub struct ResponseView {
    pub status: u16,
    pub body: ResponseBodyView,
}

impl View for Response {
    type V = ResponseView;

    open spec fn view(&self) -> ResponseView {
        ResponseView { status: self.status, body: self.body@ }
    }
}

/// A task as it goes over the wire: the identifier in its canonical text
/// and the status by its code.
pub open spec fn wire_task(task: TaskView) -> TaskDTOView {
    TaskDTOView {
        id: hyphenated(task.id),
        title: task.title,
        description: task.description,
        status: task.status.code() as i32,
    }
}

/// The tasks of a list as they go over the wire, in the order of the list.
pub open spec fn wire_tasks(list: Seq<TaskView>) -> Seq<TaskDTOView> {
    list.map_values(|task: TaskView| wire_task(task))
}

/// The wire tasks of a list, as plain values.
pub open spec fn wire_views(list: Seq<TaskDTO>) -> Seq<TaskDTOView> {
    list.map_values(|task: TaskDTO| task@)
}

/// An answer that is a plain text.
pub open spec fn text_response(status: u16, text: Seq<char>) -> ResponseView {
    ResponseView { status, body: ResponseBodyView::Text(text) }
}

/// The answer to a request to register a task, for what the use case
/// answered: 200 with the task, 400 for an invalid value, 500 where the
/// repository failed.
pub open spec fn register_response(answer: Result<RegisterTaskResult, RegisterTaskError>) -> ResponseView {
    match answer {
        Ok(result) => ResponseView {
            status: STATUS_OK,
            body: ResponseBodyView::Posted(
                TaskDTOView {
                    id: result.id@,
                    title: result.title@,
                    description: result.description@,
                    status: result.status,
                },
            ),
        },
        Err(RegisterTaskError::InvalidTitle) => text_response(
            STATUS_BAD_REQUEST,
            "Invalid task title input"@,
        ),
        Err(RegisterTaskError::InvalidDescription) => text_response(
            STATUS_BAD_REQUEST,
            "Invalid task description input"@,
        ),
        Err(RegisterTaskError::InvalidStatus) => text_response(
            STATUS_BAD_REQUEST,
            "Invalid task status input"@,
        ),
        Err(RegisterTaskError::RepositoryError) => text_response(
            STATUS_INTERNAL_SERVER_ERROR,
            "Error occurred during saving task"@,
        ),
    }
}

/// The answer to a request to update a task, for what the use case
/// answered: 200 with the task, 400 for an invalid value, 404 where the
/// task was not found.
pub open spec fn update_response(answer: Result<UpdateTaskResult, UpdateTaskError>) -> ResponseView {
    match answer {
        Ok(result) => ResponseView {
            status: STATUS_OK,
            body: ResponseBodyView::Patched(
                TaskDTOView {
                    id: result.id@,
                    title: result.title@,
                    description: result.description@,
                    status: result.status,
                },
            ),
        },
        Err(UpdateTaskError::InvalidID) => text_response(
            STATUS_BAD_REQUEST,
            "Invalid task ID input"@,
        ),
        Err(UpdateTaskError::InvalidTitle) => text_response(
            STATUS_BAD_REQUEST,
            "Invalid task title input"@,
        ),
        Err(UpdateTaskError::InvalidDescription) => text_response(
            STATUS_BAD_REQUEST,
            "Invalid task description input"@,
        ),
        Err(UpdateTaskError::InvalidStatus) => text_response(
            STATUS_BAD_REQUEST,
            "Invalid task status input"@,
        ),
        Err(UpdateTaskError::TaskNotFound) => text_response(STATUS_NOT_FOUND, "Task not found"@),
    }
}

/// The answer to a request for all tasks, for what the repository
/// answered: 200 with the tasks, in the order in which they came, or 500.
pub open spec fn list_response(outcome: Result<Vec<Task>, TaskRepositoryError>) -> ResponseView {
    match outcome {
        Ok(list) => ResponseView {
            status: STATUS_OK,
            body: ResponseBodyView::Listed(wire_tasks(task_views(list@))),
        },
        Err(_) => text_response(STATUS_INTERNAL_SERVER_ERROR, "Error occurred during listing tasks"@),
    }
}

/// The answer to a request to delete a task, for what the use case
/// answered: 200 with nothing in it, or 500.
pub open spec fn delete_response(answer: Result<(), ()>) -> ResponseView {
    match answer {
        Ok(_) => ResponseView { status: STATUS_OK, body: ResponseBodyView::Empty },
        Err(_) => text_response(
            STATUS_INTERNAL_SERVER_ERROR,
            "Error occurred during deleting task"@,
        ),
    }
}

/// Whether a response is the one that is owed to a request for all tasks.
/// A modelled store answers 200 with each of its tasks once.
pub open spec fn get_conforms(
    tasks: Map<u128, TaskView>,
    modelled: bool,
    response: ResponseView,
) -> bool {
    modelled ==> exists|list: Seq<TaskView>|
        {
            &&& lists_all(list, tasks)
            &&& response == ResponseView {
                status: STATUS_OK,
                body: ResponseBodyView::Listed(#[trigger] wire_tasks(list)),
            }
        }
}

/// Whether a response, and the tasks stored after it, are what is owed to
/// a request to register a task. `None` stands for a body that could not be
/// decoded: the answer is 400 and the store is as it was. Else the answer
/// is the one to what `RegisterTask` answers for the values of the body,
/// under some random identifier.
pub open spec fn post_conforms(
    before: Map<u128, TaskView>,
    after: Map<u128, TaskView>,
    modelled: bool,
    payload: Option<TaskPostInput>,
    response: ResponseView,
) -> bool {
    match payload {
        None => {
            &&& response == text_response(STATUS_BAD_REQUEST, "Invalid request body"@)
            &&& after == before
        },
        Some(input) => exists|id: u128, answer: Result<RegisterTaskResult, RegisterTaskError>|
            {
                &&& is_random_uuid(id)
                &&& #[trigger] register_task_answers(
                    id,
                    input.title@,
                    input.description@,
                    input.status,
                    answer,
                )
                &&& modelled ==> register_task_conforms(
                    before,
                    after,
                    id,
                    input.title@,
                    input.description@,
                    input.status,
                    answer,
                )
                &&& response == register_response(answer)
            },
    }
}

/// Whether a response, and the tasks stored after it, are what is owed to
/// a request to update a task. `None` stands for a body that could not be
/// decoded, and an identifier may be malformed: the answer is then 400 and
/// the store is as it was. Else the answer is the one to what `UpdateTask`
/// answers for the values of the body.
pub open spec fn patch_conforms(
    before: Map<u128, TaskView>,
    after: Map<u128, TaskView>,
    modelled: bool,
    payload: Option<TaskPatchInput>,
    response: ResponseView,
) -> bool {
    match payload {
        None => {
            &&& response == text_response(STATUS_BAD_REQUEST, "Invalid request body"@)
            &&& after == before
        },
        Some(input) => match parse_uuid(input.id@) {
            None => {
                &&& response == text_response(STATUS_BAD_REQUEST, "Invalid request payload"@)
                &&& after == before
            },
            Some(id) => exists|answer: Result<UpdateTaskResult, UpdateTaskError>|
                {
                    &&& update_task_answers(
                        text_of(input.title),
                        text_of(input.description),
                        input.status,
                        answer,
                    )
                    &&& modelled ==> update_task_conforms(
                        before,
                        after,
                        id,
                        text_of(input.title),
                        text_of(input.description),
                        input.status,
                        answer,
                    )
                    &&& response == #[trigger] update_response(answer)
                },
        },
    }
}

/// Whether a response, and the tasks stored after it, are what is owed to
/// a request to delete a task. `None` stands for a body that could not be
/// decoded, and an identifier may be malformed: the answer is then 400 and
/// the store is as it was. Else the answer is 200, whether a task stood
/// under the identifier or not, and a modelled store holds no task under it
/// afterwards.
pub open spec fn delete_conforms(
    before: Map<u128, TaskView>,
    after: Map<u128, TaskView>,
    modelled: bool,
    payload: Option<TaskDeleteInput>,
    response: ResponseView,
) -> bool {
    match payload {
        None => {
            &&& response == text_response(STATUS_BAD_REQUEST, "Invalid request body"@)
            &&& after == before
        },
        Some(input) => match parse_uuid(input.id@) {
            None => {
                &&& response == text_response(STATUS_BAD_REQUEST, "Invalid request payload"@)
                &&& after == before
            },
            Some(id) => {
                &&& response == delete_response(Ok(()))
                &&& modelled ==> after == deleted(before, id)
            },
        },
    }
}

fn plain(status: u16, message: &str) -> (response: Response)
    ensures
        response@ == text_response(status, message@),
{
    Response { status, body: ResponseBody::Text(String::from_str(message)) }
}

fn borrowed(text: &Option<String>) -> (r: Option<&str>)
    ensures
        str_of(r) == text_of(*text),
{
    match text {
        Some(text) => Some(text.as_str()),
        None => None,
    }
}

impl TaskListOutput {
    /// The tasks as they go over the wire, in the order of the list.
    pub fn from(task_list: &Vec<Task>) -> (output: Self)
        ensures
            wire_views(output.data@) == wire_tasks(task_views(task_list@)),
    {
        let mut list: Vec<TaskDTO> = Vec::new();
        let mut i: usize = 0;
        while i < task_list.len()
            invariant
                i <= task_list.len(),
                list.len() == i,
                forall|k: int| 0 <= k < i ==> (#[trigger] list[k])@ == wire_task(task_list[k]@),
            decreases task_list.len() - i,
        {
            let task = &task_list[i];
            list.push(
                TaskDTO {
                    id: task.id.to_string(),
                    title: task.title.to_string(),
                    description: task.description.to_string(),
                    status: task.status.to_int(),
                },
            );
            i += 1;
        }
        assert(wire_views(list@) =~= wire_tasks(task_views(task_list@)));
        Self { data: list }
    }
}

/// Makes the answer to a request to register a task.
pub fn respond_to_register(answer: Result<RegisterTaskResult, RegisterTaskError>) -> (response:
    Response)
    ensures
        response@ == register_response(answer),
{
    match answer {
        Ok(result) => Response {
            status: STATUS_OK,
            body: ResponseBody::Posted(
                TaskPostOutput {
                    data: TaskDTO {
                        id: result.id,
                        title: result.title,
                        description: result.description,
                        status: result.status,
                    },
                },
            ),
        },
        Err(RegisterTaskError::InvalidTitle) => plain(STATUS_BAD_REQUEST, "Invalid task title input"),
        Err(RegisterTaskError::InvalidDescription) => plain(
            STATUS_BAD_REQUEST,
            "Invalid task description input",
        ),
        Err(RegisterTaskError::InvalidStatus) => plain(
            STATUS_BAD_REQUEST,
            "Invalid task status input",
        ),
        Err(RegisterTaskError::RepositoryError) => plain(
            STATUS_INTERNAL_SERVER_ERROR,
            "Error occurred during saving task",
        ),
    }
}

/// Makes the answer to a request to update a task.
pub fn respond_to_update(answer: Result<UpdateTaskResult, UpdateTaskError>) -> (response: Response)
    ensures
        response@ == update_response(answer),
{
    match answer {
        Ok(result) => Response {
            status: STATUS_OK,
            body: ResponseBody::Patched(
                TaskPatchOutput {
                    data: TaskDTO {
                        id: result.id,
                        title: result.title,
                        description: result.description,
                        status: result.status,
                    },
                },
            ),
        },
        Err(UpdateTaskError::InvalidID) => plain(STATUS_BAD_REQUEST, "Invalid task ID input"),
        Err(UpdateTaskError::InvalidTitle) => plain(STATUS_BAD_REQUEST, "Invalid task title input"),
        Err(UpdateTaskError::InvalidDescription) => plain(
            STATUS_BAD_REQUEST,
            "Invalid task description input",
        ),
        Err(UpdateTaskError::InvalidStatus) => plain(STATUS_BAD_REQUEST, "Invalid task status input"),
        Err(UpdateTaskError::TaskNotFound) => plain(STATUS_NOT_FOUND, "Task not found"),
    }
}

/// Makes the answer to a request for all tasks.
pub fn respond_to_list(outcome: Result<Vec<Task>, TaskRepositoryError>) -> (response: Response)
    ensures
        response@ == list_response(outcome),
{
    match outcome {
        Ok(list) => Response {
            status: STATUS_OK,
            body: ResponseBody::Listed(TaskListOutput::from(&list)),
        },
        Err(_) => plain(STATUS_INTERNAL_SERVER_ERROR, "Error occurred during listing tasks"),
    }
}

/// Makes the answer to a request to delete a task.
pub fn respond_to_delete(answer: Result<(), ()>) -> (response: Response)
    ensures
        response@ == delete_response(answer),
{
    match answer {
        Ok(_) => Response { status: STATUS_OK, body: ResponseBody::Empty },
        Err(_) => plain(STATUS_INTERNAL_SERVER_ERROR, "Error occurred during deleting task"),
    }
}

/// The controller of the collection of tasks, on a repository.
pub struct TaskController<'a, T: TaskRepository> {
    pub repository: &'a mut T,
}

impl<'a, T: TaskRepository> TaskController<'a, T> {
    /// The controller on the given repository, which it hands back as it
    /// leaves it.
    pub fn new(repository: &'a mut T) -> (controller: Self)
        ensures
            *controller.repository == *old(repository),
            *final(controller.repository) == *final(repository),
    {
        Self { repository }
    }

    /// Answers a request for all tasks.
    pub fn get(&self) -> (response: Response)
        ensures
            get_conforms((*old(self.repository)).tasks(), T::modelled(), response@),
    {
        let outcome = self.repository.list();
        proof {
            if T::modelled() {
                let list = task_views(outcome->Ok_0@);
                assert(lists_all(list, (*self.repository).tasks()));
            }
        }
        respond_to_list(outcome)
    }

    /// Answers a request to register a task.
    pub fn post(&mut self, payload: Option<TaskPostInput>) -> (response: Response)
        ensures
            *final(final(self).repository) == *final(old(self).repository),
            post_conforms(
                (*old(self).repository).tasks(),
                (*final(self).repository).tasks(),
                T::modelled(),
                payload,
                response@,
            ),
    {
        let payload = match payload {
            Some(payload) => payload,
            None => return plain(STATUS_BAD_REQUEST, "Invalid request body"),
        };
        let command = RegisterTaskCommand::new(
            payload.title.as_str(),
            payload.description.as_str(),
            payload.status,
        );
        let mut use_case = RegisterTask::new(&mut *self.repository);
        let answer = use_case.execute(command);
        respond_to_register(answer)
    }

    /// Answers a request to update a task.
    pub fn patch(&mut self, payload: Option<TaskPatchInput>) -> (response: Response)
        ensures
            *final(final(self).repository) == *final(old(self).repository),
            patch_conforms(
                (*old(self).repository).tasks(),
                (*final(self).repository).tasks(),
                T::modelled(),
                payload,
                response@,
            ),
    {
        let payload = match payload {
            Some(payload) => payload,
            None => return plain(STATUS_BAD_REQUEST, "Invalid request body"),
        };
        let command = match UpdateTaskCommand::new(
            payload.id.as_str(),
            borrowed(&payload.title),
            borrowed(&payload.description),
            payload.status,
        ) {
            Ok(command) => command,
            Err(_) => return plain(STATUS_BAD_REQUEST, "Invalid request payload"),
        };
        let mut use_case = UpdateTask::new(&mut *self.repository);
        let answer = use_case.execute(command);
        respond_to_update(answer)
    }

    /// Answers a request to delete a task.
    pub fn delete(&mut self, payload: Option<TaskDeleteInput>) -> (response: Response)
        ensures
            *final(final(self).repository) == *final(old(self).repository),
            delete_conforms(
                (*old(self).repository).tasks(),
                (*final(self).repository).tasks(),
                T::modelled(),
                payload,
                response@,
            ),
    {
        let payload = match payload {
            Some(payload) => payload,
            None => return plain(STATUS_BAD_REQUEST, "Invalid request body"),
        };
        let command = match DeleteTaskCommand::new(payload.id.as_str()) {
            Ok(command) => command,
            Err(_) => return plain(STATUS_BAD_REQUEST, "Invalid request payload"),
        };
        let mut use_case = DeleteTask::new(&mut *self.repository);
        let answer = use_case.execute(command);
        respond_to_delete(answer)
    }
}

} // verus!
