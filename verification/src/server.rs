//! The server's part that decides: where to listen, which request goes
//! where, and what is answered. Receiving and sending is the program's.

use crate::application_config::ApplicationConfig;
use crate::controllers::task_controller::{
    delete_conforms, get_conforms, patch_conforms, post_conforms, Response, ResponseBody,
    ResponseBodyView, ResponseView, TaskController, TaskDeleteInput, TaskPatchInput,
    TaskPostInput, STATUS_NOT_FOUND,
};
use crate::domain::task::task::TaskView;
use crate::domain::task::task_repository::TaskRepository;
use vstd::prelude::*;

verus! {

/// The method of a request.
#[derive(Debug, PartialEq, Eq, Clone, Copy, Structural)]
pub enum Method {
    Get,
    Head,
    Post,
    Put,
    Delete,
    Connect,
    Options,
    Trace,
    Patch,
    /// Any method that has no name here.
    NonStandard,
}

/// What a request asks for.
#[derive(Debug, PartialEq, Eq, Clone, Copy, Structural)]
pub enum Route {
    ListTasks,
    RegisterTask,
    UpdateTask,
    DeleteTask,
    /// Nothing that the server offers.
    NotFound,
}

/// A request with its body decoded, as far as it has one. `None` stands
/// for a body that could not be decoded.
#[derive(Debug)]
pub enum Request {
    ListTasks,
    RegisterTask(Option<TaskPostInput>),
    UpdateTask(Option<TaskPatchInput>),
    DeleteTask(Option<TaskDeleteInput>),
    NotFound,
}

/// The path of the collection of tasks.
pub open spec fn tasks_path() -> Seq<char> {
    "/api/v1/tasks"@
}

/// What a request asks for, by its path and method: the four methods of
/// the collection of tasks, and nothing else.
pub open spec fn route_of(url: Seq<char>, method: Method) -> Route {
    if url != tasks_path() {
        Route::NotFound
    } else {
        match method {
            Method::Get => Route::ListTasks,
            Method::Post => Route::RegisterTask,
            Method::Patch => Route::UpdateTask,
            Method::Delete => Route::DeleteTask,
            _ => Route::NotFound,
        }
    }
}

/// The address to listen on: `addr:port`.
pub open spec fn listen_address_of(addr: Seq<char>, port: Seq<char>) -> Seq<char> {
    addr + ":"@ + port
}

/// Whether a response, and the tasks stored after it, are what is owed to
/// a request.
pub open spec fn respond_conforms(
    before: Map<u128, TaskView>,
    after: Map<u128, TaskView>,
    modelled: bool,
    request: Request,
    response: ResponseView,
) -> bool {
    match request {
        Request::ListTasks => get_conforms(before, modelled, response) && after == before,
        Request::RegisterTask(payload) => post_conforms(before, after, modelled, payload, response),
        Request::UpdateTask(payload) => patch_conforms(before, after, modelled, payload, response),
        Request::DeleteTask(payload) => delete_conforms(before, after, modelled, payload, response),
        Request::NotFound => {
            &&& response == ResponseView { status: STATUS_NOT_FOUND, body: ResponseBodyView::Empty }
            &&& after == before
        },
    }
}

/// The server, with its settings.
#[derive(Debug)]
pub struct Server {
    config: ApplicationConfig,
}

impl Server {
    /// The settings of the server.
    pub closed spec fn spec_config(&self) -> ApplicationConfig {
        self.config
    }

    pub fn new(config: ApplicationConfig) -> (server: Self)
        ensures
            server.spec_config() == config,
    {
        Self { config }
    }

    pub fn config(&self) -> (config: &ApplicationConfig)
        ensures
            *config == self.spec_config(),
    {
        &self.config
    }

    /// The address to listen on.
    pub fn listen_address(&self) -> (address: String)
        ensures
            address@ == listen_address_of(
                self.spec_config().spec_server_config()@.addr,
                self.spec_config().spec_server_config()@.port,
            ),
    {
        let server = self.config.server_config();
        let mut address = String::from_str(server.addr());
        address.append(":");
        address.append(server.port());
        address
    }

    /// Finds what a request asks for. The path is compared as it is, query
    /// and all.
    pub fn route(url: &str, method: Method) -> (route: Route)
        ensures
            route == route_of(url@, method),
    {
        // Compared as owned strings: of those, equality is known to be
        // equality of the characters.
        if String::from_str(url) != String::from_str("/api/v1/tasks") {
            return Route::NotFound;
        }
        match method {
            Method::Get => Route::ListTasks,
            Method::Post => Route::RegisterTask,
            Method::Patch => Route::UpdateTask,
            Method::Delete => Route::DeleteTask,
            _ => Route::NotFound,
        }
    }

    /// Answers a request on a repository: hands it to the controller, or
    /// answers 404 with nothing in it where the server offers nothing.
    pub fn respond<T: TaskRepository>(repository: &mut T, request: Request) -> (response: Response)
        ensures
            respond_conforms(
                old(repository).tasks(),
                final(repository).tasks(),
                T::modelled(),
                request,
                response@,
            ),
    {
        match request {
            Request::ListTasks => {
                let controller = TaskController::new(repository);
                controller.get()
            },
            Request::RegisterTask(payload) => {
                let mut controller = TaskController::new(repository);
                controller.post(payload)
            },
            Request::UpdateTask(payload) => {
                let mut controller = TaskController::new(repository);
                controller.patch(payload)
            },
            Request::DeleteTask(payload) => {
                let mut controller = TaskController::new(repository);
                controller.delete(payload)
            },
            Request::NotFound => Response { status: STATUS_NOT_FOUND, body: ResponseBody::Empty },
        }
    }
}

} // verus!
