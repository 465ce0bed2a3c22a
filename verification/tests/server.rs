use api_server::application_config::{ApplicationConfig, DbConfig, ServerConfig};
use api_server::controllers::task_controller::{ResponseBody, TaskPatchInput, TaskPostInput};
use api_server::domain::task::task_repository::TaskRepository;
use api_server::repositories::task::task_in_memory_repository::TaskInMemoryRepository;
use api_server::server::{Method, Request, Route, Server};

#[test]
fn routes_the_four_methods_of_the_collection() {
    assert_eq!(Server::route("/api/v1/tasks", Method::Get), Route::ListTasks);
    assert_eq!(Server::route("/api/v1/tasks", Method::Post), Route::RegisterTask);
    assert_eq!(Server::route("/api/v1/tasks", Method::Patch), Route::UpdateTask);
    assert_eq!(Server::route("/api/v1/tasks", Method::Delete), Route::DeleteTask);
}

#[test]
fn routes_nothing_else() {
    for method in [
        Method::Head,
        Method::Put,
        Method::Connect,
        Method::Options,
        Method::Trace,
        Method::NonStandard,
    ] {
        assert_eq!(Server::route("/api/v1/tasks", method), Route::NotFound);
    }
    for url in ["", "/", "/api/v1/task", "/api/v1/tasks/", "/api/v1/tasks?x=1", "/API/V1/TASKS", "api/v1/tasks"] {
        assert_eq!(Server::route(url, Method::Get), Route::NotFound, "{}", url);
        assert_eq!(Server::route(url, Method::Post), Route::NotFound, "{}", url);
    }
}

#[test]
fn listens_on_address_and_port() {
    let config = ApplicationConfig::new(
        ServerConfig::new("http", "127.0.0.1", "8080"),
        DbConfig::new("db", "3306", "user", "secret"),
    );
    let server = Server::new(config);
    assert_eq!(server.listen_address(), "127.0.0.1:8080");
    assert_eq!(server.config().server_config().scheme(), "http");
}

#[test]
fn responds_404_to_what_it_does_not_offer() {
    let mut repository = TaskInMemoryRepository::new();
    let response = Server::respond(&mut repository, Request::NotFound);
    assert_eq!(response.status, 404);
    assert!(matches!(response.body, ResponseBody::Empty));
}

#[test]
fn responds_to_each_request_through_the_controller() {
    let mut repository = TaskInMemoryRepository::new();
    let response = Server::respond(
        &mut repository,
        Request::RegisterTask(Some(TaskPostInput {
            title: String::from("Task Title"),
            description: String::from("Task Description"),
            status: 1,
        })),
    );
    assert_eq!(response.status, 200);
    let id = match response.body {
        ResponseBody::Posted(output) => output.data.id,
        other => panic!("no task: {:?}", other),
    };

    let response = Server::respond(
        &mut repository,
        Request::UpdateTask(Some(TaskPatchInput {
            id: id.clone(),
            title: None,
            description: None,
            status: Some(2),
        })),
    );
    assert_eq!(response.status, 200);
    assert!(matches!(response.body, ResponseBody::Patched(output) if output.data.status == 2 && output.data.title == "Task Title"));

    let response = Server::respond(&mut repository, Request::ListTasks);
    assert_eq!(response.status, 200);
    assert!(matches!(response.body, ResponseBody::Listed(output) if output.data.len() == 1 && output.data[0].id == id));

    let response = Server::respond(
        &mut repository,
        Request::DeleteTask(Some(api_server::controllers::task_controller::TaskDeleteInput { id })),
    );
    assert_eq!(response.status, 200);
    assert_eq!(repository.list().unwrap().len(), 0);

    let response = Server::respond(&mut repository, Request::RegisterTask(None));
    assert_eq!(response.status, 400);
}
