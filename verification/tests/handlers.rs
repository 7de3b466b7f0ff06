//! The handlers step by step, with the answers of pool and store written
//! out by hand.

use user_service::error::AppError;
use user_service::handler::Action;
use user_service::handler::Event;
use user_service::handler::Handler;
use user_service::handler::Operation;
use user_service::response::Body;
use user_service::response::ErrorResponse;
use user_service::response::Response;
use user_service::route::acknowledge;
use user_service::route::greet;
use user_service::route::ping;
use user_service::settings::API_PREFIX;
use user_service::settings::HOST;
use user_service::settings::PORT;
use user_service::settings::SQLITE_MAX_CONNECTIONS;
use user_service::settings::VALKEY_POOL_SIZE;
use user_service::settings::WORKERS;
use user_service::statement::Statement;
use user_service::user::create_user;
use user_service::user::delete_user;
use user_service::user::get_user;
use user_service::user::update_user;
use user_service::user::User;

fn js() -> User {
    User::new("js".into(), "javascript".into(), "javascript@example.com".into())
}

fn ts() -> User {
    User::new("ts".into(), "typescript".into(), "typescript@example.com".into())
}

fn strings(items: &[&str]) -> Vec<String> {
    items.iter().map(|item| item.to_string()).collect()
}

fn response_of(handler: &Handler) -> Response {
    match handler.action() {
        Action::Respond(response) => {
            assert!(handler.is_done());
            assert_eq!(handler.response(), Some(&response));
            response
        }
        other => panic!("not done: {:?}", other),
    }
}

#[test]
fn ping_works() {
    assert_eq!(ping(), "pong");
}

#[test]
fn stub_resources_acknowledge() {
    assert_eq!(acknowledge(), Response { status: 200, body: Body::Empty });
}

#[test]
fn settings_are_the_reference_configuration() {
    assert_eq!(SQLITE_MAX_CONNECTIONS, 2);
    assert_eq!(VALKEY_POOL_SIZE, 1);
    assert_eq!(WORKERS, 1);
    assert_eq!(HOST, "127.0.0.1");
    assert_eq!(PORT, 8080);
    assert_eq!(API_PREFIX, "/v1");
}

#[test]
fn connection_error_is_503() {
    let error = AppError::ConnectionError("pool timed out".into());
    assert_eq!(error.status_code(), 503);
    assert_eq!(error.message(), "pool timed out");
    assert_eq!(error.to_text(), "pool timed out");
    assert_eq!(
        error.error_response(),
        Response {
            status: 503,
            body: Body::Error(ErrorResponse { code: 503, message: "pool timed out".into() }),
        }
    );
}

#[test]
fn query_error_is_500() {
    let error = AppError::QueryError("UNIQUE constraint failed".into());
    assert_eq!(error.status_code(), 500);
    assert_eq!(error.message(), "UNIQUE constraint failed");
    assert_eq!(error.to_text(), "UNIQUE constraint failed");
    assert_eq!(
        error.error_response(),
        Response {
            status: 500,
            body: Body::Error(
                ErrorResponse { code: 500, message: "UNIQUE constraint failed".into() },
            ),
        }
    );
}

#[test]
fn error_with_an_empty_message() {
    assert_eq!(AppError::QueryError(String::new()).to_text(), "");
    assert_eq!(
        AppError::ConnectionError(String::new()).error_response(),
        Response::error(503, String::new())
    );
}

#[test]
fn response_builders() {
    assert_eq!(Response::empty(204), Response { status: 204, body: Body::Empty });
    assert_eq!(
        Response::text(200, "hi".into()),
        Response { status: 200, body: Body::Text("hi".into()) }
    );
    assert_eq!(Response::user(js()), Response { status: 200, body: Body::User(js()) });
    assert_eq!(
        Response::error(500, "no".into()),
        Response {
            status: 500,
            body: Body::Error(ErrorResponse { code: 500, message: "no".into() }),
        }
    );
    let response = Response::user(ts());
    assert_eq!(response.duplicate(), response);
    let report = Response::error(503, "later".into());
    assert_eq!(report.duplicate(), report);
    let text = Response::text(500, "query failed".into());
    assert_eq!(text.duplicate(), text);
    assert_eq!(Response::empty(201).duplicate(), Response::empty(201));
}

#[test]
fn users_compare_by_all_three_attributes() {
    assert!(js() == js());
    assert!(js() != ts());
    assert!(js() != User::new("JS".into(), "javascript".into(), "javascript@example.com".into()));
    assert!(js() != User::new("js".into(), "javascript2".into(), "javascript@example.com".into()));
    assert!(js() != User::new("js".into(), "javascript".into(), "js@example.com".into()));
    assert!(js().duplicate() == js());
    assert_eq!(js().name, "js");
    assert_eq!(js().username, "javascript");
    assert_eq!(js().email, "javascript@example.com");
}

#[test]
fn statements_have_their_text_and_parameters() {
    let insert = Statement::insert_user(&js());
    assert_eq!(insert.sql(), "INSERT INTO users(name, username, email) VALUES(?1, ?2, ?3)");
    assert_eq!(insert.params(), strings(&["js", "javascript", "javascript@example.com"]));
    assert!(!insert.fetches_row());
    assert_eq!(insert.columns(), 0);

    let select = Statement::select_user(&"javascript".to_string());
    assert_eq!(select.sql(), "SELECT name, username, email FROM users WHERE username = ?1");
    assert_eq!(select.params(), strings(&["javascript"]));
    assert!(select.fetches_row());
    assert_eq!(select.columns(), 3);

    let delete = Statement::delete_user(&"foobar".to_string());
    assert_eq!(delete.sql(), "DELETE FROM users WHERE username = ?1");
    assert_eq!(delete.params(), strings(&["foobar"]));
    assert!(!delete.fetches_row());
    assert_eq!(delete.columns(), 0);

    let update = Statement::update_user(&ts());
    assert_eq!(update.sql(), "UPDATE users SET name = ?1, email = ?2 WHERE username = ?3");
    assert_eq!(update.params(), strings(&["ts", "typescript@example.com", "typescript"]));
    assert!(!update.fetches_row());
    assert_eq!(update.columns(), 0);

    let echo = Statement::select_name(&"rakshasa".to_string());
    assert_eq!(echo.sql(), "SELECT ?1 as name");
    assert_eq!(echo.params(), strings(&["rakshasa"]));
    assert!(echo.fetches_row());
    assert_eq!(echo.columns(), 1);
}

#[test]
fn create_borrows_then_inserts_then_answers_201() {
    let handler = create_user(js());
    assert_eq!(handler.operation(), &Operation::CreateUser(js()));
    assert!(!handler.is_done());
    assert!(!handler.holds_connection());
    assert_eq!(handler.response(), None);
    assert_eq!(handler.action(), Action::Acquire);

    let handler = handler.step(Event::Acquired);
    assert!(handler.holds_connection());
    assert!(!handler.is_done());
    assert_eq!(
        handler.action(),
        Action::Run(Statement::insert_user(&js()))
    );

    let handler = handler.step(Event::Executed(1));
    assert!(!handler.holds_connection());
    assert_eq!(response_of(&handler), Response { status: 201, body: Body::Empty });
}

#[test]
fn create_without_a_connection_answers_503() {
    let handler = create_user(js()).step(Event::AcquireFailed("pool timed out".into()));
    assert_eq!(
        response_of(&handler),
        Response {
            status: 503,
            body: Body::Error(ErrorResponse { code: 503, message: "pool timed out".into() }),
        }
    );
}

#[test]
fn create_of_a_taken_username_answers_500() {
    let handler = create_user(js())
        .step(Event::Acquired)
        .step(Event::Failed("UNIQUE constraint failed: users.username".into()));
    assert_eq!(
        response_of(&handler),
        Response {
            status: 500,
            body: Body::Error(
                ErrorResponse {
                    code: 500,
                    message: "UNIQUE constraint failed: users.username".into(),
                },
            ),
        }
    );
}

#[test]
fn get_borrows_then_looks_up_then_answers_200_with_the_user() {
    let handler = get_user("javascript".into());
    assert!(!handler.holds_connection());
    assert_eq!(handler.action(), Action::Acquire);
    let handler = handler.step(Event::Acquired);
    assert!(handler.holds_connection());
    assert_eq!(
        handler.action(),
        Action::Run(Statement::select_user(&"javascript".to_string()))
    );
    let handler =
        handler.step(Event::Fetched(strings(&["js", "javascript", "javascript@example.com"])));
    assert!(!handler.holds_connection());
    assert_eq!(response_of(&handler), Response { status: 200, body: Body::User(js()) });
}

#[test]
fn get_reports_the_columns_in_the_order_of_the_statement() {
    let handler = get_user("k".into())
        .step(Event::Acquired)
        .step(Event::Fetched(strings(&["a", "b", "c"])));
    assert_eq!(
        response_of(&handler),
        Response::user(User::new("a".into(), "b".into(), "c".into()))
    );
}

#[test]
fn get_of_a_missing_user_answers_500() {
    let handler = get_user("nonexistent".into())
        .step(Event::Acquired)
        .step(Event::Failed("no rows returned".into()));
    assert_eq!(
        response_of(&handler),
        Response {
            status: 500,
            body: Body::Error(ErrorResponse { code: 500, message: "no rows returned".into() }),
        }
    );
}

#[test]
fn get_without_a_connection_answers_503() {
    let handler = get_user("javascript".into());
    assert!(handler.awaits(&Event::AcquireFailed("pool timed out".into())));
    assert!(handler.awaits(&Event::Acquired));
    assert!(!handler.awaits(&Event::Failed("pool timed out".into())));
    let handler = handler.step(Event::AcquireFailed("pool timed out".into()));
    assert_eq!(
        response_of(&handler),
        Response {
            status: 503,
            body: Body::Error(ErrorResponse { code: 503, message: "pool timed out".into() }),
        }
    );
}

#[test]
fn every_request_about_a_user_answers_503_without_a_connection() {
    for handler in [
        create_user(js()),
        get_user("javascript".into()),
        delete_user("javascript".into()),
        update_user(ts()),
    ] {
        assert_eq!(handler.action(), Action::Acquire);
        let handler = handler.step(Event::AcquireFailed("closed".into()));
        assert_eq!(response_of(&handler), Response::error(503, "closed".into()));
        assert_eq!(
            response_of(&handler),
            AppError::ConnectionError("closed".into()).error_response()
        );
    }
}

#[test]
fn delete_answers_204_whether_or_not_a_row_matched() {
    for rows in [0, 1, 7, u64::MAX] {
        let handler = delete_user("foobar".into());
        assert_eq!(handler.action(), Action::Acquire);
        let handler = handler.step(Event::Acquired);
        assert_eq!(
            handler.action(),
            Action::Run(Statement::delete_user(&"foobar".to_string()))
        );
        let handler = handler.step(Event::Executed(rows));
        assert_eq!(response_of(&handler), Response { status: 204, body: Body::Empty });
    }
}

#[test]
fn delete_failures() {
    let unavailable = delete_user("foobar".into()).step(Event::AcquireFailed("closed".into()));
    assert_eq!(response_of(&unavailable), Response::error(503, "closed".into()));
    let failed = delete_user("foobar".into())
        .step(Event::Acquired)
        .step(Event::Failed("no such table: users".into()));
    assert_eq!(response_of(&failed), Response::error(500, "no such table: users".into()));
}

#[test]
fn update_answers_200_whether_or_not_a_row_matched() {
    for rows in [0, 1] {
        let handler = update_user(ts());
        assert_eq!(handler.action(), Action::Acquire);
        let handler = handler.step(Event::Acquired);
        assert_eq!(
            handler.action(),
            Action::Run(Statement::update_user(&ts()))
        );
        let handler = handler.step(Event::Executed(rows));
        assert_eq!(response_of(&handler), Response { status: 200, body: Body::Empty });
    }
}

#[test]
fn update_failures() {
    let unavailable = update_user(ts()).step(Event::AcquireFailed("closed".into()));
    assert_eq!(response_of(&unavailable), Response::error(503, "closed".into()));
    let failed = update_user(ts()).step(Event::Acquired).step(Event::Failed("locked".into()));
    assert_eq!(response_of(&failed), Response::error(500, "locked".into()));
}

#[test]
fn greet_says_hello_to_what_the_store_hands_back() {
    let handler = greet("rakshasa".into());
    assert_eq!(handler.action(), Action::Acquire);
    let handler = handler.step(Event::Acquired);
    assert!(handler.holds_connection());
    assert_eq!(
        handler.action(),
        Action::Run(Statement::select_name(&"rakshasa".to_string()))
    );
    let handler = handler.step(Event::Fetched(strings(&["rakshasa"])));
    assert_eq!(
        response_of(&handler),
        Response { status: 200, body: Body::Text("hello rakshasa".into()) }
    );
}

#[test]
fn greet_with_an_empty_name() {
    let handler = greet(String::new()).step(Event::Acquired).step(Event::Fetched(strings(&[""])));
    assert_eq!(response_of(&handler), Response::text(200, "hello ".into()));
}

#[test]
fn greet_failures_are_plain_text_under_500() {
    let unavailable = greet("rakshasa".into()).step(Event::AcquireFailed("closed".into()));
    assert_eq!(
        response_of(&unavailable),
        Response {
            status: 500,
            body: Body::Text("failed to acquire connection from pool".into()),
        }
    );
    let failed = greet("rakshasa".into()).step(Event::Acquired).step(Event::Failed("x".into()));
    assert_eq!(
        response_of(&failed),
        Response { status: 500, body: Body::Text("query failed".into()) }
    );
}

#[test]
fn events_that_answer_nothing_change_nothing() {
    let handler = create_user(js());
    assert!(!handler.awaits(&Event::Executed(1)));
    assert!(!handler.awaits(&Event::Failed("x".into())));
    assert!(!handler.awaits(&Event::Fetched(strings(&["a"]))));
    assert!(handler.awaits(&Event::Acquired));
    assert!(handler.awaits(&Event::AcquireFailed("x".into())));
    let handler = handler.step(Event::Executed(1)).step(Event::Failed("x".into()));
    assert_eq!(handler, create_user(js()));

    let handler = handler.step(Event::Acquired);
    assert!(!handler.awaits(&Event::Acquired));
    assert!(!handler.awaits(&Event::AcquireFailed("x".into())));
    assert!(!handler.awaits(&Event::Fetched(strings(&["a", "b", "c"]))));
    assert!(handler.awaits(&Event::Executed(0)));
    assert!(handler.awaits(&Event::Failed("x".into())));
    let unchanged = handler.step(Event::Fetched(strings(&["a", "b", "c"])));
    assert_eq!(unchanged, create_user(js()).step(Event::Acquired));
}

#[test]
fn a_row_of_the_wrong_width_answers_nothing() {
    let handler = get_user("javascript".into()).step(Event::Acquired);
    assert!(!handler.awaits(&Event::Fetched(strings(&["js", "javascript"]))));
    assert!(!handler.awaits(&Event::Fetched(strings(&[]))));
    assert!(!handler.awaits(&Event::Fetched(strings(&["a", "b", "c", "d"]))));
    assert!(!handler.awaits(&Event::Executed(1)));
    assert!(handler.awaits(&Event::Fetched(strings(&["a", "b", "c"]))));
    let handler = handler.step(Event::Fetched(strings(&["js", "javascript"])));
    assert_eq!(handler, get_user("javascript".into()).step(Event::Acquired));

    let greeting = greet("x".into()).step(Event::Acquired);
    assert!(!greeting.awaits(&Event::Fetched(strings(&["a", "b", "c"]))));
    assert!(greeting.awaits(&Event::Fetched(strings(&["a"]))));
}

#[test]
fn a_decided_handler_stays_decided() {
    let handler = delete_user("foobar".into()).step(Event::Acquired).step(Event::Executed(0));
    for event in [
        Event::Acquired,
        Event::AcquireFailed("x".into()),
        Event::Executed(3),
        Event::Fetched(strings(&["a", "b", "c"])),
        Event::Failed("x".into()),
    ] {
        assert!(!handler.awaits(&event));
    }
    let handler = handler.step(Event::Failed("late".into())).step(Event::AcquireFailed("late".into()));
    assert_eq!(response_of(&handler), Response::empty(204));
}

#[test]
fn new_starts_every_operation_where_its_named_handler_does() {
    assert_eq!(Handler::new(Operation::CreateUser(js())), create_user(js()));
    assert_eq!(Handler::new(Operation::GetUser("a".into())), get_user("a".into()));
    assert_eq!(Handler::new(Operation::DeleteUser("a".into())), delete_user("a".into()));
    assert_eq!(Handler::new(Operation::UpdateUser(ts())), update_user(ts()));
    assert_eq!(Handler::new(Operation::Greet("a".into())), greet("a".into()));
}
