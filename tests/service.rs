use actix_routes::counter::RequestCounter;
use actix_routes::decimal::push_decimal;
use actix_routes::handlers::{
    echo, hello, index, manual_hello, respond, show_users, users_home, www_home, AppState,
    Response, STATUS_NOT_FOUND, STATUS_OK,
};
use actix_routes::routing::{host_guard, Endpoint, Method, Request, Router};

fn request(method: Method, path: &str, host: Option<&str>, body: &str) -> Request {
    Request {
        method,
        path: path.to_string(),
        host: host.map(|h| h.to_string()),
        body: body.to_string(),
    }
}

fn app_state() -> AppState {
    AppState { app_name: String::from("Actix Web") }
}

fn serve(router: &Router, counter: &mut RequestCounter, req: &Request) -> Response {
    respond(router, &app_state(), counter, req)
}

#[test]
fn counter_ends_at_number_of_requests() {
    let mut counter = RequestCounter::new();
    assert_eq!(counter.value(), 0);
    for _ in 0..250 {
        counter.increment();
    }
    assert_eq!(counter.value(), 250);
}

#[test]
fn counter_reports_each_value_once_in_order() {
    let mut counter = RequestCounter::new();
    let seen: Vec<u64> = (0..100).map(|_| counter.increment()).collect();
    let expected: Vec<u64> = (1..=100).collect();
    assert_eq!(seen, expected);
}

#[test]
fn www_host_gets_www() {
    let router = Router::new();
    let mut counter = RequestCounter::new();
    let r = serve(&router, &mut counter, &request(Method::Get, "/", Some("www.rust-lang.org"), ""));
    assert_eq!(r.status, 200);
    assert_eq!(r.body, "www");
}

#[test]
fn users_host_gets_user() {
    let router = Router::new();
    let mut counter = RequestCounter::new();
    let r =
        serve(&router, &mut counter, &request(Method::Get, "/", Some("users.rust-lang.org"), ""));
    assert_eq!(r.status, 200);
    assert_eq!(r.body, "user");
}

#[test]
fn host_guarded_home_takes_any_method() {
    let router = Router::new();
    let req = request(Method::Post, "/", Some("www.rust-lang.org"), "x");
    assert_eq!(router.dispatch(&req), Some(Endpoint::WwwHome));
    let req = request(Method::Other, "/", Some("users.rust-lang.org"), "");
    assert_eq!(router.dispatch(&req), Some(Endpoint::UsersHome));
}

#[test]
fn other_host_falls_through_to_hello() {
    let router = Router::new();
    let mut counter = RequestCounter::new();
    let r = serve(&router, &mut counter, &request(Method::Get, "/", Some("example.com"), ""));
    assert_eq!(r.status, 200);
    assert_eq!(r.body, "Hello world!");
    let r = serve(&router, &mut counter, &request(Method::Get, "/", None, ""));
    assert_eq!(r.status, 200);
    assert_eq!(r.body, "Hello world!");
}

#[test]
fn other_host_with_other_method_is_not_found() {
    let router = Router::new();
    let mut counter = RequestCounter::new();
    let r = serve(&router, &mut counter, &request(Method::Post, "/", Some("example.com"), ""));
    assert_eq!(r.status, 404);
    assert_eq!(r.body, "");
}

#[test]
fn host_guard_is_exact_and_case_sensitive() {
    let expected = String::from("www.rust-lang.org");
    assert!(host_guard(&expected, &Some(String::from("www.rust-lang.org"))));
    assert!(!host_guard(&expected, &Some(String::from("WWW.rust-lang.org"))));
    assert!(!host_guard(&expected, &Some(String::from("www.rust-lang.org:8080"))));
    assert!(!host_guard(&expected, &Some(String::from("rust-lang.org"))));
    assert!(!host_guard(&expected, &None));
}

#[test]
fn echo_returns_body_unchanged() {
    let router = Router::new();
    let mut counter = RequestCounter::new();
    let r = serve(&router, &mut counter, &request(Method::Post, "/echo", None, "abc"));
    assert_eq!(r.status, 200);
    assert_eq!(r.body, "abc");
    assert_eq!(echo(String::from("abc")), "abc");
}

#[test]
fn echo_takes_only_post() {
    let router = Router::new();
    let mut counter = RequestCounter::new();
    let r = serve(&router, &mut counter, &request(Method::Get, "/echo", None, "abc"));
    assert_eq!(r.status, STATUS_NOT_FOUND);
}

#[test]
fn index_counts_requests_in_sequence() {
    let router = Router::new();
    let mut counter = RequestCounter::new();
    let first = serve(&router, &mut counter, &request(Method::Get, "/app/index.html", None, ""));
    let second = serve(&router, &mut counter, &request(Method::Get, "/app/index.html", None, ""));
    assert_eq!(first.status, 200);
    assert_eq!(first.body, "Hi Actix Web!\n\tRequest number: 1");
    assert!(first.body.ends_with("Request number: 1"));
    assert_eq!(second.body, "Hi Actix Web!\n\tRequest number: 2");
    assert!(second.body.ends_with("Request number: 2"));
    assert_eq!(counter.value(), 2);
}

#[test]
fn index_handler_reports_new_count() {
    let mut counter = RequestCounter::new();
    for _ in 0..41 {
        counter.increment();
    }
    let state = AppState { app_name: String::from("demo") };
    assert_eq!(index(&state, &mut counter), "Hi demo!\n\tRequest number: 42");
    assert_eq!(counter.value(), 42);
}

#[test]
fn other_routes_leave_the_counter_alone() {
    let router = Router::new();
    let mut counter = RequestCounter::new();
    serve(&router, &mut counter, &request(Method::Get, "/hey", None, ""));
    serve(&router, &mut counter, &request(Method::Get, "/missing", None, ""));
    serve(&router, &mut counter, &request(Method::Post, "/app/index.html", None, ""));
    assert_eq!(counter.value(), 0);
}

#[test]
fn undefined_path_is_not_found() {
    let router = Router::new();
    let mut counter = RequestCounter::new();
    let r = serve(&router, &mut counter, &request(Method::Get, "/nowhere", None, ""));
    assert_eq!(r.status, 404);
    assert_eq!(r.body, "");
    let r = serve(&router, &mut counter, &request(Method::Get, "/users", None, ""));
    assert_eq!(r.status, 404);
    assert_eq!(router.dispatch(&request(Method::Get, "/hey/", None, "")), None);
}

#[test]
fn static_routes_answer_fixed_bodies() {
    let router = Router::new();
    let mut counter = RequestCounter::new();
    let r = serve(&router, &mut counter, &request(Method::Get, "/hey", None, ""));
    assert_eq!(r.status, STATUS_OK);
    assert_eq!(r.body, "Hey there!");
    let r = serve(&router, &mut counter, &request(Method::Get, "/users/show", None, ""));
    assert_eq!(r.status, STATUS_OK);
    assert_eq!(r.body, "List of users...");
}

#[test]
fn handlers_give_their_bodies() {
    assert_eq!(hello(), "Hello world!");
    assert_eq!(manual_hello(), "Hey there!");
    assert_eq!(show_users(), "List of users...");
    assert_eq!(www_home(), "www");
    assert_eq!(users_home(), "user");
}

#[test]
fn decimal_text_of_numbers() {
    let cases: [(u64, &str); 6] = [
        (0, "0"),
        (7, "7"),
        (10, "10"),
        (12345, "12345"),
        (1000000, "1000000"),
        (u64::MAX, "18446744073709551615"),
    ];
    for (n, text) in cases {
        let mut out = String::from("n=");
        push_decimal(&mut out, n);
        assert_eq!(out, format!("n={}", text));
    }
}
