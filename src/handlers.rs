//! The endpoints' responses, and serving a request end to end.

use vstd::prelude::*;
use vstd::string::StringExecFns;

use crate::counter::{next_count, RequestCounter};
use crate::decimal::{decimal, push_decimal};
use crate::routing::{host_view, routed, Endpoint, Request, Router};

verus! {

/// The status of a served request.
pub const STATUS_OK: u16 = 200;

/// The status of a request that no route takes.
pub const STATUS_NOT_FOUND: u16 = 404;

/// The application's identity, fixed when the service starts.
pub struct AppState {
    pub app_name: String,
}

/// A response: its status and its body.
pub struct Response {
    pub status: u16,
    pub body: String,
}

/// The counting endpoint's message for the application `app_name` and the
/// count `n`.
pub open spec fn index_message(app_name: Seq<char>, n: nat) -> Seq<char> {
    "Hi "@ + app_name + "!\n\tRequest number: "@ + decimal(n)
}

/// The body that `endpoint` answers with, given the request body, the
/// application's name and the counter's value after the request.
pub open spec fn endpoint_body(
    endpoint: Endpoint,
    req_body: Seq<char>,
    app_name: Seq<char>,
    count: nat,
) -> Seq<char> {
    match endpoint {
        Endpoint::Hello => "Hello world!"@,
        Endpoint::Echo => req_body,
        Endpoint::ManualHello => "Hey there!"@,
        Endpoint::ShowUsers => "List of users..."@,
        Endpoint::Index => index_message(app_name, count),
        Endpoint::WwwHome => "www"@,
        Endpoint::UsersHome => "user"@,
    }
}

/// The counter's value after `endpoint` served a request, from its value
/// before: only the counting endpoint counts.
pub open spec fn count_after_serving(endpoint: Option<Endpoint>, count: nat) -> nat {
    if endpoint == Some(Endpoint::Index) {
        next_count(count)
    } else {
        count
    }
}

/// `GET /`.
pub fn hello() -> (r: String)
    ensures
        r@ == "Hello world!"@,
{
    String::from_str("Hello world!")
}

/// `POST /echo`: the request body, unchanged.
pub fn echo(req_body: String) -> (r: String)
    ensures
        r@ == req_body@,
{
    req_body
}

/// `GET /hey`.
pub fn manual_hello() -> (r: String)
    ensures
        r@ == "Hey there!"@,
{
    String::from_str("Hey there!")
}

/// `GET /users/show`.
pub fn show_users() -> (r: String)
    ensures
        r@ == "List of users..."@,
{
    String::from_str("List of users...")
}

/// `/` for the host `www.rust-lang.org`.
pub fn www_home() -> (r: String)
    ensures
        r@ == "www"@,
{
    String::from_str("www")
}

/// `/` for the host `users.rust-lang.org`.
pub fn users_home() -> (r: String)
    ensures
        r@ == "user"@,
{
    String::from_str("user")
}

/// Counts the request and greets with the new count.
pub fn index(name: &AppState, counter: &mut RequestCounter) -> (r: String)
    requires
        old(counter)@ < u64::MAX,
    ensures
        final(counter)@ == next_count(old(counter)@),
        r@ == index_message(name.app_name@, final(counter)@),
{
    let n = counter.increment();
    let mut out = String::from_str("Hi ");
    out.append(name.app_name.as_str());
    out.append("!\n\tRequest number: ");
    push_decimal(&mut out, n);
    assert(out@ =~= index_message(name.app_name@, counter@));
    out
}

/// Serves `req`: the first route that takes it picks the endpoint, which
/// answers with status 200; where no route takes it, the answer is status 404
/// with an empty body. Only the counting endpoint touches the counter.
pub fn respond(
    router: &Router,
    state: &AppState,
    counter: &mut RequestCounter,
    req: &Request,
) -> (r: Response)
    requires
        routed(router@, req.method, req.path@, host_view(req.host)) == Some(Endpoint::Index)
            ==> old(counter)@ < u64::MAX,
    ensures
        ({
            let e = routed(router@, req.method, req.path@, host_view(req.host));
            &&& final(counter)@ == count_after_serving(e, old(counter)@)
            &&& match e {
                Some(endpoint) => r.status == STATUS_OK && r.body@ == endpoint_body(
                    endpoint,
                    req.body@,
                    state.app_name@,
                    final(counter)@,
                ),
                None => r.status == STATUS_NOT_FOUND && r.body@ == Seq::<char>::empty(),
            }
        }),
{
    match router.dispatch(req) {
        Some(endpoint) => {
            let body = match endpoint {
                Endpoint::Hello => hello(),
                Endpoint::Echo => echo(req.body.clone()),
                Endpoint::ManualHello => manual_hello(),
                Endpoint::ShowUsers => show_users(),
                Endpoint::Index => index(state, counter),
                Endpoint::WwwHome => www_home(),
                Endpoint::UsersHome => users_home(),
            };
            Response { status: STATUS_OK, body }
        },
        None => Response { status: STATUS_NOT_FOUND, body: String::new() },
    }
}

} // verus!
