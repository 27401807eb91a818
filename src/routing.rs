//! The route table: an ordered list of guarded routes, of which the first
//! that a request satisfies decides the endpoint that serves it.

use vstd::prelude::*;
use vstd::string::StringExecFns;

verus! {

/// The request methods that the routes tell apart.
#[derive(Clone, Copy, Debug, PartialEq, Eq, Structural)]
pub enum Method {
    Get,
    Post,
    Other,
}

/// What serves a request once a route has matched it.
#[derive(Clone, Copy, Debug, PartialEq, Eq, Structural)]
pub enum Endpoint {
    /// `GET /`: a fixed greeting.
    Hello,
    /// `POST /echo`: the request body, unchanged.
    Echo,
    /// `GET /hey`: a fixed greeting.
    ManualHello,
    /// `GET /users/show`: a fixed listing.
    ShowUsers,
    /// `GET /app/index.html`: counts the request and reports the count.
    Index,
    /// `/` for the host `www.rust-lang.org`.
    WwwHome,
    /// `/` for the host `users.rust-lang.org`.
    UsersHome,
}

/// The parts of a request that routing and the endpoints read.
pub struct Request {
    pub method: Method,
    pub path: String,
    /// The value of the `Host` header, where the request has one.
    pub host: Option<String>,
    pub body: String,
}

/// A route: the method it takes (any, where `None`), the exact path, the
/// exact `Host` header value it is guarded by (none, where `None`), and its
/// endpoint.
pub struct Route {
    pub method: Option<Method>,
    pub path: String,
    pub host: Option<String>,
    pub endpoint: Endpoint,
}

/// A route as a mathematical value.
pub struct RouteModel {
    pub method: Option<Method>,
    pub path: Seq<char>,
    pub host: Option<Seq<char>>,
    pub endpoint: Endpoint,
}

/// The value of an optional `Host` header, as characters.
pub open spec fn host_view(h: Option<String>) -> Option<Seq<char>> {
    match h {
        Some(s) => Some(s@),
        None => None,
    }
}

impl View for Route {
    type V = RouteModel;

    open spec fn view(&self) -> RouteModel {
        RouteModel {
            method: self.method,
            path: self.path@,
            host: host_view(self.host),
            endpoint: self.endpoint,
        }
    }
}

/// The host guard: the request carries a `Host` header equal, character for
/// character, to `expected`.
pub open spec fn host_allows(expected: Seq<char>, host: Option<Seq<char>>) -> bool {
    host == Some(expected)
}

/// Whether the route `r` takes a request with this method, path and host.
pub open spec fn route_matches(
    r: RouteModel,
    method: Method,
    path: Seq<char>,
    host: Option<Seq<char>>,
) -> bool {
    &&& (r.method matches Some(m) ==> m == method)
    &&& r.path == path
    &&& (r.host matches Some(h) ==> host_allows(h, host))
}

/// The endpoint of the first route at or after `i` that takes the request.
pub open spec fn first_match_from(
    routes: Seq<RouteModel>,
    i: int,
    method: Method,
    path: Seq<char>,
    host: Option<Seq<char>>,
) -> Option<Endpoint>
    decreases routes.len() - i,
{
    if i < 0 || i >= routes.len() {
        None
    } else if route_matches(routes[i], method, path, host) {
        Some(routes[i].endpoint)
    } else {
        first_match_from(routes, i + 1, method, path, host)
    }
}

/// The endpoint that a table of routes picks for a request: that of the first
/// route in the table that takes it, or none.
pub open spec fn routed(
    routes: Seq<RouteModel>,
    method: Method,
    path: Seq<char>,
    host: Option<Seq<char>>,
) -> Option<Endpoint> {
    first_match_from(routes, 0, method, path, host)
}

/// The route that takes `method` (any, where `None`) at `path`, guarded by
/// `host` where that is `Some`, and is served by `endpoint`.
pub open spec fn route_model(
    method: Option<Method>,
    path: Seq<char>,
    host: Option<Seq<char>>,
    endpoint: Endpoint,
) -> RouteModel {
    RouteModel { method, path, host, endpoint }
}

/// The service's routes, in the order in which they are tried: the two
/// host-guarded home pages come before the unguarded one.
pub open spec fn service_routes() -> Seq<RouteModel> {
    seq![
        route_model(None, "/"@, Some("www.rust-lang.org"@), Endpoint::WwwHome),
        route_model(None, "/"@, Some("users.rust-lang.org"@), Endpoint::UsersHome),
        route_model(Some(Method::Get), "/"@, None, Endpoint::Hello),
        route_model(Some(Method::Post), "/echo"@, None, Endpoint::Echo),
        route_model(Some(Method::Get), "/hey"@, None, Endpoint::ManualHello),
        route_model(Some(Method::Get), "/users/show"@, None, Endpoint::ShowUsers),
        route_model(Some(Method::Get), "/app/index.html"@, None, Endpoint::Index),
    ]
}

/// Evaluates the host guard on a request's `Host` header.
pub fn host_guard(expected: &String, host: &Option<String>) -> (r: bool)
    ensures
        r == host_allows(expected@, host_view(*host)),
{
    match host {
        Some(h) => *h == *expected,
        None => false,
    }
}

/// Whether `route` takes `req`: its method, its path and its host guard.
fn route_takes(route: &Route, req: &Request) -> (r: bool)
    ensures
        r == route_matches(route@, req.method, req.path@, host_view(req.host)),
{
    let method_ok = match route.method {
        Some(m) => m == req.method,
        None => true,
    };
    let host_ok = match &route.host {
        Some(h) => host_guard(h, &req.host),
        None => true,
    };
    method_ok && route.path == req.path && host_ok
}

/// A route built from literal parts.
fn route(method: Option<Method>, path: &str, host: Option<&str>, endpoint: Endpoint) -> (r: Route)
    ensures
        r@ == route_model(method, path@, match host {
            Some(h) => Some(h@),
            None => None,
        }, endpoint),
{
    let host = match host {
        Some(h) => Some(String::from_str(h)),
        None => None,
    };
    Route { method, path: String::from_str(path), host, endpoint }
}

/// An ordered table of routes.
pub struct Router {
    routes: Vec<Route>,
}

impl View for Router {
    type V = Seq<RouteModel>;

    closed spec fn view(&self) -> Seq<RouteModel> {
        self.routes@.map_values(|r: Route| r@)
    }
}

impl Router {
    /// The service's route table.
    pub fn new() -> (r: Router)
        ensures
            r@ == service_routes(),
    {
        let mut routes: Vec<Route> = Vec::new();
        routes.push(route(None, "/", Some("www.rust-lang.org"), Endpoint::WwwHome));
        routes.push(route(None, "/", Some("users.rust-lang.org"), Endpoint::UsersHome));
        routes.push(route(Some(Method::Get), "/", None, Endpoint::Hello));
        routes.push(route(Some(Method::Post), "/echo", None, Endpoint::Echo));
        routes.push(route(Some(Method::Get), "/hey", None, Endpoint::ManualHello));
        routes.push(route(Some(Method::Get), "/users/show", None, Endpoint::ShowUsers));
        routes.push(route(Some(Method::Get), "/app/index.html", None, Endpoint::Index));
        let r = Router { routes };
        assert(r@ =~= service_routes());
        r
    }

    /// The endpoint of the first route that takes `req`, or `None` where no
    /// route does.
    pub fn dispatch(&self, req: &Request) -> (r: Option<Endpoint>)
        ensures
            r == routed(self@, req.method, req.path@, host_view(req.host)),
    {
        let mut i: usize = 0;
        while i < self.routes.len()
            invariant
                i <= self.routes@.len(),
                self@.len() == self.routes@.len(),
                routed(self@, req.method, req.path@, host_view(req.host)) == first_match_from(
                    self@,
                    i as int,
                    req.method,
                    req.path@,
                    host_view(req.host),
                ),
            decreases self.routes@.len() - i,
        {
            if route_takes(&self.routes[i], req) {
                return Some(self.routes[i].endpoint);
            }
            i = i + 1;
        }
        None
    }
}

proof fn lemma_no_path_from(
    routes: Seq<RouteModel>,
    i: int,
    method: Method,
    path: Seq<char>,
    host: Option<Seq<char>>,
)
    requires
        forall|j: int| 0 <= j < routes.len() ==> routes[j].path != path,
    ensures
        first_match_from(routes, i, method, path, host) == None::<Endpoint>,
    decreases routes.len() - i,
{
    if 0 <= i < routes.len() {
        lemma_no_path_from(routes, i + 1, method, path, host);
    }
}

/// A request for a path that no route of the service names is taken by no
/// route, whatever its method and host: it is not found.
pub proof fn lemma_undefined_path_not_found(
    method: Method,
    path: Seq<char>,
    host: Option<Seq<char>>,
)
    requires
        forall|i: int| 0 <= i < service_routes().len() ==> service_routes()[i].path != path,
    ensures
        routed(service_routes(), method, path, host) == None::<Endpoint>,
{
    lemma_no_path_from(service_routes(), 0, method, path, host);
}

/// Requests for `/` go by their `Host` header: `www.rust-lang.org` and
/// `users.rust-lang.org` each pick their own home page, whatever the method;
/// any other host, or none, falls through to the unguarded `GET /` route, and
/// is not found for another method.
pub proof fn lemma_home_by_host(method: Method, host: Option<Seq<char>>)
    ensures
        host == Some("www.rust-lang.org"@) ==> routed(service_routes(), method, "/"@, host)
            == Some(Endpoint::WwwHome),
        host == Some("users.rust-lang.org"@) ==> routed(service_routes(), method, "/"@, host)
            == Some(Endpoint::UsersHome),
        host != Some("www.rust-lang.org"@) && host != Some("users.rust-lang.org"@) ==> routed(
            service_routes(),
            method,
            "/"@,
            host,
        ) == if method == Method::Get {
            Some(Endpoint::Hello)
        } else {
            None::<Endpoint>
        },
{
    reveal_strlit("/");
    reveal_strlit("/echo");
    reveal_strlit("/hey");
    reveal_strlit("/users/show");
    reveal_strlit("/app/index.html");
    reveal_strlit("www.rust-lang.org");
    reveal_strlit("users.rust-lang.org");
    reveal_with_fuel(first_match_from, 8);
    assert("/"@.len() == 1 && "/echo"@.len() == 5 && "/hey"@.len() == 4);
    assert("/users/show"@.len() == 11 && "/app/index.html"@.len() == 15);
    assert("www.rust-lang.org"@.len() == 17 && "users.rust-lang.org"@.len() == 19);
}

} // verus!
