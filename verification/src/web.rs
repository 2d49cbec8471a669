//! The static HTTP responder and its route table.
//!
//! The web shell registers one handler: `GET /` answers `200` with the fixed
//! greeting body, whatever headers or query string the request carries. The
//! route table is built once at startup, after the required OAuth secrets
//! were loaded, and is immutable afterwards. Serving itself belongs to the
//! external runtime; this module only decides, for a request, which response
//! the registered handlers give.

use vstd::prelude::*;

use crate::config::ConfigError;
use crate::config::get_required;
use crate::secrets::SecretStore;

verus! {

/// An HTTP request method.
#[derive(Debug, Clone, Copy, PartialEq, Eq, Structural)]
pub enum Method {
    Get,
    Post,
    Put,
    Delete,
}

/// The handlers that can be registered on a route.
#[derive(Debug, Clone, Copy, PartialEq, Eq, Structural)]
pub enum HandlerKind {
    /// The static responder: `200` with the fixed greeting body.
    HelloWorld,
}

/// One registration: an event trigger (method and path) mapped to a handler.
pub struct Route {
    pub method: Method,
    pub path: String,
    pub handler: HandlerKind,
}

/// An inbound HTTP request, as far as dispatch reads it.
pub struct HttpRequest {
    pub method: Method,
    pub path: String,
    pub query: String,
    pub headers: Vec<(String, String)>,
}

/// An HTTP response: a status code and a body.
pub struct HttpResponse {
    pub status: u16,
    pub body: String,
}

/// The fixed greeting body of the static responder.
pub open spec fn hello_body() -> Seq<char> {
    "Hello, world!"@
}

/// The status and body a handler answers with. The static responder branches
/// on nothing: every invocation gives the same response.
pub open spec fn handler_response(handler: HandlerKind) -> (int, Seq<char>) {
    match handler {
        HandlerKind::HelloWorld => (200, hello_body()),
    }
}

/// Whether a route's trigger fires on a request: the method and the path
/// both agree. Headers and query string play no part.
pub open spec fn route_matches(route: Route, req: HttpRequest) -> bool {
    route.method == req.method && route.path@ == req.path@
}

/// The response a route table gives to a request: the answer of the first
/// route whose trigger fires, and `None` when no trigger does.
pub open spec fn response_of(routes: Seq<Route>, req: HttpRequest) -> Option<(int, Seq<char>)>
    decreases routes.len(),
{
    if routes.len() == 0 {
        None
    } else if route_matches(routes[0], req) {
        Some(handler_response(routes[0].handler))
    } else {
        response_of(routes.skip(1), req)
    }
}

/// The static responder: always `200` with the fixed greeting body.
pub fn hello_world() -> (r: HttpResponse)
    ensures
        r.status == 200,
        r.body@ == hello_body(),
{
    HttpResponse { status: 200, body: "Hello, world!".to_owned() }
}

/// An immutable table of routes, built once at startup. Its model is the
/// sequence of registrations, in the order they were made.
pub struct Router {
    routes: Vec<Route>,
}

impl View for Router {
    type V = Seq<Route>;

    closed spec fn view(&self) -> Seq<Route> {
        self.routes@
    }
}

impl Router {
    /// An empty route table.
    pub fn new() -> (r: Router)
        ensures
            r@ == Seq::<Route>::empty(),
    {
        Router { routes: Vec::new() }
    }

    /// Registers a handler under a method and a path, after every earlier
    /// registration.
    pub fn route(self, method: Method, path: &str, handler: HandlerKind) -> (r: Router)
        ensures
            r@.len() == self@.len() + 1,
            forall|j: int| 0 <= j < self@.len() ==> r@[j] == self@[j],
            r@.last().method == method,
            r@.last().path@ == path@,
            r@.last().handler == handler,
    {
        let mut routes = self.routes;
        routes.push(Route { method, path: path.to_owned(), handler });
        Router { routes }
    }

    /// How many routes are registered.
    pub fn len(&self) -> (n: usize)
        ensures
            n == self@.len(),
    {
        self.routes.len()
    }

    /// Dispatches a request: invokes the handler of the first route whose
    /// trigger fires and returns its response, or `None` when no route
    /// fires.
    pub fn handle(&self, req: &HttpRequest) -> (r: Option<HttpResponse>)
        ensures
            match r {
                Some(resp) => response_of(self@, *req) == Some(
                    (resp.status as int, resp.body@),
                ),
                None => response_of(self@, *req) is None,
            },
    {
        let mut i: usize = 0;
        proof {
            assert(self.routes@.skip(0) =~= self.routes@);
        }
        while i < self.routes.len()
            invariant
                i <= self.routes@.len(),
                response_of(self.routes@, *req) == response_of(
                    self.routes@.skip(i as int),
                    *req,
                ),
            decreases self.routes@.len() - i,
        {
            proof {
                assert(self.routes@.skip(i as int).len() == self.routes@.len() - i);
                assert(self.routes@.skip(i as int)[0] == self.routes@[i as int]);
            }
            let fires = self.routes[i].method == req.method && self.routes[i].path
                == req.path;
            if fires {
                let resp = match self.routes[i].handler {
                    HandlerKind::HelloWorld => hello_world(),
                };
                return Some(resp);
            }
            proof {
                assert(self.routes@.skip(i as int).skip(1) =~= self.routes@.skip(i + 1));
            }
            i = i + 1;
        }
        None
    }
}

/// Configuration of the web shell: the OAuth credentials it requires.
pub struct OauthConfig {
    pub client_id: String,
    pub client_secret: String,
}

/// The startup result of the web shell: the loaded configuration and the
/// route table handed to the external runtime.
pub struct WebApp {
    pub config: OauthConfig,
    pub router: Router,
}

/// Startup of the web shell.
///
/// Loads the two required OAuth secrets, failing fast on the first absent
/// one, and only then builds the route table: exactly one registration,
/// `GET /` mapped to the static responder.
pub fn web_startup(store: &SecretStore) -> (r: Result<WebApp, ConfigError>)
    ensures
        (store@.contains_key("OAUTH_CLIENT_ID"@) && store@.contains_key("OAUTH_CLIENT_SECRET"@))
            <==> r is Ok,
        r matches Ok(app) ==> app.config.client_id@ == store@["OAUTH_CLIENT_ID"@]
            && app.config.client_secret@ == store@["OAUTH_CLIENT_SECRET"@]
            && app.router@.len() == 1 && app.router@[0].method == Method::Get
            && app.router@[0].path@ == "/"@ && app.router@[0].handler == HandlerKind::HelloWorld,
        r matches Err(e) ==> !store@.contains_key(e.spec_key()) && (e.spec_key()
            == "OAUTH_CLIENT_ID"@ || (store@.contains_key("OAUTH_CLIENT_ID"@) && e.spec_key()
            == "OAUTH_CLIENT_SECRET"@)),
{
    let client_id = match get_required(store, "OAUTH_CLIENT_ID") {
        Ok(value) => value,
        Err(e) => {
            return Err(e);
        },
    };
    let client_secret = match get_required(store, "OAUTH_CLIENT_SECRET") {
        Ok(value) => value,
        Err(e) => {
            return Err(e);
        },
    };
    let router = Router::new().route(Method::Get, "/", HandlerKind::HelloWorld);
    Ok(WebApp { config: OauthConfig { client_id, client_secret }, router })
}

/// `GET /` always answers `200` with the fixed greeting body.
///
/// On the route table the web shell builds - the single registration of the
/// static responder under `GET /` - every request for the root path with
/// method `GET` is answered with status `200` and exactly the greeting body,
/// whatever its headers or query string hold.
pub proof fn lemma_root_get_always_hello(routes: Seq<Route>, req: HttpRequest)
    requires
        routes.len() == 1,
        routes[0].method == Method::Get,
        routes[0].path@ == "/"@,
        routes[0].handler == HandlerKind::HelloWorld,
        req.method == Method::Get,
        req.path@ == "/"@,
    ensures
        response_of(routes, req) == Some((200int, hello_body())),
{
    assert(route_matches(routes[0], req));
}

} // verus!
