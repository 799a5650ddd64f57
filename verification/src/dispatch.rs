//! The dispatcher: exact-path matching restricted to GET, uniform formatting
//! of handler outcomes, the fixed server-identity header, and the one
//! access-log entry recorded per request. Routing mismatches are a distinct
//! outcome, decided before any handler or provider runs, and are not part of
//! the error taxonomy.

use vstd::prelude::*;
use vstd::string::StringExecFns;
use crate::errors::{Error, description_of};
use crate::handlers::extern_url_text;
use crate::jsonbody::health_text;
use crate::strutil::str_eq;

verus! {

/// What the dispatcher reads of an incoming request.
pub struct Request {
    pub method: String,
    pub path: String,
}

/// A complete reply: status, the fixed server-identity header value, and the
/// body text.
pub struct Response {
    pub status: u16,
    pub server: String,
    pub body: String,
}

/// The fixed server-identity header value attached to every response.
pub open spec fn server_ident() -> Seq<char> {
    "triroute/0.1.0"@
}

/// The name of the header that carries the server identity.
pub fn server_header_name() -> (r: &'static str)
    ensures
        r@ == "server"@,
{
    "server"
}

/// The server-identity header value.
pub fn server_name() -> (r: String)
    ensures
        r@ == server_ident(),
{
    String::from_str("triroute/0.1.0")
}

/// The request is a GET.
pub open spec fn is_get(m: Seq<char>) -> bool {
    m == "GET"@
}

/// The request addresses the health probe.
pub open spec fn route_health(m: Seq<char>, p: Seq<char>) -> bool {
    is_get(m) && p == "/health"@
}

/// The request addresses the database-version lookup.
pub open spec fn route_mysql(m: Seq<char>, p: Seq<char>) -> bool {
    is_get(m) && p == "/mysql_ver"@
}

/// The request addresses the external passthrough.
pub open spec fn route_extern(m: Seq<char>, p: Seq<char>) -> bool {
    is_get(m) && p == "/extern"@
}

/// A GET whose path matches no route.
pub open spec fn route_unknown(m: Seq<char>, p: Seq<char>) -> bool {
    is_get(m) && !route_health(m, p) && !route_mysql(m, p) && !route_extern(m, p)
}

/// What the embedding runtime must do next for a request: reply at once, or
/// perform one collaborator call and feed the outcome back to the matching
/// handler.
pub enum Directive {
    /// Reply immediately: the health probe and both routing mismatches need
    /// no resource at all.
    Respond(Response),
    /// Lease a connection from the pool and run the fixed version query.
    QueryDbVersion,
    /// Fetch the external endpoint at this URL with the shared client and
    /// accumulate the body.
    FetchExtern(String),
}

/// Match a request to exactly one outcome: the three routes answer GET only;
/// any other method is a method-not-allowed reply and an unknown path a
/// not-found reply, both decided before any provider runs.
pub fn plan(req: &Request) -> (d: Directive)
    ensures
        route_health(req.method@, req.path@) ==> (d matches Directive::Respond(r) && r.status
            == 200 && r.body@ == health_text() && r.server@ == server_ident()),
        route_mysql(req.method@, req.path@) ==> d is QueryDbVersion,
        route_extern(req.method@, req.path@) ==> (d matches Directive::FetchExtern(u) && u@
            == extern_url_text()),
        route_unknown(req.method@, req.path@) ==> (d matches Directive::Respond(r) && r.status
            == 404 && r.body@ == "not found"@ && r.server@ == server_ident()),
        !is_get(req.method@) ==> (d matches Directive::Respond(r) && r.status == 405 && r.body@
            == "method not allowed"@ && r.server@ == server_ident()),
{
    proof {
        // The three path literals stay opaque until revealed; the length and
        // character facts below are what tells them apart.
        reveal_strlit("/health");
        reveal_strlit("/mysql_ver");
        reveal_strlit("/extern");
        assert("/health"@.len() == 7);
        assert("/extern"@.len() == 7);
        assert("/mysql_ver"@.len() == 10);
        assert("/health"@[1] == 'h');
        assert("/extern"@[1] == 'e');
    }
    if !str_eq(req.method.as_str(), "GET") {
        Directive::Respond(
            Response {
                status: 405,
                server: server_name(),
                body: String::from_str("method not allowed"),
            },
        )
    } else if str_eq(req.path.as_str(), "/health") {
        Directive::Respond(
            Response { status: 200, server: server_name(), body: crate::handlers::health() },
        )
    } else if str_eq(req.path.as_str(), "/mysql_ver") {
        Directive::QueryDbVersion
    } else if str_eq(req.path.as_str(), "/extern") {
        Directive::FetchExtern(String::from_str(crate::handlers::extern_url()))
    } else {
        Directive::Respond(
            Response { status: 404, server: server_name(), body: String::from_str("not found") },
        )
    }
}

/// Uniform formatting of a handler outcome: a success body goes out with
/// status 200, a classified error with its status and its fixed description,
/// never the internal detail. The server-identity header is attached either
/// way.
pub fn finish(outcome: Result<String, Error>) -> (r: Response)
    ensures
        outcome matches Ok(b) ==> r.status == 200 && r.body@ == b@,
        outcome matches Err(e) ==> r.status == 500 && r.body@ == description_of(e),
        r.server@ == server_ident(),
{
    match outcome {
        Ok(b) => Response { status: 200, server: server_name(), body: b },
        Err(e) => Response {
            status: e.status_code(),
            server: server_name(),
            body: String::from_str(e.description()),
        },
    }
}

/// One entry of the access log: method, path, and the resulting status.
pub struct AccessEntry {
    pub method: String,
    pub path: String,
    pub status: u16,
}

/// The single access-log entry recorded for a request, success or failure.
pub fn access_entry(req: &Request, status: u16) -> (r: AccessEntry)
    ensures
        r.method@ == req.method@,
        r.path@ == req.path@,
        r.status == status,
{
    AccessEntry { method: req.method.clone(), path: req.path.clone(), status }
}

} // verus!
