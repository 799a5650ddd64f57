//! The closed error taxonomy: the only failure kinds a request pipeline may
//! surface. Low-level causes are logged in full where they occur and then
//! erased to one of these coarse kinds before reaching the response layer.

use vstd::prelude::*;

verus! {

/// A request-scoped failure kind. Carries no payload: the detailed cause is
/// logged at the point of occurrence and never crosses into the response.
#[derive(Copy, Clone, Debug, PartialEq, Eq)]
pub enum Error {
    /// Pool acquisition or query execution failed.
    Database,
    /// The transport to the external endpoint failed.
    HttpExtern,
    /// The external endpoint answered with a body that is not JSON.
    JsonDecode,
}

/// The fixed description text of each error kind.
pub open spec fn description_of(e: Error) -> Seq<char> {
    match e {
        Error::Database => "database error"@,
        Error::HttpExtern => "error communicating with external service"@,
        Error::JsonDecode => "error decoding JSON payload"@,
    }
}

impl Error {
    /// The human-readable description used in logs and client-visible bodies.
    pub fn description(&self) -> (r: &'static str)
        ensures
            r@ == description_of(*self),
    {
        match self {
            Error::Database => "database error",
            Error::HttpExtern => "error communicating with external service",
            Error::JsonDecode => "error decoding JSON payload",
        }
    }

    /// The externally visible HTTP status: none of the kinds is a client
    /// error, so all map to 500.
    pub fn status_code(&self) -> (r: u16)
        ensures
            r == 500,
    {
        500
    }
}

} // verus!
