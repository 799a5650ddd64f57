//! The three route handlers, written over the outcomes of the asynchronous
//! collaborator calls: the embedding runtime performs the query or the fetch
//! and hands the result in as a plain value, and the handler's decisions are
//! verified for every such value.

use vstd::prelude::*;
use crate::errors::Error;
use crate::fault::{DbFault, TransportFault, db_fault_message, transport_log_text};
use crate::jsonbody::{health_body, health_text, version_body, version_text};
use crate::transcode::{json_decode_detail, json_reencoded, json_wf, transcode};

verus! {

/// A classified handler failure: the coarse kind surfaced to the response
/// layer, and the detailed log line recorded at the point of occurrence.
pub struct Failure {
    pub kind: Error,
    pub log: String,
}

/// The version reported for a query result: the first row when one exists,
/// the empty string otherwise — never an absent value.
pub open spec fn version_of(rows: Seq<String>) -> Seq<char> {
    if rows.len() > 0 {
        rows[0]@
    } else {
        Seq::empty()
    }
}

/// The first row of the version query, or the empty string when no row came
/// back.
pub fn version_from_rows(rows: &Vec<String>) -> (r: String)
    ensures
        r@ == version_of(rows@),
{
    if rows.len() > 0 {
        rows[0].clone()
    } else {
        String::new()
    }
}

/// The health handler: no injected resource, no failure path, always the
/// same fixed body.
pub fn health() -> (r: String)
    ensures
        r@ == health_text(),
{
    health_body()
}

/// The fixed scalar query the database-version handler issues on its leased
/// connection.
pub fn version_query() -> (r: &'static str)
    ensures
        r@ == "SELECT version()"@,
{
    "SELECT version()"
}

/// The one hardcoded external endpoint the passthrough handler fetches.
pub open spec fn extern_url_text() -> Seq<char> {
    "https://jsonplaceholder.typicode.com/todos/1"@
}

/// The external endpoint's URL.
pub fn extern_url() -> (r: &'static str)
    ensures
        r@ == extern_url_text(),
{
    "https://jsonplaceholder.typicode.com/todos/1"
}

/// The database-version handler, applied to the outcome of the version
/// query: a row set becomes the one-field version body, and any query
/// failure is logged and erased to the `Database` kind.
pub fn mysql_version(q: Result<Vec<String>, DbFault>) -> (r: Result<String, Failure>)
    ensures
        q matches Ok(rows) ==> (r matches Ok(b) && b@ == version_text(version_of(rows@))),
        q matches Err(f) ==> (r matches Err(fl) && fl.kind == Error::Database && fl.log@
            == "database error: "@ + db_fault_message(f)),
{
    match q {
        Ok(rows) => {
            let v = version_from_rows(&rows);
            Ok(version_body(v.as_str()))
        },
        Err(f) => {
            let log = crate::strutil::concat_str("database error: ", f.message().as_str());
            Err(Failure { kind: Error::Database, log })
        },
    }
}

/// The acquire decision of the database provider: when the guard around the
/// pool cannot be obtained the request fails at once with the `Database`
/// kind — contention on the guard is not retried, and waiting for a free
/// connection is left to the pool's own queue.
pub fn classify_acquire(guard_obtained: bool) -> (r: Result<(), Error>)
    ensures
        guard_obtained <==> r is Ok,
        !guard_obtained ==> (r matches Err(e) && e == Error::Database),
{
    if guard_obtained {
        Ok(())
    } else {
        Err(Error::Database)
    }
}

/// The version reply always carries the version field: whatever rows the
/// query returned, the body embeds the reported version between the fixed
/// frame of the one-field object — the first row when one exists, the empty
/// string otherwise, never an absent field.
pub proof fn lemma_version_field_present(rows: Seq<String>)
    ensures
        version_text(version_of(rows)) == "{\"version\":\""@ + crate::jsonbody::json_escaped(
            version_of(rows),
        ) + "\"}"@,
        rows.len() > 0 ==> version_of(rows) == rows[0]@,
        rows.len() == 0 ==> version_of(rows) == Seq::<char>::empty(),
{
}

/// Idempotence of the probe and the passthrough: the health body is one
/// fixed text, and the whole outcome of the passthrough — whether the
/// payload decodes, the relayed body when it does, and the logged parse
/// detail when it does not — is a function of the payload bytes alone, so
/// repeating a request with the same upstream payload produces a
/// structurally identical result every time.
pub proof fn lemma_repeat_deterministic(b1: Seq<u8>, b2: Seq<u8>, h1: Seq<char>, h2: Seq<char>)
    requires
        b1 == b2,
        h1 == health_text(),
        h2 == health_text(),
    ensures
        json_wf(b1) == json_wf(b2),
        json_reencoded(b1) == json_reencoded(b2),
        json_decode_detail(b1) == json_decode_detail(b2),
        h1 == h2,
{
}

/// The external passthrough handler, applied to the outcome of fetching the
/// external endpoint: a transport failure classifies as `HttpExtern`, a
/// payload that is not JSON as `JsonDecode` with the parser's message logged
/// in full, and a well-formed payload is relayed verbatim — the reply body
/// is exactly the external document, re-rendered compactly.
pub fn extern_fetch(f: Result<Vec<u8>, TransportFault>) -> (r: Result<String, Failure>)
    ensures
        f matches Err(t) ==> (r matches Err(fl) && fl.kind == Error::HttpExtern && fl.log@
            == transport_log_text(t.stage, t.message@)),
        f matches Ok(b) ==> {
            &&& json_wf(b@) ==> (r matches Ok(s) && s@ == json_reencoded(b@))
            &&& !json_wf(b@) ==> (r matches Err(fl) && fl.kind == Error::JsonDecode && fl.log@
                == "Error parsing JSON from remote host: "@ + json_decode_detail(b@))
        },
{
    match f {
        Ok(bytes) => match transcode(&bytes) {
            Ok(body) => Ok(body),
            Err(log) => Err(Failure { kind: Error::JsonDecode, log }),
        },
        Err(t) => {
            let log = crate::fault::transport_log_line(&t);
            Err(Failure { kind: Error::HttpExtern, log })
        },
    }
}

} // verus!
