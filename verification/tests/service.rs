use triroute::dispatch::{access_entry, finish, plan, server_header_name, server_name, Directive, Request};
use triroute::errors::Error;
use triroute::fault::{db_fault_record, transport_log_line, DbFault, FetchStage, FieldValue, TransportFault};
use triroute::handlers::{
    classify_acquire, extern_fetch, extern_url, health, mysql_version, version_from_rows,
    version_query,
};
use triroute::jsonbody::{escape_json, health_body, version_body};
use triroute::lease::LeaseRegistry;
use triroute::strutil::str_eq;
use triroute::transcode::transcode;

fn get(path: &str) -> Request {
    Request { method: String::from("GET"), path: String::from(path) }
}

#[test]
fn health_body_is_fixed() {
    assert_eq!(health_body(), "{\"status\":\"alive\"}");
    assert_eq!(health(), "{\"status\":\"alive\"}");
}

#[test]
fn health_is_idempotent() {
    assert_eq!(health(), health());
}

#[test]
fn escape_passes_plain_text() {
    assert_eq!(escape_json("8.0.32-MariaDB"), "8.0.32-MariaDB");
}

#[test]
fn escape_handles_quotes_and_backslashes() {
    assert_eq!(escape_json("a\"b\\c"), "a\\\"b\\\\c");
}

#[test]
fn escape_handles_control_characters() {
    assert_eq!(escape_json("x\ny\t\r"), "x\\ny\\t\\r");
    assert_eq!(escape_json("\u{8}\u{c}\u{1}\u{1f}"), "\\b\\f\\u0001\\u001f");
}

#[test]
fn version_body_wraps_the_string() {
    assert_eq!(version_body("8.0.32"), "{\"version\":\"8.0.32\"}");
    assert_eq!(version_body(""), "{\"version\":\"\"}");
    assert_eq!(version_body("5\"7"), "{\"version\":\"5\\\"7\"}");
}

#[test]
fn version_from_rows_takes_first_row() {
    let rows = vec![String::from("8.0.32"), String::from("ignored")];
    assert_eq!(version_from_rows(&rows), "8.0.32");
}

#[test]
fn version_from_rows_defaults_to_empty() {
    let rows: Vec<String> = Vec::new();
    assert_eq!(version_from_rows(&rows), "");
}

#[test]
fn mysql_version_reports_first_row() {
    let r = mysql_version(Ok(vec![String::from("5.7.44")]));
    match r {
        Ok(body) => assert_eq!(body, "{\"version\":\"5.7.44\"}"),
        Err(_) => panic!("expected a body"),
    }
}

#[test]
fn mysql_version_reports_empty_for_no_rows() {
    let r = mysql_version(Ok(Vec::new()));
    match r {
        Ok(body) => assert_eq!(body, "{\"version\":\"\"}"),
        Err(_) => panic!("expected a body"),
    }
}

#[test]
fn mysql_version_classifies_failures() {
    let f = DbFault::Other { message: String::from("boom"), detail: String::from("Boom") };
    let r = mysql_version(Err(f));
    match r {
        Ok(_) => panic!("expected a failure"),
        Err(fl) => {
            assert_eq!(fl.kind, Error::Database);
            assert_eq!(fl.log, "database error: boom");
        }
    }
}

#[test]
fn extern_fetch_relays_json() {
    let r = extern_fetch(Ok(b"{ \"a\" : 1 }".to_vec()));
    match r {
        Ok(body) => assert_eq!(body, "{\"a\":1}"),
        Err(_) => panic!("expected a body"),
    }
}

#[test]
fn extern_fetch_is_deterministic() {
    let a = extern_fetch(Ok(b"[1,2,3]".to_vec()));
    let b = extern_fetch(Ok(b"[1,2,3]".to_vec()));
    match (a, b) {
        (Ok(x), Ok(y)) => assert_eq!(x, y),
        _ => panic!("expected two bodies"),
    }
}

#[test]
fn extern_fetch_classifies_bad_payload_as_decode() {
    let r = extern_fetch(Ok(b"not json at all".to_vec()));
    match r {
        Ok(_) => panic!("expected a failure"),
        Err(fl) => {
            assert_eq!(fl.kind, Error::JsonDecode);
            assert!(fl.log.starts_with("Error parsing JSON from remote host: "));
        }
    }
}

#[test]
fn extern_fetch_classifies_transport_failures() {
    let t = TransportFault {
        stage: FetchStage::Request,
        message: String::from("connection refused"),
    };
    let r = extern_fetch(Err(t));
    match r {
        Ok(_) => panic!("expected a failure"),
        Err(fl) => {
            assert_eq!(fl.kind, Error::HttpExtern);
            assert_eq!(fl.log, "HTTP error: connection refused");
        }
    }
}

#[test]
fn transport_log_covers_both_stages() {
    let req = TransportFault { stage: FetchStage::Request, message: String::from("x") };
    let body = TransportFault { stage: FetchStage::Body, message: String::from("y") };
    assert_eq!(transport_log_line(&req), "HTTP error: x");
    assert_eq!(transport_log_line(&body), "Error writing response to buffer: y");
}

#[test]
fn transcode_accepts_and_compacts_json() {
    match transcode(&b"{\"k\": [true, null]}".to_vec()) {
        Ok(body) => assert_eq!(body, "{\"k\":[true,null]}"),
        Err(_) => panic!("expected a body"),
    }
}

#[test]
fn transcode_reports_parse_detail() {
    match transcode(&b"{".to_vec()) {
        Ok(_) => panic!("expected a failure"),
        Err(log) => assert!(log.starts_with("Error parsing JSON from remote host: ")),
    }
}

#[test]
fn plan_health_responds_at_once() {
    match plan(&get("/health")) {
        Directive::Respond(r) => {
            assert_eq!(r.status, 200);
            assert_eq!(r.body, "{\"status\":\"alive\"}");
            assert_eq!(r.server, "triroute/0.1.0");
        }
        _ => panic!("health must not touch any resource"),
    }
}

#[test]
fn plan_mysql_requests_a_query() {
    assert!(matches!(plan(&get("/mysql_ver")), Directive::QueryDbVersion));
}

#[test]
fn plan_extern_requests_the_fixed_url() {
    match plan(&get("/extern")) {
        Directive::FetchExtern(u) => assert_eq!(u, extern_url()),
        _ => panic!("expected a fetch directive"),
    }
}

#[test]
fn plan_rejects_unknown_paths() {
    match plan(&get("/nope")) {
        Directive::Respond(r) => {
            assert_eq!(r.status, 404);
            assert_eq!(r.body, "not found");
            assert_eq!(r.server, "triroute/0.1.0");
        }
        _ => panic!("expected an immediate reply"),
    }
}

#[test]
fn plan_rejects_other_methods() {
    let req = Request { method: String::from("POST"), path: String::from("/health") };
    match plan(&req) {
        Directive::Respond(r) => {
            assert_eq!(r.status, 405);
            assert_eq!(r.body, "method not allowed");
        }
        _ => panic!("expected an immediate reply"),
    }
}

#[test]
fn finish_wraps_success() {
    let r = finish(Ok(String::from("{\"version\":\"8\"}")));
    assert_eq!(r.status, 200);
    assert_eq!(r.body, "{\"version\":\"8\"}");
    assert_eq!(r.server, "triroute/0.1.0");
}

#[test]
fn finish_maps_every_error_to_500() {
    let db = finish(Err(Error::Database));
    assert_eq!(db.status, 500);
    assert_eq!(db.body, "database error");
    let http = finish(Err(Error::HttpExtern));
    assert_eq!(http.status, 500);
    assert_eq!(http.body, "error communicating with external service");
    let dec = finish(Err(Error::JsonDecode));
    assert_eq!(dec.status, 500);
    assert_eq!(dec.body, "error decoding JSON payload");
}

#[test]
fn error_descriptions_are_fixed() {
    assert_eq!(Error::Database.description(), "database error");
    assert_eq!(Error::HttpExtern.description(), "error communicating with external service");
    assert_eq!(Error::JsonDecode.description(), "error decoding JSON payload");
    assert_eq!(Error::Database.status_code(), 500);
    assert_eq!(Error::HttpExtern.status_code(), 500);
    assert_eq!(Error::JsonDecode.status_code(), 500);
}

#[test]
fn access_entry_records_the_request() {
    let e = access_entry(&get("/health"), 200);
    assert_eq!(e.method, "GET");
    assert_eq!(e.path, "/health");
    assert_eq!(e.status, 200);
}

#[test]
fn server_header_is_fixed() {
    assert_eq!(server_header_name(), "server");
    assert_eq!(server_name(), "triroute/0.1.0");
}

#[test]
fn version_query_is_fixed() {
    assert_eq!(version_query(), "SELECT version()");
}

#[test]
fn classify_acquire_maps_guard_failure() {
    assert!(classify_acquire(true).is_ok());
    assert_eq!(classify_acquire(false), Err(Error::Database));
}

#[test]
fn leases_are_distinct_under_load() {
    let mut reg = LeaseRegistry::new();
    let a = reg.try_acquire(true).expect("first lease");
    let b = reg.try_acquire(true).expect("second lease");
    let c = reg.try_acquire(true).expect("third lease");
    assert_ne!(a, b);
    assert_ne!(a, c);
    assert_ne!(b, c);
}

#[test]
fn failed_acquire_leaves_no_lease() {
    let mut reg = LeaseRegistry::new();
    assert!(reg.try_acquire(false).is_none());
    assert!(reg.active.is_empty());
    let h = reg.try_acquire(true).expect("lease");
    reg.release(h);
    assert!(reg.active.is_empty());
}

#[test]
fn released_handles_are_not_reissued() {
    let mut reg = LeaseRegistry::new();
    let a = reg.try_acquire(true).expect("lease");
    reg.release(a);
    let b = reg.try_acquire(true).expect("lease");
    assert_ne!(a, b);
}

#[test]
fn db_fault_record_for_driver_errors() {
    let f = DbFault::Driver { message: String::from("bad packet"), detail: String::from("Packet") };
    let r = db_fault_record(&f);
    assert_eq!(r.title, "database driver error");
    assert_eq!(r.fields.len(), 4);
    expect_text(&r.fields[0], "fault", "database");
    expect_text(&r.fields[1], "source", "driver");
    expect_text(&r.fields[2], "message", "bad packet");
    expect_text(&r.fields[3], "object", "Packet");
}

#[test]
fn db_fault_record_for_system_io_errors() {
    let f = DbFault::Io {
        message: String::from("broken pipe"),
        detail: String::from("Os { code: 32 }"),
        kind: String::from("BrokenPipe"),
        errno: Some(32),
    };
    let r = db_fault_record(&f);
    assert_eq!(r.title, "database connection I/O error (system)");
    assert_eq!(r.fields.len(), 6);
    expect_text(&r.fields[0], "fault", "database");
    expect_text(&r.fields[1], "source", "io");
    expect_text(&r.fields[2], "message", "broken pipe");
    expect_text(&r.fields[3], "object", "Os { code: 32 }");
    expect_text(&r.fields[4], "io_err_kind", "BrokenPipe");
    match &r.fields[5] {
        (k, FieldValue::Number(n)) => {
            assert_eq!(k, "errno");
            assert_eq!(*n, 32);
        }
        _ => panic!("expected a numeric errno field"),
    }
}

#[test]
fn db_fault_record_for_unknown_io_errors() {
    let f = DbFault::Io {
        message: String::from("odd"),
        detail: String::from("Odd"),
        kind: String::from("Other"),
        errno: None,
    };
    let r = db_fault_record(&f);
    assert_eq!(r.title, "unknown database connection I/O error");
    assert_eq!(r.fields.len(), 4);
    expect_text(&r.fields[0], "fault", "database");
    expect_text(&r.fields[1], "source", "io");
    expect_text(&r.fields[2], "message", "odd");
    expect_text(&r.fields[3], "object", "Odd");
}

#[test]
fn db_fault_record_for_other_errors() {
    let f = DbFault::Other { message: String::from("tls"), detail: String::from("Tls") };
    let r = db_fault_record(&f);
    assert_eq!(r.title, "database error");
    assert_eq!(r.fields.len(), 4);
    expect_text(&r.fields[0], "fault", "database");
    expect_text(&r.fields[1], "source", "unknown");
    expect_text(&r.fields[2], "message", "tls");
    expect_text(&r.fields[3], "object", "Tls");
}

#[test]
fn str_eq_compares_by_content() {
    assert!(str_eq("/health", "/health"));
    assert!(!str_eq("/health", "/extern"));
    assert!(!str_eq("GET", "GE"));
}

fn expect_text(field: &(String, FieldValue), key: &str, value: &str) {
    assert_eq!(field.0, key);
    match &field.1 {
        FieldValue::Text(t) => assert_eq!(t, value),
        FieldValue::Number(_) => panic!("expected a text field"),
    }
}
