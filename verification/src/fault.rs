//! Models of the low-level faults that collaborators report, and the
//! structured log records built from them. The embedding runtime reads the
//! driver's error value and hands its observable parts in as plain values;
//! the classification into a log record is verified here.

use vstd::prelude::*;
use vstd::string::StringExecFns;

verus! {

/// What the logic reads of a database-driver failure: which class it falls
/// in, its displayed text, its debug rendering, and for I/O faults the error
/// kind and the raw OS error number when one exists.
pub enum DbFault {
    /// A protocol-level driver error.
    Driver { message: String, detail: String },
    /// An I/O error on the database connection.
    Io { message: String, detail: String, kind: String, errno: Option<i32> },
    /// Any other failure of pool acquisition or query execution.
    Other { message: String, detail: String },
}

/// The displayed text of a database fault, whatever its class.
pub open spec fn db_fault_message(f: DbFault) -> Seq<char> {
    match f {
        DbFault::Driver { message, .. } => message@,
        DbFault::Io { message, .. } => message@,
        DbFault::Other { message, .. } => message@,
    }
}

impl DbFault {
    /// The displayed text of the fault.
    pub fn message(&self) -> (r: &String)
        ensures
            r@ == db_fault_message(*self),
    {
        match self {
            DbFault::Driver { message, .. } => message,
            DbFault::Io { message, .. } => message,
            DbFault::Other { message, .. } => message,
        }
    }
}

/// One value of a structured log field: text, or a small integer such as an
/// OS error number.
pub enum FieldValue {
    Text(String),
    Number(i32),
}

/// A structured log record: a title line and ordered key/value fields.
pub struct LogRecord {
    pub title: String,
    pub fields: Vec<(String, FieldValue)>,
}

/// The pair at `p` is a text field `k` with value `v`.
pub open spec fn text_field(p: (String, FieldValue), k: Seq<char>, v: Seq<char>) -> bool {
    p.0@ == k && (p.1 matches FieldValue::Text(t) && t@ == v)
}

/// The pair at `p` is a numeric field `k` with value `v`.
pub open spec fn num_field(p: (String, FieldValue), k: Seq<char>, v: int) -> bool {
    p.0@ == k && (p.1 matches FieldValue::Number(n) && n == v)
}

/// Build the detailed log record for a database fault: protocol errors are
/// reported as driver faults, I/O errors carry their kind and, when the
/// system supplied one, the raw error number, and anything else is reported
/// with an unknown source.
pub fn db_fault_record(f: &DbFault) -> (r: LogRecord)
    ensures
        f matches DbFault::Driver { message, detail } ==> {
            &&& r.title@ == "database driver error"@
            &&& r.fields@.len() == 4
            &&& text_field(r.fields@[0], "fault"@, "database"@)
            &&& text_field(r.fields@[1], "source"@, "driver"@)
            &&& text_field(r.fields@[2], "message"@, message@)
            &&& text_field(r.fields@[3], "object"@, detail@)
        },
        f matches DbFault::Io { message, detail, kind, errno: Some(e) } ==> {
            &&& r.title@ == "database connection I/O error (system)"@
            &&& r.fields@.len() == 6
            &&& text_field(r.fields@[0], "fault"@, "database"@)
            &&& text_field(r.fields@[1], "source"@, "io"@)
            &&& text_field(r.fields@[2], "message"@, message@)
            &&& text_field(r.fields@[3], "object"@, detail@)
            &&& text_field(r.fields@[4], "io_err_kind"@, kind@)
            &&& num_field(r.fields@[5], "errno"@, e as int)
        },
        f matches DbFault::Io { message, detail, errno: None, .. } ==> {
            &&& r.title@ == "unknown database connection I/O error"@
            &&& r.fields@.len() == 4
            &&& text_field(r.fields@[0], "fault"@, "database"@)
            &&& text_field(r.fields@[1], "source"@, "io"@)
            &&& text_field(r.fields@[2], "message"@, message@)
            &&& text_field(r.fields@[3], "object"@, detail@)
        },
        f matches DbFault::Other { message, detail } ==> {
            &&& r.title@ == "database error"@
            &&& r.fields@.len() == 4
            &&& text_field(r.fields@[0], "fault"@, "database"@)
            &&& text_field(r.fields@[1], "source"@, "unknown"@)
            &&& text_field(r.fields@[2], "message"@, message@)
            &&& text_field(r.fields@[3], "object"@, detail@)
        },
{
    let mut fields: Vec<(String, FieldValue)> = Vec::new();
    fields.push((String::from_str("fault"), FieldValue::Text(String::from_str("database"))));
    match f {
        DbFault::Driver { message, detail } => {
            fields.push((String::from_str("source"), FieldValue::Text(String::from_str("driver"))));
            fields.push((String::from_str("message"), FieldValue::Text(message.clone())));
            fields.push((String::from_str("object"), FieldValue::Text(detail.clone())));
            LogRecord { title: String::from_str("database driver error"), fields }
        },
        DbFault::Io { message, detail, kind, errno } => {
            fields.push((String::from_str("source"), FieldValue::Text(String::from_str("io"))));
            fields.push((String::from_str("message"), FieldValue::Text(message.clone())));
            fields.push((String::from_str("object"), FieldValue::Text(detail.clone())));
            match errno {
                Some(e) => {
                    fields.push((
                        String::from_str("io_err_kind"),
                        FieldValue::Text(kind.clone()),
                    ));
                    fields.push((String::from_str("errno"), FieldValue::Number(*e)));
                    LogRecord {
                        title: String::from_str("database connection I/O error (system)"),
                        fields,
                    }
                },
                None => LogRecord {
                    title: String::from_str("unknown database connection I/O error"),
                    fields,
                },
            }
        },
        DbFault::Other { message, detail } => {
            fields.push((
                String::from_str("source"),
                FieldValue::Text(String::from_str("unknown")),
            ));
            fields.push((String::from_str("message"), FieldValue::Text(message.clone())));
            fields.push((String::from_str("object"), FieldValue::Text(detail.clone())));
            LogRecord { title: String::from_str("database error"), fields }
        },
    }
}

/// Where an external fetch can fail: issuing the request, or reading the
/// streamed body.
#[derive(Copy, Clone, Debug, PartialEq, Eq)]
pub enum FetchStage {
    Request,
    Body,
}

/// What the logic reads of a transport failure on the external call: the
/// stage that failed and the displayed text of the underlying error.
pub struct TransportFault {
    pub stage: FetchStage,
    pub message: String,
}

/// The log line text for a transport failure.
pub open spec fn transport_log_text(stage: FetchStage, msg: Seq<char>) -> Seq<char> {
    match stage {
        FetchStage::Request => "HTTP error: "@ + msg,
        FetchStage::Body => "Error writing response to buffer: "@ + msg,
    }
}

/// Build the log line for a transport failure.
pub fn transport_log_line(t: &TransportFault) -> (r: String)
    ensures
        r@ == transport_log_text(t.stage, t.message@),
{
    match t.stage {
        FetchStage::Request => crate::strutil::concat_str("HTTP error: ", t.message.as_str()),
        FetchStage::Body => crate::strutil::concat_str(
            "Error writing response to buffer: ",
            t.message.as_str(),
        ),
    }
}

} // verus!
