//! What to do when the event loop returns: stop after a clean return, and
//! after a fault log it, wait, and start the loop again.

use crate::host::cause_text;
use vstd::prelude::*;
use vstd::string::StringExecFns;

verus! {

/// The serializer's error type, carried as it is.
#[verifier::external_type_specification]
#[verifier::external_body]
pub struct ExJsonError(serde_json::Error);

/// What the serializer makes of a string: its JSON text, that is the string
/// in double quotes with the characters that JSON does not allow there
/// escaped, or nothing where the serializer fails.
pub uninterp spec fn json_of(s: Seq<char>) -> Option<Seq<char>>;

/// `serde_json::to_string` on a string: the result depends on the string
/// alone; it is the JSON text where the call succeeds, and an error where
/// it does not.
#[verifier::external_body]
fn to_json(s: &str) -> (r: Result<String, serde_json::Error>)
    ensures
        match r {
            Ok(t) => json_of(s@) == Some(t@),
            Err(_) => json_of(s@) is None,
        },
{
    serde_json::to_string(s)
}

/// The record of one fault of the event loop.
pub struct LogErrorMessage<'s> {
    pub service: &'s str,
    pub msg: &'static str,
    pub error: String,
    pub level: &'static str,
}

/// The seconds to wait before the loop is started again.
pub const BACKOFF_SECS: u64 = 1;

/// Why a fault could not be logged.
#[derive(Clone, Copy, Debug, PartialEq, Eq, Structural)]
pub enum LogError {
    /// A field of the record could not be written as JSON.
    Unserializable,
}

/// The record for a fault of the loop of `service` with the given detail.
pub fn fault_record<'s>(service: &'s str, error: String) -> (m: LogErrorMessage<'s>)
    ensures
        m.service@ == service@,
        m.msg@ == "call loop exited"@,
        m.error@ == error@,
        m.level@ == "ERROR"@,
{
    LogErrorMessage { service, msg: "call loop exited", error, level: "ERROR" }
}

/// One line that holds the four fields of a record as a JSON object, given
/// the JSON text of each.
pub open spec fn framed(service: Seq<char>, msg: Seq<char>, error: Seq<char>, level: Seq<char>) -> Seq<
    char,
> {
    "{\"service\":"@ + service + ",\"msg\":"@ + msg + ",\"error\":"@ + error + ",\"level\":"@
        + level + "}"@
}

/// Frames the JSON texts of the four fields as one JSON object.
pub fn frame_line(service: &str, msg: &str, error: &str, level: &str) -> (line: String)
    ensures
        line@ == framed(service@, msg@, error@, level@),
{
    let mut line = String::from_str("{\"service\":");
    line.append(service);
    line.append(",\"msg\":");
    line.append(msg);
    line.append(",\"error\":");
    line.append(error);
    line.append(",\"level\":");
    line.append(level);
    line.append("}");
    line
}

/// The line that a record is logged as: the JSON object of its four fields
/// in the order service, msg, error, level, where the serializer writes all
/// four, and none where it fails on one of them.
pub open spec fn fault_line(m: LogErrorMessage) -> Option<Seq<char>> {
    match (json_of(m.service@), json_of(m.msg@), json_of(m.error@), json_of(m.level@)) {
        (Some(service), Some(msg), Some(error), Some(level)) => Some(
            framed(service, msg, error, level),
        ),
        _ => None,
    }
}

/// Writes a record as one structured line: the line of the record where it
/// has one, and otherwise the error that says that a field could not be
/// written.
pub fn log_line(m: &LogErrorMessage) -> (r: Result<String, LogError>)
    ensures
        match fault_line(*m) {
            Some(l) => r matches Ok(line) && line@ == l,
            None => r == Err::<String, LogError>(LogError::Unserializable),
        },
{
    let service = match to_json(m.service) {
        Ok(t) => t,
        Err(_) => {
            return Err(LogError::Unserializable);
        },
    };
    let msg = match to_json(m.msg) {
        Ok(t) => t,
        Err(_) => {
            return Err(LogError::Unserializable);
        },
    };
    let error = match to_json(m.error.as_str()) {
        Ok(t) => t,
        Err(_) => {
            return Err(LogError::Unserializable);
        },
    };
    let level = match to_json(m.level) {
        Ok(t) => t,
        Err(_) => {
            return Err(LogError::Unserializable);
        },
    };
    Ok(frame_line(service.as_str(), msg.as_str(), error.as_str(), level.as_str()))
}

/// What the supervisor of the event loop does after the loop returned.
pub enum Supervision<'s> {
    /// The loop returned cleanly: stop supervising.
    Done,
    /// The loop failed: emit the record, wait, start the loop again.
    Restart { record: LogErrorMessage<'s>, backoff_secs: u64 },
}

/// Decides what follows a return of the loop, given the detail of its error
/// if it returned one.
pub fn supervise<'s>(service: &'s str, exit: Result<(), String>) -> (s: Supervision<'s>)
    ensures
        match exit {
            Ok(_) => s is Done,
            Err(detail) => s matches Supervision::Restart { record, backoff_secs }
                && record.service@ == service@ && record.msg@ == "call loop exited"@
                && record.error@ == detail@ && record.level@ == "ERROR"@ && backoff_secs
                == BACKOFF_SECS,
        },
{
    match exit {
        Ok(_) => Supervision::Done,
        Err(detail) => Supervision::Restart {
            record: fault_record(service, detail),
            backoff_secs: BACKOFF_SECS,
        },
    }
}

/// Decides what follows a return of the loop: a clean return ends the
/// supervision; an error is recorded once, with its text in the transport's
/// words as the detail, and the loop starts again after the backoff.
pub fn after_exit<'s>(service: &'s str, exit: Result<(), mio_httpc::Error>) -> (s: Supervision<'s>)
    ensures
        match exit {
            Ok(_) => s is Done,
            Err(e) => s matches Supervision::Restart { record, backoff_secs }
                && record.service@ == service@ && record.msg@ == "call loop exited"@
                && record.level@ == "ERROR"@ && backoff_secs == BACKOFF_SECS,
        },
{
    match exit {
        Ok(_) => supervise(service, Ok(())),
        Err(e) => supervise(service, Err(cause_text(&e))),
    }
}

} // verus!
