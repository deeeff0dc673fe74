//! What the backend hands back, and how its failures are classified.

use crate::error::RouterError;
use crate::field::Field;
use crate::json::Json;
use crate::text::join3;
use vstd::prelude::*;
use vstd::string::*;

verus! {

/// How an HTTP status of the backend is read.
#[derive(Clone, Copy, Debug, PartialEq, Eq, Structural)]
pub enum StatusClass {
    /// 200 or 201: a body follows.
    Success,
    /// 204: success without a body.
    NoContent,
    /// 404.
    NotFound,
    /// 400 or 422.
    InvalidRequest,
    /// 401 or 403.
    Unauthorized,
    /// Anything else.
    Other,
}

pub open spec fn classify_status_spec(status: u16) -> StatusClass {
    if status == 200 || status == 201 {
        StatusClass::Success
    } else if status == 204 {
        StatusClass::NoContent
    } else if status == 404 {
        StatusClass::NotFound
    } else if status == 400 || status == 422 {
        StatusClass::InvalidRequest
    } else if status == 401 || status == 403 {
        StatusClass::Unauthorized
    } else {
        StatusClass::Other
    }
}

/// Reads an HTTP status of the backend.
pub fn classify_status(status: u16) -> (class: StatusClass)
    ensures
        class == classify_status_spec(status),
{
    if status == 200 || status == 201 {
        StatusClass::Success
    } else if status == 204 {
        StatusClass::NoContent
    } else if status == 404 {
        StatusClass::NotFound
    } else if status == 400 || status == 422 {
        StatusClass::InvalidRequest
    } else if status == 401 || status == 403 {
        StatusClass::Unauthorized
    } else {
        StatusClass::Other
    }
}

/// A backend call that did not succeed: the HTTP status where one was
/// received (none for a transport failure such as a timeout), and the words
/// of the backend or of its client.  `rejected` names the request field that
/// the backend's client could not read into the shape the backend takes;
/// such a call was never sent.
#[derive(Clone, Debug, PartialEq, Eq)]
pub struct BackendFailure {
    pub status: Option<u16>,
    pub detail: String,
    pub rejected: Option<Field>,
}

/// An agent as far as the routers read it, beside its full serialized form.
#[derive(Debug, PartialEq, Eq)]
pub struct AgentRecord {
    pub id: String,
    pub name: String,
    pub description: Option<String>,
    pub system: Option<String>,
    pub llm_config: Option<Json>,
    pub embedding_config: Option<Json>,
    pub created_at: Json,
    pub entity: Json,
}

/// A file of an agent's file window, as the backend lists it.
#[derive(Clone, Debug, PartialEq, Eq)]
pub struct FileRecord {
    pub id: String,
    pub filename: String,
    pub size: u64,
    pub mime_type: String,
    pub is_open: bool,
    pub opened_at: Option<String>,
}

/// A folder, as the backend lists it.
#[derive(Clone, Debug, PartialEq, Eq)]
pub struct FolderRecord {
    pub id: String,
    pub name: String,
    pub description: Option<String>,
}

/// The result of one successful backend call, in plain values.
#[derive(Debug, PartialEq, Eq)]
pub enum Reply {
    /// Success without a value.
    Empty,
    /// One serialized entity.
    Entity(Json),
    /// A list of serialized entities.
    Entities(Vec<Json>),
    /// A scalar count.
    Count(u64),
    /// A text, such as an exported agent file.
    Text(String),
    /// A list of texts, such as file or agent identifiers.
    Texts(Vec<String>),
    /// One agent.
    Agent(AgentRecord),
    /// A list of agents.
    Agents(Vec<AgentRecord>),
    /// A created memory block with the identifier the backend gave it.
    Block { id: Option<String>, entity: Json },
    /// The files of an agent.
    Files(Vec<FileRecord>),
    /// The folders.
    Folders(Vec<FolderRecord>),
    /// A serialized entity with the time the call took, in milliseconds.
    Timed { elapsed_ms: i64, entity: Json },
}

/// What a router asks for next: one backend call, with the state to resume
/// from once it has been made, or the finished envelope.
#[derive(Debug, PartialEq, Eq)]
pub enum Step<Call, Pending, Response> {
    Call { call: Call, pending: Pending },
    Done(Response),
}

/// The class that a failure's status puts it in.
pub open spec fn failure_class(failure: BackendFailure) -> StatusClass {
    match failure.status {
        Some(status) => classify_status_spec(status),
        None => StatusClass::Other,
    }
}

/// The detail text of an error raised for `failure`: what was being done,
/// the identifiers it was done on where there are any, then the backend's
/// words.
pub open spec fn failure_detail(
    context: Seq<char>,
    subject: Seq<char>,
    failure: BackendFailure,
) -> Seq<char> {
    if subject.len() == 0 {
        context + ": "@ + failure.detail@
    } else {
        context + " ("@ + subject + "): "@ + failure.detail@
    }
}

/// Whether `error` is the error owed for `failure` during `operation` on
/// `subject`: a field that the backend's client could not read is an invalid
/// payload, a missing entity and rejected credentials keep their own kinds,
/// and every other failure is a backend failure.
pub open spec fn is_failure_error(
    error: RouterError,
    operation: Seq<char>,
    context: Seq<char>,
    subject: Seq<char>,
    failure: BackendFailure,
) -> bool {
    if failure.rejected is Some {
        error matches RouterError::InvalidPayload { operation: o, field, reason } && o@
            == operation && Some(field) == failure.rejected && reason@ == failure.detail@
    } else {
        is_status_error(error, operation, context, subject, failure)
    }
}

/// Whether `error` is the error owed for a failure that the backend itself
/// reported, or the transport.
pub open spec fn is_status_error(
    error: RouterError,
    operation: Seq<char>,
    context: Seq<char>,
    subject: Seq<char>,
    failure: BackendFailure,
) -> bool {
    match failure_class(failure) {
        StatusClass::NotFound => error matches RouterError::NotFound { operation: o, detail: d }
            && o@ == operation && d@ == failure_detail(context, subject, failure),
        StatusClass::Unauthorized => error matches RouterError::Unauthorized {
            operation: o,
            detail: d,
        } && o@ == operation && d@ == failure_detail(context, subject, failure),
        _ => error matches RouterError::BackendInternal { operation: o, detail: d } && o@
            == operation && d@ == failure_detail(context, subject, failure),
    }
}

/// The error for a failed backend call made on `subject`.
pub fn failure_error(
    operation: &str,
    context: &str,
    subject: &str,
    failure: &BackendFailure,
) -> (error: RouterError)
    ensures
        is_failure_error(error, operation@, context@, subject@, *failure),
{
    match failure.rejected {
        Some(field) => {
            return RouterError::InvalidPayload {
                operation: String::from_str(operation),
                field,
                reason: failure.detail.clone(),
            };
        },
        None => {},
    }
    let detail = if subject.is_empty() {
        join3(context, ": ", failure.detail.as_str())
    } else {
        let mut detail = join3(context, " (", subject);
        detail.append("): ");
        detail.append(failure.detail.as_str());
        detail
    };
    let class = match failure.status {
        Some(status) => classify_status(status),
        None => StatusClass::Other,
    };
    match class {
        StatusClass::NotFound => RouterError::NotFound {
            operation: String::from_str(operation),
            detail,
        },
        StatusClass::Unauthorized => RouterError::Unauthorized {
            operation: String::from_str(operation),
            detail,
        },
        _ => RouterError::BackendInternal { operation: String::from_str(operation), detail },
    }
}

/// Whether `error` reports a reply of a shape the operation cannot use.
pub open spec fn is_unexpected_reply(
    error: RouterError,
    operation: Seq<char>,
    context: Seq<char>,
) -> bool {
    error matches RouterError::BackendInternal { operation: o, detail: d } && o@ == operation
        && d@ == context + ": unexpected reply from the backend"@
}

/// The error for a reply of a shape the operation cannot use.
pub fn unexpected_reply(operation: &str, context: &str) -> (error: RouterError)
    ensures
        is_unexpected_reply(error, operation@, context@),
{
    RouterError::BackendInternal {
        operation: String::from_str(operation),
        detail: crate::text::join2(context, ": unexpected reply from the backend"),
    }
}

} // verus!
