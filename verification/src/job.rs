//! The job router: listing jobs, reading one, and cancelling one.

use crate::backend::{is_failure_error, is_unexpected_reply, BackendFailure, Reply, Step};
use crate::error::RouterError;
use crate::field::Field;
use crate::ident::{canonical_id, BackendId};
use crate::json::Json;
use crate::settle::{fits, read_count, read_data, read_message, settle, ReplyShape, Wording};
use crate::text::{add_name, same_text, with_name};
use crate::validate::{
    first_malformed, first_malformed_from, first_missing, first_missing_from, identify,
    is_invalid_identifier, is_missing, lemma_malformed_identifier_is_reported,
    lemma_missing_field_is_reported, malformed, Fields,
};
use vstd::prelude::*;
use vstd::string::*;

verus! {

/// The operations of the job router.
#[derive(Clone, Copy, Debug, PartialEq, Eq, Structural)]
pub enum JobOperation {
    List,
    Get,
    Cancel,
    ListActive,
}

/// A request to the job router.
#[derive(Clone, Debug, PartialEq, Eq)]
pub struct JobMonitorRequest {
    pub operation: JobOperation,
    pub job_id: Option<String>,
    pub request_heartbeat: Option<bool>,
}

/// The envelope of the job router.
#[derive(Debug, PartialEq, Eq)]
pub struct JobMonitorResponse {
    pub success: bool,
    pub operation: String,
    pub message: String,
    pub data: Option<Json>,
    pub count: Option<usize>,
}

/// A backend call of the job router.
#[derive(Debug, PartialEq, Eq)]
pub enum JobCall {
    List,
    Get { job: BackendId },
    Delete { job: BackendId },
    ListActive,
}

/// The state a job operation resumes from: the operation, and the
/// identifier its call was made on, as the caller wrote it.
#[derive(Clone, Debug, PartialEq, Eq)]
pub struct JobPending {
    pub operation: JobOperation,
    pub subject: String,
}

/// A step of the job router.
pub type JobStep = Step<JobCall, JobPending, JobMonitorResponse>;

impl JobOperation {
    pub open spec fn wording_spec(self) -> Wording {
        match self {
            JobOperation::List => Wording {
                operation: "list",
                context: "Failed to list jobs",
                fixed: "",
                before: "Found ",
                after: " jobs",
            },
            JobOperation::Get => Wording {
                operation: "get",
                context: "Failed to get job",
                fixed: "Job retrieved successfully",
                before: "",
                after: "",
            },
            JobOperation::Cancel => Wording {
                operation: "cancel",
                context: "Failed to cancel job",
                fixed: "Job cancelled successfully",
                before: "",
                after: "",
            },
            JobOperation::ListActive => Wording {
                operation: "list_active",
                context: "Failed to list active jobs",
                fixed: "",
                before: "Found ",
                after: " active jobs",
            },
        }
    }

    /// The operation's words.
    #[verifier::when_used_as_spec(wording_spec)]
    pub fn wording(self) -> (w: Wording)
        ensures
            w == self.wording_spec(),
    {
        match self {
            JobOperation::List => Wording {
                operation: "list",
                context: "Failed to list jobs",
                fixed: "",
                before: "Found ",
                after: " jobs",
            },
            JobOperation::Get => Wording {
                operation: "get",
                context: "Failed to get job",
                fixed: "Job retrieved successfully",
                before: "",
                after: "",
            },
            JobOperation::Cancel => Wording {
                operation: "cancel",
                context: "Failed to cancel job",
                fixed: "Job cancelled successfully",
                before: "",
                after: "",
            },
            JobOperation::ListActive => Wording {
                operation: "list_active",
                context: "Failed to list active jobs",
                fixed: "",
                before: "Found ",
                after: " active jobs",
            },
        }
    }

    /// The operation's name on the wire.
    pub open spec fn name_spec(self) -> Seq<char> {
        self.wording().operation@
    }

    /// The operation's name on the wire.
    pub fn name(self) -> (s: &'static str)
        ensures
            s@ == self.name_spec(),
    {
        self.wording().operation
    }

    /// The operation that `raw` names.
    pub open spec fn named(raw: Seq<char>) -> Option<JobOperation> {
        if raw == "list"@ {
            Some(JobOperation::List)
        } else if raw == "get"@ {
            Some(JobOperation::Get)
        } else if raw == "cancel"@ {
            Some(JobOperation::Cancel)
        } else if raw == "list_active"@ {
            Some(JobOperation::ListActive)
        } else {
            None
        }
    }

    /// Reads the operation that a request names.
    pub fn parse(raw: &str) -> (r: Result<JobOperation, RouterError>)
        ensures
            match JobOperation::named(raw@) {
                Some(op) => r == Ok::<JobOperation, RouterError>(op),
                None => r matches Err(RouterError::UnknownOperation { raw: t }) && t@ == raw@,
            },
    {
        if same_text(raw, "list") {
            Ok(JobOperation::List)
        } else if same_text(raw, "get") {
            Ok(JobOperation::Get)
        } else if same_text(raw, "cancel") {
            Ok(JobOperation::Cancel)
        } else if same_text(raw, "list_active") {
            Ok(JobOperation::ListActive)
        } else {
            Err(RouterError::UnknownOperation { raw: String::from_str(raw) })
        }
    }

    /// The fields the operation requires.
    pub open spec fn required(self) -> Seq<Field> {
        match self {
            JobOperation::Get | JobOperation::Cancel => seq![Field::JobId],
            _ => seq![],
        }
    }

    /// The identifier fields the operation parses.
    pub open spec fn identifiers(self) -> Seq<Field> {
        self.required()
    }

    /// How the operation reads the backend's reply.
    pub open spec fn shape(self) -> ReplyShape {
        match self {
            JobOperation::List | JobOperation::ListActive => ReplyShape::Listing,
            JobOperation::Get => ReplyShape::Entity,
            JobOperation::Cancel => ReplyShape::Acknowledge,
        }
    }

    /// How the operation reads the backend's reply.
    pub fn shape_of(self) -> (shape: ReplyShape)
        ensures
            shape == self.shape(),
    {
        match self {
            JobOperation::List | JobOperation::ListActive => ReplyShape::Listing,
            JobOperation::Get => ReplyShape::Entity,
            JobOperation::Cancel => ReplyShape::Acknowledge,
        }
    }
}

impl Fields for JobMonitorRequest {
    open spec fn has_field(&self, f: Field) -> bool {
        f == Field::JobId && self.job_id is Some
    }

    open spec fn raw_identifier(&self, f: Field) -> Option<Seq<char>> {
        match f {
            Field::JobId => match self.job_id {
                Some(t) => Some(t@),
                None => None,
            },
            _ => None,
        }
    }
}

/// Whether `call` is the one backend call that the request's operation
/// makes.  A job is cancelled by deleting it.
pub open spec fn is_job_call(request: JobMonitorRequest, call: JobCall) -> bool {
    let job_id = canonical_id(request.job_id->0@);
    match request.operation {
        JobOperation::List => call is List,
        JobOperation::Get => call matches JobCall::Get { job } && job@ == job_id,
        JobOperation::Cancel => call matches JobCall::Delete { job } && job@ == job_id,
        JobOperation::ListActive => call is ListActive,
    }
}

/// The identifier that the request's operation is made on, as the caller
/// wrote it.
pub open spec fn job_subject(request: JobMonitorRequest) -> Seq<char> {
    match request.operation {
        JobOperation::Get | JobOperation::Cancel => with_name(seq![], request.job_id),
        _ => seq![],
    }
}

/// Whether `r` is what the job router owes for `request`.
pub open spec fn job_dispatch_post(
    request: JobMonitorRequest,
    r: Result<JobStep, RouterError>,
) -> bool {
    let op = request.operation;
    let name = op.name_spec();
    match first_missing(op.required(), request) {
        Some(f) => r matches Err(e) && is_missing(e, name, f),
        None => match first_malformed(op.identifiers(), request) {
            Some(f) => r matches Err(e) && is_invalid_identifier(
                e,
                name,
                f,
                request.raw_identifier(f)->0,
            ),
            None => r matches Ok(Step::Call { call, pending }) && is_job_call(request, call)
                && pending.operation == op && pending.subject@ == job_subject(request),
        },
    }
}

/// Validates a request and names its backend call.
pub fn handle_job_monitor(request: JobMonitorRequest) -> (r: Result<JobStep, RouterError>)
    ensures
        job_dispatch_post(request, r),
{
    let op = request.operation;
    let name = op.name();
    let subject = match op {
        JobOperation::Get | JobOperation::Cancel => add_name(String::new(), &request.job_id),
        _ => String::new(),
    };
    let pending = JobPending { operation: op, subject };
    proof {
        reveal_with_fuel(first_missing_from, 2);
        reveal_with_fuel(first_malformed_from, 2);
    }
    match op {
        JobOperation::List => Ok(Step::Call { call: JobCall::List, pending }),
        JobOperation::ListActive => Ok(Step::Call { call: JobCall::ListActive, pending }),
        JobOperation::Get => {
            let job = identify(&request.job_id, name, Field::JobId)?;
            Ok(Step::Call { call: JobCall::Get { job }, pending })
        },
        JobOperation::Cancel => {
            let job = identify(&request.job_id, name, Field::JobId)?;
            Ok(Step::Call { call: JobCall::Delete { job }, pending })
        },
    }
}

/// Whether `r` is what the job router owes when `pending` is resumed with
/// `reply`.
pub open spec fn job_resume_post(
    pending: JobPending,
    reply: Result<Reply, BackendFailure>,
    r: Result<JobStep, RouterError>,
) -> bool {
    let shape = pending.operation.shape();
    let words = pending.operation.wording();
    match reply {
        Err(failure) => r matches Err(e) && is_failure_error(
            e,
            words.operation@,
            words.context@,
            pending.subject@,
            failure,
        ),
        Ok(received) => if fits(shape, received) {
            r matches Ok(Step::Done(response)) && response.success && response.operation@
                == words.operation@ && response.data == read_data(shape, received)
                && response.count == read_count(shape, received) && response.message@
                == read_message(shape, words, received)
        } else {
            r matches Err(e) && is_unexpected_reply(e, words.operation@, words.context@)
        },
    }
}

/// Folds the backend's reply into the envelope.
pub fn resume_job_monitor(pending: JobPending, reply: Result<Reply, BackendFailure>) -> (r: Result<
    JobStep,
    RouterError,
>)
    ensures
        job_resume_post(pending, reply, r),
{
    let operation = pending.operation;
    match settle(operation.shape_of(), operation.wording(), pending.subject.as_str(), reply) {
        Ok(s) => Ok(
            Step::Done(
                JobMonitorResponse {
                    success: true,
                    operation: String::from_str(operation.name()),
                    message: s.message,
                    data: s.data,
                    count: s.count,
                },
            ),
        ),
        Err(e) => Err(e),
    }
}

/// A request that lacks a field its operation requires is refused as
/// missing a field, and no backend call is asked for: the field reported is
/// required and absent, and it is the lacking field itself where every
/// field required before it is there.
pub proof fn lemma_job_missing_field_is_refused(
    request: JobMonitorRequest,
    at: int,
    r: Result<JobStep, RouterError>,
)
    requires
        job_dispatch_post(request, r),
        0 <= at < request.operation.required().len(),
        !request.has_field(request.operation.required()[at]),
    ensures
        r is Err,
        r->Err_0 is MissingField,
        ({
            let field = r->Err_0->MissingField_field;
            &&& r->Err_0->MissingField_operation@ == request.operation.name_spec()
            &&& request.operation.required().contains(field)
            &&& !request.has_field(field)
            &&& (forall|j: int|
                0 <= j < at ==> request.has_field(#[trigger] request.operation.required()[j]))
                ==> field == request.operation.required()[at]
        }),
{
    lemma_missing_field_is_reported(request.operation.required(), request, at);
}

/// A request that holds everything its operation requires but a malformed
/// identifier is refused as holding an invalid identifier, and no backend
/// call is asked for: the field reported is malformed, its text is
/// reported with it, and it is the malformed field itself where no
/// identifier field before it is malformed.
pub proof fn lemma_job_malformed_identifier_is_refused(
    request: JobMonitorRequest,
    at: int,
    r: Result<JobStep, RouterError>,
)
    requires
        job_dispatch_post(request, r),
        first_missing(request.operation.required(), request) is None,
        0 <= at < request.operation.identifiers().len(),
        malformed(request, request.operation.identifiers()[at]),
    ensures
        r is Err,
        r->Err_0 is InvalidIdentifier,
        ({
            let field = r->Err_0->InvalidIdentifier_field;
            &&& r->Err_0->InvalidIdentifier_operation@ == request.operation.name_spec()
            &&& malformed(request, field)
            &&& request.raw_identifier(field) == Some(r->Err_0->InvalidIdentifier_raw@)
            &&& (forall|j: int|
                0 <= j < at ==> !malformed(request, #[trigger] request.operation.identifiers()[j]))
                ==> field == request.operation.identifiers()[at]
        }),
{
    lemma_malformed_identifier_is_reported(request.operation.identifiers(), request, at);
}

/// Dispatch reaches one handler, the operation's own: the step that a
/// request begins with belongs to the request's operation.
pub proof fn lemma_job_dispatch_reaches_own_handler(
    request: JobMonitorRequest,
    r: Result<JobStep, RouterError>,
)
    requires
        job_dispatch_post(request, r),
        r is Ok,
    ensures
        r matches Ok(Step::Call { call, pending }) && pending.operation == request.operation,
{
}

/// Reading is repeatable: resuming the same operation with the same reply
/// yields the same envelope.
pub proof fn lemma_job_reading_is_repeatable(
    pending: JobPending,
    reply: Result<Reply, BackendFailure>,
    a: Result<JobStep, RouterError>,
    b: Result<JobStep, RouterError>,
)
    requires
        job_resume_post(pending, reply, a),
        job_resume_post(pending, reply, b),
    ensures
        match (a, b) {
            (Ok(Step::Done(x)), Ok(Step::Done(y))) => x.success == y.success && x.operation@
                == y.operation@ && x.operation@ == pending.operation.name_spec() && x.data
                == y.data && x.count == y.count && x.message@ == y.message@,
            (Err(e), Err(f)) => e.kind_spec() == f.kind_spec() && e.message_spec()
                == f.message_spec(),
            _ => false,
        },
{
}

/// Every job operation is read back from its own name.
pub proof fn lemma_job_name_reads_back(op: JobOperation)
    ensures
        JobOperation::named(op.name_spec()) == Some(op),
{
    reveal_strlit("list");
    reveal_strlit("get");
    reveal_strlit("cancel");
    reveal_strlit("list_active");
    assert("list"@.len() == 4);
    assert("get"@.len() == 3);
    assert("cancel"@.len() == 6);
    assert("list_active"@.len() == 11);
}

/// No two job operations share a name.
pub proof fn lemma_job_names_differ(a: JobOperation, b: JobOperation)
    requires
        a.name_spec() == b.name_spec(),
    ensures
        a == b,
{
    lemma_job_name_reads_back(a);
    lemma_job_name_reads_back(b);
}

/// Every envelope of this router reports success: a failure is an error,
/// never an envelope.
pub proof fn lemma_job_envelopes_report_success(
    pending: JobPending,
    reply: Result<Reply, BackendFailure>,
    r: Result<JobStep, RouterError>,
)
    requires
        job_resume_post(pending, reply, r),
    ensures
        r matches Ok(Step::Done(response)) ==> response.success,
{
}

} // verus!
