//! The tool router: tool CRUD, attaching tools to agents one by one or in
//! bulk, and running tool source.

use crate::backend::{BackendFailure, Reply, Step};
use crate::bulk::{
    error_entries, error_entry, make_error_entry, next_target, outcome_views, skip_malformed,
    ItemOutcome, ItemOutcomeView,
};
use crate::error::RouterError;
use crate::field::Field;
use crate::ident::{canonical_id, BackendId};
use crate::json::{item_views, lookup, member_views, Json, JsonView};
use crate::settle::{fits, read_count, read_data, read_message, settle, ReplyShape, Wording};
use crate::text::{add_name, decimal, equals_ignoring_case, render_count, reversed, same_ignoring_case, same_text, texts, with_name};
use crate::validate::{
    first_malformed, first_malformed_from, first_missing, first_missing_from, identify,
    is_invalid_identifier, is_missing, is_not_implemented,
    lemma_malformed_identifier_is_reported, lemma_missing_field_is_reported, malformed, missing,
    not_implemented, require, require_present, Fields,
};
use vstd::prelude::*;
use vstd::string::*;

verus! {

/// The operations of the tool router.
#[derive(Clone, Copy, Debug, PartialEq, Eq, Structural)]
pub enum ToolOperation {
    List,
    Get,
    Create,
    Attach,
    BulkAttach,
    Update,
    Delete,
    Upsert,
    Detach,
    GenerateFromPrompt,
    GenerateSchema,
    RunFromSource,
    AddBaseTools,
}

/// The language of a tool's source.
#[derive(Clone, Copy, Debug, PartialEq, Eq, Structural)]
pub enum SourceKind {
    Python,
    JavaScript,
}

/// The language that `text` names, whatever the case of its letters.
pub open spec fn source_kind_spec(text: Option<String>) -> Option<SourceKind> {
    match text {
        Some(t) => if same_ignoring_case(t@, "python"@) {
            Some(SourceKind::Python)
        } else if same_ignoring_case(t@, "javascript"@) {
            Some(SourceKind::JavaScript)
        } else {
            None
        },
        None => None,
    }
}

/// The language that `text` names, whatever the case of its letters; any
/// other text names none.
pub fn source_kind(text: &Option<String>) -> (kind: Option<SourceKind>)
    ensures
        kind == source_kind_spec(*text),
{
    match text {
        Some(t) => if equals_ignoring_case(t.as_str(), "python") {
            Some(SourceKind::Python)
        } else if equals_ignoring_case(t.as_str(), "javascript") {
            Some(SourceKind::JavaScript)
        } else {
            None
        },
        None => None,
    }
}

/// A request to the tool router: the operation and every field that any of
/// its operations reads.
#[derive(Debug, PartialEq, Eq)]
pub struct ToolManagerRequest {
    pub operation: ToolOperation,
    pub tool_id: Option<String>,
    pub agent_id: Option<String>,
    pub agent_ids: Option<Vec<String>>,
    pub source_code: Option<String>,
    pub source_type: Option<String>,
    pub tags: Option<Vec<String>>,
    pub description: Option<String>,
    pub json_schema: Option<Json>,
    pub args_json_schema: Option<Json>,
    pub return_char_limit: Option<u32>,
    pub args: Option<Json>,
    pub env_vars: Option<Vec<(String, String)>>,
    pub name: Option<String>,
    pub request_heartbeat: Option<bool>,
}

/// The envelope of the tool router.
#[derive(Debug, PartialEq, Eq)]
pub struct ToolManagerResponse {
    pub success: bool,
    pub operation: String,
    pub message: String,
    pub data: Option<Json>,
    pub count: Option<usize>,
}

/// What a tool is created or upserted from.
#[derive(Debug, PartialEq, Eq)]
pub struct ToolSpec {
    pub source_code: String,
    pub description: Option<String>,
    pub json_schema: Option<Json>,
    pub args_json_schema: Option<Json>,
    pub source_type: Option<SourceKind>,
    pub tags: Option<Vec<String>>,
    pub return_char_limit: Option<u32>,
}

/// The fields of a tool that an update sets; an absent field is left as the
/// backend has it.
#[derive(Debug, PartialEq, Eq)]
pub struct ToolChanges {
    pub description: Option<String>,
    pub source_code: Option<String>,
    pub tags: Option<Vec<String>>,
    pub return_char_limit: Option<u32>,
}

/// What a run of tool source is made from.
#[derive(Debug, PartialEq, Eq)]
pub struct ToolRun {
    pub source_code: String,
    pub args: Json,
    pub env_vars: Option<Vec<(String, String)>>,
    pub name: Option<String>,
    pub source_type: Option<SourceKind>,
    pub args_json_schema: Option<Json>,
    pub json_schema: Option<Json>,
}

/// A backend call of the tool router.
#[derive(Debug, PartialEq, Eq)]
pub enum ToolCall {
    List,
    Get { tool: BackendId },
    Create(ToolSpec),
    Attach { agent: BackendId, tool: BackendId },
    Update { tool: BackendId, changes: ToolChanges },
    Delete { tool: BackendId },
    Upsert(ToolSpec),
    Detach { agent: BackendId, tool: BackendId },
    RunFromSource(ToolRun),
    AddBaseTools,
}

/// A bulk attach under way: the tool, the targets in the caller's order, and
/// the outcome of every target handled so far.
#[derive(Debug, PartialEq, Eq)]
pub struct BulkAttach {
    pub tool: BackendId,
    pub targets: Vec<String>,
    pub outcomes: Vec<ItemOutcome>,
}

/// The state a tool operation resumes from once its backend call is made.
#[derive(Debug, PartialEq, Eq)]
pub enum ToolPending {
    /// An operation of one call, with the identifiers the call is made on,
    /// as the caller wrote them.
    Single { operation: ToolOperation, subject: String },
    /// A bulk attach that has asked for one target's call.
    Bulk(BulkAttach),
}

/// A step of the tool router.
pub type ToolStep = Step<ToolCall, ToolPending, ToolManagerResponse>;

impl ToolOperation {
    /// The operation's name on the wire.
    pub open spec fn name_spec(self) -> Seq<char> {
        self.wording().operation@
    }

    /// The fields the operation requires, in the order they are checked.
    pub open spec fn required(self) -> Seq<Field> {
        match self {
            ToolOperation::Get => seq![Field::ToolId],
            ToolOperation::Create => seq![Field::SourceCode],
            ToolOperation::Attach => seq![Field::AgentId, Field::ToolId],
            ToolOperation::BulkAttach => seq![Field::ToolId, Field::AgentIds],
            ToolOperation::Update => seq![Field::ToolId],
            ToolOperation::Delete => seq![Field::ToolId],
            ToolOperation::Upsert => seq![Field::SourceCode],
            ToolOperation::Detach => seq![Field::AgentId, Field::ToolId],
            ToolOperation::RunFromSource => seq![Field::SourceCode, Field::Args],
            _ => seq![],
        }
    }

    /// The identifier fields the operation parses, in the order they are
    /// parsed.
    pub open spec fn identifiers(self) -> Seq<Field> {
        match self {
            ToolOperation::Get => seq![Field::ToolId],
            ToolOperation::Attach => seq![Field::AgentId, Field::ToolId],
            ToolOperation::BulkAttach => seq![Field::ToolId],
            ToolOperation::Update => seq![Field::ToolId],
            ToolOperation::Delete => seq![Field::ToolId],
            ToolOperation::Detach => seq![Field::AgentId, Field::ToolId],
            _ => seq![],
        }
    }

    /// Whether the backend integration can perform the operation.
    pub open spec fn available(self) -> bool {
        self != ToolOperation::GenerateFromPrompt && self != ToolOperation::GenerateSchema
    }

    /// How the operation reads the backend's reply.
    pub open spec fn shape(self) -> ReplyShape {
        match self {
            ToolOperation::List => ReplyShape::Listing,
            ToolOperation::AddBaseTools => ReplyShape::Listing,
            ToolOperation::Delete => ReplyShape::Acknowledge,
            _ => ReplyShape::Entity,
        }
    }

    /// The operation's words.  For an operation that is not available,
    /// `fixed` names the missing capability.
    #[verifier::when_used_as_spec(wording_spec)]
    pub fn wording(self) -> (w: Wording)
        ensures
            w == self.wording_spec(),
    {
        match self {
            ToolOperation::List => Wording {
                operation: "list",
                context: "Failed to list tools",
                fixed: "",
                before: "Found ",
                after: " tools",
            },
            ToolOperation::Get => Wording {
                operation: "get",
                context: "Failed to get tool",
                fixed: "Tool retrieved successfully",
                before: "",
                after: "",
            },
            ToolOperation::Create => Wording {
                operation: "create",
                context: "Failed to create tool",
                fixed: "Tool created successfully",
                before: "",
                after: "",
            },
            ToolOperation::Attach => Wording {
                operation: "attach",
                context: "Failed to attach tool",
                fixed: "Tool attached successfully",
                before: "",
                after: "",
            },
            ToolOperation::BulkAttach => Wording {
                operation: "bulk_attach",
                context: "Failed to attach tool",
                fixed: "",
                before: "Attached to ",
                after: " errors",
            },
            ToolOperation::Update => Wording {
                operation: "update",
                context: "Failed to update tool",
                fixed: "Tool updated successfully",
                before: "",
                after: "",
            },
            ToolOperation::Delete => Wording {
                operation: "delete",
                context: "Failed to delete tool",
                fixed: "Tool deleted successfully",
                before: "",
                after: "",
            },
            ToolOperation::Upsert => Wording {
                operation: "upsert",
                context: "Failed to upsert tool",
                fixed: "Tool upserted successfully",
                before: "",
                after: "",
            },
            ToolOperation::Detach => Wording {
                operation: "detach",
                context: "Failed to detach tool",
                fixed: "Tool detached successfully",
                before: "",
                after: "",
            },
            ToolOperation::GenerateFromPrompt => Wording {
                operation: "generate_from_prompt",
                context: "",
                fixed: "generate_from_prompt not available in SDK - requires custom implementation",
                before: "",
                after: "",
            },
            ToolOperation::GenerateSchema => Wording {
                operation: "generate_schema",
                context: "",
                fixed: "generate_schema not available in SDK - requires custom implementation",
                before: "",
                after: "",
            },
            ToolOperation::RunFromSource => Wording {
                operation: "run_from_source",
                context: "Failed to run tool from source",
                fixed: "Tool executed successfully",
                before: "",
                after: "",
            },
            ToolOperation::AddBaseTools => Wording {
                operation: "add_base_tools",
                context: "Failed to add base tools",
                fixed: "",
                before: "Added ",
                after: " base tools",
            },
        }
    }

    pub open spec fn wording_spec(self) -> Wording {
        match self {
            ToolOperation::List => Wording {
                operation: "list",
                context: "Failed to list tools",
                fixed: "",
                before: "Found ",
                after: " tools",
            },
            ToolOperation::Get => Wording {
                operation: "get",
                context: "Failed to get tool",
                fixed: "Tool retrieved successfully",
                before: "",
                after: "",
            },
            ToolOperation::Create => Wording {
                operation: "create",
                context: "Failed to create tool",
                fixed: "Tool created successfully",
                before: "",
                after: "",
            },
            ToolOperation::Attach => Wording {
                operation: "attach",
                context: "Failed to attach tool",
                fixed: "Tool attached successfully",
                before: "",
                after: "",
            },
            ToolOperation::BulkAttach => Wording {
                operation: "bulk_attach",
                context: "Failed to attach tool",
                fixed: "",
                before: "Attached to ",
                after: " errors",
            },
            ToolOperation::Update => Wording {
                operation: "update",
                context: "Failed to update tool",
                fixed: "Tool updated successfully",
                before: "",
                after: "",
            },
            ToolOperation::Delete => Wording {
                operation: "delete",
                context: "Failed to delete tool",
                fixed: "Tool deleted successfully",
                before: "",
                after: "",
            },
            ToolOperation::Upsert => Wording {
                operation: "upsert",
                context: "Failed to upsert tool",
                fixed: "Tool upserted successfully",
                before: "",
                after: "",
            },
            ToolOperation::Detach => Wording {
                operation: "detach",
                context: "Failed to detach tool",
                fixed: "Tool detached successfully",
                before: "",
                after: "",
            },
            ToolOperation::GenerateFromPrompt => Wording {
                operation: "generate_from_prompt",
                context: "",
                fixed: "generate_from_prompt not available in SDK - requires custom implementation",
                before: "",
                after: "",
            },
            ToolOperation::GenerateSchema => Wording {
                operation: "generate_schema",
                context: "",
                fixed: "generate_schema not available in SDK - requires custom implementation",
                before: "",
                after: "",
            },
            ToolOperation::RunFromSource => Wording {
                operation: "run_from_source",
                context: "Failed to run tool from source",
                fixed: "Tool executed successfully",
                before: "",
                after: "",
            },
            ToolOperation::AddBaseTools => Wording {
                operation: "add_base_tools",
                context: "Failed to add base tools",
                fixed: "",
                before: "Added ",
                after: " base tools",
            },
        }
    }

    /// The operation's name on the wire.
    pub fn name(self) -> (s: &'static str)
        ensures
            s@ == self.name_spec(),
    {
        self.wording().operation
    }
}

impl Fields for ToolManagerRequest {
    open spec fn has_field(&self, f: Field) -> bool {
        match f {
            Field::ToolId => self.tool_id is Some,
            Field::AgentId => self.agent_id is Some,
            Field::AgentIds => self.agent_ids is Some,
            Field::SourceCode => self.source_code is Some,
            Field::Args => self.args is Some,
            _ => false,
        }
    }

    open spec fn raw_identifier(&self, f: Field) -> Option<Seq<char>> {
        match f {
            Field::ToolId => match self.tool_id {
                Some(t) => Some(t@),
                None => None,
            },
            Field::AgentId => match self.agent_id {
                Some(t) => Some(t@),
                None => None,
            },
            _ => None,
        }
    }
}

impl ToolManagerRequest {
    /// Whether the request sets any field that an update can change.
    pub open spec fn has_changes(self) -> bool {
        self.description is Some || self.source_code is Some || self.tags is Some
            || self.return_char_limit is Some
    }
}

/// Whether `spec` is what the request asks to create or upsert.
pub open spec fn is_tool_spec(request: ToolManagerRequest, spec: ToolSpec) -> bool {
    &&& Some(spec.source_code) == request.source_code
    &&& spec.description == request.description
    &&& spec.json_schema == request.json_schema
    &&& spec.args_json_schema == request.args_json_schema
    &&& spec.source_type == source_kind_spec(request.source_type)
    &&& spec.tags == request.tags
    &&& spec.return_char_limit == request.return_char_limit
}

/// Whether `call` is the one backend call that the request's operation
/// makes, built from the request's fields.
pub open spec fn is_tool_call(request: ToolManagerRequest, call: ToolCall) -> bool {
    match request.operation {
        ToolOperation::List => call is List,
        ToolOperation::Get => call matches ToolCall::Get { tool } && tool@ == canonical_id(
            request.tool_id->0@,
        ),
        ToolOperation::Create => call matches ToolCall::Create(spec) && is_tool_spec(request, spec),
        ToolOperation::Attach => call matches ToolCall::Attach { agent, tool } && agent@
            == canonical_id(request.agent_id->0@) && tool@ == canonical_id(request.tool_id->0@),
        ToolOperation::Update => call matches ToolCall::Update { tool, changes } && tool@
            == canonical_id(request.tool_id->0@) && changes.description == request.description
            && changes.source_code == request.source_code && changes.tags == request.tags
            && changes.return_char_limit == request.return_char_limit,
        ToolOperation::Delete => call matches ToolCall::Delete { tool } && tool@ == canonical_id(
            request.tool_id->0@,
        ),
        ToolOperation::Upsert => call matches ToolCall::Upsert(spec) && is_tool_spec(request, spec),
        ToolOperation::Detach => call matches ToolCall::Detach { agent, tool } && agent@
            == canonical_id(request.agent_id->0@) && tool@ == canonical_id(request.tool_id->0@),
        ToolOperation::RunFromSource => call matches ToolCall::RunFromSource(run) && Some(
            run.source_code,
        ) == request.source_code && Some(run.args) == request.args && run.env_vars
            == request.env_vars && run.name == request.name && run.source_type == source_kind_spec(
            request.source_type,
        ) && run.args_json_schema == request.args_json_schema && run.json_schema
            == request.json_schema,
        ToolOperation::AddBaseTools => call is AddBaseTools,
        _ => false,
    }
}

/// The entry reported for a target that the tool was attached to.
pub open spec fn result_entry(target: Seq<char>, entity: JsonView) -> JsonView {
    JsonView::Object(
        seq![
            ("agent_id"@, JsonView::Str(target)),
            ("success"@, JsonView::Bool(true)),
            ("data"@, entity),
        ],
    )
}

/// The entries of the first `upto` targets that succeeded, in order.
pub open spec fn result_entries(
    targets: Seq<Seq<char>>,
    outcomes: Seq<ItemOutcomeView>,
    upto: int,
) -> Seq<JsonView>
    decreases upto,
{
    if upto <= 0 {
        seq![]
    } else {
        match outcomes[upto - 1] {
            ItemOutcomeView::Succeeded(entity) => result_entries(targets, outcomes, upto - 1).push(
                result_entry(targets[upto - 1], entity),
            ),
            ItemOutcomeView::Failed(_) => result_entries(targets, outcomes, upto - 1),
        }
    }
}

/// The sentence of a finished bulk attach.
pub open spec fn bulk_message(attached: nat, failed: nat) -> Seq<char> {
    "Attached to "@ + decimal(attached) + " agents, "@ + decimal(failed) + " errors"@
}

/// Whether `response` is the envelope of a bulk attach that ended with
/// `outcomes` for `targets`: per-item entries, the count of successes, and
/// success only where nothing failed.
pub open spec fn is_bulk_response(
    response: ToolManagerResponse,
    targets: Seq<Seq<char>>,
    outcomes: Seq<ItemOutcomeView>,
) -> bool {
    let results = result_entries(targets, outcomes, outcomes.len() as int);
    let errors = error_entries(targets, outcomes, outcomes.len() as int);
    &&& response.success == (errors.len() == 0)
    &&& response.operation@ == "bulk_attach"@
    &&& response.message@ == bulk_message(results.len(), errors.len())
    &&& response.count == Some(results.len() as usize)
    &&& response.data matches Some(data) && data@ == JsonView::Object(
        seq![("results"@, JsonView::Array(results)), ("errors"@, JsonView::Array(errors))],
    )
}

/// Whether `step` is how a bulk attach goes on from `outcomes`: malformed
/// targets are recorded as failed without a backend call, the next
/// well-formed target gets the one call, and with no target left the
/// envelope is built.
pub open spec fn is_bulk_step(
    step: ToolStep,
    tool: Seq<char>,
    targets: Seq<String>,
    outcomes: Seq<ItemOutcomeView>,
) -> bool {
    let reached = skip_malformed(texts(targets), outcomes);
    if reached.len() < targets.len() {
        step matches Step::Call {
            call: ToolCall::Attach { agent, tool: t },
            pending: ToolPending::Bulk(state),
        } && agent@ == canonical_id(targets[reached.len() as int]@) && t@ == tool && state.tool@
            == tool && state.targets@ == targets && outcome_views(state.outcomes@) == reached
    } else {
        step matches Step::Done(response) && is_bulk_response(response, texts(targets), reached)
    }
}

/// The outcome recorded for a target from the backend's reply to its call.
pub open spec fn item_outcome(reply: Result<Reply, BackendFailure>) -> ItemOutcomeView {
    match reply {
        Ok(Reply::Entity(entity)) => ItemOutcomeView::Succeeded(entity@),
        Ok(_) => ItemOutcomeView::Failed("unexpected reply from the backend"@),
        Err(failure) => ItemOutcomeView::Failed(failure.detail@),
    }
}

/// The identifiers that the request's operation is made on, as the caller
/// wrote them.
pub open spec fn tool_subject(request: ToolManagerRequest) -> Seq<char> {
    match request.operation {
        ToolOperation::Attach | ToolOperation::Detach => with_name(
            with_name(seq![], request.agent_id),
            request.tool_id,
        ),
        ToolOperation::Get | ToolOperation::Update | ToolOperation::Delete => with_name(
            seq![],
            request.tool_id,
        ),
        _ => seq![],
    }
}

/// Whether `r` is what the tool router owes for `request`.
pub open spec fn tool_dispatch_post(
    request: ToolManagerRequest,
    r: Result<ToolStep, RouterError>,
) -> bool {
    let op = request.operation;
    let name = op.name_spec();
    if !op.available() {
        r matches Err(e) && is_not_implemented(e, name, op.wording().fixed@)
    } else {
        match first_missing(op.required(), request) {
            Some(f) => r matches Err(e) && is_missing(e, name, f),
            None => if op == ToolOperation::Update && !request.has_changes() {
                r matches Err(e) && is_missing(e, name, Field::Description)
            } else {
                match first_malformed(op.identifiers(), request) {
                    Some(f) => r matches Err(e) && is_invalid_identifier(
                        e,
                        name,
                        f,
                        request.raw_identifier(f)->0,
                    ),
                    None => r matches Ok(step) && if op == ToolOperation::BulkAttach {
                        is_bulk_step(
                            step,
                            canonical_id(request.tool_id->0@),
                            request.agent_ids->0@,
                            seq![],
                        )
                    } else {
                        step matches Step::Call {
                            call,
                            pending: ToolPending::Single { operation, subject },
                        } && is_tool_call(request, call) && operation == op && subject@
                            == tool_subject(request)
                    },
                }
            },
        }
    }
}

/// Whether `r` is what the tool router owes when `pending` is resumed with
/// `reply`.
pub open spec fn tool_resume_post(
    pending: ToolPending,
    reply: Result<Reply, BackendFailure>,
    r: Result<ToolStep, RouterError>,
) -> bool {
    match pending {
        ToolPending::Single { operation, subject } => {
            let shape = operation.shape();
            let words = operation.wording();
            match reply {
                Err(failure) => r matches Err(e) && crate::backend::is_failure_error(
                    e,
                    words.operation@,
                    words.context@,
                    subject@,
                    failure,
                ),
                Ok(received) => if fits(shape, received) {
                    r matches Ok(Step::Done(response)) && response.success && response.operation@
                        == words.operation@ && response.data == read_data(shape, received)
                        && response.count == read_count(shape, received) && response.message@
                        == read_message(shape, words, received)
                } else {
                    r matches Err(e) && crate::backend::is_unexpected_reply(
                        e,
                        words.operation@,
                        words.context@,
                    )
                },
            }
        },
        ToolPending::Bulk(state) => if state.outcomes@.len() < state.targets@.len() {
            r matches Ok(step) && is_bulk_step(
                step,
                state.tool@,
                state.targets@,
                outcome_views(state.outcomes@).push(item_outcome(reply)),
            )
        } else {
            r matches Err(e) && crate::backend::is_unexpected_reply(
                e,
                ToolOperation::BulkAttach.name_spec(),
                ToolOperation::BulkAttach.wording().context@,
            )
        },
    }
}

fn single(call: ToolCall, operation: ToolOperation, subject: String) -> (step: ToolStep)
    ensures
        step matches Step::Call { call: c, pending: ToolPending::Single { operation: o, subject: s } }
            && c == call && o == operation && s == subject,
{
    Step::Call { call, pending: ToolPending::Single { operation, subject } }
}

fn subject_of(request: &ToolManagerRequest) -> (subject: String)
    ensures
        subject@ == tool_subject(*request),
{
    match request.operation {
        ToolOperation::Attach | ToolOperation::Detach => add_name(
            add_name(String::new(), &request.agent_id),
            &request.tool_id,
        ),
        ToolOperation::Get | ToolOperation::Update | ToolOperation::Delete => add_name(
            String::new(),
            &request.tool_id,
        ),
        _ => String::new(),
    }
}

/// Validates a request and names its backend call.  Nothing is asked of the
/// backend where a required field is missing, an identifier is malformed or
/// the operation is not available.
pub fn handle_tool_manager(request: ToolManagerRequest) -> (r: Result<ToolStep, RouterError>)
    ensures
        tool_dispatch_post(request, r),
{
    let op = request.operation;
    let name = op.name();
    let subject = subject_of(&request);
    proof {
        reveal_with_fuel(first_missing_from, 3);
        reveal_with_fuel(first_malformed_from, 3);
    }
    match op {
        ToolOperation::List => Ok(single(ToolCall::List, op, subject)),
        ToolOperation::AddBaseTools => Ok(single(ToolCall::AddBaseTools, op, subject)),
        ToolOperation::GenerateFromPrompt | ToolOperation::GenerateSchema => Err(
            not_implemented(name, op.wording().fixed),
        ),
        ToolOperation::Get => {
            let tool = identify(&request.tool_id, name, Field::ToolId)?;
            Ok(single(ToolCall::Get { tool }, op, subject))
        },
        ToolOperation::Delete => {
            let tool = identify(&request.tool_id, name, Field::ToolId)?;
            Ok(single(ToolCall::Delete { tool }, op, subject))
        },
        ToolOperation::Create => {
            let source_type = source_kind(&request.source_type);
            let source_code = require(request.source_code, name, Field::SourceCode)?;
            Ok(
                single(
                    ToolCall::Create(
                        ToolSpec {
                            source_code,
                            description: request.description,
                            json_schema: request.json_schema,
                            args_json_schema: request.args_json_schema,
                            source_type,
                            tags: request.tags,
                            return_char_limit: request.return_char_limit,
                        },
                    ),
                    op,
                    subject,
                ),
            )
        },
        ToolOperation::Upsert => {
            let source_type = source_kind(&request.source_type);
            let source_code = require(request.source_code, name, Field::SourceCode)?;
            Ok(
                single(
                    ToolCall::Upsert(
                        ToolSpec {
                            source_code,
                            description: request.description,
                            json_schema: request.json_schema,
                            args_json_schema: request.args_json_schema,
                            source_type,
                            tags: request.tags,
                            return_char_limit: request.return_char_limit,
                        },
                    ),
                    op,
                    subject,
                ),
            )
        },
        ToolOperation::Attach => {
            require_present(&request.agent_id, name, Field::AgentId)?;
            require_present(&request.tool_id, name, Field::ToolId)?;
            let agent = identify(&request.agent_id, name, Field::AgentId)?;
            let tool = identify(&request.tool_id, name, Field::ToolId)?;
            Ok(single(ToolCall::Attach { agent, tool }, op, subject))
        },
        ToolOperation::Detach => {
            require_present(&request.agent_id, name, Field::AgentId)?;
            require_present(&request.tool_id, name, Field::ToolId)?;
            let agent = identify(&request.agent_id, name, Field::AgentId)?;
            let tool = identify(&request.tool_id, name, Field::ToolId)?;
            Ok(single(ToolCall::Detach { agent, tool }, op, subject))
        },
        ToolOperation::Update => {
            require_present(&request.tool_id, name, Field::ToolId)?;
            if request.description.is_none() && request.source_code.is_none()
                && request.tags.is_none() && request.return_char_limit.is_none() {
                return Err(missing(name, Field::Description));
            }
            let tool = identify(&request.tool_id, name, Field::ToolId)?;
            Ok(
                single(
                    ToolCall::Update {
                        tool,
                        changes: ToolChanges {
                            description: request.description,
                            source_code: request.source_code,
                            tags: request.tags,
                            return_char_limit: request.return_char_limit,
                        },
                    },
                    op,
                    subject,
                ),
            )
        },
        ToolOperation::RunFromSource => {
            let source_type = source_kind(&request.source_type);
            require_present(&request.source_code, name, Field::SourceCode)?;
            let args = require(request.args, name, Field::Args)?;
            let source_code = require(request.source_code, name, Field::SourceCode)?;
            Ok(
                single(
                    ToolCall::RunFromSource(
                        ToolRun {
                            source_code,
                            args,
                            env_vars: request.env_vars,
                            name: request.name,
                            source_type,
                            args_json_schema: request.args_json_schema,
                            json_schema: request.json_schema,
                        },
                    ),
                    op,
                    subject,
                ),
            )
        },
        ToolOperation::BulkAttach => {
            require_present(&request.tool_id, name, Field::ToolId)?;
            require_present(&request.agent_ids, name, Field::AgentIds)?;
            let tool = identify(&request.tool_id, name, Field::ToolId)?;
            let targets = require(request.agent_ids, name, Field::AgentIds)?;
            let state = BulkAttach { tool, targets, outcomes: Vec::new() };
            assert(outcome_views(state.outcomes@) =~= seq![]);
            Ok(bulk_advance(state))
        },
    }
}

/// Folds the backend's reply into the envelope, or, in a bulk operation,
/// records it and goes on to the next target.  One item's failure never
/// stops the items after it.
pub fn resume_tool_manager(
    pending: ToolPending,
    reply: Result<Reply, BackendFailure>,
) -> (r: Result<ToolStep, RouterError>)
    ensures
        tool_resume_post(pending, reply, r),
{
    match pending {
        ToolPending::Single { operation, subject } => {
            let settled = settle(
                operation.shape_of(),
                operation.wording(),
                subject.as_str(),
                reply,
            );
            match settled {
                Ok(s) => Ok(
                    Step::Done(
                        ToolManagerResponse {
                            success: true,
                            operation: String::from_str(operation.name()),
                            message: s.message,
                            data: s.data,
                            count: s.count,
                        },
                    ),
                ),
                Err(e) => Err(e),
            }
        },
        ToolPending::Bulk(state) => {
            let outcome = match reply {
                Ok(Reply::Entity(entity)) => ItemOutcome::Succeeded(entity),
                Ok(_) => ItemOutcome::Failed(String::from_str("unexpected reply from the backend")),
                Err(failure) => ItemOutcome::Failed(failure.detail),
            };
            let mut state = state;
            let ghost before = outcome_views(state.outcomes@);
            if state.outcomes.len() < state.targets.len() {
                state.outcomes.push(outcome);
                assert(outcome_views(state.outcomes@) =~= before.push(item_outcome(reply)));
                Ok(bulk_advance(state))
            } else {
                let words = ToolOperation::BulkAttach.wording();
                Err(crate::backend::unexpected_reply(words.operation, words.context))
            }
        },
    }
}

impl ToolOperation {
    /// How the operation reads the backend's reply.
    pub fn shape_of(self) -> (shape: ReplyShape)
        ensures
            shape == self.shape(),
    {
        match self {
            ToolOperation::List => ReplyShape::Listing,
            ToolOperation::AddBaseTools => ReplyShape::Listing,
            ToolOperation::Delete => ReplyShape::Acknowledge,
            _ => ReplyShape::Entity,
        }
    }
}

/// Goes on with a bulk attach: records every malformed target up to the next
/// well-formed one, and asks for that one's call or, with none left, builds
/// the envelope.
fn bulk_advance(state: BulkAttach) -> (step: ToolStep)
    requires
        state.outcomes@.len() <= state.targets@.len(),
    ensures
        is_bulk_step(step, state.tool@, state.targets@, outcome_views(state.outcomes@)),
{
    let mut state = state;
    match next_target(&state.targets, &mut state.outcomes) {
        Some(agent) => {
            let tool = state.tool.duplicate();
            Step::Call { call: ToolCall::Attach { agent, tool }, pending: ToolPending::Bulk(state) }
        },
        None => Step::Done(bulk_response(&state.targets, state.outcomes)),
    }
}

/// Builds the envelope of a finished bulk attach.
fn bulk_response(targets: &Vec<String>, outcomes: Vec<ItemOutcome>) -> (response:
    ToolManagerResponse)
    requires
        outcomes@.len() <= targets@.len(),
    ensures
        is_bulk_response(response, texts(targets@), outcome_views(outcomes@)),
{
    let total = outcomes.len();
    let ghost all = outcome_views(outcomes@);
    let ghost names = texts(targets@);
    let mut stack = reversed(outcomes);
    let mut results: Vec<Json> = Vec::new();
    let mut errors: Vec<Json> = Vec::new();
    let mut i: usize = 0;
    assert(item_views(results@) =~= result_entries(names, all, 0));
    assert(item_views(errors@) =~= error_entries(names, all, 0));
    while i < total
        invariant
            i <= total,
            total == all.len(),
            total <= targets@.len(),
            names == texts(targets@),
            stack@.len() == total - i,
            forall|k: int| 0 <= k < stack@.len() ==> (#[trigger] stack@[k])@ == all[total - 1 - k],
            item_views(results@) == result_entries(names, all, i as int),
            item_views(errors@) == error_entries(names, all, i as int),
        decreases total - i,
    {
        let ghost old_results = item_views(results@);
        let ghost old_errors = item_views(errors@);
        let outcome = stack.pop().unwrap();
        assert(outcome@ == all[i as int]);
        match outcome {
            ItemOutcome::Succeeded(entity) => {
                let target = Json::text(targets[i].clone());
                let mut members: Vec<(String, Json)> = Vec::new();
                members.push((String::from_str("agent_id"), target));
                members.push((String::from_str("success"), Json::boolean(true)));
                members.push((String::from_str("data"), entity));
                let entry = Json::object(members);
                assert(member_views(members@) =~= seq![
                    ("agent_id"@, JsonView::Str(names[i as int])),
                    ("success"@, JsonView::Bool(true)),
                    ("data"@, entity@),
                ]);
                results.push(entry);
                assert(item_views(results@) =~= old_results.push(
                    result_entry(names[i as int], entity@),
                ));
            },
            ItemOutcome::Failed(reason) => {
                let ghost why = reason@;
                errors.push(make_error_entry(&targets[i], reason));
                assert(item_views(errors@) =~= old_errors.push(error_entry(names[i as int], why)));
            },
        }
        i = i + 1;
    }
    let attached = results.len();
    let failed = errors.len();
    let mut message = String::from_str("Attached to ");
    message.append(render_count(attached as u64).as_str());
    message.append(" agents, ");
    message.append(render_count(failed as u64).as_str());
    message.append(" errors");
    let mut members: Vec<(String, Json)> = Vec::new();
    let results_json = Json::array(results);
    let errors_json = Json::array(errors);
    members.push((String::from_str("results"), results_json));
    members.push((String::from_str("errors"), errors_json));
    let data = Json::object(members);
    assert(member_views(members@) =~= seq![
        ("results"@, JsonView::Array(result_entries(names, all, total as int))),
        ("errors"@, JsonView::Array(error_entries(names, all, total as int))),
    ]);
    ToolManagerResponse {
        success: failed == 0,
        operation: String::from_str("bulk_attach"),
        message,
        data: Some(data),
        count: Some(attached),
    }
}

impl ToolOperation {
    /// The operation that `raw` names.
    pub open spec fn named(raw: Seq<char>) -> Option<ToolOperation> {
        if raw == "list"@ {
            Some(ToolOperation::List)
        } else if raw == "get"@ {
            Some(ToolOperation::Get)
        } else if raw == "create"@ {
            Some(ToolOperation::Create)
        } else if raw == "attach"@ {
            Some(ToolOperation::Attach)
        } else if raw == "bulk_attach"@ {
            Some(ToolOperation::BulkAttach)
        } else if raw == "update"@ {
            Some(ToolOperation::Update)
        } else if raw == "delete"@ {
            Some(ToolOperation::Delete)
        } else if raw == "upsert"@ {
            Some(ToolOperation::Upsert)
        } else if raw == "detach"@ {
            Some(ToolOperation::Detach)
        } else if raw == "generate_from_prompt"@ {
            Some(ToolOperation::GenerateFromPrompt)
        } else if raw == "generate_schema"@ {
            Some(ToolOperation::GenerateSchema)
        } else if raw == "run_from_source"@ {
            Some(ToolOperation::RunFromSource)
        } else if raw == "add_base_tools"@ {
            Some(ToolOperation::AddBaseTools)
        } else {
            None
        }
    }

    /// Reads the operation that a request names.
    pub fn parse(raw: &str) -> (r: Result<ToolOperation, RouterError>)
        ensures
            match ToolOperation::named(raw@) {
                Some(op) => r == Ok::<ToolOperation, RouterError>(op),
                None => r matches Err(RouterError::UnknownOperation { raw: t }) && t@ == raw@,
            },
    {
        if same_text(raw, "list") {
            Ok(ToolOperation::List)
        } else if same_text(raw, "get") {
            Ok(ToolOperation::Get)
        } else if same_text(raw, "create") {
            Ok(ToolOperation::Create)
        } else if same_text(raw, "attach") {
            Ok(ToolOperation::Attach)
        } else if same_text(raw, "bulk_attach") {
            Ok(ToolOperation::BulkAttach)
        } else if same_text(raw, "update") {
            Ok(ToolOperation::Update)
        } else if same_text(raw, "delete") {
            Ok(ToolOperation::Delete)
        } else if same_text(raw, "upsert") {
            Ok(ToolOperation::Upsert)
        } else if same_text(raw, "detach") {
            Ok(ToolOperation::Detach)
        } else if same_text(raw, "generate_from_prompt") {
            Ok(ToolOperation::GenerateFromPrompt)
        } else if same_text(raw, "generate_schema") {
            Ok(ToolOperation::GenerateSchema)
        } else if same_text(raw, "run_from_source") {
            Ok(ToolOperation::RunFromSource)
        } else if same_text(raw, "add_base_tools") {
            Ok(ToolOperation::AddBaseTools)
        } else {
            Err(RouterError::UnknownOperation { raw: String::from_str(raw) })
        }
    }
}

/// Every tool operation is read back from its own name.
pub proof fn lemma_tool_name_reads_back(op: ToolOperation)
    ensures
        ToolOperation::named(op.name_spec()) == Some(op),
{
    reveal_strlit("list");
    reveal_strlit("get");
    reveal_strlit("create");
    reveal_strlit("attach");
    reveal_strlit("bulk_attach");
    reveal_strlit("update");
    reveal_strlit("delete");
    reveal_strlit("upsert");
    reveal_strlit("detach");
    reveal_strlit("generate_from_prompt");
    reveal_strlit("generate_schema");
    reveal_strlit("run_from_source");
    reveal_strlit("add_base_tools");
    assert("list"@.len() == 4);
    assert("get"@.len() == 3);
    assert("create"@.len() == 6);
    assert("attach"@.len() == 6);
    assert("bulk_attach"@.len() == 11);
    assert("update"@.len() == 6);
    assert("delete"@.len() == 6);
    assert("upsert"@.len() == 6);
    assert("detach"@.len() == 6);
    assert("generate_from_prompt"@.len() == 20);
    assert("generate_schema"@.len() == 15);
    assert("run_from_source"@.len() == 15);
    assert("add_base_tools"@.len() == 14);
    assert("attach"@[0] == 'a');
    assert("create"@[0] == 'c');
    assert("update"@[0] == 'u');
    assert("delete"@[0] == 'd');
    assert("upsert"@[0] == 'u');
    assert("upsert"@[2] == 's');
    assert("update"@[2] == 'd');
    assert("detach"@[0] == 'd');
    assert("detach"@[2] == 't');
    assert("delete"@[2] == 'l');
    assert("run_from_source"@[0] == 'r');
    assert("generate_schema"@[0] == 'g');
}

/// No two tool operations share a name.
pub proof fn lemma_tool_names_differ(a: ToolOperation, b: ToolOperation)
    requires
        a.name_spec() == b.name_spec(),
    ensures
        a == b,
{
    lemma_tool_name_reads_back(a);
    lemma_tool_name_reads_back(b);
}

/// A request that lacks a field its operation requires is refused as
/// missing a field, and no backend call is asked for: the field reported is
/// required and absent, and it is the lacking field itself where every
/// field required before it is there.
pub proof fn lemma_tool_missing_field_is_refused(
    request: ToolManagerRequest,
    at: int,
    r: Result<ToolStep, RouterError>,
)
    requires
        tool_dispatch_post(request, r),
        0 <= at < request.operation.required().len(),
        !request.has_field(request.operation.required()[at]),
    ensures
        r is Err,
        r->Err_0 is MissingField,
        ({
            let field = r->Err_0->MissingField_field;
            &&& r->Err_0->MissingField_operation@ == request.operation.name_spec()
            &&& request.operation.required().contains(field)
            &&& !request.has_field(field)
            &&& (forall|j: int|
                0 <= j < at ==> request.has_field(#[trigger] request.operation.required()[j]))
                ==> field == request.operation.required()[at]
        }),
{
    lemma_missing_field_is_reported(request.operation.required(), request, at);
}

/// A request that holds everything its operation requires but a malformed
/// identifier is refused as holding an invalid identifier, and no backend
/// call is asked for: the field reported is malformed, its text is
/// reported with it, and it is the malformed field itself where no
/// identifier field before it is malformed.
pub proof fn lemma_tool_malformed_identifier_is_refused(
    request: ToolManagerRequest,
    at: int,
    r: Result<ToolStep, RouterError>,
)
    requires
        tool_dispatch_post(request, r),
        first_missing(request.operation.required(), request) is None,
        !(request.operation == ToolOperation::Update && !request.has_changes()),
        0 <= at < request.operation.identifiers().len(),
        malformed(request, request.operation.identifiers()[at]),
    ensures
        r is Err,
        r->Err_0 is InvalidIdentifier,
        ({
            let field = r->Err_0->InvalidIdentifier_field;
            &&& r->Err_0->InvalidIdentifier_operation@ == request.operation.name_spec()
            &&& malformed(request, field)
            &&& request.raw_identifier(field) == Some(r->Err_0->InvalidIdentifier_raw@)
            &&& (forall|j: int|
                0 <= j < at ==> !malformed(request, #[trigger] request.operation.identifiers()[j]))
                ==> field == request.operation.identifiers()[at]
        }),
{
    lemma_malformed_identifier_is_reported(request.operation.identifiers(), request, at);
}

impl ToolPending {
    /// The operation that the state belongs to.
    pub open spec fn operation(self) -> ToolOperation {
        match self {
            ToolPending::Single { operation, .. } => operation,
            ToolPending::Bulk(_) => ToolOperation::BulkAttach,
        }
    }
}

/// Dispatch reaches one handler, the operation's own: the step that a
/// request begins with belongs to the request's operation, and an envelope
/// names it.
pub proof fn lemma_tool_dispatch_reaches_own_handler(
    request: ToolManagerRequest,
    r: Result<ToolStep, RouterError>,
)
    requires
        tool_dispatch_post(request, r),
        r is Ok,
    ensures
        match r->Ok_0 {
            Step::Call { call, pending } => pending.operation() == request.operation,
            Step::Done(response) => response.operation@ == request.operation.name_spec(),
        },
{
    reveal_strlit("bulk_attach");
}

/// A resumed operation stays with its handler: the next step belongs to the
/// same operation, and the envelope names it.
pub proof fn lemma_tool_resume_stays_with_handler(
    pending: ToolPending,
    reply: Result<Reply, BackendFailure>,
    r: Result<ToolStep, RouterError>,
)
    requires
        tool_resume_post(pending, reply, r),
        r is Ok,
    ensures
        match r->Ok_0 {
            Step::Call { call, pending: next } => next.operation() == pending.operation(),
            Step::Done(response) => response.operation@ == pending.operation().name_spec(),
        },
{
}

/// Reading is repeatable: resuming the same operation of one call with the
/// same reply yields the same payload, count and sentence.
pub proof fn lemma_tool_reading_is_repeatable(
    pending: ToolPending,
    reply: Result<Reply, BackendFailure>,
    a: Result<ToolStep, RouterError>,
    b: Result<ToolStep, RouterError>,
)
    requires
        pending is Single,
        tool_resume_post(pending, reply, a),
        tool_resume_post(pending, reply, b),
    ensures
        match (a, b) {
            (Ok(Step::Done(x)), Ok(Step::Done(y))) => x.success == y.success && x.operation@
                == y.operation@ && x.data == y.data && x.count == y.count && x.message@
                == y.message@,
            (Err(e), Err(f)) => e.kind_spec() == f.kind_spec() && e.message_spec()
                == f.message_spec(),
            _ => false,
        },
{
}

/// What create and get return is the backend's entity, unchanged: where the
/// backend answers a get with the entity it answered the create with, both
/// envelopes carry that entity, identifier and fields included.
pub proof fn lemma_tool_create_then_get(
    entity: Json,
    creating: ToolPending,
    created: Result<ToolStep, RouterError>,
    reading: ToolPending,
    read: Result<ToolStep, RouterError>,
)
    requires
        creating is Single,
        creating.operation() == ToolOperation::Create,
        tool_resume_post(creating, Ok(Reply::Entity(entity)), created),
        reading is Single,
        reading.operation() == ToolOperation::Get,
        tool_resume_post(reading, Ok(Reply::Entity(entity)), read),
    ensures
        created matches Ok(Step::Done(c)) && c.data == Some(entity),
        read matches Ok(Step::Done(g)) && g.data == Some(entity),
{
}

/// As many entries are reported for successes as targets succeeded.
pub proof fn lemma_result_entries(
    targets: Seq<Seq<char>>,
    outcomes: Seq<ItemOutcomeView>,
    upto: int,
)
    requires
        0 <= upto <= outcomes.len(),
    ensures
        result_entries(targets, outcomes, upto).len() == crate::bulk::successes(outcomes, upto),
    decreases upto,
{
    if upto > 0 {
        lemma_result_entries(targets, outcomes, upto - 1);
    }
}

/// Bulk totals: of N targets of which K failed, the envelope counts N - K,
/// succeeds only where K is zero, and lists exactly K errors, each naming
/// the target that failed with the reason recorded for it.
pub proof fn lemma_bulk_attach_totals(
    response: ToolManagerResponse,
    targets: Seq<Seq<char>>,
    outcomes: Seq<ItemOutcomeView>,
)
    requires
        is_bulk_response(response, targets, outcomes),
        outcomes.len() == targets.len(),
        targets.len() <= usize::MAX,
    ensures
        response.count == Some(
            (targets.len() - crate::bulk::failures(outcomes, targets.len() as int)) as usize,
        ),
        response.success == (crate::bulk::failures(outcomes, targets.len() as int) == 0),
        response.data is Some,
        lookup(response.data->0@->Object_0, "errors"@) == Some(
            JsonView::Array(error_entries(targets, outcomes, targets.len() as int)),
        ),
        error_entries(targets, outcomes, targets.len() as int).len() == crate::bulk::failures(
            outcomes,
            targets.len() as int,
        ),
        forall|k: int|
            0 <= k < error_entries(targets, outcomes, targets.len() as int).len() ==> exists|
                i: int,
            |
                0 <= i < targets.len() && outcomes[i] is Failed && #[trigger] error_entries(
                    targets,
                    outcomes,
                    targets.len() as int,
                )[k] == error_entry(targets[i], outcomes[i]->Failed_0),
{
    let n = targets.len() as int;
    lemma_result_entries(targets, outcomes, n);
    crate::bulk::lemma_successes_and_failures(outcomes, n);
    crate::bulk::lemma_error_entries(targets, outcomes, n);
    reveal_strlit("results");
    reveal_strlit("errors");
    let members = response.data->0@->Object_0;
    assert("results"@.len() == 7);
    assert("errors"@.len() == 6);
    assert(members[0].0 != "errors"@);
    assert(crate::json::position_from(members, "errors"@, 1) == Some(1int));
    assert(crate::json::position_from(members, "errors"@, 0) == Some(1int));
}

/// A bulk attach ends only when every target has its outcome: the envelope
/// is built from as many outcomes as there are targets.
pub proof fn lemma_bulk_attach_ends_with_every_target(
    response: ToolManagerResponse,
    tool: Seq<char>,
    targets: Seq<String>,
    outcomes: Seq<ItemOutcomeView>,
)
    requires
        outcomes.len() <= targets.len(),
        is_bulk_step(Step::Done(response), tool, targets, outcomes),
    ensures
        skip_malformed(texts(targets), outcomes).len() == targets.len(),
        is_bulk_response(response, texts(targets), skip_malformed(texts(targets), outcomes)),
{
    crate::bulk::lemma_skip_malformed(texts(targets), outcomes);
}

/// An envelope that does not report success is a bulk attach of which some
/// target failed: every other failure is an error, never an envelope.
pub proof fn lemma_tool_failure_envelope_is_partial_failure(
    pending: ToolPending,
    reply: Result<Reply, BackendFailure>,
    r: Result<ToolStep, RouterError>,
)
    requires
        tool_resume_post(pending, reply, r),
        r matches Ok(Step::Done(response)) && !response.success,
    ensures
        pending matches ToolPending::Bulk(state) && ({
            let reached = skip_malformed(
                texts(state.targets@),
                outcome_views(state.outcomes@).push(item_outcome(reply)),
            );
            crate::bulk::failures(reached, reached.len() as int) > 0
        }),
{
    match pending {
        ToolPending::Bulk(state) => {
            let reached = skip_malformed(
                texts(state.targets@),
                outcome_views(state.outcomes@).push(item_outcome(reply)),
            );
            crate::bulk::lemma_error_entries(texts(state.targets@), reached, reached.len() as int);
        },
        _ => {},
    }
}

} // verus!
