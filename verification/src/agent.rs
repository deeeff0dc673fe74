//! The agent router: agent CRUD, messaging, export, cloning, configuration,
//! bulk deletion and message utilities.

use crate::backend::{
    failure_error, is_failure_error, is_unexpected_reply, unexpected_reply, AgentRecord,
    BackendFailure, Reply, Step,
};
use crate::bulk::{
    error_entries, error_entry, failures, make_error_entry, next_target, outcome_views,
    skip_malformed, successes, ItemOutcome, ItemOutcomeView,
};
use crate::envelope::{Message, Pagination, StandardResponse};
use crate::error::RouterError;
use crate::field::Field;
use crate::ident::{canonical_id, well_formed_id, BackendId};
use crate::json::{item_views, lemma_array_view, member_views, Json, JsonView, NumberView};
use crate::settle::{counted_message, settle, ReplyShape, Wording};
use crate::text::{contains_text, counted, decimal, join3, occurs_in, reversed, same_text, texts};
use crate::validate::{
    first_malformed, first_malformed_from, first_missing, first_missing_from, identify,
    is_invalid_identifier, is_invalid_payload, is_missing, is_not_implemented,
    lemma_malformed_identifier_is_reported, lemma_missing_field_is_reported, malformed,
    not_implemented, require, require_present, Fields,
};
use vstd::prelude::*;
use vstd::string::*;

verus! {

/// The operations of the agent router.
#[derive(Clone, Copy, Debug, PartialEq, Eq, Structural)]
pub enum AgentOperation {
    List,
    Create,
    Get,
    Update,
    Delete,
    ListTools,
    SendMessage,
    Export,
    Import,
    Clone,
    GetConfig,
    BulkDelete,
    Context,
    ResetMessages,
    Summarize,
    Stream,
    AsyncMessage,
    CancelMessage,
    PreviewPayload,
    SearchMessages,
    GetMessage,
    Count,
}

/// Which agents a bulk delete removes: those whose name holds the pattern,
/// and those whose identifier is listed.  A tag filter is accepted and not
/// applied.
#[derive(Clone, Debug, PartialEq, Eq)]
pub struct BulkDeleteFilters {
    pub agent_name_filter: Option<String>,
    pub agent_tag_filter: Option<String>,
    pub agent_ids: Option<Vec<String>>,
}

/// Filters of a message search.  They are accepted and not applied: the
/// backend's search takes the query alone.
#[derive(Clone, Debug, PartialEq, Eq)]
pub struct SearchFilters {
    pub start_date: Option<String>,
    pub end_date: Option<String>,
    pub role: Option<String>,
}

/// A request to the agent router.
#[derive(Debug, PartialEq, Eq)]
pub struct AgentAdvancedRequest {
    pub operation: AgentOperation,
    pub agent_id: Option<String>,
    pub name: Option<String>,
    pub description: Option<String>,
    pub system: Option<String>,
    pub llm_config: Option<Json>,
    pub embedding_config: Option<Json>,
    pub tool_ids: Option<Json>,
    pub pagination: Option<Pagination>,
    pub messages: Option<Vec<Message>>,
    pub stream: Option<bool>,
    pub filters: Option<BulkDeleteFilters>,
    pub query: Option<String>,
    pub search_filters: Option<SearchFilters>,
    pub export_data: Option<Json>,
    pub update_data: Option<Json>,
}

/// What an agent is created from.
#[derive(Debug, PartialEq, Eq)]
pub struct AgentSpec {
    pub name: String,
    pub description: Option<String>,
    pub system: Option<String>,
    pub llm_config: Option<Json>,
    pub embedding_config: Option<Json>,
    pub tool_ids: Option<Vec<BackendId>>,
}

/// A backend call of the agent router.
#[derive(Debug, PartialEq, Eq)]
pub enum AgentCall {
    List { limit: Option<u32> },
    Create(AgentSpec),
    Get { agent: BackendId },
    Delete { agent: BackendId },
    ListTools { agent: BackendId },
    SendMessages { agent: BackendId, contents: Vec<String> },
    Export { agent: BackendId },
    Context { agent: BackendId },
    ResetMessages { agent: BackendId },
    Summarize { agent: BackendId, max_message_length: u32 },
    SendMessagesAsync { agent: BackendId, contents: Vec<String> },
    CancelRun { agent: BackendId },
    PreviewMessages { agent: BackendId, contents: Vec<String> },
    SearchMessages { query: String },
    ListMessages { agent: BackendId },
    Count,
}

/// The state an agent operation resumes from once its backend call is made.
#[derive(Debug, PartialEq, Eq)]
pub enum AgentPending {
    /// An operation of one call.  `agent` is the identifier that the call is
    /// made on, where the operation takes one.
    Single { operation: AgentOperation, agent: Option<BackendId> },
    /// A clone that has asked for the source agent.
    CloneSource { source: String, new_name: String },
    /// A clone that has asked for the new agent to be created.
    CloneCreate { source: String, new_name: String },
    /// A configuration read that has asked for the agent.
    ConfigAgent { agent: BackendId },
    /// A configuration read that has asked for the agent's tools.
    ConfigTools { record: AgentRecord },
    /// A bulk delete that has asked for the list of agents.
    BulkList { filters: BulkDeleteFilters },
    /// A bulk delete that has asked for one target to be deleted.
    BulkDelete { targets: Vec<String>, outcomes: Vec<ItemOutcome> },
}

/// A step of the agent router.
pub type AgentStep = Step<AgentCall, AgentPending, StandardResponse>;

/// How many messages a summary may keep.
pub const SUMMARY_MESSAGES: u32 = 10;

impl AgentOperation {
    pub open spec fn wording_spec(self) -> Wording {
        match self {
            AgentOperation::List => Wording {
                operation: "list",
                context: "Failed to list agents",
                fixed: "",
                before: "Retrieved ",
                after: " agents",
            },
            AgentOperation::Create => Wording {
                operation: "create",
                context: "Failed to create agent",
                fixed: "Agent created successfully",
                before: "",
                after: "",
            },
            AgentOperation::Get => Wording {
                operation: "get",
                context: "Failed to get agent",
                fixed: "Agent retrieved successfully",
                before: "",
                after: "",
            },
            AgentOperation::Update => Wording {
                operation: "update",
                context: "",
                fixed: "Agent update operation not yet implemented in SDK v0.1.2. Please use specific update operations (memory, tools, etc.)",
                before: "",
                after: "",
            },
            AgentOperation::Delete => Wording {
                operation: "delete",
                context: "Failed to delete agent",
                fixed: "",
                before: "Agent ",
                after: " deleted successfully",
            },
            AgentOperation::ListTools => Wording {
                operation: "list_tools",
                context: "Failed to list agent tools",
                fixed: "",
                before: "Found ",
                after: " tools",
            },
            AgentOperation::SendMessage => Wording {
                operation: "send_message",
                context: "Failed to send message",
                fixed: "Message sent successfully",
                before: "",
                after: "",
            },
            AgentOperation::Export => Wording {
                operation: "export",
                context: "Failed to export agent",
                fixed: "Agent exported successfully",
                before: "",
                after: "",
            },
            AgentOperation::Import => Wording {
                operation: "import",
                context: "",
                fixed: "Import operation not yet implemented - requires file upload support",
                before: "",
                after: "",
            },
            AgentOperation::Clone => Wording {
                operation: "clone",
                context: "Failed to get source agent",
                fixed: "Agent cloned successfully",
                before: "",
                after: "",
            },
            AgentOperation::GetConfig => Wording {
                operation: "get_config",
                context: "Failed to get agent",
                fixed: "Agent configuration retrieved successfully",
                before: "",
                after: "",
            },
            AgentOperation::BulkDelete => Wording {
                operation: "bulk_delete",
                context: "Failed to list agents",
                fixed: "",
                before: "Deleted ",
                after: " agents",
            },
            AgentOperation::Context => Wording {
                operation: "context",
                context: "Failed to get context",
                fixed: "Context retrieved successfully",
                before: "",
                after: "",
            },
            AgentOperation::ResetMessages => Wording {
                operation: "reset_messages",
                context: "Failed to reset messages",
                fixed: "Messages reset successfully",
                before: "",
                after: "",
            },
            AgentOperation::Summarize => Wording {
                operation: "summarize",
                context: "Failed to summarize conversation",
                fixed: "Conversation summarized successfully",
                before: "",
                after: "",
            },
            AgentOperation::Stream => Wording {
                operation: "stream",
                context: "",
                fixed: "Stream operation not supported in MCP tool context - use async_message instead",
                before: "",
                after: "",
            },
            AgentOperation::AsyncMessage => Wording {
                operation: "async_message",
                context: "Failed to create async message",
                fixed: "Async message created successfully",
                before: "",
                after: "",
            },
            AgentOperation::CancelMessage => Wording {
                operation: "cancel_message",
                context: "Failed to cancel message",
                fixed: "Message cancelled successfully",
                before: "",
                after: "",
            },
            AgentOperation::PreviewPayload => Wording {
                operation: "preview_payload",
                context: "Failed to preview payload",
                fixed: "Payload preview generated successfully",
                before: "",
                after: "",
            },
            AgentOperation::SearchMessages => Wording {
                operation: "search_messages",
                context: "Failed to search messages",
                fixed: "",
                before: "Found ",
                after: " messages",
            },
            AgentOperation::GetMessage => Wording {
                operation: "get_message",
                context: "Failed to list messages",
                fixed: "",
                before: "Retrieved ",
                after: " messages (filter client-side)",
            },
            AgentOperation::Count => Wording {
                operation: "count",
                context: "Failed to count agents",
                fixed: "",
                before: "Total agents: ",
                after: "",
            },
        }
    }

    /// The operation's words.  For an operation that is not available,
    /// `fixed` names the missing capability.
    #[verifier::when_used_as_spec(wording_spec)]
    pub fn wording(self) -> (w: Wording)
        ensures
            w == self.wording_spec(),
    {
        match self {
            AgentOperation::List => Wording {
                operation: "list",
                context: "Failed to list agents",
                fixed: "",
                before: "Retrieved ",
                after: " agents",
            },
            AgentOperation::Create => Wording {
                operation: "create",
                context: "Failed to create agent",
                fixed: "Agent created successfully",
                before: "",
                after: "",
            },
            AgentOperation::Get => Wording {
                operation: "get",
                context: "Failed to get agent",
                fixed: "Agent retrieved successfully",
                before: "",
                after: "",
            },
            AgentOperation::Update => Wording {
                operation: "update",
                context: "",
                fixed: "Agent update operation not yet implemented in SDK v0.1.2. Please use specific update operations (memory, tools, etc.)",
                before: "",
                after: "",
            },
            AgentOperation::Delete => Wording {
                operation: "delete",
                context: "Failed to delete agent",
                fixed: "",
                before: "Agent ",
                after: " deleted successfully",
            },
            AgentOperation::ListTools => Wording {
                operation: "list_tools",
                context: "Failed to list agent tools",
                fixed: "",
                before: "Found ",
                after: " tools",
            },
            AgentOperation::SendMessage => Wording {
                operation: "send_message",
                context: "Failed to send message",
                fixed: "Message sent successfully",
                before: "",
                after: "",
            },
            AgentOperation::Export => Wording {
                operation: "export",
                context: "Failed to export agent",
                fixed: "Agent exported successfully",
                before: "",
                after: "",
            },
            AgentOperation::Import => Wording {
                operation: "import",
                context: "",
                fixed: "Import operation not yet implemented - requires file upload support",
                before: "",
                after: "",
            },
            AgentOperation::Clone => Wording {
                operation: "clone",
                context: "Failed to get source agent",
                fixed: "Agent cloned successfully",
                before: "",
                after: "",
            },
            AgentOperation::GetConfig => Wording {
                operation: "get_config",
                context: "Failed to get agent",
                fixed: "Agent configuration retrieved successfully",
                before: "",
                after: "",
            },
            AgentOperation::BulkDelete => Wording {
                operation: "bulk_delete",
                context: "Failed to list agents",
                fixed: "",
                before: "Deleted ",
                after: " agents",
            },
            AgentOperation::Context => Wording {
                operation: "context",
                context: "Failed to get context",
                fixed: "Context retrieved successfully",
                before: "",
                after: "",
            },
            AgentOperation::ResetMessages => Wording {
                operation: "reset_messages",
                context: "Failed to reset messages",
                fixed: "Messages reset successfully",
                before: "",
                after: "",
            },
            AgentOperation::Summarize => Wording {
                operation: "summarize",
                context: "Failed to summarize conversation",
                fixed: "Conversation summarized successfully",
                before: "",
                after: "",
            },
            AgentOperation::Stream => Wording {
                operation: "stream",
                context: "",
                fixed: "Stream operation not supported in MCP tool context - use async_message instead",
                before: "",
                after: "",
            },
            AgentOperation::AsyncMessage => Wording {
                operation: "async_message",
                context: "Failed to create async message",
                fixed: "Async message created successfully",
                before: "",
                after: "",
            },
            AgentOperation::CancelMessage => Wording {
                operation: "cancel_message",
                context: "Failed to cancel message",
                fixed: "Message cancelled successfully",
                before: "",
                after: "",
            },
            AgentOperation::PreviewPayload => Wording {
                operation: "preview_payload",
                context: "Failed to preview payload",
                fixed: "Payload preview generated successfully",
                before: "",
                after: "",
            },
            AgentOperation::SearchMessages => Wording {
                operation: "search_messages",
                context: "Failed to search messages",
                fixed: "",
                before: "Found ",
                after: " messages",
            },
            AgentOperation::GetMessage => Wording {
                operation: "get_message",
                context: "Failed to list messages",
                fixed: "",
                before: "Retrieved ",
                after: " messages (filter client-side)",
            },
            AgentOperation::Count => Wording {
                operation: "count",
                context: "Failed to count agents",
                fixed: "",
                before: "Total agents: ",
                after: "",
            },
        }
    }

    /// The operation's name on the wire.
    pub open spec fn name_spec(self) -> Seq<char> {
        self.wording().operation@
    }

    /// The operation's name on the wire.
    pub fn name(self) -> (s: &'static str)
        ensures
            s@ == self.name_spec(),
    {
        self.wording().operation
    }

    /// The fields the operation requires, in the order they are checked.
    pub open spec fn required(self) -> Seq<Field> {
        match self {
            AgentOperation::List | AgentOperation::Count => seq![],
            AgentOperation::Update | AgentOperation::Import | AgentOperation::Stream => seq![],
            AgentOperation::Create => seq![Field::Name],
            AgentOperation::SendMessage | AgentOperation::AsyncMessage
            | AgentOperation::PreviewPayload => seq![Field::AgentId, Field::Messages],
            AgentOperation::Clone => seq![Field::AgentId, Field::Name],
            AgentOperation::BulkDelete => seq![Field::Filters],
            AgentOperation::SearchMessages => seq![Field::Query],
            _ => seq![Field::AgentId],
        }
    }

    /// The identifier fields the operation parses: the agent's, wherever the
    /// operation requires it.
    pub open spec fn identifiers(self) -> Seq<Field> {
        match self {
            AgentOperation::List | AgentOperation::Count => seq![],
            AgentOperation::Update | AgentOperation::Import | AgentOperation::Stream => seq![],
            AgentOperation::Create | AgentOperation::BulkDelete
            | AgentOperation::SearchMessages => seq![],
            _ => seq![Field::AgentId],
        }
    }

    /// Whether the backend integration can perform the operation.
    pub open spec fn available(self) -> bool {
        self != AgentOperation::Update && self != AgentOperation::Import && self
            != AgentOperation::Stream
    }

    /// How an operation of one call reads the backend's reply, where it
    /// reads it in one of the common ways.
    pub open spec fn shape(self) -> Option<ReplyShape> {
        match self {
            AgentOperation::List | AgentOperation::ListTools | AgentOperation::SearchMessages
            | AgentOperation::GetMessage => Some(ReplyShape::Listing),
            AgentOperation::Create | AgentOperation::Get | AgentOperation::SendMessage
            | AgentOperation::Context | AgentOperation::Summarize
            | AgentOperation::PreviewPayload => Some(ReplyShape::Entity),
            AgentOperation::ResetMessages | AgentOperation::CancelMessage => Some(
                ReplyShape::Acknowledge,
            ),
            _ => None,
        }
    }

    /// How an operation of one call reads the backend's reply, where it
    /// reads it in one of the common ways.
    pub fn shape_of(self) -> (shape: Option<ReplyShape>)
        ensures
            shape == self.shape(),
    {
        match self {
            AgentOperation::List | AgentOperation::ListTools | AgentOperation::SearchMessages
            | AgentOperation::GetMessage => Some(ReplyShape::Listing),
            AgentOperation::Create | AgentOperation::Get | AgentOperation::SendMessage
            | AgentOperation::Context | AgentOperation::Summarize
            | AgentOperation::PreviewPayload => Some(ReplyShape::Entity),
            AgentOperation::ResetMessages | AgentOperation::CancelMessage => Some(
                ReplyShape::Acknowledge,
            ),
            _ => None,
        }
    }
}

impl Fields for AgentAdvancedRequest {
    open spec fn has_field(&self, f: Field) -> bool {
        match f {
            Field::AgentId => self.agent_id is Some,
            Field::Name => self.name is Some,
            Field::Messages => self.messages is Some,
            Field::Filters => self.filters is Some,
            Field::Query => self.query is Some,
            _ => false,
        }
    }

    open spec fn raw_identifier(&self, f: Field) -> Option<Seq<char>> {
        match f {
            Field::AgentId => match self.agent_id {
                Some(t) => Some(t@),
                None => None,
            },
            _ => None,
        }
    }
}

/// The page size of a listing whose caller names none.
pub const DEFAULT_PAGE_SIZE: u32 = 50;

/// The page size handed to the backend: the caller's limit, taken modulo
/// 2^32, and the default page size wherever the caller names no limit.
pub open spec fn list_limit_spec(pagination: Option<Pagination>) -> u32 {
    match pagination {
        Some(Pagination { limit: Some(l), .. }) => (l as int % 0x1_0000_0000) as u32,
        _ => DEFAULT_PAGE_SIZE,
    }
}

/// The page size handed to the backend.
pub fn list_limit(pagination: Option<Pagination>) -> (limit: u32)
    ensures
        limit == list_limit_spec(pagination),
{
    match pagination {
        Some(Pagination { limit: Some(l), .. }) => ((l as u64) % 0x1_0000_0000u64) as u32,
        _ => DEFAULT_PAGE_SIZE,
    }
}

/// Whether `contents` are the texts of `messages`, in order.
pub open spec fn are_contents(contents: Seq<String>, messages: Seq<Message>) -> bool {
    contents.len() == messages.len() && forall|i: int|
        0 <= i < messages.len() ==> contents[i] == (#[trigger] messages[i]).content
}

/// The texts of the messages, in order.  Every message is sent in the
/// caller's voice, whatever role it names.
pub fn message_contents(messages: Vec<Message>) -> (contents: Vec<String>)
    ensures
        are_contents(contents@, messages@),
{
    let n = messages.len();
    let mut stack = reversed(messages);
    let mut contents: Vec<String> = Vec::new();
    while contents.len() < n
        invariant
            n == messages@.len(),
            contents@.len() <= n,
            stack@.len() == n - contents@.len(),
            forall|k: int| 0 <= k < stack@.len() ==> stack@[k] == messages@[n - 1 - k],
            forall|i: int|
                0 <= i < contents@.len() ==> contents@[i] == (#[trigger] messages@[i]).content,
        decreases n - contents@.len(),
    {
        let message = stack.pop().unwrap();
        contents.push(message.content);
    }
    contents
}

/// Whether a `tool_ids` value is a list of well-formed identifiers.
pub open spec fn tool_ids_ok(value: JsonView) -> bool {
    value is Array && forall|i: int|
        0 <= i < value->Array_0.len() ==> (#[trigger] value->Array_0[i]) is Str && well_formed_id(
            value->Array_0[i]->Str_0,
        )
}

/// Whether `ids` are the identifiers that a well-formed `tool_ids` value
/// lists.
pub open spec fn are_tool_ids(ids: Seq<BackendId>, value: JsonView) -> bool {
    ids.len() == value->Array_0.len() && forall|i: int|
        0 <= i < ids.len() ==> (#[trigger] ids[i])@ == canonical_id(value->Array_0[i]->Str_0)
}

/// What is reported about a `tool_ids` value that is not a list of
/// well-formed identifiers.
pub open spec fn tool_ids_reason() -> Seq<char> {
    "expected a list of well-formed identifiers"@
}

/// Reads a `tool_ids` value.
pub fn read_tool_ids(value: &Json) -> (r: Option<Vec<BackendId>>)
    ensures
        match r {
            Some(ids) => tool_ids_ok(value@) && are_tool_ids(ids@, value@),
            None => !tool_ids_ok(value@),
        },
{
    match value {
        Json::Array(items) => {
            proof {
                lemma_array_view(*items);
            }
            let mut ids: Vec<BackendId> = Vec::new();
            let mut i: usize = 0;
            while i < items.len()
                invariant
                    i <= items@.len(),
                    ids@.len() == i,
                    value@ == JsonView::Array(item_views(items@)),
                    forall|k: int|
                        0 <= k < i ==> (#[trigger] value@->Array_0[k]) is Str && well_formed_id(
                            value@->Array_0[k]->Str_0,
                        ),
                    forall|k: int|
                        0 <= k < i ==> (#[trigger] ids@[k])@ == canonical_id(
                            value@->Array_0[k]->Str_0,
                        ),
                decreases items@.len() - i,
            {
                match &items[i] {
                    Json::Str(text) => match BackendId::parse(text.as_str()) {
                        Ok(id) => {
                            ids.push(id);
                        },
                        Err(_) => {
                            assert(!well_formed_id(value@->Array_0[i as int]->Str_0));
                            return None;
                        },
                    },
                    _ => {
                        assert(!(value@->Array_0[i as int] is Str));
                        return None;
                    },
                }
                i = i + 1;
            }
            Some(ids)
        },
        _ => None,
    }
}

/// Whether the filters select the agent: its name holds the name pattern, or
/// its identifier is one of those listed.
pub open spec fn selected(filters: BulkDeleteFilters, record: AgentRecord) -> bool {
    (filters.agent_name_filter is Some && occurs_in(
        filters.agent_name_filter->0@,
        record.name@,
    )) || (filters.agent_ids is Some && exists|j: int|
        0 <= j < filters.agent_ids->0@.len() && (#[trigger] filters.agent_ids->0@[j])@
            == record.id@)
}

/// The identifiers of those of the first `upto` agents that the filters
/// select, in order.
pub open spec fn selected_ids(
    filters: BulkDeleteFilters,
    records: Seq<AgentRecord>,
    upto: int,
) -> Seq<Seq<char>>
    decreases upto,
{
    if upto <= 0 {
        seq![]
    } else if selected(filters, records[upto - 1]) {
        selected_ids(filters, records, upto - 1).push(records[upto - 1].id@)
    } else {
        selected_ids(filters, records, upto - 1)
    }
}

fn listed(ids: &Vec<String>, id: &str) -> (b: bool)
    ensures
        b == exists|j: int| 0 <= j < ids@.len() && (#[trigger] ids@[j])@ == id@,
{
    let mut j: usize = 0;
    while j < ids.len()
        invariant
            j <= ids@.len(),
            forall|k: int| 0 <= k < j ==> (#[trigger] ids@[k])@ != id@,
        decreases ids@.len() - j,
    {
        if same_text(ids[j].as_str(), id) {
            return true;
        }
        j = j + 1;
    }
    false
}

fn is_selected(filters: &BulkDeleteFilters, record: &AgentRecord) -> (b: bool)
    ensures
        b == selected(*filters, *record),
{
    let by_name = match &filters.agent_name_filter {
        Some(pattern) => contains_text(record.name.as_str(), pattern.as_str()),
        None => false,
    };
    let by_id = match &filters.agent_ids {
        Some(ids) => listed(ids, record.id.as_str()),
        None => false,
    };
    by_name || by_id
}

/// The identifiers of the agents that the filters select, in the backend's
/// order.
pub fn select_targets(filters: &BulkDeleteFilters, records: &Vec<AgentRecord>) -> (targets: Vec<
    String,
>)
    ensures
        texts(targets@) == selected_ids(*filters, records@, records@.len() as int),
{
    let mut targets: Vec<String> = Vec::new();
    let mut i: usize = 0;
    assert(texts(targets@) =~= selected_ids(*filters, records@, 0));
    while i < records.len()
        invariant
            i <= records@.len(),
            texts(targets@) == selected_ids(*filters, records@, i as int),
        decreases records@.len() - i,
    {
        let ghost before = texts(targets@);
        if is_selected(filters, &records[i]) {
            targets.push(records[i].id.clone());
            assert(texts(targets@) =~= before.push(records@[i as int].id@));
        }
        i = i + 1;
    }
    targets
}

/// Whether `spec` is what a create request asks for.
pub open spec fn is_create_spec(request: AgentAdvancedRequest, spec: AgentSpec) -> bool {
    &&& Some(spec.name) == request.name
    &&& spec.description == request.description
    &&& spec.system == request.system
    &&& spec.llm_config == request.llm_config
    &&& spec.embedding_config == request.embedding_config
    &&& match request.tool_ids {
        Some(value) => spec.tool_ids is Some && are_tool_ids(spec.tool_ids->0@, value@),
        None => spec.tool_ids is None,
    }
}

/// Whether `call` is the first backend call that the request's operation
/// makes, built from the request's fields.
pub open spec fn is_agent_call(request: AgentAdvancedRequest, call: AgentCall) -> bool {
    let agent_id = canonical_id(request.agent_id->0@);
    match request.operation {
        AgentOperation::List => call matches AgentCall::List { limit } && limit == Some(
            list_limit_spec(request.pagination),
        ),
        AgentOperation::Create => call matches AgentCall::Create(spec) && is_create_spec(
            request,
            spec,
        ),
        AgentOperation::Get | AgentOperation::Clone | AgentOperation::GetConfig => {
            call matches AgentCall::Get { agent } && agent@ == agent_id
        },
        AgentOperation::Delete => call matches AgentCall::Delete { agent } && agent@ == agent_id,
        AgentOperation::ListTools => call matches AgentCall::ListTools { agent } && agent@
            == agent_id,
        AgentOperation::SendMessage => call matches AgentCall::SendMessages { agent, contents }
            && agent@ == agent_id && are_contents(contents@, request.messages->0@),
        AgentOperation::Export => call matches AgentCall::Export { agent } && agent@ == agent_id,
        AgentOperation::BulkDelete => call matches AgentCall::List { limit } && limit is None,
        AgentOperation::Context => call matches AgentCall::Context { agent } && agent@ == agent_id,
        AgentOperation::ResetMessages => call matches AgentCall::ResetMessages { agent } && agent@
            == agent_id,
        AgentOperation::Summarize => call matches AgentCall::Summarize {
            agent,
            max_message_length,
        } && agent@ == agent_id && max_message_length == SUMMARY_MESSAGES,
        AgentOperation::AsyncMessage => call matches AgentCall::SendMessagesAsync {
            agent,
            contents,
        } && agent@ == agent_id && are_contents(contents@, request.messages->0@),
        AgentOperation::CancelMessage => call matches AgentCall::CancelRun { agent } && agent@
            == agent_id,
        AgentOperation::PreviewPayload => call matches AgentCall::PreviewMessages {
            agent,
            contents,
        } && agent@ == agent_id && are_contents(contents@, request.messages->0@),
        AgentOperation::SearchMessages => call matches AgentCall::SearchMessages { query } && Some(
            query,
        ) == request.query,
        AgentOperation::GetMessage => call matches AgentCall::ListMessages { agent } && agent@
            == agent_id,
        AgentOperation::Count => call is Count,
        _ => false,
    }
}

/// Whether `pending` is the state that the request's operation resumes from
/// after its first call.
pub open spec fn is_agent_pending(request: AgentAdvancedRequest, pending: AgentPending) -> bool {
    let agent_id = canonical_id(request.agent_id->0@);
    match request.operation {
        AgentOperation::Clone => pending matches AgentPending::CloneSource { source, new_name }
            && Some(source) == request.agent_id && Some(new_name) == request.name,
        AgentOperation::GetConfig => pending matches AgentPending::ConfigAgent { agent } && agent@
            == agent_id,
        AgentOperation::BulkDelete => pending matches AgentPending::BulkList { filters } && Some(
            filters,
        ) == request.filters,
        _ => pending matches AgentPending::Single { operation, agent } && operation
            == request.operation && if request.operation.identifiers().len() > 0 {
            agent is Some && agent->0@ == agent_id
        } else {
            agent is None
        },
    }
}

/// Whether `r` is what the agent router owes for `request`.
pub open spec fn agent_dispatch_post(
    request: AgentAdvancedRequest,
    r: Result<AgentStep, RouterError>,
) -> bool {
    let op = request.operation;
    let name = op.name_spec();
    match first_missing(op.required(), request) {
        Some(f) => r matches Err(e) && is_missing(e, name, f),
        None => if !op.available() {
            r matches Err(e) && is_not_implemented(e, name, op.wording().fixed@)
        } else if op == AgentOperation::Create && request.tool_ids is Some && !tool_ids_ok(
            request.tool_ids->0@,
        ) {
            r matches Err(e) && is_invalid_payload(e, name, Field::ToolIds, tool_ids_reason())
        } else {
            match first_malformed(op.identifiers(), request) {
                Some(f) => r matches Err(e) && is_invalid_identifier(
                    e,
                    name,
                    f,
                    request.raw_identifier(f)->0,
                ),
                None => r matches Ok(Step::Call { call, pending }) && is_agent_call(request, call)
                    && is_agent_pending(request, pending),
            }
        },
    }
}

fn single(call: AgentCall, operation: AgentOperation) -> (step: AgentStep)
    ensures
        step matches Step::Call {
            call: c,
            pending: AgentPending::Single { operation: o, agent: None },
        } && c == call && o == operation,
{
    Step::Call { call, pending: AgentPending::Single { operation, agent: None } }
}

fn begin_plain(request: AgentAdvancedRequest) -> (r: Result<AgentStep, RouterError>)
    requires
        request.operation == AgentOperation::List || request.operation == AgentOperation::Count
            || request.operation == AgentOperation::SearchMessages || request.operation
            == AgentOperation::BulkDelete,
    ensures
        agent_dispatch_post(request, r),
{
    let op = request.operation;
    let name = op.name();
    proof {
        reveal_with_fuel(first_missing_from, 3);
        reveal_with_fuel(first_malformed_from, 3);
    }
    match op {
        AgentOperation::List => Ok(
            single(AgentCall::List { limit: Some(list_limit(request.pagination)) }, op),
        ),
        AgentOperation::Count => Ok(single(AgentCall::Count, op)),
        AgentOperation::SearchMessages => {
            let query = require(request.query, name, Field::Query)?;
            Ok(single(AgentCall::SearchMessages { query }, op))
        },
        _ => {
            let filters = require(request.filters, name, Field::Filters)?;
            Ok(
                Step::Call {
                    call: AgentCall::List { limit: None },
                    pending: AgentPending::BulkList { filters },
                },
            )
        },
    }
}

fn begin_create(request: AgentAdvancedRequest) -> (r: Result<AgentStep, RouterError>)
    requires
        request.operation == AgentOperation::Create,
    ensures
        agent_dispatch_post(request, r),
{
    let op = request.operation;
    let name = op.name();
    proof {
        reveal_with_fuel(first_missing_from, 3);
        reveal_with_fuel(first_malformed_from, 3);
    }
    let name_given = require(request.name, name, Field::Name)?;
    let tool_ids = match &request.tool_ids {
        Some(value) => match read_tool_ids(value) {
            Some(ids) => Some(ids),
            None => {
                return Err(
                    RouterError::InvalidPayload {
                        operation: String::from_str(name),
                        field: Field::ToolIds,
                        reason: String::from_str("expected a list of well-formed identifiers"),
                    },
                );
            },
        },
        None => None,
    };
    Ok(
        single(
            AgentCall::Create(
                AgentSpec {
                    name: name_given,
                    description: request.description,
                    system: request.system,
                    llm_config: request.llm_config,
                    embedding_config: request.embedding_config,
                    tool_ids,
                },
            ),
            op,
        ),
    )
}

/// Whether the operation takes the agent's identifier and nothing else.
pub open spec fn on_agent_alone(op: AgentOperation) -> bool {
    op == AgentOperation::Get || op == AgentOperation::Delete || op == AgentOperation::ListTools
        || op == AgentOperation::Export || op == AgentOperation::Context || op
        == AgentOperation::ResetMessages || op == AgentOperation::Summarize || op
        == AgentOperation::CancelMessage || op == AgentOperation::GetMessage || op
        == AgentOperation::GetConfig
}

fn single_on(call: AgentCall, operation: AgentOperation, agent: BackendId) -> (step: AgentStep)
    ensures
        step matches Step::Call {
            call: c,
            pending: AgentPending::Single { operation: o, agent: Some(a) },
        } && c == call && o == operation && a == agent,
{
    Step::Call { call, pending: AgentPending::Single { operation, agent: Some(agent) } }
}

fn begin_on_agent(request: AgentAdvancedRequest) -> (r: Result<AgentStep, RouterError>)
    requires
        on_agent_alone(request.operation),
    ensures
        agent_dispatch_post(request, r),
{
    let op = request.operation;
    let name = op.name();
    proof {
        reveal_with_fuel(first_missing_from, 3);
        reveal_with_fuel(first_malformed_from, 3);
    }
    let agent = identify(&request.agent_id, name, Field::AgentId)?;
    let on = agent.duplicate();
    match op {
        AgentOperation::Get => Ok(single_on(AgentCall::Get { agent }, op, on)),
        AgentOperation::ListTools => Ok(single_on(AgentCall::ListTools { agent }, op, on)),
        AgentOperation::Export => Ok(single_on(AgentCall::Export { agent }, op, on)),
        AgentOperation::Context => Ok(single_on(AgentCall::Context { agent }, op, on)),
        AgentOperation::ResetMessages => Ok(single_on(AgentCall::ResetMessages { agent }, op, on)),
        AgentOperation::Summarize => Ok(
            single_on(
                AgentCall::Summarize { agent, max_message_length: SUMMARY_MESSAGES },
                op,
                on,
            ),
        ),
        AgentOperation::CancelMessage => Ok(single_on(AgentCall::CancelRun { agent }, op, on)),
        AgentOperation::GetMessage => Ok(single_on(AgentCall::ListMessages { agent }, op, on)),
        AgentOperation::Delete => Ok(single_on(AgentCall::Delete { agent }, op, on)),
        _ => Ok(
            Step::Call {
                call: AgentCall::Get { agent },
                pending: AgentPending::ConfigAgent { agent: on },
            },
        ),
    }
}

fn begin_messages(request: AgentAdvancedRequest) -> (r: Result<AgentStep, RouterError>)
    requires
        request.operation == AgentOperation::SendMessage || request.operation
            == AgentOperation::AsyncMessage || request.operation == AgentOperation::PreviewPayload,
    ensures
        agent_dispatch_post(request, r),
{
    let op = request.operation;
    let name = op.name();
    proof {
        reveal_with_fuel(first_missing_from, 3);
        reveal_with_fuel(first_malformed_from, 3);
    }
    require_present(&request.agent_id, name, Field::AgentId)?;
    let messages = require(request.messages, name, Field::Messages)?;
    let agent = identify(&request.agent_id, name, Field::AgentId)?;
    let on = agent.duplicate();
    let contents = message_contents(messages);
    let call = match op {
        AgentOperation::SendMessage => AgentCall::SendMessages { agent, contents },
        AgentOperation::AsyncMessage => AgentCall::SendMessagesAsync { agent, contents },
        _ => AgentCall::PreviewMessages { agent, contents },
    };
    Ok(single_on(call, op, on))
}

fn begin_clone(request: AgentAdvancedRequest) -> (r: Result<AgentStep, RouterError>)
    requires
        request.operation == AgentOperation::Clone,
    ensures
        agent_dispatch_post(request, r),
{
    let name = request.operation.name();
    proof {
        reveal_with_fuel(first_missing_from, 3);
        reveal_with_fuel(first_malformed_from, 3);
    }
    require_present(&request.agent_id, name, Field::AgentId)?;
    let new_name = require(request.name, name, Field::Name)?;
    let agent = identify(&request.agent_id, name, Field::AgentId)?;
    let source = require(request.agent_id, name, Field::AgentId)?;
    Ok(
        Step::Call {
            call: AgentCall::Get { agent },
            pending: AgentPending::CloneSource { source, new_name },
        },
    )
}

/// Validates a request and names its first backend call.  Nothing is asked
/// of the backend where a required field is missing, an identifier or a
/// payload is malformed, or the operation is not available.
pub fn handle_agent_advanced(request: AgentAdvancedRequest) -> (r: Result<AgentStep, RouterError>)
    ensures
        agent_dispatch_post(request, r),
{
    match request.operation {
        AgentOperation::Update | AgentOperation::Import | AgentOperation::Stream => {
            let words = request.operation.wording();
            proof {
                reveal_with_fuel(first_missing_from, 2);
            }
            Err(not_implemented(words.operation, words.fixed))
        },
        AgentOperation::List | AgentOperation::Count | AgentOperation::SearchMessages
        | AgentOperation::BulkDelete => begin_plain(request),
        AgentOperation::Create => begin_create(request),
        AgentOperation::SendMessage | AgentOperation::AsyncMessage
        | AgentOperation::PreviewPayload => begin_messages(request),
        AgentOperation::Clone => begin_clone(request),
        _ => begin_on_agent(request),
    }
}

/// The text of an optional identifier; one that is absent reads as empty.
pub open spec fn id_text(agent: Option<BackendId>) -> Seq<char> {
    match agent {
        Some(id) => id@,
        None => seq![],
    }
}

/// An object with one member.
pub open spec fn object1(key: Seq<char>, value: JsonView) -> JsonView {
    JsonView::Object(seq![(key, value)])
}

/// Whether `response` is a success of the operation worded by `words`, with
/// the payload `data` and the sentence `message`.
pub open spec fn is_standard(
    response: StandardResponse,
    words: Wording,
    data: JsonView,
    message: Seq<char>,
) -> bool {
    response.success && response.operation@ == words.operation@ && response.data is Some
        && response.data->0@ == data && response.message@ == message
}

/// Whether `r` reports a reply that the operation worded by `words` cannot
/// use.
pub open spec fn is_unusable(r: Result<AgentStep, RouterError>, words: Wording) -> bool {
    r matches Err(e) && is_unexpected_reply(e, words.operation@, words.context@)
}

/// The entities of the agents, in order.
pub open spec fn record_entities(records: Seq<AgentRecord>) -> Seq<JsonView> {
    Seq::new(records.len(), |i: int| records[i].entity@)
}

/// Whether an operation that reads replies as `shape` can use the reply.  An
/// agent is read as its entity, and agents as a listing of their entities.
pub open spec fn reads(shape: ReplyShape, reply: Reply) -> bool {
    match shape {
        ReplyShape::Listing => reply is Entities || reply is Agents,
        ReplyShape::Entity => reply is Entity || reply is Agent,
        ReplyShape::Acknowledge => true,
    }
}

/// How many items a listing holds.
pub open spec fn listing_len(reply: Reply) -> nat {
    match reply {
        Reply::Entities(items) => items@.len(),
        Reply::Agents(records) => records@.len(),
        _ => 0,
    }
}

/// The payload read from a reply that an operation can use.
pub open spec fn payload_view(shape: ReplyShape, reply: Reply) -> JsonView {
    match reply {
        Reply::Entities(items) => JsonView::Array(item_views(items@)),
        Reply::Agents(records) => JsonView::Array(record_entities(records@)),
        Reply::Entity(entity) => entity@,
        Reply::Agent(record) => record.entity@,
        _ => JsonView::Null,
    }
}

/// Whether `response` is the success that an operation reading replies as
/// `shape` makes of a reply it can use: the payload read from the reply, and
/// the counted sentence of a listing or the operation's fixed sentence.
pub open spec fn is_read(
    response: StandardResponse,
    shape: ReplyShape,
    words: Wording,
    reply: Reply,
) -> bool {
    &&& response.success
    &&& response.operation@ == words.operation@
    &&& (response.data is Some) == (shape != ReplyShape::Acknowledge)
    &&& response.data is Some ==> response.data->0@ == payload_view(shape, reply)
    &&& response.message@ == if shape == ReplyShape::Listing {
        counted_message(words, listing_len(reply))
    } else {
        words.fixed@
    }
}

/// Whether `plain` is `reply` with agents replaced by their entities.
pub open spec fn is_plain(reply: Reply, plain: Reply) -> bool {
    match reply {
        Reply::Agent(record) => plain == Reply::Entity(record.entity),
        Reply::Agents(records) => plain matches Reply::Entities(items) && item_views(items@)
            == record_entities(records@),
        _ => plain == reply,
    }
}

/// Whether `r` is what an operation of one call owes for `reply`.
pub open spec fn single_post(
    operation: AgentOperation,
    agent: Option<BackendId>,
    reply: Result<Reply, BackendFailure>,
    r: Result<AgentStep, RouterError>,
) -> bool {
    let words = operation.wording();
    match reply {
        Err(failure) => r matches Err(e) && is_failure_error(
            e,
            words.operation@,
            words.context@,
            id_text(agent),
            failure,
        ),
        Ok(received) => match operation {
            AgentOperation::Delete => r matches Ok(Step::Done(response)) && response.success
                && response.operation@ == words.operation@ && response.data is None
                && response.message@ == words.before@ + id_text(agent) + words.after@,
            AgentOperation::Export => match received {
                Reply::Text(exported) => r matches Ok(Step::Done(response)) && is_standard(
                    response,
                    words,
                    object1("export_data"@, JsonView::Str(exported@)),
                    words.fixed@,
                ),
                _ => is_unusable(r, words),
            },
            AgentOperation::AsyncMessage => match received {
                Reply::Entity(run) => r matches Ok(Step::Done(response)) && is_standard(
                    response,
                    words,
                    object1("run_id"@, run@),
                    words.fixed@,
                ),
                _ => is_unusable(r, words),
            },
            AgentOperation::Count => match received {
                Reply::Count(n) => r matches Ok(Step::Done(response)) && is_standard(
                    response,
                    words,
                    object1("count"@, JsonView::Number(NumberView::Int(n as int))),
                    words.before@ + decimal(n as nat),
                ),
                _ => is_unusable(r, words),
            },
            _ => match operation.shape() {
                Some(shape) => if reads(shape, received) {
                    r matches Ok(Step::Done(response)) && is_read(response, shape, words, received)
                } else {
                    is_unusable(r, words)
                },
                None => is_unusable(r, words),
            },
        },
    }
}

/// The words of a clone while the new agent is being created.
pub open spec fn clone_create_words() -> Wording {
    Wording {
        operation: "clone",
        context: "Failed to create cloned agent",
        fixed: "Agent cloned successfully",
        before: "",
        after: "",
    }
}

/// Whether `r` is what a clone owes once the source agent has been asked
/// for: the new agent is created under the new name with the source's
/// description, system prompt and model configurations.
pub open spec fn clone_source_post(
    source: String,
    new_name: String,
    reply: Result<Reply, BackendFailure>,
    r: Result<AgentStep, RouterError>,
) -> bool {
    let words = AgentOperation::Clone.wording();
    match reply {
        Err(failure) => r matches Err(e) && is_failure_error(
            e,
            words.operation@,
            words.context@,
            source@,
            failure,
        ),
        Ok(Reply::Agent(record)) => r matches Ok(
            Step::Call {
                call: AgentCall::Create(spec),
                pending: AgentPending::CloneCreate { source: s, new_name: n },
            },
        ) && s == source && n == new_name && spec.name == new_name && spec.description
            == record.description && spec.system == record.system && spec.llm_config
            == record.llm_config && spec.embedding_config == record.embedding_config
            && spec.tool_ids is None,
        Ok(_) => is_unusable(r, words),
    }
}

/// The payload of a finished clone.
pub open spec fn clone_payload(
    source: Seq<char>,
    new_id: Seq<char>,
    new_name: Seq<char>,
) -> JsonView {
    JsonView::Object(
        seq![
            ("source_agent_id"@, JsonView::Str(source)),
            ("new_agent_id"@, JsonView::Str(new_id)),
            ("new_agent_name"@, JsonView::Str(new_name)),
        ],
    )
}

/// Whether `r` is what a clone owes once the new agent has been asked for.
pub open spec fn clone_create_post(
    source: String,
    new_name: String,
    reply: Result<Reply, BackendFailure>,
    r: Result<AgentStep, RouterError>,
) -> bool {
    let words = clone_create_words();
    match reply {
        Err(failure) => r matches Err(e) && is_failure_error(
            e,
            words.operation@,
            words.context@,
            source@,
            failure,
        ),
        Ok(Reply::Agent(created)) => r matches Ok(Step::Done(response)) && is_standard(
            response,
            words,
            clone_payload(source@, created.id@, new_name@),
            words.fixed@,
        ),
        Ok(_) => is_unusable(r, words),
    }
}

/// Whether `r` is what a configuration read owes once the agent has been
/// asked for: the agent's tools are asked for next.
pub open spec fn config_agent_post(
    agent: BackendId,
    reply: Result<Reply, BackendFailure>,
    r: Result<AgentStep, RouterError>,
) -> bool {
    let words = AgentOperation::GetConfig.wording();
    match reply {
        Err(failure) => r matches Err(e) && is_failure_error(
            e,
            words.operation@,
            words.context@,
            agent@,
            failure,
        ),
        Ok(Reply::Agent(record)) => r matches Ok(
            Step::Call {
                call: AgentCall::ListTools { agent: a },
                pending: AgentPending::ConfigTools { record: kept },
            },
        ) && a@ == agent@ && kept == record,
        Ok(_) => is_unusable(r, words),
    }
}

/// A text, or `null` where there is none.
pub open spec fn optional_text_view(text: Option<String>) -> JsonView {
    match text {
        Some(t) => JsonView::Str(t@),
        None => JsonView::Null,
    }
}

/// A value, or `null` where there is none.
pub open spec fn optional_view(value: Option<Json>) -> JsonView {
    match value {
        Some(v) => v@,
        None => JsonView::Null,
    }
}

/// The payload of a configuration read.
pub open spec fn config_payload(record: AgentRecord, tools: Seq<JsonView>) -> JsonView {
    JsonView::Object(
        seq![
            ("name"@, JsonView::Str(record.name@)),
            ("description"@, optional_text_view(record.description)),
            ("system"@, optional_text_view(record.system)),
            ("llm_config"@, optional_view(record.llm_config)),
            ("embedding_config"@, optional_view(record.embedding_config)),
            ("tools"@, JsonView::Array(tools)),
            ("created_at"@, record.created_at@),
        ],
    )
}

/// The words of a configuration read while the agent's tools are being
/// listed.
pub open spec fn config_tools_words() -> Wording {
    Wording {
        operation: "get_config",
        context: "Failed to list agent tools",
        fixed: "Agent configuration retrieved successfully",
        before: "",
        after: "",
    }
}

/// Whether `r` is what a configuration read owes once the tools have been
/// asked for.  A failed listing fails the operation: the configuration is
/// never reported without the tools.
pub open spec fn config_tools_post(
    record: AgentRecord,
    reply: Result<Reply, BackendFailure>,
    r: Result<AgentStep, RouterError>,
) -> bool {
    let words = config_tools_words();
    match reply {
        Err(failure) => r matches Err(e) && is_failure_error(
            e,
            words.operation@,
            words.context@,
            record.id@,
            failure,
        ),
        Ok(Reply::Entities(items)) => r matches Ok(Step::Done(response)) && is_standard(
            response,
            words,
            config_payload(record, item_views(items@)),
            words.fixed@,
        ),
        Ok(_) => is_unusable(r, words),
    }
}

/// The payload of a finished bulk delete.
pub open spec fn bulk_delete_payload(
    targets: Seq<Seq<char>>,
    outcomes: Seq<ItemOutcomeView>,
) -> JsonView {
    let n = outcomes.len() as int;
    JsonView::Object(
        seq![
            ("deleted_count"@, JsonView::Number(NumberView::Int(successes(outcomes, n) as int))),
            ("failed_count"@, JsonView::Number(NumberView::Int(failures(outcomes, n) as int))),
            ("errors"@, JsonView::Array(error_entries(targets, outcomes, n))),
        ],
    )
}

/// Whether `response` is the envelope of a bulk delete that ended with
/// `outcomes` for `targets`: the counts of deleted and failed targets, an
/// entry for every failure, and success only where nothing failed.
pub open spec fn is_bulk_delete_response(
    response: StandardResponse,
    targets: Seq<Seq<char>>,
    outcomes: Seq<ItemOutcomeView>,
) -> bool {
    let words = AgentOperation::BulkDelete.wording();
    let n = outcomes.len() as int;
    &&& response.success == (failures(outcomes, n) == 0)
    &&& response.operation@ == words.operation@
    &&& response.message@ == words.before@ + decimal(successes(outcomes, n)) + words.after@
    &&& response.data is Some
    &&& response.data->0@ == bulk_delete_payload(targets, outcomes)
}

/// Whether `step` is how a bulk delete goes on from `outcomes`.
pub open spec fn is_delete_step(
    step: AgentStep,
    targets: Seq<Seq<char>>,
    outcomes: Seq<ItemOutcomeView>,
) -> bool {
    let reached = skip_malformed(targets, outcomes);
    if reached.len() < targets.len() {
        step matches Step::Call {
            call: AgentCall::Delete { agent },
            pending: AgentPending::BulkDelete { targets: t, outcomes: o },
        } && agent@ == canonical_id(targets[reached.len() as int]) && texts(t@) == targets
            && outcome_views(o@) == reached
    } else {
        step matches Step::Done(response) && is_bulk_delete_response(response, targets, reached)
    }
}

/// Whether `r` is what a bulk delete owes once the agents have been listed:
/// the agents that the filters select are the targets, in the backend's
/// order.
pub open spec fn bulk_list_post(
    filters: BulkDeleteFilters,
    reply: Result<Reply, BackendFailure>,
    r: Result<AgentStep, RouterError>,
) -> bool {
    let words = AgentOperation::BulkDelete.wording();
    match reply {
        Err(failure) => r matches Err(e) && is_failure_error(
            e,
            words.operation@,
            words.context@,
            seq![],
            failure,
        ),
        Ok(Reply::Agents(records)) => r matches Ok(step) && is_delete_step(
            step,
            selected_ids(filters, records@, records@.len() as int),
            seq![],
        ),
        Ok(_) => is_unusable(r, words),
    }
}

/// The outcome recorded for a target from the backend's reply to its
/// deletion.
pub open spec fn delete_outcome(reply: Result<Reply, BackendFailure>) -> ItemOutcomeView {
    match reply {
        Ok(_) => ItemOutcomeView::Succeeded(JsonView::Null),
        Err(failure) => ItemOutcomeView::Failed(failure.detail@),
    }
}

/// Whether `r` is what a bulk delete owes once one target's deletion has
/// been asked for.
pub open spec fn bulk_delete_post(
    targets: Vec<String>,
    outcomes: Vec<ItemOutcome>,
    reply: Result<Reply, BackendFailure>,
    r: Result<AgentStep, RouterError>,
) -> bool {
    if outcomes@.len() < targets@.len() {
        r matches Ok(step) && is_delete_step(
            step,
            texts(targets@),
            outcome_views(outcomes@).push(delete_outcome(reply)),
        )
    } else {
        is_unusable(r, AgentOperation::BulkDelete.wording())
    }
}

/// Whether `r` is what the agent router owes when `pending` is resumed
/// with `reply`.
pub open spec fn agent_resume_post(
    pending: AgentPending,
    reply: Result<Reply, BackendFailure>,
    r: Result<AgentStep, RouterError>,
) -> bool {
    match pending {
        AgentPending::Single { operation, agent } => single_post(operation, agent, reply, r),
        AgentPending::CloneSource { source, new_name } => clone_source_post(
            source,
            new_name,
            reply,
            r,
        ),
        AgentPending::CloneCreate { source, new_name } => clone_create_post(
            source,
            new_name,
            reply,
            r,
        ),
        AgentPending::ConfigAgent { agent } => config_agent_post(agent, reply, r),
        AgentPending::ConfigTools { record } => config_tools_post(record, reply, r),
        AgentPending::BulkList { filters } => bulk_list_post(filters, reply, r),
        AgentPending::BulkDelete { targets, outcomes } => bulk_delete_post(
            targets,
            outcomes,
            reply,
            r,
        ),
    }
}

fn wrap(key: &str, value: Json) -> (object: Json)
    ensures
        object@ == object1(key@, value@),
{
    let mut members: Vec<(String, Json)> = Vec::new();
    members.push((String::from_str(key), value));
    assert(member_views(members@) =~= seq![(key@, value@)]);
    Json::object(members)
}

fn failed(words: Wording, subject: &str, failure: &BackendFailure) -> (r: Result<
    AgentStep,
    RouterError,
>)
    ensures
        r matches Err(e) && is_failure_error(
            e,
            words.operation@,
            words.context@,
            subject@,
            *failure,
        ),
{
    Err(failure_error(words.operation, words.context, subject, failure))
}

fn unusable(words: Wording) -> (r: Result<AgentStep, RouterError>)
    ensures
        is_unusable(r, words),
{
    Err(unexpected_reply(words.operation, words.context))
}

fn id_text_of(agent: &Option<BackendId>) -> (s: &str)
    ensures
        s@ == id_text(*agent),
{
    match agent {
        Some(id) => id.as_str(),
        None => {
            let empty = "";
            proof {
                reveal_strlit("");
            }
            assert(empty@ =~= seq![]);
            empty
        },
    }
}

fn entities_of(records: Vec<AgentRecord>) -> (items: Vec<Json>)
    ensures
        item_views(items@) == record_entities(records@),
{
    let n = records.len();
    let mut stack = reversed(records);
    let mut items: Vec<Json> = Vec::new();
    while items.len() < n
        invariant
            n == records@.len(),
            items@.len() <= n,
            stack@.len() == n - items@.len(),
            forall|k: int| 0 <= k < stack@.len() ==> stack@[k] == records@[n - 1 - k],
            forall|i: int| 0 <= i < items@.len() ==> (#[trigger] items@[i]) == records@[i].entity,
        decreases n - items@.len(),
    {
        let record = stack.pop().unwrap();
        items.push(record.entity);
    }
    assert(item_views(items@) =~= record_entities(records@));
    items
}

/// The reply with agents replaced by their entities.
fn plain(reply: Reply) -> (r: Reply)
    ensures
        is_plain(reply, r),
{
    match reply {
        Reply::Agent(record) => Reply::Entity(record.entity),
        Reply::Agents(records) => Reply::Entities(entities_of(records)),
        other => other,
    }
}

fn resume_single(
    operation: AgentOperation,
    agent: Option<BackendId>,
    reply: Result<Reply, BackendFailure>,
) -> (r: Result<AgentStep, RouterError>)
    ensures
        single_post(operation, agent, reply, r),
{
    let words = operation.wording();
    match operation.shape_of() {
        Some(shape) => {
            let read = match reply {
                Ok(received) => Ok(plain(received)),
                Err(failure) => Err(failure),
            };
            proof {
                if read is Ok && read->Ok_0 is Entities {
                    let items = read->Ok_0->Entities_0;
                    lemma_array_view(items);
                    assert(item_views(items@).len() == items@.len());
                    if reply->Ok_0 is Agents {
                        let records = reply->Ok_0->Agents_0;
                        assert(record_entities(records@).len() == records@.len());
                    }
                }
            }
            match settle(shape, words, id_text_of(&agent), read) {
                Ok(s) => Ok(
                    Step::Done(
                        StandardResponse {
                            success: true,
                            operation: String::from_str(words.operation),
                            data: s.data,
                            message: s.message,
                        },
                    ),
                ),
                Err(e) => Err(e),
            }
        },
        None => {
            let received = match reply {
                Ok(received) => received,
                Err(failure) => {
                    return failed(words, id_text_of(&agent), &failure);
                },
            };
            match (operation, received) {
                (AgentOperation::Delete, _) => {
                    let message = join3(words.before, id_text_of(&agent), words.after);
                    Ok(
                        Step::Done(
                            StandardResponse::success_no_data(words.operation, message.as_str()),
                        ),
                    )
                },
                (AgentOperation::Export, Reply::Text(exported)) => Ok(
                    Step::Done(
                        StandardResponse::success(
                            words.operation,
                            wrap("export_data", Json::text(exported)),
                            words.fixed,
                        ),
                    ),
                ),
                (AgentOperation::AsyncMessage, Reply::Entity(run)) => Ok(
                    Step::Done(
                        StandardResponse::success(
                            words.operation,
                            wrap("run_id", run),
                            words.fixed,
                        ),
                    ),
                ),
                (AgentOperation::Count, Reply::Count(n)) => {
                    let message = counted(words.before, n, "");
                    proof {
                        reveal_strlit("");
                        assert(""@ =~= seq![]);
                        assert(message@ =~= words.before@ + decimal(n as nat));
                    }
                    Ok(
                        Step::Done(
                            StandardResponse::success(
                                words.operation,
                                wrap("count", Json::unsigned(n)),
                                message.as_str(),
                            ),
                        ),
                    )
                },
                _ => unusable(words),
            }
        },
    }
}

fn resume_clone_source(
    source: String,
    new_name: String,
    reply: Result<Reply, BackendFailure>,
) -> (r: Result<AgentStep, RouterError>)
    ensures
        clone_source_post(source, new_name, reply, r),
{
    let words = AgentOperation::Clone.wording();
    match reply {
        Err(failure) => failed(words, source.as_str(), &failure),
        Ok(Reply::Agent(record)) => Ok(
            Step::Call {
                call: AgentCall::Create(
                    AgentSpec {
                        name: new_name.clone(),
                        description: record.description,
                        system: record.system,
                        llm_config: record.llm_config,
                        embedding_config: record.embedding_config,
                        tool_ids: None,
                    },
                ),
                pending: AgentPending::CloneCreate { source, new_name },
            },
        ),
        Ok(_) => unusable(words),
    }
}

fn resume_clone_create(
    source: String,
    new_name: String,
    reply: Result<Reply, BackendFailure>,
) -> (r: Result<AgentStep, RouterError>)
    ensures
        clone_create_post(source, new_name, reply, r),
{
    let words = Wording {
        operation: "clone",
        context: "Failed to create cloned agent",
        fixed: "Agent cloned successfully",
        before: "",
        after: "",
    };
    match reply {
        Err(failure) => failed(words, source.as_str(), &failure),
        Ok(Reply::Agent(created)) => {
            let mut members: Vec<(String, Json)> = Vec::new();
            members.push((String::from_str("source_agent_id"), Json::text(source)));
            members.push((String::from_str("new_agent_id"), Json::text(created.id)));
            members.push((String::from_str("new_agent_name"), Json::text(new_name)));
            assert(member_views(members@) =~= seq![
                ("source_agent_id"@, JsonView::Str(source@)),
                ("new_agent_id"@, JsonView::Str(created.id@)),
                ("new_agent_name"@, JsonView::Str(new_name@)),
            ]);
            Ok(
                Step::Done(
                    StandardResponse::success(words.operation, Json::object(members), words.fixed),
                ),
            )
        },
        Ok(_) => unusable(words),
    }
}

fn resume_config_agent(agent: BackendId, reply: Result<Reply, BackendFailure>) -> (r: Result<
    AgentStep,
    RouterError,
>)
    ensures
        config_agent_post(agent, reply, r),
{
    let words = AgentOperation::GetConfig.wording();
    match reply {
        Err(failure) => failed(words, agent.as_str(), &failure),
        Ok(Reply::Agent(record)) => Ok(
            Step::Call {
                call: AgentCall::ListTools { agent },
                pending: AgentPending::ConfigTools { record },
            },
        ),
        Ok(_) => unusable(words),
    }
}

fn resume_config_tools(record: AgentRecord, reply: Result<Reply, BackendFailure>) -> (r: Result<
    AgentStep,
    RouterError,
>)
    ensures
        config_tools_post(record, reply, r),
{
    let words = Wording {
        operation: "get_config",
        context: "Failed to list agent tools",
        fixed: "Agent configuration retrieved successfully",
        before: "",
        after: "",
    };
    let tools = match reply {
        Err(failure) => {
            return failed(words, record.id.as_str(), &failure);
        },
        Ok(Reply::Entities(items)) => items,
        Ok(_) => {
            return unusable(words);
        },
    };
    let ghost listed = item_views(tools@);
    let mut members: Vec<(String, Json)> = Vec::new();
    members.push((String::from_str("name"), Json::text(record.name)));
    members.push((String::from_str("description"), Json::optional_text(record.description)));
    members.push((String::from_str("system"), Json::optional_text(record.system)));
    members.push((String::from_str("llm_config"), Json::optional(record.llm_config)));
    members.push((String::from_str("embedding_config"), Json::optional(record.embedding_config)));
    members.push((String::from_str("tools"), Json::array(tools)));
    members.push((String::from_str("created_at"), record.created_at));
    assert(member_views(members@) =~= config_payload(record, listed)->Object_0);
    Ok(Step::Done(StandardResponse::success(words.operation, Json::object(members), words.fixed)))
}

/// Builds the envelope of a finished bulk delete.
fn bulk_delete_response(targets: &Vec<String>, outcomes: Vec<ItemOutcome>) -> (response:
    StandardResponse)
    requires
        outcomes@.len() <= targets@.len(),
    ensures
        is_bulk_delete_response(response, texts(targets@), outcome_views(outcomes@)),
{
    let words = AgentOperation::BulkDelete.wording();
    let total = outcomes.len();
    let ghost all = outcome_views(outcomes@);
    let ghost names = texts(targets@);
    let mut stack = reversed(outcomes);
    let mut errors: Vec<Json> = Vec::new();
    let mut deleted: usize = 0;
    let mut i: usize = 0;
    assert(item_views(errors@) =~= error_entries(names, all, 0));
    while i < total
        invariant
            i <= total,
            total == all.len(),
            total <= targets@.len(),
            names == texts(targets@),
            stack@.len() == total - i,
            forall|k: int| 0 <= k < stack@.len() ==> (#[trigger] stack@[k])@ == all[total - 1 - k],
            item_views(errors@) == error_entries(names, all, i as int),
            deleted == successes(all, i as int),
            errors@.len() == failures(all, i as int),
            deleted + errors@.len() == i,
        decreases total - i,
    {
        let ghost old_errors = item_views(errors@);
        let outcome = stack.pop().unwrap();
        assert(outcome@ == all[i as int]);
        match outcome {
            ItemOutcome::Succeeded(_) => {
                deleted = deleted + 1;
            },
            ItemOutcome::Failed(reason) => {
                let ghost why = reason@;
                errors.push(make_error_entry(&targets[i], reason));
                assert(item_views(errors@) =~= old_errors.push(error_entry(names[i as int], why)));
            },
        }
        i = i + 1;
    }
    let failed = errors.len();
    let message = counted(words.before, deleted as u64, words.after);
    let mut members: Vec<(String, Json)> = Vec::new();
    members.push((String::from_str("deleted_count"), Json::unsigned(deleted as u64)));
    members.push((String::from_str("failed_count"), Json::unsigned(failed as u64)));
    members.push((String::from_str("errors"), Json::array(errors)));
    assert(member_views(members@) =~= bulk_delete_payload(names, all)->Object_0);
    StandardResponse {
        success: failed == 0,
        operation: String::from_str(words.operation),
        data: Some(Json::object(members)),
        message,
    }
}

fn delete_advance(targets: Vec<String>, outcomes: Vec<ItemOutcome>) -> (step: AgentStep)
    requires
        outcomes@.len() <= targets@.len(),
    ensures
        is_delete_step(step, texts(targets@), outcome_views(outcomes@)),
{
    let mut outcomes = outcomes;
    match next_target(&targets, &mut outcomes) {
        Some(agent) => {
            assert(texts(targets@)[outcomes@.len() as int] == targets@[outcomes@.len() as int]@);
            Step::Call {
                call: AgentCall::Delete { agent },
                pending: AgentPending::BulkDelete { targets, outcomes },
            }
        },
        None => Step::Done(bulk_delete_response(&targets, outcomes)),
    }
}

fn resume_bulk_list(filters: BulkDeleteFilters, reply: Result<Reply, BackendFailure>) -> (r: Result<
    AgentStep,
    RouterError,
>)
    ensures
        bulk_list_post(filters, reply, r),
{
    let words = AgentOperation::BulkDelete.wording();
    let nothing = String::new();
    match reply {
        Err(failure) => failed(words, nothing.as_str(), &failure),
        Ok(Reply::Agents(records)) => {
            let targets = select_targets(&filters, &records);
            let outcomes: Vec<ItemOutcome> = Vec::new();
            assert(outcome_views(outcomes@) =~= seq![]);
            Ok(delete_advance(targets, outcomes))
        },
        Ok(_) => unusable(words),
    }
}

fn resume_bulk_delete(
    targets: Vec<String>,
    outcomes: Vec<ItemOutcome>,
    reply: Result<Reply, BackendFailure>,
) -> (r: Result<AgentStep, RouterError>)
    ensures
        bulk_delete_post(targets, outcomes, reply, r),
{
    if outcomes.len() < targets.len() {
        let outcome = match reply {
            Ok(_) => ItemOutcome::Succeeded(Json::Null),
            Err(failure) => ItemOutcome::Failed(failure.detail),
        };
        let mut outcomes = outcomes;
        let ghost before = outcome_views(outcomes@);
        outcomes.push(outcome);
        assert(outcome_views(outcomes@) =~= before.push(delete_outcome(reply)));
        Ok(delete_advance(targets, outcomes))
    } else {
        unusable(AgentOperation::BulkDelete.wording())
    }
}

/// Folds the backend's reply into the envelope or, in an operation of
/// several calls, into the next call.
pub fn resume_agent_advanced(
    pending: AgentPending,
    reply: Result<Reply, BackendFailure>,
) -> (r: Result<AgentStep, RouterError>)
    ensures
        agent_resume_post(pending, reply, r),
{
    match pending {
        AgentPending::Single { operation, agent } => resume_single(operation, agent, reply),
        AgentPending::CloneSource { source, new_name } => resume_clone_source(
            source,
            new_name,
            reply,
        ),
        AgentPending::CloneCreate { source, new_name } => resume_clone_create(
            source,
            new_name,
            reply,
        ),
        AgentPending::ConfigAgent { agent } => resume_config_agent(agent, reply),
        AgentPending::ConfigTools { record } => resume_config_tools(record, reply),
        AgentPending::BulkList { filters } => resume_bulk_list(filters, reply),
        AgentPending::BulkDelete { targets, outcomes } => resume_bulk_delete(
            targets,
            outcomes,
            reply,
        ),
    }
}

impl AgentOperation {
    /// The operation that `raw` names.
    pub open spec fn named(raw: Seq<char>) -> Option<AgentOperation> {
        if raw == "list"@ {
            Some(AgentOperation::List)
        } else if raw == "create"@ {
            Some(AgentOperation::Create)
        } else if raw == "get"@ {
            Some(AgentOperation::Get)
        } else if raw == "update"@ {
            Some(AgentOperation::Update)
        } else if raw == "delete"@ {
            Some(AgentOperation::Delete)
        } else if raw == "list_tools"@ {
            Some(AgentOperation::ListTools)
        } else if raw == "send_message"@ {
            Some(AgentOperation::SendMessage)
        } else if raw == "export"@ {
            Some(AgentOperation::Export)
        } else if raw == "import"@ {
            Some(AgentOperation::Import)
        } else if raw == "clone"@ {
            Some(AgentOperation::Clone)
        } else if raw == "get_config"@ {
            Some(AgentOperation::GetConfig)
        } else if raw == "bulk_delete"@ {
            Some(AgentOperation::BulkDelete)
        } else if raw == "context"@ {
            Some(AgentOperation::Context)
        } else if raw == "reset_messages"@ {
            Some(AgentOperation::ResetMessages)
        } else if raw == "summarize"@ {
            Some(AgentOperation::Summarize)
        } else if raw == "stream"@ {
            Some(AgentOperation::Stream)
        } else if raw == "async_message"@ {
            Some(AgentOperation::AsyncMessage)
        } else if raw == "cancel_message"@ {
            Some(AgentOperation::CancelMessage)
        } else if raw == "preview_payload"@ {
            Some(AgentOperation::PreviewPayload)
        } else if raw == "search_messages"@ {
            Some(AgentOperation::SearchMessages)
        } else if raw == "get_message"@ {
            Some(AgentOperation::GetMessage)
        } else if raw == "count"@ {
            Some(AgentOperation::Count)
        } else {
            None
        }
    }

    /// Reads the operation that a request names.
    pub fn parse(raw: &str) -> (r: Result<AgentOperation, RouterError>)
        ensures
            match AgentOperation::named(raw@) {
                Some(op) => r == Ok::<AgentOperation, RouterError>(op),
                None => r matches Err(RouterError::UnknownOperation { raw: t }) && t@ == raw@,
            },
    {
        if same_text(raw, "list") {
            Ok(AgentOperation::List)
        } else if same_text(raw, "create") {
            Ok(AgentOperation::Create)
        } else if same_text(raw, "get") {
            Ok(AgentOperation::Get)
        } else if same_text(raw, "update") {
            Ok(AgentOperation::Update)
        } else if same_text(raw, "delete") {
            Ok(AgentOperation::Delete)
        } else if same_text(raw, "list_tools") {
            Ok(AgentOperation::ListTools)
        } else if same_text(raw, "send_message") {
            Ok(AgentOperation::SendMessage)
        } else if same_text(raw, "export") {
            Ok(AgentOperation::Export)
        } else if same_text(raw, "import") {
            Ok(AgentOperation::Import)
        } else if same_text(raw, "clone") {
            Ok(AgentOperation::Clone)
        } else if same_text(raw, "get_config") {
            Ok(AgentOperation::GetConfig)
        } else if same_text(raw, "bulk_delete") {
            Ok(AgentOperation::BulkDelete)
        } else if same_text(raw, "context") {
            Ok(AgentOperation::Context)
        } else if same_text(raw, "reset_messages") {
            Ok(AgentOperation::ResetMessages)
        } else if same_text(raw, "summarize") {
            Ok(AgentOperation::Summarize)
        } else if same_text(raw, "stream") {
            Ok(AgentOperation::Stream)
        } else if same_text(raw, "async_message") {
            Ok(AgentOperation::AsyncMessage)
        } else if same_text(raw, "cancel_message") {
            Ok(AgentOperation::CancelMessage)
        } else if same_text(raw, "preview_payload") {
            Ok(AgentOperation::PreviewPayload)
        } else if same_text(raw, "search_messages") {
            Ok(AgentOperation::SearchMessages)
        } else if same_text(raw, "get_message") {
            Ok(AgentOperation::GetMessage)
        } else if same_text(raw, "count") {
            Ok(AgentOperation::Count)
        } else {
            Err(RouterError::UnknownOperation { raw: String::from_str(raw) })
        }
    }
}

/// Every agent operation is read back from its own name.
pub proof fn lemma_agent_name_reads_back(op: AgentOperation)
    ensures
        AgentOperation::named(op.name_spec()) == Some(op),
{
    reveal_strlit("list");
    reveal_strlit("create");
    reveal_strlit("get");
    reveal_strlit("update");
    reveal_strlit("delete");
    reveal_strlit("list_tools");
    reveal_strlit("send_message");
    reveal_strlit("export");
    reveal_strlit("import");
    reveal_strlit("clone");
    reveal_strlit("get_config");
    reveal_strlit("bulk_delete");
    reveal_strlit("context");
    reveal_strlit("reset_messages");
    reveal_strlit("summarize");
    reveal_strlit("stream");
    reveal_strlit("async_message");
    reveal_strlit("cancel_message");
    reveal_strlit("preview_payload");
    reveal_strlit("search_messages");
    reveal_strlit("get_message");
    reveal_strlit("count");
    assert("list"@.len() == 4);
    assert("create"@.len() == 6);
    assert("get"@.len() == 3);
    assert("update"@.len() == 6);
    assert("delete"@.len() == 6);
    assert("list_tools"@.len() == 10);
    assert("send_message"@.len() == 12);
    assert("export"@.len() == 6);
    assert("import"@.len() == 6);
    assert("clone"@.len() == 5);
    assert("get_config"@.len() == 10);
    assert("bulk_delete"@.len() == 11);
    assert("context"@.len() == 7);
    assert("reset_messages"@.len() == 14);
    assert("summarize"@.len() == 9);
    assert("stream"@.len() == 6);
    assert("async_message"@.len() == 13);
    assert("cancel_message"@.len() == 14);
    assert("preview_payload"@.len() == 15);
    assert("search_messages"@.len() == 15);
    assert("get_message"@.len() == 11);
    assert("count"@.len() == 5);
    assert("update"@[0] == 'u');
    assert("create"@[0] == 'c');
    assert("delete"@[0] == 'd');
    assert("export"@[0] == 'e');
    assert("import"@[0] == 'i');
    assert("get_config"@[0] == 'g');
    assert("list_tools"@[0] == 'l');
    assert("stream"@[0] == 's');
    assert("cancel_message"@[0] == 'c');
    assert("reset_messages"@[0] == 'r');
    assert("search_messages"@[0] == 's');
    assert("preview_payload"@[0] == 'p');
    assert("get_message"@[0] == 'g');
    assert("bulk_delete"@[0] == 'b');
    assert("count"@[1] == 'o');
    assert("clone"@[1] == 'l');
}

/// No two agent operations share a name.
pub proof fn lemma_agent_names_differ(a: AgentOperation, b: AgentOperation)
    requires
        a.name_spec() == b.name_spec(),
    ensures
        a == b,
{
    lemma_agent_name_reads_back(a);
    lemma_agent_name_reads_back(b);
}

/// A request that lacks a field its operation requires is refused as
/// missing a field, and no backend call is asked for: the field reported is
/// required and absent, and it is the lacking field itself where every
/// field required before it is there.
pub proof fn lemma_agent_missing_field_is_refused(
    request: AgentAdvancedRequest,
    at: int,
    r: Result<AgentStep, RouterError>,
)
    requires
        agent_dispatch_post(request, r),
        0 <= at < request.operation.required().len(),
        !request.has_field(request.operation.required()[at]),
    ensures
        r is Err,
        r->Err_0 is MissingField,
        ({
            let field = r->Err_0->MissingField_field;
            &&& r->Err_0->MissingField_operation@ == request.operation.name_spec()
            &&& request.operation.required().contains(field)
            &&& !request.has_field(field)
            &&& (forall|j: int|
                0 <= j < at ==> request.has_field(#[trigger] request.operation.required()[j]))
                ==> field == request.operation.required()[at]
        }),
{
    lemma_missing_field_is_reported(request.operation.required(), request, at);
}

/// A request that holds everything its operation requires but a malformed
/// identifier is refused as holding an invalid identifier, and no backend
/// call is asked for: the field reported is malformed, its text is
/// reported with it, and it is the malformed field itself where no
/// identifier field before it is malformed.
pub proof fn lemma_agent_malformed_identifier_is_refused(
    request: AgentAdvancedRequest,
    at: int,
    r: Result<AgentStep, RouterError>,
)
    requires
        agent_dispatch_post(request, r),
        first_missing(request.operation.required(), request) is None,
        0 <= at < request.operation.identifiers().len(),
        malformed(request, request.operation.identifiers()[at]),
    ensures
        r is Err,
        r->Err_0 is InvalidIdentifier,
        ({
            let field = r->Err_0->InvalidIdentifier_field;
            &&& r->Err_0->InvalidIdentifier_operation@ == request.operation.name_spec()
            &&& malformed(request, field)
            &&& request.raw_identifier(field) == Some(r->Err_0->InvalidIdentifier_raw@)
            &&& (forall|j: int|
                0 <= j < at ==> !malformed(request, #[trigger] request.operation.identifiers()[j]))
                ==> field == request.operation.identifiers()[at]
        }),
{
    lemma_malformed_identifier_is_reported(request.operation.identifiers(), request, at);
}

impl AgentPending {
    /// The operation that the state belongs to.
    pub open spec fn operation(self) -> AgentOperation {
        match self {
            AgentPending::Single { operation, .. } => operation,
            AgentPending::CloneSource { .. } => AgentOperation::Clone,
            AgentPending::CloneCreate { .. } => AgentOperation::Clone,
            AgentPending::ConfigAgent { .. } => AgentOperation::GetConfig,
            AgentPending::ConfigTools { .. } => AgentOperation::GetConfig,
            AgentPending::BulkList { .. } => AgentOperation::BulkDelete,
            AgentPending::BulkDelete { .. } => AgentOperation::BulkDelete,
        }
    }
}

/// Dispatch reaches one handler, the operation's own: the step that a
/// request begins with belongs to the request's operation.
pub proof fn lemma_agent_dispatch_reaches_own_handler(
    request: AgentAdvancedRequest,
    r: Result<AgentStep, RouterError>,
)
    requires
        agent_dispatch_post(request, r),
        r is Ok,
    ensures
        r matches Ok(Step::Call { call, pending }) && pending.operation() == request.operation,
{
}

/// A resumed operation stays with its handler: the next step belongs to the
/// same operation, and the envelope names it.
pub proof fn lemma_agent_resume_stays_with_handler(
    pending: AgentPending,
    reply: Result<Reply, BackendFailure>,
    r: Result<AgentStep, RouterError>,
)
    requires
        agent_resume_post(pending, reply, r),
        r is Ok,
    ensures
        match r->Ok_0 {
            Step::Call { call, pending: next } => next.operation() == pending.operation(),
            Step::Done(response) => response.operation@ == pending.operation().name_spec(),
        },
{
}

/// Reading is repeatable: resuming a get, a list or a count with the same
/// reply yields the same payload and sentence.
pub proof fn lemma_agent_reading_is_repeatable(
    operation: AgentOperation,
    agent: Option<BackendId>,
    reply: Result<Reply, BackendFailure>,
    a: Result<AgentStep, RouterError>,
    b: Result<AgentStep, RouterError>,
)
    requires
        operation == AgentOperation::Get || operation == AgentOperation::List || operation
            == AgentOperation::Count,
        agent_resume_post(AgentPending::Single { operation, agent }, reply, a),
        agent_resume_post(AgentPending::Single { operation, agent }, reply, b),
    ensures
        match (a, b) {
            (Ok(Step::Done(x)), Ok(Step::Done(y))) => x.success == y.success && x.operation@
                == y.operation@ && x.data is Some == y.data is Some && (x.data is Some
                ==> x.data->0@ == y.data->0@) && x.message@ == y.message@,
            (Err(e), Err(f)) => e.kind_spec() == f.kind_spec() && e.message_spec()
                == f.message_spec(),
            _ => false,
        },
{
}

/// What create and get return is the backend's agent, unchanged: where the
/// backend answers a get with the agent it answered the create with, both
/// envelopes carry that agent's entity, identifier and fields included.
pub proof fn lemma_agent_create_then_get(
    record: AgentRecord,
    agent: Option<BackendId>,
    created: Result<AgentStep, RouterError>,
    read: Result<AgentStep, RouterError>,
)
    requires
        agent_resume_post(
            AgentPending::Single { operation: AgentOperation::Create, agent: None },
            Ok(Reply::Agent(record)),
            created,
        ),
        agent_resume_post(
            AgentPending::Single { operation: AgentOperation::Get, agent },
            Ok(Reply::Agent(record)),
            read,
        ),
    ensures
        created matches Ok(Step::Done(c)) && c.data is Some && c.data->0@ == record.entity@,
        read matches Ok(Step::Done(g)) && g.data is Some && g.data->0@ == record.entity@,
{
}

/// Bulk totals: of N targets of which K failed, the envelope counts N - K
/// deleted and K failed, succeeds only where K is zero, and lists exactly K
/// errors, each naming the target that failed with the reason recorded for
/// it.
pub proof fn lemma_bulk_delete_totals(
    response: StandardResponse,
    targets: Seq<Seq<char>>,
    outcomes: Seq<ItemOutcomeView>,
)
    requires
        is_bulk_delete_response(response, targets, outcomes),
        outcomes.len() == targets.len(),
    ensures
        response.success == (failures(outcomes, targets.len() as int) == 0),
        response.data is Some,
        response.data->0@ == JsonView::Object(
            seq![
                (
                    "deleted_count"@,
                    JsonView::Number(
                        NumberView::Int(targets.len() - failures(outcomes, targets.len() as int)),
                    ),
                ),
                (
                    "failed_count"@,
                    JsonView::Number(
                        NumberView::Int(failures(outcomes, targets.len() as int) as int),
                    ),
                ),
                (
                    "errors"@,
                    JsonView::Array(error_entries(targets, outcomes, targets.len() as int)),
                ),
            ],
        ),
        error_entries(targets, outcomes, targets.len() as int).len() == failures(
            outcomes,
            targets.len() as int,
        ),
        forall|k: int|
            0 <= k < error_entries(targets, outcomes, targets.len() as int).len() ==> exists|
                i: int,
            |
                0 <= i < targets.len() && outcomes[i] is Failed && #[trigger] error_entries(
                    targets,
                    outcomes,
                    targets.len() as int,
                )[k] == error_entry(targets[i], outcomes[i]->Failed_0),
{
    let n = targets.len() as int;
    crate::bulk::lemma_successes_and_failures(outcomes, n);
    crate::bulk::lemma_error_entries(targets, outcomes, n);
}

/// A bulk delete ends only when every target has its outcome.
pub proof fn lemma_bulk_delete_ends_with_every_target(
    response: StandardResponse,
    targets: Seq<Seq<char>>,
    outcomes: Seq<ItemOutcomeView>,
)
    requires
        outcomes.len() <= targets.len(),
        is_delete_step(Step::Done(response), targets, outcomes),
    ensures
        skip_malformed(targets, outcomes).len() == targets.len(),
        is_bulk_delete_response(response, targets, skip_malformed(targets, outcomes)),
{
    crate::bulk::lemma_skip_malformed(targets, outcomes);
}

/// An envelope that does not report success is a bulk delete of which some
/// target failed: every other failure is an error, never an envelope.
pub proof fn lemma_agent_failure_envelope_is_partial_failure(
    pending: AgentPending,
    reply: Result<Reply, BackendFailure>,
    r: Result<AgentStep, RouterError>,
)
    requires
        agent_resume_post(pending, reply, r),
        r matches Ok(Step::Done(response)) && !response.success,
    ensures
        pending.operation() == AgentOperation::BulkDelete,
{
}

} // verus!
