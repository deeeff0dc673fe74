//! The external-tool-server router: registering, testing and listing tool
//! servers, and listing and registering the tools they offer.

use crate::backend::{
    failure_error, is_failure_error, is_unexpected_reply, unexpected_reply, BackendFailure,
    Reply, Step,
};
use crate::error::RouterError;
use crate::field::Field;
use crate::json::{
    find_member, insert_member, inserted, item_views, lemma_array_view, lemma_object_view,
    lookup, member_views, Json, JsonView, NumberView,
};
use crate::settle::Wording;
use crate::text::{add_name, decimal, optional_text, render_count, same_text, text_or_empty, with_name};
use crate::validate::{
    first_missing, first_missing_from, is_missing, is_not_implemented,
    lemma_missing_field_is_reported, not_implemented, require, require_present, Fields,
};
use vstd::prelude::*;
use vstd::string::*;

verus! {

/// The operations of the tool-server router.
#[derive(Clone, Copy, Debug, PartialEq, Eq, Structural)]
pub enum McpOperation {
    Add,
    Update,
    Delete,
    Test,
    Connect,
    Resync,
    Execute,
    ListServers,
    ListTools,
    RegisterTool,
}

/// A request to the tool-server router.
#[derive(Debug, PartialEq, Eq)]
pub struct McpOpsRequest {
    pub operation: McpOperation,
    pub server_name: Option<String>,
    pub server_config: Option<Json>,
    pub tool_name: Option<String>,
    pub tool_args: Option<Json>,
    pub oauth_config: Option<Json>,
    pub pagination: Option<Json>,
    pub request_heartbeat: Option<bool>,
}

/// The envelope of the tool-server router.
#[derive(Debug, PartialEq, Eq)]
pub struct McpOpsResponse {
    pub success: bool,
    pub operation: String,
    pub message: String,
    pub data: Option<Json>,
    pub servers: Option<Vec<Json>>,
    pub tools: Option<Vec<Json>>,
    pub server_name: Option<String>,
    pub tool_name: Option<String>,
}

/// A backend call of the tool-server router.
#[derive(Debug, PartialEq, Eq)]
pub enum McpCall {
    AddServer { config: Json },
    UpdateServer { server: String, config: Json },
    DeleteServer { server: String },
    TestServer { config: Json },
    ListServers,
    ListTools { server: String },
    RegisterTool { server: String, tool: String },
}

/// The state an operation resumes from: the operation and the names that
/// its envelope echoes.
#[derive(Debug, PartialEq, Eq)]
pub struct McpPending {
    pub operation: McpOperation,
    pub server_name: Option<String>,
    pub tool_name: Option<String>,
}

/// A step of the tool-server router.
pub type McpStep = Step<McpCall, McpPending, McpOpsResponse>;

impl McpOperation {
    /// The operation's name on the wire.
    pub open spec fn name_spec(self) -> Seq<char> {
        self.wording().operation@
    }

    /// The fields the operation requires, in the order they are checked.
    pub open spec fn required(self) -> Seq<Field> {
        match self {
            McpOperation::Add => seq![Field::ServerConfig],
            McpOperation::Update => seq![Field::ServerName, Field::ServerConfig],
            McpOperation::Delete => seq![Field::ServerName],
            McpOperation::Test => seq![Field::ServerConfig],
            McpOperation::Connect => seq![Field::ServerName],
            McpOperation::Resync => seq![Field::ServerName],
            McpOperation::Execute => seq![Field::ServerName, Field::ToolName],
            McpOperation::ListServers => seq![],
            McpOperation::ListTools => seq![Field::ServerName],
            McpOperation::RegisterTool => seq![Field::ServerName, Field::ToolName],
        }
    }

    /// Whether the backend integration can perform the operation.
    pub open spec fn available(self) -> bool {
        self != McpOperation::Connect && self != McpOperation::Resync && self
            != McpOperation::Execute
    }

    /// Whether the envelope echoes the server's name.
    pub open spec fn echoes_server(self) -> bool {
        self == McpOperation::Update || self == McpOperation::Delete || self
            == McpOperation::ListTools || self == McpOperation::RegisterTool
    }

    pub open spec fn wording_spec(self) -> Wording {
        match self {
            McpOperation::Add => Wording {
                operation: "add",
                context: "Failed to add MCP server",
                fixed: "MCP server added successfully",
                before: "",
                after: "",
            },
            McpOperation::Update => Wording {
                operation: "update",
                context: "Failed to update MCP server",
                fixed: "MCP server updated successfully",
                before: "",
                after: "",
            },
            McpOperation::Delete => Wording {
                operation: "delete",
                context: "Failed to delete MCP server",
                fixed: "MCP server deleted successfully",
                before: "",
                after: "",
            },
            McpOperation::Test => Wording {
                operation: "test",
                context: "Failed to test MCP server",
                fixed: "MCP server connection successful",
                before: "",
                after: "",
            },
            McpOperation::Connect => Wording {
                operation: "connect",
                context: "",
                fixed: "Connect operation not yet implemented in Rust SDK",
                before: "",
                after: "",
            },
            McpOperation::Resync => Wording {
                operation: "resync",
                context: "",
                fixed: "Resync operation not yet implemented in Rust SDK",
                before: "",
                after: "",
            },
            McpOperation::Execute => Wording {
                operation: "execute",
                context: "",
                fixed: "Execute operation not yet implemented in Rust SDK",
                before: "",
                after: "",
            },
            McpOperation::ListServers => Wording {
                operation: "list_servers",
                context: "Failed to list MCP servers",
                fixed: "",
                before: "Found ",
                after: " MCP servers",
            },
            McpOperation::ListTools => Wording {
                operation: "list_tools",
                context: "Failed to list MCP tools",
                fixed: "",
                before: "Found ",
                after: " tools on server ",
            },
            McpOperation::RegisterTool => Wording {
                operation: "register_tool",
                context: "Failed to register MCP tool",
                fixed: " registered successfully in Letta",
                before: "Tool ",
                after: " from ",
            },
        }
    }

    /// The operation's words.  For an operation that is not available,
    /// `fixed` names the missing capability.
    #[verifier::when_used_as_spec(wording_spec)]
    pub fn wording(self) -> (w: Wording)
        ensures
            w == self.wording_spec(),
    {
        match self {
            McpOperation::Add => Wording {
                operation: "add",
                context: "Failed to add MCP server",
                fixed: "MCP server added successfully",
                before: "",
                after: "",
            },
            McpOperation::Update => Wording {
                operation: "update",
                context: "Failed to update MCP server",
                fixed: "MCP server updated successfully",
                before: "",
                after: "",
            },
            McpOperation::Delete => Wording {
                operation: "delete",
                context: "Failed to delete MCP server",
                fixed: "MCP server deleted successfully",
                before: "",
                after: "",
            },
            McpOperation::Test => Wording {
                operation: "test",
                context: "Failed to test MCP server",
                fixed: "MCP server connection successful",
                before: "",
                after: "",
            },
            McpOperation::Connect => Wording {
                operation: "connect",
                context: "",
                fixed: "Connect operation not yet implemented in Rust SDK",
                before: "",
                after: "",
            },
            McpOperation::Resync => Wording {
                operation: "resync",
                context: "",
                fixed: "Resync operation not yet implemented in Rust SDK",
                before: "",
                after: "",
            },
            McpOperation::Execute => Wording {
                operation: "execute",
                context: "",
                fixed: "Execute operation not yet implemented in Rust SDK",
                before: "",
                after: "",
            },
            McpOperation::ListServers => Wording {
                operation: "list_servers",
                context: "Failed to list MCP servers",
                fixed: "",
                before: "Found ",
                after: " MCP servers",
            },
            McpOperation::ListTools => Wording {
                operation: "list_tools",
                context: "Failed to list MCP tools",
                fixed: "",
                before: "Found ",
                after: " tools on server ",
            },
            McpOperation::RegisterTool => Wording {
                operation: "register_tool",
                context: "Failed to register MCP tool",
                fixed: " registered successfully in Letta",
                before: "Tool ",
                after: " from ",
            },
        }
    }

    /// The operation's name on the wire.
    pub fn name(self) -> (s: &'static str)
        ensures
            s@ == self.name_spec(),
    {
        self.wording().operation
    }
}

impl Fields for McpOpsRequest {
    open spec fn has_field(&self, f: Field) -> bool {
        match f {
            Field::ServerName => self.server_name is Some,
            Field::ServerConfig => self.server_config is Some,
            Field::ToolName => self.tool_name is Some,
            _ => false,
        }
    }

    open spec fn raw_identifier(&self, f: Field) -> Option<Seq<char>> {
        None
    }
}

/// Whether `call` is the one backend call that the request's operation
/// makes, built from the request's fields.
pub open spec fn is_mcp_call(request: McpOpsRequest, call: McpCall) -> bool {
    match request.operation {
        McpOperation::Add => call matches McpCall::AddServer { config } && Some(config)
            == request.server_config,
        McpOperation::Update => call matches McpCall::UpdateServer { server, config } && Some(
            server,
        ) == request.server_name && Some(config) == request.server_config,
        McpOperation::Delete => call matches McpCall::DeleteServer { server } && Some(server)
            == request.server_name,
        McpOperation::Test => call matches McpCall::TestServer { config } && Some(config)
            == request.server_config,
        McpOperation::ListServers => call is ListServers,
        McpOperation::ListTools => call matches McpCall::ListTools { server } && Some(server)
            == request.server_name,
        McpOperation::RegisterTool => call matches McpCall::RegisterTool { server, tool } && Some(
            server,
        ) == request.server_name && Some(tool) == request.tool_name,
        _ => false,
    }
}

/// The state that the request's operation resumes from.
pub open spec fn mcp_pending_for(request: McpOpsRequest) -> McpPending {
    McpPending {
        operation: request.operation,
        server_name: if request.operation.echoes_server() {
            request.server_name
        } else {
            None
        },
        tool_name: if request.operation == McpOperation::RegisterTool {
            request.tool_name
        } else {
            None
        },
    }
}

/// Whether `r` is what the router owes for `request`.  An operation that is
/// not available still checks its required fields first.
pub open spec fn mcp_dispatch_post(
    request: McpOpsRequest,
    r: Result<McpStep, RouterError>,
) -> bool {
    let op = request.operation;
    match first_missing(op.required(), request) {
        Some(f) => r matches Err(e) && is_missing(e, op.name_spec(), f),
        None => if !op.available() {
            r matches Err(e) && is_not_implemented(e, op.name_spec(), op.wording().fixed@)
        } else {
            r matches Ok(Step::Call { call, pending }) && is_mcp_call(request, call) && pending
                == mcp_pending_for(request)
        },
    }
}

/// Validates a request and names its backend call.
pub fn handle_mcp_ops(request: McpOpsRequest) -> (r: Result<McpStep, RouterError>)
    ensures
        mcp_dispatch_post(request, r),
{
    let op = request.operation;
    let words = op.wording();
    let name = words.operation;
    proof {
        reveal_with_fuel(first_missing_from, 3);
    }
    match op {
        McpOperation::ListServers => Ok(
            Step::Call {
                call: McpCall::ListServers,
                pending: McpPending { operation: op, server_name: None, tool_name: None },
            },
        ),
        McpOperation::Add => {
            let config = require(request.server_config, name, Field::ServerConfig)?;
            Ok(
                Step::Call {
                    call: McpCall::AddServer { config },
                    pending: McpPending { operation: op, server_name: None, tool_name: None },
                },
            )
        },
        McpOperation::Test => {
            let config = require(request.server_config, name, Field::ServerConfig)?;
            Ok(
                Step::Call {
                    call: McpCall::TestServer { config },
                    pending: McpPending { operation: op, server_name: None, tool_name: None },
                },
            )
        },
        McpOperation::Update => {
            require_present(&request.server_name, name, Field::ServerName)?;
            let config = require(request.server_config, name, Field::ServerConfig)?;
            let server = require(request.server_name, name, Field::ServerName)?;
            Ok(
                Step::Call {
                    call: McpCall::UpdateServer { server: server.clone(), config },
                    pending: McpPending {
                        operation: op,
                        server_name: Some(server),
                        tool_name: None,
                    },
                },
            )
        },
        McpOperation::Delete => {
            let server = require(request.server_name, name, Field::ServerName)?;
            Ok(
                Step::Call {
                    call: McpCall::DeleteServer { server: server.clone() },
                    pending: McpPending {
                        operation: op,
                        server_name: Some(server),
                        tool_name: None,
                    },
                },
            )
        },
        McpOperation::ListTools => {
            let server = require(request.server_name, name, Field::ServerName)?;
            Ok(
                Step::Call {
                    call: McpCall::ListTools { server: server.clone() },
                    pending: McpPending {
                        operation: op,
                        server_name: Some(server),
                        tool_name: None,
                    },
                },
            )
        },
        McpOperation::RegisterTool => {
            require_present(&request.server_name, name, Field::ServerName)?;
            let tool = require(request.tool_name, name, Field::ToolName)?;
            let server = require(request.server_name, name, Field::ServerName)?;
            Ok(
                Step::Call {
                    call: McpCall::RegisterTool { server: server.clone(), tool: tool.clone() },
                    pending: McpPending {
                        operation: op,
                        server_name: Some(server),
                        tool_name: Some(tool),
                    },
                },
            )
        },
        McpOperation::Connect | McpOperation::Resync => {
            require_present(&request.server_name, name, Field::ServerName)?;
            Err(not_implemented(name, words.fixed))
        },
        McpOperation::Execute => {
            require_present(&request.server_name, name, Field::ServerName)?;
            require_present(&request.tool_name, name, Field::ToolName)?;
            Err(not_implemented(name, words.fixed))
        },
    }
}

/// The members of an object; any other value has none.
pub open spec fn members_of(v: JsonView) -> Seq<(Seq<char>, JsonView)> {
    match v {
        JsonView::Object(members) => members,
        _ => seq![],
    }
}

/// `base` after the first `upto` members of `extra` have been bound in it,
/// in order: a name that is already there gets the new value where it
/// stands, and a new name goes to the end.
pub open spec fn merged(
    base: Seq<(Seq<char>, JsonView)>,
    extra: Seq<(Seq<char>, JsonView)>,
    upto: int,
) -> Seq<(Seq<char>, JsonView)>
    decreases upto,
{
    if upto <= 0 {
        base
    } else {
        inserted(merged(base, extra, upto - 1), extra[upto - 1].0, extra[upto - 1].1)
    }
}

/// The entry listed for the server `name` with configuration `config`: the
/// name, then the members of the configuration.
pub open spec fn server_entry(name: Seq<char>, config: JsonView) -> JsonView {
    JsonView::Object(
        merged(
            seq![("name"@, JsonView::Str(name))],
            members_of(config),
            members_of(config).len() as int,
        ),
    )
}

/// The servers listed from the backend's map of names to configurations.
pub open spec fn server_entries(servers: JsonView) -> Seq<JsonView> {
    let members = members_of(servers);
    Seq::new(members.len(), |i: int| server_entry(members[i].0, members[i].1))
}

/// What a server test reports: that the server answered, how long it took,
/// then whatever members the backend's answer has.
pub open spec fn test_report(elapsed_ms: int, answer: JsonView) -> JsonView {
    JsonView::Object(
        merged(
            seq![
                ("connected"@, JsonView::Bool(true)),
                ("latency_ms"@, JsonView::Number(NumberView::Int(elapsed_ms))),
            ],
            members_of(answer),
            members_of(answer).len() as int,
        ),
    )
}

/// One member where there is a value, none where there is not.
pub open spec fn optional_member(key: Seq<char>, value: Option<JsonView>) -> Seq<
    (Seq<char>, JsonView),
> {
    match value {
        Some(v) => seq![(key, v)],
        None => seq![],
    }
}

/// The schema of a tool: its `schema`, or else its `inputSchema`.
pub open spec fn schema_of(members: Seq<(Seq<char>, JsonView)>) -> Option<JsonView> {
    match lookup(members, "schema"@) {
        Some(schema) => Some(schema),
        None => lookup(members, "inputSchema"@),
    }
}

/// A tool reduced to its name, description and schema, as far as it has
/// them.
pub open spec fn simplified(members: Seq<(Seq<char>, JsonView)>) -> JsonView {
    JsonView::Object(
        optional_member("name"@, lookup(members, "name"@)) + optional_member(
            "description"@,
            lookup(members, "description"@),
        ) + optional_member("schema"@, schema_of(members)),
    )
}

/// The entry listed for one tool: an object is simplified, anything else is
/// listed as it is.
pub open spec fn tool_entry(tool: JsonView) -> JsonView {
    match tool {
        JsonView::Object(members) => simplified(members),
        _ => tool,
    }
}

/// The tools listed from the backend's answer: the entries of an array, the
/// `tools` array of an object, and nothing otherwise.
pub open spec fn tool_entries(answer: JsonView) -> Seq<JsonView> {
    match answer {
        JsonView::Array(items) => Seq::new(items.len(), |i: int| tool_entry(items[i])),
        JsonView::Object(members) => match lookup(members, "tools"@) {
            Some(JsonView::Array(tools)) => tools,
            _ => seq![],
        },
        _ => seq![],
    }
}

fn merge(members: &mut Vec<(String, Json)>, extra: &Vec<(String, Json)>)
    ensures
        member_views(final(members)@) == merged(
            member_views(old(members)@),
            member_views(extra@),
            extra@.len() as int,
        ),
{
    let ghost base = member_views(members@);
    let ghost more = member_views(extra@);
    let mut i: usize = 0;
    while i < extra.len()
        invariant
            i <= extra@.len(),
            more == member_views(extra@),
            member_views(members@) == merged(base, more, i as int),
        decreases extra@.len() - i,
    {
        insert_member(members, extra[i].0.clone(), extra[i].1.duplicate());
        i = i + 1;
    }
}

fn merge_value(members: &mut Vec<(String, Json)>, value: &Json)
    ensures
        member_views(final(members)@) == merged(
            member_views(old(members)@),
            members_of(value@),
            members_of(value@).len() as int,
        ),
{
    match value {
        Json::Object(extra) => {
            proof {
                lemma_object_view(*extra);
            }
            merge(members, extra);
        },
        _ => {},
    }
}

fn server_list(servers: &Json) -> (entries: Vec<Json>)
    ensures
        item_views(entries@) == server_entries(servers@),
{
    let mut entries: Vec<Json> = Vec::new();
    match servers {
        Json::Object(members) => {
            proof {
                lemma_object_view(*members);
            }
            let mut i: usize = 0;
            while i < members.len()
                invariant
                    i <= members@.len(),
                    entries@.len() == i,
                    members_of(servers@) == member_views(members@),
                    forall|k: int|
                        0 <= k < i ==> (#[trigger] entries@[k])@ == server_entry(
                            members@[k].0@,
                            members@[k].1@,
                        ),
                decreases members@.len() - i,
            {
                let mut entry: Vec<(String, Json)> = Vec::new();
                entry.push((String::from_str("name"), Json::text(members[i].0.clone())));
                assert(member_views(entry@) =~= seq![
                    ("name"@, JsonView::Str(members@[i as int].0@)),
                ]);
                merge_value(&mut entry, &members[i].1);
                entries.push(Json::object(entry));
                i = i + 1;
            }
            assert(item_views(entries@) =~= server_entries(servers@));
        },
        _ => {
            assert(item_views(entries@) =~= server_entries(servers@));
        },
    }
    entries
}

fn push_copy(target: &mut Vec<(String, Json)>, key: &str, source: &Vec<(String, Json)>, at: usize)
    requires
        at < source@.len(),
    ensures
        member_views(final(target)@) == member_views(old(target)@) + seq![
            (key@, member_views(source@)[at as int].1),
        ],
{
    target.push((String::from_str(key), source[at].1.duplicate()));
    assert(member_views(target@) =~= member_views(old(target)@) + seq![
        (key@, member_views(source@)[at as int].1),
    ]);
}

fn simplify(members: &Vec<(String, Json)>) -> (tool: Json)
    ensures
        tool@ == simplified(member_views(members@)),
{
    let ghost model = member_views(members@);
    let mut kept: Vec<(String, Json)> = Vec::new();
    assert(member_views(kept@) =~= seq![]);
    match find_member(members, "name") {
        Some(i) => push_copy(&mut kept, "name", members, i),
        None => {},
    }
    assert(member_views(kept@) =~= optional_member("name"@, lookup(model, "name"@)));
    match find_member(members, "description") {
        Some(i) => push_copy(&mut kept, "description", members, i),
        None => {},
    }
    assert(member_views(kept@) =~= optional_member("name"@, lookup(model, "name"@))
        + optional_member("description"@, lookup(model, "description"@)));
    match find_member(members, "schema") {
        Some(i) => push_copy(&mut kept, "schema", members, i),
        None => match find_member(members, "inputSchema") {
            Some(i) => push_copy(&mut kept, "schema", members, i),
            None => {},
        },
    }
    assert(member_views(kept@) =~= optional_member("name"@, lookup(model, "name"@))
        + optional_member("description"@, lookup(model, "description"@)) + optional_member(
        "schema"@,
        schema_of(model),
    ));
    Json::object(kept)
}

fn tool_list(answer: &Json) -> (entries: Vec<Json>)
    ensures
        item_views(entries@) == tool_entries(answer@),
{
    let mut entries: Vec<Json> = Vec::new();
    match answer {
        Json::Array(items) => {
            proof {
                lemma_array_view(*items);
            }
            let mut i: usize = 0;
            while i < items.len()
                invariant
                    i <= items@.len(),
                    entries@.len() == i,
                    forall|k: int|
                        0 <= k < i ==> (#[trigger] entries@[k])@ == tool_entry(items@[k]@),
                decreases items@.len() - i,
            {
                let entry = match &items[i] {
                    Json::Object(members) => {
                        proof {
                            lemma_object_view(*members);
                        }
                        simplify(members)
                    },
                    other => other.duplicate(),
                };
                entries.push(entry);
                i = i + 1;
            }
            assert(item_views(entries@) =~= tool_entries(answer@));
        },
        Json::Object(members) => {
            proof {
                lemma_object_view(*members);
            }
            match find_member(members, "tools") {
                Some(at) => match &members[at].1 {
                    Json::Array(tools) => {
                        proof {
                            lemma_array_view(*tools);
                        }
                        let mut i: usize = 0;
                        while i < tools.len()
                            invariant
                                i <= tools@.len(),
                                entries@.len() == i,
                                forall|k: int|
                                    0 <= k < i ==> (#[trigger] entries@[k])@ == tools@[k]@,
                            decreases tools@.len() - i,
                        {
                            entries.push(tools[i].duplicate());
                            i = i + 1;
                        }
                        assert(item_views(entries@) =~= tool_entries(answer@));
                    },
                    _ => {
                        assert(item_views(entries@) =~= tool_entries(answer@));
                    },
                },
                None => {
                    assert(item_views(entries@) =~= tool_entries(answer@));
                },
            }
        },
        _ => {
            assert(item_views(entries@) =~= tool_entries(answer@));
        },
    }
    entries
}

/// An envelope with the operation-specific parts left out.
pub open spec fn bare_mcp_envelope(
    pending: McpPending,
    response: McpOpsResponse,
) -> McpOpsResponse {
    McpOpsResponse {
        success: true,
        operation: response.operation,
        message: response.message,
        data: None,
        servers: None,
        tools: None,
        server_name: pending.server_name,
        tool_name: pending.tool_name,
    }
}

/// The sentence of a registered tool.
pub open spec fn registered_message(tool: Seq<char>, server: Seq<char>) -> Seq<char> {
    "Tool "@ + tool + " from "@ + server + " registered successfully in Letta"@
}

/// Whether the operation can use a reply of this shape.
pub open spec fn mcp_fits(operation: McpOperation, reply: Reply) -> bool {
    match operation {
        McpOperation::Delete => reply is Entity || reply is Empty,
        McpOperation::Test => reply is Timed,
        McpOperation::Connect | McpOperation::Resync | McpOperation::Execute => false,
        _ => reply is Entity,
    }
}

/// Whether `response` is the envelope that `pending`'s operation makes of a
/// `reply` that it can use.
pub open spec fn mcp_envelope(
    pending: McpPending,
    reply: Reply,
    response: McpOpsResponse,
) -> bool {
    let words = pending.operation.wording();
    let bare = bare_mcp_envelope(pending, response);
    let named = response.operation@ == words.operation@;
    match pending.operation {
        McpOperation::Add | McpOperation::Update => match reply {
            Reply::Entity(entity) => (
                named && response.message@ == words.fixed@ && response == (McpOpsResponse {
                    data: Some(entity),
                    ..bare
                })
            ),
            _ => false,
        },
        McpOperation::Delete => match reply {
            Reply::Entity(entity) => (
                named && response.message@ == words.fixed@ && response == (McpOpsResponse {
                    data: Some(entity),
                    ..bare
                })
            ),
            Reply::Empty => (
                named && response.message@ == words.fixed@ && response == (McpOpsResponse {
                    data: Some(Json::Null),
                    ..bare
                })
            ),
            _ => false,
        },
        McpOperation::Test => match reply {
            Reply::Timed { elapsed_ms, entity } => (
                named && response.message@ == words.fixed@ && response.data is Some
                    && response.data->0@ == test_report(elapsed_ms as int, entity@) && response
                    == (McpOpsResponse { data: response.data, ..bare })
            ),
            _ => false,
        },
        McpOperation::ListServers => match reply {
            Reply::Entity(entity) => (
                named && response.servers is Some && item_views(response.servers->0@)
                    == server_entries(entity@) && response.message@ == "Found "@ + decimal(
                    server_entries(entity@).len(),
                ) + " MCP servers"@ && response == (McpOpsResponse {
                    servers: response.servers,
                    ..bare
                })
            ),
            _ => false,
        },
        McpOperation::ListTools => match reply {
            Reply::Entity(entity) => (
                named && response.tools is Some && item_views(response.tools->0@) == tool_entries(
                    entity@,
                ) && response.message@ == "Found "@ + decimal(tool_entries(entity@).len())
                    + " tools on server "@ + text_or_empty(pending.server_name) && response
                    == (McpOpsResponse { tools: response.tools, ..bare })
            ),
            _ => false,
        },
        McpOperation::RegisterTool => match reply {
            Reply::Entity(entity) => (
                named && response.message@ == registered_message(
                    text_or_empty(pending.tool_name),
                    text_or_empty(pending.server_name),
                ) && response == (McpOpsResponse { data: Some(entity), ..bare })
            ),
            _ => false,
        },
        _ => false,
    }
}

/// The identifiers and names that `pending`'s call was made on, as the
/// caller wrote them.
pub open spec fn mcp_subject(pending: McpPending) -> Seq<char> {
    with_name(with_name(seq![], pending.server_name), pending.tool_name)
}

/// Whether `r` is what the router owes when `pending` is resumed with
/// `reply`.
pub open spec fn mcp_resume_post(
    pending: McpPending,
    reply: Result<Reply, BackendFailure>,
    r: Result<McpStep, RouterError>,
) -> bool {
    let words = pending.operation.wording();
    match reply {
        Err(failure) => r matches Err(e) && is_failure_error(
            e,
            words.operation@,
            words.context@,
            mcp_subject(pending),
            failure,
        ),
        Ok(reply) => if mcp_fits(pending.operation, reply) {
            r matches Ok(Step::Done(response)) && mcp_envelope(pending, reply, response)
        } else {
            r matches Err(e) && is_unexpected_reply(e, words.operation@, words.context@)
        },
    }
}

fn bare(pending: McpPending, message: String) -> (response: McpOpsResponse)
    ensures
        response == bare_mcp_envelope(pending, response),
        response.message == message,
        response.operation@ == pending.operation.name_spec(),
{
    McpOpsResponse {
        success: true,
        operation: String::from_str(pending.operation.name()),
        message,
        data: None,
        servers: None,
        tools: None,
        server_name: pending.server_name,
        tool_name: pending.tool_name,
    }
}

/// Folds the backend's reply into the envelope.
pub fn resume_mcp_ops(pending: McpPending, reply: Result<Reply, BackendFailure>) -> (r: Result<
    McpStep,
    RouterError,
>)
    ensures
        mcp_resume_post(pending, reply, r),
{
    let words = pending.operation.wording();
    let reply = match reply {
        Ok(reply) => reply,
        Err(failure) => {
            let subject = add_name(add_name(String::new(), &pending.server_name), &pending.tool_name);
            return Err(failure_error(words.operation, words.context, subject.as_str(), &failure));
        },
    };
    match (pending.operation, reply) {
        (McpOperation::Add, Reply::Entity(entity))
        | (McpOperation::Update, Reply::Entity(entity))
        | (McpOperation::Delete, Reply::Entity(entity)) => {
            let mut response = bare(pending, String::from_str(words.fixed));
            response.data = Some(entity);
            Ok(Step::Done(response))
        },
        (McpOperation::Delete, Reply::Empty) => {
            let mut response = bare(pending, String::from_str(words.fixed));
            response.data = Some(Json::Null);
            Ok(Step::Done(response))
        },
        (McpOperation::Test, Reply::Timed { elapsed_ms, entity }) => {
            let mut report: Vec<(String, Json)> = Vec::new();
            report.push((String::from_str("connected"), Json::boolean(true)));
            report.push((String::from_str("latency_ms"), Json::signed(elapsed_ms)));
            assert(member_views(report@) =~= seq![
                ("connected"@, JsonView::Bool(true)),
                ("latency_ms"@, JsonView::Number(NumberView::Int(elapsed_ms as int))),
            ]);
            merge_value(&mut report, &entity);
            let mut response = bare(pending, String::from_str(words.fixed));
            response.data = Some(Json::object(report));
            Ok(Step::Done(response))
        },
        (McpOperation::ListServers, Reply::Entity(entity)) => {
            let servers = server_list(&entity);
            let mut message = String::from_str("Found ");
            message.append(render_count(servers.len() as u64).as_str());
            message.append(" MCP servers");
            let mut response = bare(pending, message);
            response.servers = Some(servers);
            Ok(Step::Done(response))
        },
        (McpOperation::ListTools, Reply::Entity(entity)) => {
            let tools = tool_list(&entity);
            let mut message = String::from_str("Found ");
            message.append(render_count(tools.len() as u64).as_str());
            message.append(" tools on server ");
            message.append(optional_text(&pending.server_name));
            let mut response = bare(pending, message);
            response.tools = Some(tools);
            Ok(Step::Done(response))
        },
        (McpOperation::RegisterTool, Reply::Entity(entity)) => {
            let mut message = String::from_str("Tool ");
            message.append(optional_text(&pending.tool_name));
            message.append(" from ");
            message.append(optional_text(&pending.server_name));
            message.append(" registered successfully in Letta");
            let mut response = bare(pending, message);
            response.data = Some(entity);
            Ok(Step::Done(response))
        },
        _ => Err(unexpected_reply(words.operation, words.context)),
    }
}

impl McpOperation {
    /// The operation that `raw` names.
    pub open spec fn named(raw: Seq<char>) -> Option<McpOperation> {
        if raw == "add"@ {
            Some(McpOperation::Add)
        } else if raw == "update"@ {
            Some(McpOperation::Update)
        } else if raw == "delete"@ {
            Some(McpOperation::Delete)
        } else if raw == "test"@ {
            Some(McpOperation::Test)
        } else if raw == "connect"@ {
            Some(McpOperation::Connect)
        } else if raw == "resync"@ {
            Some(McpOperation::Resync)
        } else if raw == "execute"@ {
            Some(McpOperation::Execute)
        } else if raw == "list_servers"@ {
            Some(McpOperation::ListServers)
        } else if raw == "list_tools"@ {
            Some(McpOperation::ListTools)
        } else if raw == "register_tool"@ {
            Some(McpOperation::RegisterTool)
        } else {
            None
        }
    }

    /// Reads the operation that a request names.
    pub fn parse(raw: &str) -> (r: Result<McpOperation, RouterError>)
        ensures
            match McpOperation::named(raw@) {
                Some(op) => r == Ok::<McpOperation, RouterError>(op),
                None => r matches Err(RouterError::UnknownOperation { raw: t }) && t@ == raw@,
            },
    {
        if same_text(raw, "add") {
            Ok(McpOperation::Add)
        } else if same_text(raw, "update") {
            Ok(McpOperation::Update)
        } else if same_text(raw, "delete") {
            Ok(McpOperation::Delete)
        } else if same_text(raw, "test") {
            Ok(McpOperation::Test)
        } else if same_text(raw, "connect") {
            Ok(McpOperation::Connect)
        } else if same_text(raw, "resync") {
            Ok(McpOperation::Resync)
        } else if same_text(raw, "execute") {
            Ok(McpOperation::Execute)
        } else if same_text(raw, "list_servers") {
            Ok(McpOperation::ListServers)
        } else if same_text(raw, "list_tools") {
            Ok(McpOperation::ListTools)
        } else if same_text(raw, "register_tool") {
            Ok(McpOperation::RegisterTool)
        } else {
            Err(RouterError::UnknownOperation { raw: String::from_str(raw) })
        }
    }
}

/// Every server operation is read back from its own name.
pub proof fn lemma_server_name_reads_back(op: McpOperation)
    ensures
        McpOperation::named(op.name_spec()) == Some(op),
{
    reveal_strlit("add");
    reveal_strlit("update");
    reveal_strlit("delete");
    reveal_strlit("test");
    reveal_strlit("connect");
    reveal_strlit("resync");
    reveal_strlit("execute");
    reveal_strlit("list_servers");
    reveal_strlit("list_tools");
    reveal_strlit("register_tool");
    assert("add"@.len() == 3);
    assert("update"@.len() == 6);
    assert("delete"@.len() == 6);
    assert("test"@.len() == 4);
    assert("connect"@.len() == 7);
    assert("resync"@.len() == 6);
    assert("execute"@.len() == 7);
    assert("list_servers"@.len() == 12);
    assert("list_tools"@.len() == 10);
    assert("register_tool"@.len() == 13);
    assert("delete"@[0] == 'd');
    assert("update"@[0] == 'u');
    assert("resync"@[0] == 'r');
    assert("execute"@[0] == 'e');
    assert("connect"@[0] == 'c');
}

/// No two server operations share a name.
pub proof fn lemma_server_names_differ(a: McpOperation, b: McpOperation)
    requires
        a.name_spec() == b.name_spec(),
    ensures
        a == b,
{
    lemma_server_name_reads_back(a);
    lemma_server_name_reads_back(b);
}

/// A request that lacks a field its operation requires is refused as
/// missing a field, and no backend call is asked for: the field reported is
/// required and absent, and it is the lacking field itself where every
/// field required before it is there.
pub proof fn lemma_server_missing_field_is_refused(
    request: McpOpsRequest,
    at: int,
    r: Result<McpStep, RouterError>,
)
    requires
        mcp_dispatch_post(request, r),
        0 <= at < request.operation.required().len(),
        !request.has_field(request.operation.required()[at]),
    ensures
        r is Err,
        r->Err_0 is MissingField,
        ({
            let field = r->Err_0->MissingField_field;
            &&& r->Err_0->MissingField_operation@ == request.operation.name_spec()
            &&& request.operation.required().contains(field)
            &&& !request.has_field(field)
            &&& (forall|j: int|
                0 <= j < at ==> request.has_field(#[trigger] request.operation.required()[j]))
                ==> field == request.operation.required()[at]
        }),
{
    lemma_missing_field_is_reported(request.operation.required(), request, at);
}


/// Dispatch reaches one handler, the operation's own: the step that a
/// request begins with belongs to the request's operation.
pub proof fn lemma_server_dispatch_reaches_own_handler(
    request: McpOpsRequest,
    r: Result<McpStep, RouterError>,
)
    requires
        mcp_dispatch_post(request, r),
        r is Ok,
    ensures
        r matches Ok(Step::Call { call, pending }) && pending.operation == request.operation,
{
}

/// Reading is repeatable: resuming the same operation with the same reply
/// yields envelopes that name the operation and agree in every field.
pub proof fn lemma_server_reading_is_repeatable(
    pending: McpPending,
    reply: Result<Reply, BackendFailure>,
    a: Result<McpStep, RouterError>,
    b: Result<McpStep, RouterError>,
)
    requires
        mcp_resume_post(pending, reply, a),
        mcp_resume_post(pending, reply, b),
    ensures
        match (a, b) {
            (Ok(Step::Done(x)), Ok(Step::Done(y))) => x.operation@ == pending.operation.name_spec()
                && x.operation@ == y.operation@ && x.message@ == y.message@ && x.success == y.success
                && x.server_name == y.server_name && x.tool_name == y.tool_name && (x.data is Some)
                == (y.data is Some) && (x.data is Some ==> x.data->0@ == y.data->0@) && (x.servers
                is Some) == (y.servers is Some) && (x.servers is Some ==> item_views(
                x.servers->0@,
            ) == item_views(y.servers->0@)) && (x.tools is Some) == (y.tools is Some) && (x.tools
                is Some ==> item_views(x.tools->0@) == item_views(y.tools->0@)),
            (Err(e), Err(f)) => e.kind_spec() == f.kind_spec() && e.message_spec()
                == f.message_spec(),
            _ => false,
        },
{
}

/// Every envelope of this router reports success: a failure is an error,
/// never an envelope.
pub proof fn lemma_server_envelopes_report_success(
    pending: McpPending,
    reply: Result<Reply, BackendFailure>,
    r: Result<McpStep, RouterError>,
)
    requires
        mcp_resume_post(pending, reply, r),
    ensures
        r matches Ok(Step::Done(response)) ==> response.success,
{
}

} // verus!
