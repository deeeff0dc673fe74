//! The source router: source CRUD, attaching sources to agents, files of a
//! source, and finding the agents that use a source.

use crate::backend::{
    failure_error, is_failure_error, is_unexpected_reply, unexpected_reply, AgentRecord,
    BackendFailure, Reply, Step,
};
use crate::error::RouterError;
use crate::field::Field;
use crate::ident::{canonical_id, well_formed_id, BackendId};
use crate::json::{
    find_member, item_views, lemma_object_view, lookup, member_views, Json, JsonView, NumberView,
};
use crate::settle::{fits, read_count, read_data, read_message, settle, ReplyShape, Wording};
use crate::text::{add_name, counted, decimal, join3, optional_text, same_text, text_or_empty, with_name};
use crate::validate::{
    first_malformed, first_malformed_from, first_missing, first_missing_from, identify,
    is_invalid_identifier, is_invalid_payload, is_missing, is_not_implemented,
    lemma_malformed_identifier_is_reported, lemma_missing_field_is_reported, malformed, missing,
    not_implemented, require, require_present, Fields,
};
use base64::Engine;
use vstd::prelude::*;
use vstd::string::*;

verus! {

/// The operations of the source router.
#[derive(Clone, Copy, Debug, PartialEq, Eq, Structural)]
pub enum SourceOperation {
    List,
    Get,
    Create,
    Update,
    Delete,
    Attach,
    Detach,
    ListAttached,
    Upload,
    DeleteFiles,
    ListFiles,
    Count,
    ListAgentsUsing,
    ListFolders,
    GetFolderContents,
}

/// A request to the source router.
#[derive(Clone, Debug, PartialEq, Eq)]
pub struct SourceManagerRequest {
    pub operation: SourceOperation,
    pub source_id: Option<String>,
    pub agent_id: Option<String>,
    pub name: Option<String>,
    pub description: Option<String>,
    pub file_id: Option<String>,
    pub file_name: Option<String>,
    pub file_data: Option<String>,
    pub content_type: Option<String>,
    pub limit: Option<i32>,
    pub include_content: Option<bool>,
    pub request_heartbeat: Option<bool>,
}

/// The envelope of the source router.
#[derive(Debug, PartialEq, Eq)]
pub struct SourceManagerResponse {
    pub success: bool,
    pub operation: String,
    pub message: String,
    pub data: Option<Json>,
    pub count: Option<usize>,
}

/// How the files of a source are listed.
#[derive(Clone, Copy, Debug, PartialEq, Eq)]
pub struct FileListing {
    pub limit: Option<i32>,
    pub include_content: Option<bool>,
}

/// A backend call of the source router.
#[derive(Debug, PartialEq, Eq)]
pub enum SourceCall {
    List,
    Get { source: BackendId },
    Create { name: String, description: Option<String> },
    Update { source: BackendId, name: Option<String>, description: Option<String> },
    Delete { source: BackendId },
    Attach { agent: BackendId, source: BackendId },
    Detach { agent: BackendId, source: BackendId },
    ListAttached { agent: BackendId },
    Upload { source: BackendId, file_name: String, bytes: Vec<u8>, content_type: Option<String> },
    DeleteFile { source: BackendId, file: BackendId },
    ListFiles { source: BackendId, listing: Option<FileListing> },
    Count,
    ListAgents,
}

/// A search for the agents that use a source, under way: the agents in the
/// backend's order, how many of them have been checked, and the entities of
/// those found to use the source.
#[derive(Debug, PartialEq, Eq)]
pub struct UsageSearch {
    pub source: BackendId,
    pub agents: Vec<AgentRecord>,
    pub checked: usize,
    pub using: Vec<Json>,
}

/// The state a source operation resumes from once its backend call is made.
#[derive(Debug, PartialEq, Eq)]
pub enum SourcePending {
    /// An operation of one call.  `file_name` is the name that an upload's
    /// sentence quotes, and `subject` the identifiers the call is made on,
    /// as the caller wrote them.
    Single { operation: SourceOperation, file_name: Option<String>, subject: String },
    /// A usage search that has asked for the list of agents.
    UsageList { source: BackendId },
    /// A usage search that has asked for the sources of one agent.
    UsageCheck(UsageSearch),
}

/// A step of the source router.
pub type SourceStep = Step<SourceCall, SourcePending, SourceManagerResponse>;

/// What decoding `text` as standard base64 with padding yields: the bytes,
/// or the decoder's description of what is wrong with the text.
pub uninterp spec fn base64_decode(text: Seq<char>) -> Result<Seq<u8>, Seq<char>>;

/// Decodes `text` with `base64`'s `STANDARD` engine.
///
/// Trusted: the result is the decoded bytes, or the text of the `DecodeError`
/// that the engine's `decode` returns; both depend on `text` alone.
#[verifier::external_body]
fn decode_base64(text: &str) -> (r: Result<Vec<u8>, String>)
    ensures
        match r {
            Ok(bytes) => base64_decode(text@) == Ok::<Seq<u8>, Seq<char>>(bytes@),
            Err(reason) => base64_decode(text@) == Err::<Seq<u8>, Seq<char>>(reason@),
        },
{
    match base64::engine::general_purpose::STANDARD.decode(text) {
        Ok(bytes) => Ok(bytes),
        Err(e) => Err(e.to_string()),
    }
}

/// Decides on the outcome of decoding an upload's data: the bytes are
/// accepted, and a decoding error becomes the error that names the field.
pub fn claim_file_data(decoded: Result<Vec<u8>, String>, operation: &str) -> (r: Result<
    Vec<u8>,
    RouterError,
>)
    ensures
        match decoded {
            Ok(bytes) => r == Ok::<Vec<u8>, RouterError>(bytes),
            Err(reason) => r matches Err(e) && is_invalid_payload(
                e,
                operation@,
                Field::FileData,
                reason@,
            ),
        },
{
    match decoded {
        Ok(bytes) => Ok(bytes),
        Err(reason) => Err(
            RouterError::InvalidPayload {
                operation: String::from_str(operation),
                field: Field::FileData,
                reason,
            },
        ),
    }
}

impl SourceOperation {
    pub open spec fn wording_spec(self) -> Wording {
        match self {
            SourceOperation::List => Wording {
                operation: "list",
                context: "Failed to list sources",
                fixed: "",
                before: "Found ",
                after: " sources",
            },
            SourceOperation::Get => Wording {
                operation: "get",
                context: "Failed to get source",
                fixed: "Source retrieved successfully",
                before: "",
                after: "",
            },
            SourceOperation::Create => Wording {
                operation: "create",
                context: "Failed to create source",
                fixed: "Source created successfully",
                before: "",
                after: "",
            },
            SourceOperation::Update => Wording {
                operation: "update",
                context: "Failed to update source",
                fixed: "Source updated successfully",
                before: "",
                after: "",
            },
            SourceOperation::Delete => Wording {
                operation: "delete",
                context: "Failed to delete source",
                fixed: "Source deleted successfully",
                before: "",
                after: "",
            },
            SourceOperation::Attach => Wording {
                operation: "attach",
                context: "Failed to attach source",
                fixed: "Source attached successfully",
                before: "",
                after: "",
            },
            SourceOperation::Detach => Wording {
                operation: "detach",
                context: "Failed to detach source",
                fixed: "Source detached successfully",
                before: "",
                after: "",
            },
            SourceOperation::ListAttached => Wording {
                operation: "list_attached",
                context: "Failed to list attached sources",
                fixed: "",
                before: "Found ",
                after: " attached sources",
            },
            SourceOperation::Upload => Wording {
                operation: "upload",
                context: "Failed to upload file",
                fixed: "",
                before: "File '",
                after: "' uploaded successfully",
            },
            SourceOperation::DeleteFiles => Wording {
                operation: "delete_files",
                context: "Failed to delete file",
                fixed: "File deleted successfully",
                before: "",
                after: "",
            },
            SourceOperation::ListFiles => Wording {
                operation: "list_files",
                context: "Failed to list files",
                fixed: "",
                before: "Found ",
                after: " files",
            },
            SourceOperation::Count => Wording {
                operation: "count",
                context: "Failed to count sources",
                fixed: "",
                before: "Total sources: ",
                after: "",
            },
            SourceOperation::ListAgentsUsing => Wording {
                operation: "list_agents_using",
                context: "Failed to list agents",
                fixed: "",
                before: "Found ",
                after: " agents using this source",
            },
            SourceOperation::ListFolders => Wording {
                operation: "list_folders",
                context: "",
                fixed: "Folder operations belong in letta_file_folder_ops tool",
                before: "",
                after: "",
            },
            SourceOperation::GetFolderContents => Wording {
                operation: "get_folder_contents",
                context: "",
                fixed: "Folder operations belong in letta_file_folder_ops tool",
                before: "",
                after: "",
            },
        }
    }

    /// The operation's words.  For an operation that is not available,
    /// `fixed` names the missing capability.
    #[verifier::when_used_as_spec(wording_spec)]
    pub fn wording(self) -> (w: Wording)
        ensures
            w == self.wording_spec(),
    {
        match self {
            SourceOperation::List => Wording {
                operation: "list",
                context: "Failed to list sources",
                fixed: "",
                before: "Found ",
                after: " sources",
            },
            SourceOperation::Get => Wording {
                operation: "get",
                context: "Failed to get source",
                fixed: "Source retrieved successfully",
                before: "",
                after: "",
            },
            SourceOperation::Create => Wording {
                operation: "create",
                context: "Failed to create source",
                fixed: "Source created successfully",
                before: "",
                after: "",
            },
            SourceOperation::Update => Wording {
                operation: "update",
                context: "Failed to update source",
                fixed: "Source updated successfully",
                before: "",
                after: "",
            },
            SourceOperation::Delete => Wording {
                operation: "delete",
                context: "Failed to delete source",
                fixed: "Source deleted successfully",
                before: "",
                after: "",
            },
            SourceOperation::Attach => Wording {
                operation: "attach",
                context: "Failed to attach source",
                fixed: "Source attached successfully",
                before: "",
                after: "",
            },
            SourceOperation::Detach => Wording {
                operation: "detach",
                context: "Failed to detach source",
                fixed: "Source detached successfully",
                before: "",
                after: "",
            },
            SourceOperation::ListAttached => Wording {
                operation: "list_attached",
                context: "Failed to list attached sources",
                fixed: "",
                before: "Found ",
                after: " attached sources",
            },
            SourceOperation::Upload => Wording {
                operation: "upload",
                context: "Failed to upload file",
                fixed: "",
                before: "File '",
                after: "' uploaded successfully",
            },
            SourceOperation::DeleteFiles => Wording {
                operation: "delete_files",
                context: "Failed to delete file",
                fixed: "File deleted successfully",
                before: "",
                after: "",
            },
            SourceOperation::ListFiles => Wording {
                operation: "list_files",
                context: "Failed to list files",
                fixed: "",
                before: "Found ",
                after: " files",
            },
            SourceOperation::Count => Wording {
                operation: "count",
                context: "Failed to count sources",
                fixed: "",
                before: "Total sources: ",
                after: "",
            },
            SourceOperation::ListAgentsUsing => Wording {
                operation: "list_agents_using",
                context: "Failed to list agents",
                fixed: "",
                before: "Found ",
                after: " agents using this source",
            },
            SourceOperation::ListFolders => Wording {
                operation: "list_folders",
                context: "",
                fixed: "Folder operations belong in letta_file_folder_ops tool",
                before: "",
                after: "",
            },
            SourceOperation::GetFolderContents => Wording {
                operation: "get_folder_contents",
                context: "",
                fixed: "Folder operations belong in letta_file_folder_ops tool",
                before: "",
                after: "",
            },
        }
    }

    /// The operation's name on the wire.
    pub open spec fn name_spec(self) -> Seq<char> {
        self.wording().operation@
    }

    /// The operation's name on the wire.
    pub fn name(self) -> (s: &'static str)
        ensures
            s@ == self.name_spec(),
    {
        self.wording().operation
    }

    /// The operation that `raw` names.
    pub open spec fn named(raw: Seq<char>) -> Option<SourceOperation> {
        if raw == "list"@ {
            Some(SourceOperation::List)
        } else if raw == "get"@ {
            Some(SourceOperation::Get)
        } else if raw == "create"@ {
            Some(SourceOperation::Create)
        } else if raw == "update"@ {
            Some(SourceOperation::Update)
        } else if raw == "delete"@ {
            Some(SourceOperation::Delete)
        } else if raw == "attach"@ {
            Some(SourceOperation::Attach)
        } else if raw == "detach"@ {
            Some(SourceOperation::Detach)
        } else if raw == "list_attached"@ {
            Some(SourceOperation::ListAttached)
        } else if raw == "upload"@ {
            Some(SourceOperation::Upload)
        } else if raw == "delete_files"@ {
            Some(SourceOperation::DeleteFiles)
        } else if raw == "list_files"@ {
            Some(SourceOperation::ListFiles)
        } else if raw == "count"@ {
            Some(SourceOperation::Count)
        } else if raw == "list_agents_using"@ {
            Some(SourceOperation::ListAgentsUsing)
        } else if raw == "list_folders"@ {
            Some(SourceOperation::ListFolders)
        } else if raw == "get_folder_contents"@ {
            Some(SourceOperation::GetFolderContents)
        } else {
            None
        }
    }

    /// Reads the operation that a request names.
    pub fn parse(raw: &str) -> (r: Result<SourceOperation, RouterError>)
        ensures
            match SourceOperation::named(raw@) {
                Some(op) => r == Ok::<SourceOperation, RouterError>(op),
                None => r matches Err(RouterError::UnknownOperation { raw: t }) && t@ == raw@,
            },
    {
        if same_text(raw, "list") {
            Ok(SourceOperation::List)
        } else if same_text(raw, "get") {
            Ok(SourceOperation::Get)
        } else if same_text(raw, "create") {
            Ok(SourceOperation::Create)
        } else if same_text(raw, "update") {
            Ok(SourceOperation::Update)
        } else if same_text(raw, "delete") {
            Ok(SourceOperation::Delete)
        } else if same_text(raw, "attach") {
            Ok(SourceOperation::Attach)
        } else if same_text(raw, "detach") {
            Ok(SourceOperation::Detach)
        } else if same_text(raw, "list_attached") {
            Ok(SourceOperation::ListAttached)
        } else if same_text(raw, "upload") {
            Ok(SourceOperation::Upload)
        } else if same_text(raw, "delete_files") {
            Ok(SourceOperation::DeleteFiles)
        } else if same_text(raw, "list_files") {
            Ok(SourceOperation::ListFiles)
        } else if same_text(raw, "count") {
            Ok(SourceOperation::Count)
        } else if same_text(raw, "list_agents_using") {
            Ok(SourceOperation::ListAgentsUsing)
        } else if same_text(raw, "list_folders") {
            Ok(SourceOperation::ListFolders)
        } else if same_text(raw, "get_folder_contents") {
            Ok(SourceOperation::GetFolderContents)
        } else {
            Err(RouterError::UnknownOperation { raw: String::from_str(raw) })
        }
    }

    /// The fields the operation requires, in the order they are checked.
    pub open spec fn required(self) -> Seq<Field> {
        match self {
            SourceOperation::Get | SourceOperation::Update | SourceOperation::Delete
            | SourceOperation::ListFiles | SourceOperation::ListAgentsUsing => seq![
                Field::SourceId,
            ],
            SourceOperation::Create => seq![Field::Name],
            SourceOperation::Attach | SourceOperation::Detach => seq![
                Field::AgentId,
                Field::SourceId,
            ],
            SourceOperation::ListAttached => seq![Field::AgentId],
            SourceOperation::Upload => seq![Field::SourceId, Field::FileName, Field::FileData],
            SourceOperation::DeleteFiles => seq![Field::SourceId, Field::FileId],
            _ => seq![],
        }
    }

    /// The identifier fields the operation parses, in the order they are
    /// parsed.
    pub open spec fn identifiers(self) -> Seq<Field> {
        match self {
            SourceOperation::Get | SourceOperation::Update | SourceOperation::Delete
            | SourceOperation::ListFiles | SourceOperation::ListAgentsUsing
            | SourceOperation::Upload => seq![Field::SourceId],
            SourceOperation::Attach | SourceOperation::Detach => seq![
                Field::AgentId,
                Field::SourceId,
            ],
            SourceOperation::ListAttached => seq![Field::AgentId],
            SourceOperation::DeleteFiles => seq![Field::SourceId, Field::FileId],
            _ => seq![],
        }
    }

    /// Whether the backend integration can perform the operation.
    pub open spec fn available(self) -> bool {
        self != SourceOperation::ListFolders && self != SourceOperation::GetFolderContents
    }

    /// How an operation of one call reads the backend's reply, where it
    /// reads it in one of the common ways.
    pub open spec fn shape(self) -> Option<ReplyShape> {
        match self {
            SourceOperation::List | SourceOperation::ListAttached
            | SourceOperation::ListFiles => Some(ReplyShape::Listing),
            SourceOperation::Get | SourceOperation::Create | SourceOperation::Update
            | SourceOperation::Attach | SourceOperation::Detach => Some(ReplyShape::Entity),
            SourceOperation::Delete | SourceOperation::DeleteFiles => Some(
                ReplyShape::Acknowledge,
            ),
            _ => None,
        }
    }

    /// How an operation of one call reads the backend's reply, where it
    /// reads it in one of the common ways.
    pub fn shape_of(self) -> (shape: Option<ReplyShape>)
        ensures
            shape == self.shape(),
    {
        match self {
            SourceOperation::List | SourceOperation::ListAttached
            | SourceOperation::ListFiles => Some(ReplyShape::Listing),
            SourceOperation::Get | SourceOperation::Create | SourceOperation::Update
            | SourceOperation::Attach | SourceOperation::Detach => Some(ReplyShape::Entity),
            SourceOperation::Delete | SourceOperation::DeleteFiles => Some(
                ReplyShape::Acknowledge,
            ),
            _ => None,
        }
    }
}

impl Fields for SourceManagerRequest {
    open spec fn has_field(&self, f: Field) -> bool {
        match f {
            Field::SourceId => self.source_id is Some,
            Field::AgentId => self.agent_id is Some,
            Field::Name => self.name is Some,
            Field::FileId => self.file_id is Some,
            Field::FileName => self.file_name is Some,
            Field::FileData => self.file_data is Some,
            _ => false,
        }
    }

    open spec fn raw_identifier(&self, f: Field) -> Option<Seq<char>> {
        match f {
            Field::SourceId => match self.source_id {
                Some(t) => Some(t@),
                None => None,
            },
            Field::AgentId => match self.agent_id {
                Some(t) => Some(t@),
                None => None,
            },
            Field::FileId => match self.file_id {
                Some(t) => Some(t@),
                None => None,
            },
            _ => None,
        }
    }
}

impl SourceManagerRequest {
    /// Whether the request sets any field that an update can change.
    pub open spec fn has_changes(self) -> bool {
        self.name is Some || self.description is Some
    }
}

/// How the files are listed: with the caller's limit and content flag where
/// either is given, and in the backend's own way otherwise.
pub open spec fn listing_spec(limit: Option<i32>, include_content: Option<bool>) -> Option<
    FileListing,
> {
    if limit is Some || include_content is Some {
        Some(FileListing { limit, include_content })
    } else {
        None
    }
}

/// Whether `call` is the first backend call that the request's operation
/// makes, built from the request's fields.
pub open spec fn is_source_call(request: SourceManagerRequest, call: SourceCall) -> bool {
    let source_id = canonical_id(request.source_id->0@);
    let agent_id = canonical_id(request.agent_id->0@);
    let file_id = canonical_id(request.file_id->0@);
    match request.operation {
        SourceOperation::List => call is List,
        SourceOperation::Get => call matches SourceCall::Get { source } && source@ == source_id,
        SourceOperation::Create => call matches SourceCall::Create { name, description } && Some(
            name,
        ) == request.name && description == request.description,
        SourceOperation::Update => call matches SourceCall::Update { source, name, description }
            && source@ == source_id && name == request.name && description
            == request.description,
        SourceOperation::Delete => call matches SourceCall::Delete { source } && source@
            == source_id,
        SourceOperation::Attach => call matches SourceCall::Attach { agent, source } && agent@
            == agent_id && source@ == source_id,
        SourceOperation::Detach => call matches SourceCall::Detach { agent, source } && agent@
            == agent_id && source@ == source_id,
        SourceOperation::ListAttached => call matches SourceCall::ListAttached { agent } && agent@
            == agent_id,
        SourceOperation::Upload => call matches SourceCall::Upload {
            source,
            file_name,
            bytes,
            content_type,
        } && source@ == source_id && Some(file_name) == request.file_name && base64_decode(
            request.file_data->0@,
        ) == Ok::<Seq<u8>, Seq<char>>(bytes@) && content_type == request.content_type,
        SourceOperation::DeleteFiles => call matches SourceCall::DeleteFile { source, file }
            && source@ == source_id && file@ == file_id,
        SourceOperation::ListFiles => call matches SourceCall::ListFiles { source, listing }
            && source@ == source_id && listing == listing_spec(
            request.limit,
            request.include_content,
        ),
        SourceOperation::Count => call is Count,
        SourceOperation::ListAgentsUsing => call is ListAgents,
        _ => false,
    }
}

/// The identifiers that the request's operation is made on, as the caller
/// wrote them.
pub open spec fn source_subject(request: SourceManagerRequest) -> Seq<char> {
    match request.operation {
        SourceOperation::Attach | SourceOperation::Detach => with_name(
            with_name(seq![], request.agent_id),
            request.source_id,
        ),
        SourceOperation::ListAttached => with_name(seq![], request.agent_id),
        SourceOperation::DeleteFiles => with_name(
            with_name(seq![], request.source_id),
            request.file_id,
        ),
        SourceOperation::Get | SourceOperation::Update | SourceOperation::Delete
        | SourceOperation::ListFiles | SourceOperation::Upload => with_name(
            seq![],
            request.source_id,
        ),
        _ => seq![],
    }
}

/// Whether `pending` is the state that the request's operation resumes from
/// after its first call.
pub open spec fn is_source_pending(request: SourceManagerRequest, pending: SourcePending) -> bool {
    match request.operation {
        SourceOperation::ListAgentsUsing => pending matches SourcePending::UsageList { source }
            && source@ == canonical_id(request.source_id->0@),
        SourceOperation::Upload => pending matches SourcePending::Single {
            operation,
            file_name,
            subject,
        } && operation == request.operation && file_name == request.file_name && subject@
            == source_subject(request),
        _ => pending matches SourcePending::Single { operation, file_name: None, subject }
            && operation == request.operation && subject@ == source_subject(request),
    }
}

/// Whether `r` is what the source router owes for `request`.
pub open spec fn source_dispatch_post(
    request: SourceManagerRequest,
    r: Result<SourceStep, RouterError>,
) -> bool {
    let op = request.operation;
    let name = op.name_spec();
    match first_missing(op.required(), request) {
        Some(f) => r matches Err(e) && is_missing(e, name, f),
        None => if !op.available() {
            r matches Err(e) && is_not_implemented(e, name, op.wording().fixed@)
        } else if op == SourceOperation::Update && !request.has_changes() {
            r matches Err(e) && is_missing(e, name, Field::Name)
        } else {
            match first_malformed(op.identifiers(), request) {
                Some(f) => r matches Err(e) && is_invalid_identifier(
                    e,
                    name,
                    f,
                    request.raw_identifier(f)->0,
                ),
                None => if op == SourceOperation::Upload && base64_decode(request.file_data->0@)
                    is Err {
                    r matches Err(e) && is_invalid_payload(
                        e,
                        name,
                        Field::FileData,
                        base64_decode(request.file_data->0@)->Err_0,
                    )
                } else {
                    r matches Ok(Step::Call { call, pending }) && is_source_call(request, call)
                        && is_source_pending(request, pending)
                },
            }
        },
    }
}

fn single(call: SourceCall, operation: SourceOperation, subject: String) -> (step: SourceStep)
    ensures
        step matches Step::Call {
            call: c,
            pending: SourcePending::Single { operation: o, file_name: None, subject: s },
        } && c == call && o == operation && s == subject,
{
    Step::Call { call, pending: SourcePending::Single { operation, file_name: None, subject } }
}

fn subject_of(request: &SourceManagerRequest) -> (subject: String)
    ensures
        subject@ == source_subject(*request),
{
    match request.operation {
        SourceOperation::Attach | SourceOperation::Detach => add_name(
            add_name(String::new(), &request.agent_id),
            &request.source_id,
        ),
        SourceOperation::ListAttached => add_name(String::new(), &request.agent_id),
        SourceOperation::DeleteFiles => add_name(
            add_name(String::new(), &request.source_id),
            &request.file_id,
        ),
        SourceOperation::Get | SourceOperation::Update | SourceOperation::Delete
        | SourceOperation::ListFiles | SourceOperation::Upload => add_name(
            String::new(),
            &request.source_id,
        ),
        _ => String::new(),
    }
}

fn begin_on_source(request: SourceManagerRequest) -> (r: Result<SourceStep, RouterError>)
    requires
        request.operation == SourceOperation::Get || request.operation == SourceOperation::Update
            || request.operation == SourceOperation::Delete || request.operation
            == SourceOperation::ListFiles || request.operation == SourceOperation::ListAgentsUsing,
    ensures
        source_dispatch_post(request, r),
{
    let op = request.operation;
    let name = op.name();
    let subject = subject_of(&request);
    proof {
        reveal_with_fuel(first_missing_from, 3);
        reveal_with_fuel(first_malformed_from, 3);
    }
    require_present(&request.source_id, name, Field::SourceId)?;
    match op {
        SourceOperation::Update => {
            if request.name.is_none() && request.description.is_none() {
                return Err(missing(name, Field::Name));
            }
        },
        _ => {},
    }
    let source = identify(&request.source_id, name, Field::SourceId)?;
    match op {
        SourceOperation::Get => Ok(single(SourceCall::Get { source }, op, subject)),
        SourceOperation::Update => Ok(
            single(
                SourceCall::Update {
                    source,
                    name: request.name,
                    description: request.description,
                },
                op,
                subject,
            ),
        ),
        SourceOperation::Delete => Ok(single(SourceCall::Delete { source }, op, subject)),
        SourceOperation::ListFiles => {
            let listing = if request.limit.is_some() || request.include_content.is_some() {
                Some(
                    FileListing { limit: request.limit, include_content: request.include_content },
                )
            } else {
                None
            };
            Ok(single(SourceCall::ListFiles { source, listing }, op, subject))
        },
        _ => Ok(
            Step::Call {
                call: SourceCall::ListAgents,
                pending: SourcePending::UsageList { source },
            },
        ),
    }
}

fn begin_on_pair(request: SourceManagerRequest) -> (r: Result<SourceStep, RouterError>)
    requires
        request.operation == SourceOperation::Attach || request.operation
            == SourceOperation::Detach || request.operation == SourceOperation::DeleteFiles,
    ensures
        source_dispatch_post(request, r),
{
    let op = request.operation;
    let name = op.name();
    let subject = subject_of(&request);
    proof {
        reveal_with_fuel(first_missing_from, 3);
        reveal_with_fuel(first_malformed_from, 3);
    }
    match op {
        SourceOperation::DeleteFiles => {
            require_present(&request.source_id, name, Field::SourceId)?;
            require_present(&request.file_id, name, Field::FileId)?;
            let source = identify(&request.source_id, name, Field::SourceId)?;
            let file = identify(&request.file_id, name, Field::FileId)?;
            Ok(single(SourceCall::DeleteFile { source, file }, op, subject))
        },
        _ => {
            require_present(&request.agent_id, name, Field::AgentId)?;
            require_present(&request.source_id, name, Field::SourceId)?;
            let agent = identify(&request.agent_id, name, Field::AgentId)?;
            let source = identify(&request.source_id, name, Field::SourceId)?;
            let call = match op {
                SourceOperation::Attach => SourceCall::Attach { agent, source },
                _ => SourceCall::Detach { agent, source },
            };
            Ok(single(call, op, subject))
        },
    }
}

fn begin_upload(request: SourceManagerRequest) -> (r: Result<SourceStep, RouterError>)
    requires
        request.operation == SourceOperation::Upload,
    ensures
        source_dispatch_post(request, r),
{
    let op = request.operation;
    let name = op.name();
    let subject = subject_of(&request);
    proof {
        reveal_with_fuel(first_missing_from, 4);
        reveal_with_fuel(first_malformed_from, 3);
    }
    require_present(&request.source_id, name, Field::SourceId)?;
    require_present(&request.file_name, name, Field::FileName)?;
    let data = require(request.file_data, name, Field::FileData)?;
    let source = identify(&request.source_id, name, Field::SourceId)?;
    let bytes = claim_file_data(decode_base64(data.as_str()), name)?;
    let file_name = require(request.file_name, name, Field::FileName)?;
    Ok(
        Step::Call {
            call: SourceCall::Upload {
                source,
                file_name: file_name.clone(),
                bytes,
                content_type: request.content_type,
            },
            pending: SourcePending::Single { operation: op, file_name: Some(file_name), subject },
        },
    )
}

/// Validates a request and names its first backend call.  Nothing is asked
/// of the backend where a required field is missing, an identifier or the
/// upload's data is malformed, or the operation is not available.
pub fn handle_source_manager(request: SourceManagerRequest) -> (r: Result<SourceStep, RouterError>)
    ensures
        source_dispatch_post(request, r),
{
    let op = request.operation;
    let words = op.wording();
    let name = words.operation;
    let subject = subject_of(&request);
    proof {
        reveal_with_fuel(first_missing_from, 3);
        reveal_with_fuel(first_malformed_from, 3);
    }
    match op {
        SourceOperation::ListFolders | SourceOperation::GetFolderContents => Err(
            not_implemented(name, words.fixed),
        ),
        SourceOperation::List => Ok(single(SourceCall::List, op, subject)),
        SourceOperation::Count => Ok(single(SourceCall::Count, op, subject)),
        SourceOperation::Create => {
            let given = require(request.name, name, Field::Name)?;
            Ok(single(SourceCall::Create { name: given, description: request.description }, op, subject))
        },
        SourceOperation::ListAttached => {
            let agent = identify(&request.agent_id, name, Field::AgentId)?;
            Ok(single(SourceCall::ListAttached { agent }, op, subject))
        },
        SourceOperation::Upload => begin_upload(request),
        SourceOperation::Attach | SourceOperation::Detach | SourceOperation::DeleteFiles => {
            begin_on_pair(request)
        },
        _ => begin_on_source(request),
    }
}

/// The count shown beside a scalar: the scalar itself, held at the largest
/// count the machine can show.
pub open spec fn shown_count(n: u64) -> usize {
    if n <= usize::MAX {
        n as usize
    } else {
        usize::MAX
    }
}

/// Whether `r` reports a reply that the operation worded by `words` cannot
/// use.
pub open spec fn is_unusable(r: Result<SourceStep, RouterError>, words: Wording) -> bool {
    r matches Err(e) && is_unexpected_reply(e, words.operation@, words.context@)
}

/// Whether `r` is what an operation of one call owes for `reply`.
pub open spec fn single_post(
    operation: SourceOperation,
    file_name: Option<String>,
    subject: Seq<char>,
    reply: Result<Reply, BackendFailure>,
    r: Result<SourceStep, RouterError>,
) -> bool {
    let words = operation.wording();
    match reply {
        Err(failure) => r matches Err(e) && is_failure_error(
            e,
            words.operation@,
            words.context@,
            subject,
            failure,
        ),
        Ok(received) => match operation {
            SourceOperation::Upload => match received {
                Reply::Entity(entity) => r matches Ok(Step::Done(response)) && response.success
                    && response.operation@ == words.operation@ && response.data == Some(entity)
                    && response.count is None && response.message@ == words.before@
                    + text_or_empty(file_name) + words.after@,
                _ => is_unusable(r, words),
            },
            SourceOperation::Count => match received {
                Reply::Count(n) => r matches Ok(Step::Done(response)) && response.success
                    && response.operation@ == words.operation@ && response.data is Some
                    && response.data->0@ == JsonView::Object(
                    seq![("count"@, JsonView::Number(NumberView::Int(n as int)))],
                ) && response.count == Some(shown_count(n)) && response.message@ == words.before@
                    + decimal(n as nat),
                _ => is_unusable(r, words),
            },
            _ => match operation.shape() {
                Some(shape) => if fits(shape, received) {
                    r matches Ok(Step::Done(response)) && response.success && response.operation@
                        == words.operation@ && response.data == read_data(shape, received)
                        && response.count == read_count(shape, received) && response.message@
                        == read_message(shape, words, received)
                } else {
                    is_unusable(r, words)
                },
                None => is_unusable(r, words),
            },
        },
    }
}

/// The words of a usage search while one agent's sources are being read.
pub open spec fn usage_check_words() -> Wording {
    Wording {
        operation: "list_agents_using",
        context: "Failed to check agent sources",
        fixed: "",
        before: "Found ",
        after: " agents using this source",
    }
}

/// Whether `response` is the envelope of a finished usage search that found
/// `using`.
pub open spec fn is_usage_response(response: SourceManagerResponse, using: Seq<JsonView>) -> bool {
    let words = usage_check_words();
    &&& response.success
    &&& response.operation@ == words.operation@
    &&& response.message@ == words.before@ + decimal(using.len()) + words.after@
    &&& response.count == Some(using.len() as usize)
    &&& response.data is Some
    &&& response.data->0@ == JsonView::Array(using)
}

/// Whether `r` is how a usage search goes on once `checked` agents have been
/// checked and `using` have been found: the next agent's sources are asked
/// for, and with no agent left the envelope is built.  An agent whose
/// identifier is malformed makes the backend's list unusable.
pub open spec fn is_usage_step(
    r: Result<SourceStep, RouterError>,
    source: Seq<char>,
    agents: Seq<AgentRecord>,
    checked: int,
    using: Seq<JsonView>,
) -> bool {
    if checked < agents.len() {
        if well_formed_id(agents[checked].id@) {
            r matches Ok(
                Step::Call {
                    call: SourceCall::ListAttached { agent },
                    pending: SourcePending::UsageCheck(search),
                },
            ) && agent@ == canonical_id(agents[checked].id@) && search.source@ == source
                && search.agents@ == agents && search.checked == checked && item_views(
                search.using@,
            ) == using
        } else {
            is_unusable(r, usage_check_words())
        }
    } else {
        r matches Ok(Step::Done(response)) && is_usage_response(response, using)
    }
}

/// The identifier that a source's entity carries.
pub open spec fn source_id_of(source: JsonView) -> Option<Seq<char>> {
    match source {
        JsonView::Object(members) => match lookup(members, "id"@) {
            Some(JsonView::Str(id)) => Some(id),
            _ => None,
        },
        _ => None,
    }
}

/// Whether one of `sources` carries the identifier `id`.
pub open spec fn lists_id(sources: Seq<Json>, id: Seq<char>) -> bool {
    exists|j: int| 0 <= j < sources.len() && source_id_of((#[trigger] sources[j])@) == Some(id)
}

/// Whether `r` is what the source router owes when `pending` is resumed
/// with `reply`.
pub open spec fn source_resume_post(
    pending: SourcePending,
    reply: Result<Reply, BackendFailure>,
    r: Result<SourceStep, RouterError>,
) -> bool {
    match pending {
        SourcePending::Single { operation, file_name, subject } => single_post(
            operation,
            file_name,
            subject@,
            reply,
            r,
        ),
        SourcePending::UsageList { source } => {
            let words = SourceOperation::ListAgentsUsing.wording();
            match reply {
                Err(failure) => r matches Err(e) && is_failure_error(
                    e,
                    words.operation@,
                    words.context@,
                    source@,
                    failure,
                ),
                Ok(Reply::Agents(agents)) => is_usage_step(r, source@, agents@, 0, seq![]),
                Ok(_) => is_unusable(r, words),
            }
        },
        SourcePending::UsageCheck(search) => {
            let words = usage_check_words();
            match reply {
                Err(failure) => r matches Err(e) && is_failure_error(
                    e,
                    words.operation@,
                    words.context@,
                    search.source@,
                    failure,
                ),
                Ok(Reply::Entities(ids)) => if search.checked < search.agents@.len() {
                    is_usage_step(
                        r,
                        search.source@,
                        search.agents@,
                        search.checked + 1,
                        if lists_id(ids@, search.source@) {
                            item_views(search.using@).push(
                                search.agents@[search.checked as int].entity@,
                            )
                        } else {
                            item_views(search.using@)
                        },
                    )
                } else {
                    is_unusable(r, words)
                },
                Ok(_) => is_unusable(r, words),
            }
        },
    }
}

fn unusable(words: Wording) -> (r: Result<SourceStep, RouterError>)
    ensures
        is_unusable(r, words),
{
    Err(unexpected_reply(words.operation, words.context))
}

fn resume_single(
    operation: SourceOperation,
    file_name: Option<String>,
    subject: String,
    reply: Result<Reply, BackendFailure>,
) -> (r: Result<SourceStep, RouterError>)
    ensures
        single_post(operation, file_name, subject@, reply, r),
{
    let words = operation.wording();
    match operation.shape_of() {
        Some(shape) => match settle(shape, words, subject.as_str(), reply) {
            Ok(s) => Ok(
                Step::Done(
                    SourceManagerResponse {
                        success: true,
                        operation: String::from_str(words.operation),
                        message: s.message,
                        data: s.data,
                        count: s.count,
                    },
                ),
            ),
            Err(e) => Err(e),
        },
        None => {
            let received = match reply {
                Ok(received) => received,
                Err(failure) => {
                    return Err(
                        failure_error(words.operation, words.context, subject.as_str(), &failure),
                    );
                },
            };
            match (operation, received) {
                (SourceOperation::Upload, Reply::Entity(entity)) => Ok(
                    Step::Done(
                        SourceManagerResponse {
                            success: true,
                            operation: String::from_str(words.operation),
                            message: join3(words.before, optional_text(&file_name), words.after),
                            data: Some(entity),
                            count: None,
                        },
                    ),
                ),
                (SourceOperation::Count, Reply::Count(n)) => {
                    let message = counted(words.before, n, "");
                    proof {
                        reveal_strlit("");
                        assert(""@ =~= seq![]);
                        assert(message@ =~= words.before@ + decimal(n as nat));
                    }
                    let mut members: Vec<(String, Json)> = Vec::new();
                    members.push((String::from_str("count"), Json::unsigned(n)));
                    assert(member_views(members@) =~= seq![
                        ("count"@, JsonView::Number(NumberView::Int(n as int))),
                    ]);
                    let shown = if n <= usize::MAX as u64 {
                        n as usize
                    } else {
                        usize::MAX
                    };
                    Ok(
                        Step::Done(
                            SourceManagerResponse {
                                success: true,
                                operation: String::from_str(words.operation),
                                message,
                                data: Some(Json::object(members)),
                                count: Some(shown),
                            },
                        ),
                    )
                },
                _ => unusable(words),
            }
        },
    }
}

fn carries(source: &Json, id: &str) -> (b: bool)
    ensures
        b == (source_id_of(source@) == Some(id@)),
{
    match source {
        Json::Object(members) => {
            proof {
                lemma_object_view(*members);
            }
            match find_member(members, "id") {
                Some(at) => match &members[at].1 {
                    Json::Str(text) => same_text(text.as_str(), id),
                    _ => false,
                },
                None => false,
            }
        },
        _ => false,
    }
}

fn lists(sources: &Vec<Json>, id: &str) -> (b: bool)
    ensures
        b == lists_id(sources@, id@),
{
    let mut j: usize = 0;
    while j < sources.len()
        invariant
            j <= sources@.len(),
            forall|k: int| 0 <= k < j ==> source_id_of((#[trigger] sources@[k])@) != Some(id@),
        decreases sources@.len() - j,
    {
        if carries(&sources[j], id) {
            return true;
        }
        j = j + 1;
    }
    false
}

fn usage_advance(search: UsageSearch) -> (r: Result<SourceStep, RouterError>)
    requires
        search.checked <= search.agents@.len(),
    ensures
        is_usage_step(
            r,
            search.source@,
            search.agents@,
            search.checked as int,
            item_views(search.using@),
        ),
{
    let words = Wording {
        operation: "list_agents_using",
        context: "Failed to check agent sources",
        fixed: "",
        before: "Found ",
        after: " agents using this source",
    };
    if search.checked < search.agents.len() {
        match BackendId::parse(search.agents[search.checked].id.as_str()) {
            Ok(agent) => Ok(
                Step::Call {
                    call: SourceCall::ListAttached { agent },
                    pending: SourcePending::UsageCheck(search),
                },
            ),
            Err(_) => unusable(words),
        }
    } else {
        let n = search.using.len();
        Ok(
            Step::Done(
                SourceManagerResponse {
                    success: true,
                    operation: String::from_str(words.operation),
                    message: counted(words.before, n as u64, words.after),
                    data: Some(Json::array(search.using)),
                    count: Some(n),
                },
            ),
        )
    }
}

/// Folds the backend's reply into the envelope or, in a usage search, into
/// the next call.
pub fn resume_source_manager(
    pending: SourcePending,
    reply: Result<Reply, BackendFailure>,
) -> (r: Result<SourceStep, RouterError>)
    ensures
        source_resume_post(pending, reply, r),
{
    match pending {
        SourcePending::Single { operation, file_name, subject } => resume_single(
            operation,
            file_name,
            subject,
            reply,
        ),
        SourcePending::UsageList { source } => {
            let words = SourceOperation::ListAgentsUsing.wording();
            match reply {
                Err(failure) => Err(
                    failure_error(words.operation, words.context, source.as_str(), &failure),
                ),
                Ok(Reply::Agents(agents)) => {
                    let using: Vec<Json> = Vec::new();
                    assert(item_views(using@) =~= seq![]);
                    usage_advance(UsageSearch { source, agents, checked: 0, using })
                },
                Ok(_) => unusable(words),
            }
        },
        SourcePending::UsageCheck(search) => {
            let words = Wording {
                operation: "list_agents_using",
                context: "Failed to check agent sources",
                fixed: "",
                before: "Found ",
                after: " agents using this source",
            };
            match reply {
                Err(failure) => Err(
                    failure_error(
                        words.operation,
                        words.context,
                        search.source.as_str(),
                        &failure,
                    ),
                ),
                Ok(Reply::Entities(ids)) => {
                    if search.checked < search.agents.len() {
                        let mut search = search;
                        let ghost found = item_views(search.using@);
                        if lists(&ids, search.source.as_str()) {
                            let entity = search.agents[search.checked].entity.duplicate();
                            search.using.push(entity);
                            assert(item_views(search.using@) =~= found.push(
                                search.agents@[search.checked as int].entity@,
                            ));
                        }
                        search.checked = search.checked + 1;
                        usage_advance(search)
                    } else {
                        unusable(words)
                    }
                },
                Ok(_) => unusable(words),
            }
        },
    }
}

/// A request that lacks a field its operation requires is refused as
/// missing a field, and no backend call is asked for: the field reported is
/// required and absent, and it is the lacking field itself where every
/// field required before it is there.
pub proof fn lemma_source_missing_field_is_refused(
    request: SourceManagerRequest,
    at: int,
    r: Result<SourceStep, RouterError>,
)
    requires
        source_dispatch_post(request, r),
        0 <= at < request.operation.required().len(),
        !request.has_field(request.operation.required()[at]),
    ensures
        r is Err,
        r->Err_0 is MissingField,
        ({
            let field = r->Err_0->MissingField_field;
            &&& r->Err_0->MissingField_operation@ == request.operation.name_spec()
            &&& request.operation.required().contains(field)
            &&& !request.has_field(field)
            &&& (forall|j: int|
                0 <= j < at ==> request.has_field(#[trigger] request.operation.required()[j]))
                ==> field == request.operation.required()[at]
        }),
{
    lemma_missing_field_is_reported(request.operation.required(), request, at);
}

/// A request that holds everything its operation requires but a malformed
/// identifier is refused as holding an invalid identifier, and no backend
/// call is asked for: the field reported is malformed, its text is
/// reported with it, and it is the malformed field itself where no
/// identifier field before it is malformed.
pub proof fn lemma_source_malformed_identifier_is_refused(
    request: SourceManagerRequest,
    at: int,
    r: Result<SourceStep, RouterError>,
)
    requires
        source_dispatch_post(request, r),
        first_missing(request.operation.required(), request) is None,
        !(request.operation == SourceOperation::Update && !request.has_changes()),
        0 <= at < request.operation.identifiers().len(),
        malformed(request, request.operation.identifiers()[at]),
    ensures
        r is Err,
        r->Err_0 is InvalidIdentifier,
        ({
            let field = r->Err_0->InvalidIdentifier_field;
            &&& r->Err_0->InvalidIdentifier_operation@ == request.operation.name_spec()
            &&& malformed(request, field)
            &&& request.raw_identifier(field) == Some(r->Err_0->InvalidIdentifier_raw@)
            &&& (forall|j: int|
                0 <= j < at ==> !malformed(request, #[trigger] request.operation.identifiers()[j]))
                ==> field == request.operation.identifiers()[at]
        }),
{
    lemma_malformed_identifier_is_reported(request.operation.identifiers(), request, at);
}

impl SourcePending {
    /// The operation that the state belongs to.
    pub open spec fn operation(self) -> SourceOperation {
        match self {
            SourcePending::Single { operation, .. } => operation,
            _ => SourceOperation::ListAgentsUsing,
        }
    }
}

/// Dispatch reaches one handler, the operation's own: the step that a
/// request begins with belongs to the request's operation.
pub proof fn lemma_source_dispatch_reaches_own_handler(
    request: SourceManagerRequest,
    r: Result<SourceStep, RouterError>,
)
    requires
        source_dispatch_post(request, r),
        r is Ok,
    ensures
        r matches Ok(Step::Call { call, pending }) && pending.operation() == request.operation,
{
}

/// A resumed operation stays with its handler: the next step belongs to the
/// same operation, and the envelope names it.
pub proof fn lemma_source_resume_stays_with_handler(
    pending: SourcePending,
    reply: Result<Reply, BackendFailure>,
    r: Result<SourceStep, RouterError>,
)
    requires
        source_resume_post(pending, reply, r),
        r is Ok,
    ensures
        match r->Ok_0 {
            Step::Call { call, pending: next } => next.operation() == pending.operation(),
            Step::Done(response) => response.operation@ == pending.operation().name_spec(),
        },
{
}

/// Reading is repeatable: resuming a get, a list or a count with the same
/// reply yields the same payload, count and sentence.
pub proof fn lemma_source_reading_is_repeatable(
    pending: SourcePending,
    reply: Result<Reply, BackendFailure>,
    a: Result<SourceStep, RouterError>,
    b: Result<SourceStep, RouterError>,
)
    requires
        pending is Single,
        pending.operation() == SourceOperation::Get || pending.operation()
            == SourceOperation::List || pending.operation() == SourceOperation::Count,
        source_resume_post(pending, reply, a),
        source_resume_post(pending, reply, b),
    ensures
        match (a, b) {
            (Ok(Step::Done(x)), Ok(Step::Done(y))) => x.success == y.success && x.operation@
                == y.operation@ && x.data is Some == y.data is Some && (x.data is Some
                ==> x.data->0@ == y.data->0@) && x.count == y.count && x.message@ == y.message@,
            (Err(e), Err(f)) => e.kind_spec() == f.kind_spec() && e.message_spec()
                == f.message_spec(),
            _ => false,
        },
{
}

/// What create and get return is the backend's entity, unchanged: where the
/// backend answers a get with the entity it answered the create with, both
/// envelopes carry that entity, identifier and fields included.
pub proof fn lemma_source_create_then_get(
    entity: Json,
    creating: SourcePending,
    created: Result<SourceStep, RouterError>,
    reading: SourcePending,
    read: Result<SourceStep, RouterError>,
)
    requires
        creating is Single,
        creating.operation() == SourceOperation::Create,
        source_resume_post(creating, Ok(Reply::Entity(entity)), created),
        reading is Single,
        reading.operation() == SourceOperation::Get,
        source_resume_post(reading, Ok(Reply::Entity(entity)), read),
    ensures
        created matches Ok(Step::Done(c)) && c.data == Some(entity),
        read matches Ok(Step::Done(g)) && g.data == Some(entity),
{
}

/// Every source operation is read back from its own name.
pub proof fn lemma_source_name_reads_back(op: SourceOperation)
    ensures
        SourceOperation::named(op.name_spec()) == Some(op),
{
    reveal_strlit("list");
    reveal_strlit("get");
    reveal_strlit("create");
    reveal_strlit("update");
    reveal_strlit("delete");
    reveal_strlit("attach");
    reveal_strlit("detach");
    reveal_strlit("list_attached");
    reveal_strlit("upload");
    reveal_strlit("delete_files");
    reveal_strlit("list_files");
    reveal_strlit("count");
    reveal_strlit("list_agents_using");
    reveal_strlit("list_folders");
    reveal_strlit("get_folder_contents");
    assert("list"@.len() == 4);
    assert("get"@.len() == 3);
    assert("create"@.len() == 6);
    assert("update"@.len() == 6);
    assert("delete"@.len() == 6);
    assert("attach"@.len() == 6);
    assert("detach"@.len() == 6);
    assert("list_attached"@.len() == 13);
    assert("upload"@.len() == 6);
    assert("delete_files"@.len() == 12);
    assert("list_files"@.len() == 10);
    assert("count"@.len() == 5);
    assert("list_agents_using"@.len() == 17);
    assert("list_folders"@.len() == 12);
    assert("get_folder_contents"@.len() == 19);
    assert("update"@[0] == 'u');
    assert("create"@[0] == 'c');
    assert("delete"@[0] == 'd');
    assert("attach"@[0] == 'a');
    assert("detach"@[0] == 'd');
    assert("detach"@[2] == 't');
    assert("delete"@[2] == 'l');
    assert("upload"@[0] == 'u');
    assert("upload"@[2] == 'l');
    assert("update"@[2] == 'd');
    assert("list_folders"@[0] == 'l');
    assert("delete_files"@[0] == 'd');
}

/// No two source operations share a name.
pub proof fn lemma_source_names_differ(a: SourceOperation, b: SourceOperation)
    requires
        a.name_spec() == b.name_spec(),
    ensures
        a == b,
{
    lemma_source_name_reads_back(a);
    lemma_source_name_reads_back(b);
}

/// Every envelope of this router reports success: a failure is an error,
/// never an envelope.
pub proof fn lemma_source_envelopes_report_success(
    pending: SourcePending,
    reply: Result<Reply, BackendFailure>,
    r: Result<SourceStep, RouterError>,
)
    requires
        source_resume_post(pending, reply, r),
    ensures
        r matches Ok(Step::Done(response)) ==> response.success,
{
}

} // verus!
