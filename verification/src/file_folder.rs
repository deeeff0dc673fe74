//! The file and folder router: an agent's file window (list, open, close,
//! close all) and folders (list, attach, detach, list the agents of one).

use crate::backend::{
    failure_error, is_failure_error, is_unexpected_reply, unexpected_reply, BackendFailure,
    FileRecord, FolderRecord, Reply, Step,
};
use crate::error::RouterError;
use crate::field::Field;
use crate::ident::{canonical_id, BackendId};
use crate::json::Json;
use crate::settle::Wording;
use crate::text::{add_name, counted, decimal, reversed, same_text, with_name};
use crate::validate::{
    first_malformed, first_malformed_from, first_missing, first_missing_from, identify,
    is_invalid_identifier, is_missing, lemma_malformed_identifier_is_reported,
    lemma_missing_field_is_reported, malformed, require_present, Fields,
};
use vstd::prelude::*;
use vstd::string::*;

verus! {

/// The operations of the file and folder router.
#[derive(Clone, Copy, Debug, PartialEq, Eq, Structural)]
pub enum FileFolderOperation {
    ListFiles,
    OpenFile,
    CloseFile,
    CloseAllFiles,
    ListFolders,
    AttachFolder,
    DetachFolder,
    ListAgentsInFolder,
}

/// A request to the file and folder router.  The operation arrives as text.
#[derive(Clone, Debug, PartialEq, Eq)]
pub struct FileFolderRequest {
    pub operation: String,
    pub agent_id: Option<String>,
    pub file_id: Option<String>,
    pub folder_id: Option<String>,
    pub request_heartbeat: Option<bool>,
}

/// A file as the envelope lists it.
#[derive(Clone, Debug, PartialEq, Eq)]
pub struct FileMetadata {
    pub id: String,
    pub filename: String,
    pub size: Option<u64>,
    pub mime_type: Option<String>,
    pub is_open: Option<bool>,
    pub opened_at: Option<String>,
}

/// A folder as the envelope lists it.
#[derive(Clone, Debug, PartialEq, Eq)]
pub struct FolderMetadata {
    pub id: String,
    pub name: String,
    pub description: Option<String>,
    pub file_count: Option<i32>,
    pub agent_count: Option<i32>,
}

/// A reference to an agent.
#[derive(Clone, Debug, PartialEq, Eq)]
pub struct AgentReference {
    pub id: String,
}

/// The envelope of the file and folder router.
#[derive(Debug, PartialEq, Eq)]
pub struct FileFolderResponse {
    pub success: bool,
    pub operation: String,
    pub message: String,
    pub agent_id: Option<String>,
    pub file_id: Option<String>,
    pub folder_id: Option<String>,
    pub files: Option<Vec<FileMetadata>>,
    pub opened: Option<bool>,
    pub evicted_files: Option<Vec<String>>,
    pub closed: Option<bool>,
    pub closed_count: Option<usize>,
    pub closed_files: Option<Vec<String>>,
    pub folders: Option<Vec<FolderMetadata>>,
    pub attached: Option<bool>,
    pub detached: Option<bool>,
    pub agent_state: Option<Json>,
    pub agent_ids: Option<Vec<String>>,
    pub agents: Option<Vec<AgentReference>>,
}

/// A backend call of the file and folder router.
#[derive(Debug, PartialEq, Eq)]
pub enum FileFolderCall {
    ListFiles { agent: BackendId },
    OpenFile { agent: BackendId, file: BackendId },
    CloseFile { agent: BackendId, file: BackendId },
    CloseAllFiles { agent: BackendId },
    ListFolders,
    AttachFolder { agent: BackendId, folder: BackendId },
    DetachFolder { agent: BackendId, folder: BackendId },
    ListAgentsInFolder { folder: BackendId },
}

/// The state an operation resumes from: the operation and the identifiers
/// that its envelope echoes, as the caller wrote them.
#[derive(Debug, PartialEq, Eq)]
pub struct FileFolderPending {
    pub operation: FileFolderOperation,
    pub agent_id: Option<String>,
    pub file_id: Option<String>,
    pub folder_id: Option<String>,
}

/// A step of the file and folder router.
pub type FileFolderStep = Step<FileFolderCall, FileFolderPending, FileFolderResponse>;

impl FileFolderOperation {
    /// The operation's name on the wire.
    pub open spec fn name_spec(self) -> Seq<char> {
        self.wording().operation@
    }

    /// The operation that `raw` names.
    pub open spec fn named(raw: Seq<char>) -> Option<FileFolderOperation> {
        if raw == "list_files"@ {
            Some(FileFolderOperation::ListFiles)
        } else if raw == "open_file"@ {
            Some(FileFolderOperation::OpenFile)
        } else if raw == "close_file"@ {
            Some(FileFolderOperation::CloseFile)
        } else if raw == "close_all_files"@ {
            Some(FileFolderOperation::CloseAllFiles)
        } else if raw == "list_folders"@ {
            Some(FileFolderOperation::ListFolders)
        } else if raw == "attach_folder"@ {
            Some(FileFolderOperation::AttachFolder)
        } else if raw == "detach_folder"@ {
            Some(FileFolderOperation::DetachFolder)
        } else if raw == "list_agents_in_folder"@ {
            Some(FileFolderOperation::ListAgentsInFolder)
        } else {
            None
        }
    }

    /// The fields the operation requires, in the order they are checked.
    pub open spec fn required(self) -> Seq<Field> {
        match self {
            FileFolderOperation::ListFiles => seq![Field::AgentId],
            FileFolderOperation::OpenFile => seq![Field::AgentId, Field::FileId],
            FileFolderOperation::CloseFile => seq![Field::AgentId, Field::FileId],
            FileFolderOperation::CloseAllFiles => seq![Field::AgentId],
            FileFolderOperation::ListFolders => seq![],
            FileFolderOperation::AttachFolder => seq![Field::AgentId, Field::FolderId],
            FileFolderOperation::DetachFolder => seq![Field::AgentId, Field::FolderId],
            FileFolderOperation::ListAgentsInFolder => seq![Field::FolderId],
        }
    }

    /// The identifier fields the operation parses: every field it requires.
    pub open spec fn identifiers(self) -> Seq<Field> {
        self.required()
    }

    pub open spec fn wording_spec(self) -> Wording {
        match self {
            FileFolderOperation::ListFiles => Wording {
                operation: "list_files",
                context: "Failed to list files",
                fixed: "",
                before: "Found ",
                after: " files",
            },
            FileFolderOperation::OpenFile => Wording {
                operation: "open_file",
                context: "Failed to open file",
                fixed: "File opened successfully",
                before: "",
                after: "",
            },
            FileFolderOperation::CloseFile => Wording {
                operation: "close_file",
                context: "Failed to close file",
                fixed: "File closed successfully",
                before: "",
                after: "",
            },
            FileFolderOperation::CloseAllFiles => Wording {
                operation: "close_all_files",
                context: "Failed to close all files",
                fixed: "",
                before: "Closed ",
                after: " files",
            },
            FileFolderOperation::ListFolders => Wording {
                operation: "list_folders",
                context: "Failed to list folders",
                fixed: "",
                before: "Found ",
                after: " folders",
            },
            FileFolderOperation::AttachFolder => Wording {
                operation: "attach_folder",
                context: "Failed to attach folder",
                fixed: "Folder attached to agent successfully",
                before: "",
                after: "",
            },
            FileFolderOperation::DetachFolder => Wording {
                operation: "detach_folder",
                context: "Failed to detach folder",
                fixed: "Folder detached from agent successfully",
                before: "",
                after: "",
            },
            FileFolderOperation::ListAgentsInFolder => Wording {
                operation: "list_agents_in_folder",
                context: "Failed to list agents in folder",
                fixed: "",
                before: "Found ",
                after: " agents in folder",
            },
        }
    }

    /// The operation's words.
    #[verifier::when_used_as_spec(wording_spec)]
    pub fn wording(self) -> (w: Wording)
        ensures
            w == self.wording_spec(),
    {
        match self {
            FileFolderOperation::ListFiles => Wording {
                operation: "list_files",
                context: "Failed to list files",
                fixed: "",
                before: "Found ",
                after: " files",
            },
            FileFolderOperation::OpenFile => Wording {
                operation: "open_file",
                context: "Failed to open file",
                fixed: "File opened successfully",
                before: "",
                after: "",
            },
            FileFolderOperation::CloseFile => Wording {
                operation: "close_file",
                context: "Failed to close file",
                fixed: "File closed successfully",
                before: "",
                after: "",
            },
            FileFolderOperation::CloseAllFiles => Wording {
                operation: "close_all_files",
                context: "Failed to close all files",
                fixed: "",
                before: "Closed ",
                after: " files",
            },
            FileFolderOperation::ListFolders => Wording {
                operation: "list_folders",
                context: "Failed to list folders",
                fixed: "",
                before: "Found ",
                after: " folders",
            },
            FileFolderOperation::AttachFolder => Wording {
                operation: "attach_folder",
                context: "Failed to attach folder",
                fixed: "Folder attached to agent successfully",
                before: "",
                after: "",
            },
            FileFolderOperation::DetachFolder => Wording {
                operation: "detach_folder",
                context: "Failed to detach folder",
                fixed: "Folder detached from agent successfully",
                before: "",
                after: "",
            },
            FileFolderOperation::ListAgentsInFolder => Wording {
                operation: "list_agents_in_folder",
                context: "Failed to list agents in folder",
                fixed: "",
                before: "Found ",
                after: " agents in folder",
            },
        }
    }

    /// The operation's name on the wire.
    pub fn name(self) -> (s: &'static str)
        ensures
            s@ == self.name_spec(),
    {
        self.wording().operation
    }

    /// Reads the operation that a request names.
    pub fn parse(raw: &str) -> (r: Result<FileFolderOperation, RouterError>)
        ensures
            match FileFolderOperation::named(raw@) {
                Some(op) => r == Ok::<FileFolderOperation, RouterError>(op),
                None => r matches Err(RouterError::UnknownOperation { raw: t }) && t@ == raw@,
            },
    {
        if same_text(raw, "list_files") {
            Ok(FileFolderOperation::ListFiles)
        } else if same_text(raw, "open_file") {
            Ok(FileFolderOperation::OpenFile)
        } else if same_text(raw, "close_file") {
            Ok(FileFolderOperation::CloseFile)
        } else if same_text(raw, "close_all_files") {
            Ok(FileFolderOperation::CloseAllFiles)
        } else if same_text(raw, "list_folders") {
            Ok(FileFolderOperation::ListFolders)
        } else if same_text(raw, "attach_folder") {
            Ok(FileFolderOperation::AttachFolder)
        } else if same_text(raw, "detach_folder") {
            Ok(FileFolderOperation::DetachFolder)
        } else if same_text(raw, "list_agents_in_folder") {
            Ok(FileFolderOperation::ListAgentsInFolder)
        } else {
            Err(RouterError::UnknownOperation { raw: String::from_str(raw) })
        }
    }
}

impl Fields for FileFolderRequest {
    open spec fn has_field(&self, f: Field) -> bool {
        match f {
            Field::AgentId => self.agent_id is Some,
            Field::FileId => self.file_id is Some,
            Field::FolderId => self.folder_id is Some,
            _ => false,
        }
    }

    open spec fn raw_identifier(&self, f: Field) -> Option<Seq<char>> {
        match f {
            Field::AgentId => match self.agent_id {
                Some(t) => Some(t@),
                None => None,
            },
            Field::FileId => match self.file_id {
                Some(t) => Some(t@),
                None => None,
            },
            Field::FolderId => match self.folder_id {
                Some(t) => Some(t@),
                None => None,
            },
            _ => None,
        }
    }
}

/// Whether `call` is the one backend call of `op`, made with the request's
/// identifiers.
pub open spec fn is_file_folder_call(
    op: FileFolderOperation,
    request: FileFolderRequest,
    call: FileFolderCall,
) -> bool {
    let agent_id = canonical_id(request.agent_id->0@);
    let file_id = canonical_id(request.file_id->0@);
    let folder_id = canonical_id(request.folder_id->0@);
    match op {
        FileFolderOperation::ListFiles => call matches FileFolderCall::ListFiles { agent }
            && agent@ == agent_id,
        FileFolderOperation::OpenFile => call matches FileFolderCall::OpenFile { agent, file }
            && agent@ == agent_id && file@ == file_id,
        FileFolderOperation::CloseFile => call matches FileFolderCall::CloseFile { agent, file }
            && agent@ == agent_id && file@ == file_id,
        FileFolderOperation::CloseAllFiles => call matches FileFolderCall::CloseAllFiles { agent }
            && agent@ == agent_id,
        FileFolderOperation::ListFolders => call is ListFolders,
        FileFolderOperation::AttachFolder => call matches FileFolderCall::AttachFolder {
            agent,
            folder,
        } && agent@ == agent_id && folder@ == folder_id,
        FileFolderOperation::DetachFolder => call matches FileFolderCall::DetachFolder {
            agent,
            folder,
        } && agent@ == agent_id && folder@ == folder_id,
        FileFolderOperation::ListAgentsInFolder => call matches FileFolderCall::ListAgentsInFolder {
            folder,
        } && folder@ == folder_id,
    }
}

/// The state that `op` resumes from: the identifiers it requires are the
/// ones its envelope echoes.
pub open spec fn pending_for(
    op: FileFolderOperation,
    request: FileFolderRequest,
) -> FileFolderPending {
    FileFolderPending {
        operation: op,
        agent_id: if op.required().contains(Field::AgentId) {
            request.agent_id
        } else {
            None
        },
        file_id: if op.required().contains(Field::FileId) {
            request.file_id
        } else {
            None
        },
        folder_id: if op.required().contains(Field::FolderId) {
            request.folder_id
        } else {
            None
        },
    }
}

/// Whether `r` is what the router owes for `request`.
pub open spec fn file_folder_dispatch_post(
    request: FileFolderRequest,
    r: Result<FileFolderStep, RouterError>,
) -> bool {
    match FileFolderOperation::named(request.operation@) {
        None => r matches Err(RouterError::UnknownOperation { raw }) && raw@ == request.operation@,
        Some(op) => match first_missing(op.required(), request) {
            Some(f) => r matches Err(e) && is_missing(e, op.name_spec(), f),
            None => match first_malformed(op.identifiers(), request) {
                Some(f) => r matches Err(e) && is_invalid_identifier(
                    e,
                    op.name_spec(),
                    f,
                    request.raw_identifier(f)->0,
                ),
                None => r matches Ok(Step::Call { call, pending }) && is_file_folder_call(
                    op,
                    request,
                    call,
                ) && pending == pending_for(op, request),
            },
        },
    }
}

/// Validates a request and names its backend call.
pub fn handle_file_folder_ops(request: FileFolderRequest) -> (r: Result<
    FileFolderStep,
    RouterError,
>)
    ensures
        file_folder_dispatch_post(request, r),
{
    let op = FileFolderOperation::parse(request.operation.as_str())?;
    let name = op.name();
    proof {
        reveal_with_fuel(first_missing_from, 3);
        reveal_with_fuel(first_malformed_from, 3);
        assert(seq![Field::AgentId].contains(Field::AgentId)) by {
            assert(seq![Field::AgentId][0] == Field::AgentId);
        }
        assert(seq![Field::FolderId].contains(Field::FolderId)) by {
            assert(seq![Field::FolderId][0] == Field::FolderId);
        }
        assert(seq![Field::AgentId, Field::FileId].contains(Field::AgentId)) by {
            assert(seq![Field::AgentId, Field::FileId][0] == Field::AgentId);
        }
        assert(seq![Field::AgentId, Field::FileId].contains(Field::FileId)) by {
            assert(seq![Field::AgentId, Field::FileId][1] == Field::FileId);
        }
        assert(seq![Field::AgentId, Field::FolderId].contains(Field::AgentId)) by {
            assert(seq![Field::AgentId, Field::FolderId][0] == Field::AgentId);
        }
        assert(seq![Field::AgentId, Field::FolderId].contains(Field::FolderId)) by {
            assert(seq![Field::AgentId, Field::FolderId][1] == Field::FolderId);
        }
    }
    match op {
        FileFolderOperation::ListFolders => Ok(
            Step::Call {
                call: FileFolderCall::ListFolders,
                pending: FileFolderPending {
                    operation: op,
                    agent_id: None,
                    file_id: None,
                    folder_id: None,
                },
            },
        ),
        FileFolderOperation::ListFiles => {
            let agent = identify(&request.agent_id, name, Field::AgentId)?;
            Ok(
                Step::Call {
                    call: FileFolderCall::ListFiles { agent },
                    pending: FileFolderPending {
                        operation: op,
                        agent_id: request.agent_id,
                        file_id: None,
                        folder_id: None,
                    },
                },
            )
        },
        FileFolderOperation::CloseAllFiles => {
            let agent = identify(&request.agent_id, name, Field::AgentId)?;
            Ok(
                Step::Call {
                    call: FileFolderCall::CloseAllFiles { agent },
                    pending: FileFolderPending {
                        operation: op,
                        agent_id: request.agent_id,
                        file_id: None,
                        folder_id: None,
                    },
                },
            )
        },
        FileFolderOperation::OpenFile | FileFolderOperation::CloseFile => {
            require_present(&request.agent_id, name, Field::AgentId)?;
            require_present(&request.file_id, name, Field::FileId)?;
            let agent = identify(&request.agent_id, name, Field::AgentId)?;
            let file = identify(&request.file_id, name, Field::FileId)?;
            let call = match op {
                FileFolderOperation::OpenFile => FileFolderCall::OpenFile { agent, file },
                _ => FileFolderCall::CloseFile { agent, file },
            };
            Ok(
                Step::Call {
                    call,
                    pending: FileFolderPending {
                        operation: op,
                        agent_id: request.agent_id,
                        file_id: request.file_id,
                        folder_id: None,
                    },
                },
            )
        },
        FileFolderOperation::AttachFolder | FileFolderOperation::DetachFolder => {
            require_present(&request.agent_id, name, Field::AgentId)?;
            require_present(&request.folder_id, name, Field::FolderId)?;
            let agent = identify(&request.agent_id, name, Field::AgentId)?;
            let folder = identify(&request.folder_id, name, Field::FolderId)?;
            let call = match op {
                FileFolderOperation::AttachFolder => FileFolderCall::AttachFolder { agent, folder },
                _ => FileFolderCall::DetachFolder { agent, folder },
            };
            Ok(
                Step::Call {
                    call,
                    pending: FileFolderPending {
                        operation: op,
                        agent_id: request.agent_id,
                        file_id: None,
                        folder_id: request.folder_id,
                    },
                },
            )
        },
        FileFolderOperation::ListAgentsInFolder => {
            let folder = identify(&request.folder_id, name, Field::FolderId)?;
            Ok(
                Step::Call {
                    call: FileFolderCall::ListAgentsInFolder { folder },
                    pending: FileFolderPending {
                        operation: op,
                        agent_id: None,
                        file_id: None,
                        folder_id: request.folder_id,
                    },
                },
            )
        },
    }
}

/// The envelope entry for a listed file.
pub open spec fn metadata_of(record: FileRecord) -> FileMetadata {
    FileMetadata {
        id: record.id,
        filename: record.filename,
        size: Some(record.size),
        mime_type: Some(record.mime_type),
        is_open: Some(record.is_open),
        opened_at: record.opened_at,
    }
}

/// The envelope entry for a listed folder.  The backend reports neither a
/// file count nor an agent count.
pub open spec fn folder_of(record: FolderRecord) -> FolderMetadata {
    FolderMetadata {
        id: record.id,
        name: record.name,
        description: record.description,
        file_count: None,
        agent_count: None,
    }
}

fn file_list(records: Vec<FileRecord>) -> (files: Vec<FileMetadata>)
    ensures
        files@.len() == records@.len(),
        forall|i: int| 0 <= i < files@.len() ==> files@[i] == metadata_of(#[trigger] records@[i]),
{
    let n = records.len();
    let mut stack = reversed(records);
    let mut files: Vec<FileMetadata> = Vec::new();
    while files.len() < n
        invariant
            n == records@.len(),
            files@.len() <= n,
            stack@.len() == n - files@.len(),
            forall|k: int| 0 <= k < stack@.len() ==> stack@[k] == records@[n - 1 - k],
            forall|i: int|
                0 <= i < files@.len() ==> files@[i] == metadata_of(#[trigger] records@[i]),
        decreases n - files@.len(),
    {
        let record = stack.pop().unwrap();
        files.push(
            FileMetadata {
                id: record.id,
                filename: record.filename,
                size: Some(record.size),
                mime_type: Some(record.mime_type),
                is_open: Some(record.is_open),
                opened_at: record.opened_at,
            },
        );
    }
    files
}

fn folder_list(records: Vec<FolderRecord>) -> (folders: Vec<FolderMetadata>)
    ensures
        folders@.len() == records@.len(),
        forall|i: int| 0 <= i < folders@.len() ==> folders@[i] == folder_of(#[trigger] records@[i]),
{
    let n = records.len();
    let mut stack = reversed(records);
    let mut folders: Vec<FolderMetadata> = Vec::new();
    while folders.len() < n
        invariant
            n == records@.len(),
            folders@.len() <= n,
            stack@.len() == n - folders@.len(),
            forall|k: int| 0 <= k < stack@.len() ==> stack@[k] == records@[n - 1 - k],
            forall|i: int|
                0 <= i < folders@.len() ==> folders@[i] == folder_of(#[trigger] records@[i]),
        decreases n - folders@.len(),
    {
        let record = stack.pop().unwrap();
        folders.push(
            FolderMetadata {
                id: record.id,
                name: record.name,
                description: record.description,
                file_count: None,
                agent_count: None,
            },
        );
    }
    folders
}

fn agent_references(ids: &Vec<String>) -> (agents: Vec<AgentReference>)
    ensures
        agents@.len() == ids@.len(),
        forall|i: int| 0 <= i < agents@.len() ==> (#[trigger] agents@[i]).id == ids@[i],
{
    let mut agents: Vec<AgentReference> = Vec::new();
    let mut i: usize = 0;
    while i < ids.len()
        invariant
            i <= ids@.len(),
            agents@.len() == i,
            forall|k: int| 0 <= k < agents@.len() ==> (#[trigger] agents@[k]).id == ids@[k],
        decreases ids@.len() - i,
    {
        agents.push(AgentReference { id: ids[i].clone() });
        i = i + 1;
    }
    agents
}

/// An envelope with the operation-specific parts left out.
pub open spec fn bare_envelope(
    pending: FileFolderPending,
    response: FileFolderResponse,
) -> FileFolderResponse {
    FileFolderResponse {
        success: true,
        operation: response.operation,
        message: response.message,
        agent_id: pending.agent_id,
        file_id: pending.file_id,
        folder_id: pending.folder_id,
        files: None,
        opened: None,
        evicted_files: None,
        closed: None,
        closed_count: None,
        closed_files: None,
        folders: None,
        attached: None,
        detached: None,
        agent_state: None,
        agent_ids: None,
        agents: None,
    }
}

/// The sentence of a counted envelope.
pub open spec fn found(words: Wording, n: nat) -> Seq<char> {
    words.before@ + decimal(n) + words.after@
}

/// Whether the operation can use a reply of this shape.
pub open spec fn file_folder_fits(operation: FileFolderOperation, reply: Reply) -> bool {
    match operation {
        FileFolderOperation::ListFiles => reply is Files,
        FileFolderOperation::ListFolders => reply is Folders,
        FileFolderOperation::CloseFile => true,
        FileFolderOperation::AttachFolder | FileFolderOperation::DetachFolder => reply is Entity,
        _ => reply is Texts,
    }
}

/// Whether `response` is the envelope that `pending`'s operation makes of a
/// `reply` that it can use.
pub open spec fn file_folder_envelope(
    pending: FileFolderPending,
    reply: Reply,
    response: FileFolderResponse,
) -> bool {
    let words = pending.operation.wording();
    let bare = bare_envelope(pending, response);
    let named = response.operation@ == words.operation@;
    match pending.operation {
        FileFolderOperation::ListFiles => match reply {
            Reply::Files(records) => (
                named && response.message@ == found(words, records@.len()) && response.files
                    is Some && response.files->0@.len() == records@.len() && (forall|i: int|
                    0 <= i < records@.len() ==> response.files->0@[i] == metadata_of(
                        #[trigger] records@[i],
                    )) && response == (FileFolderResponse { files: response.files, ..bare })
            ),
            _ => false,
        },
        FileFolderOperation::OpenFile => match reply {
            Reply::Texts(evicted) => (
                named && response.message@ == words.fixed@ && response == (FileFolderResponse {
                    opened: Some(true),
                    evicted_files: Some(evicted),
                    ..bare
                })
            ),
            _ => false,
        },
        FileFolderOperation::CloseFile => (
            named && response.message@ == words.fixed@ && response == (FileFolderResponse {
                closed: Some(true),
                ..bare
            })
        ),
        FileFolderOperation::CloseAllFiles => match reply {
            Reply::Texts(closed) => (
                named && response.message@ == found(words, closed@.len()) && response
                    == (FileFolderResponse {
                    closed_count: Some(closed@.len() as usize),
                    closed_files: Some(closed),
                    ..bare
                })
            ),
            _ => false,
        },
        FileFolderOperation::ListFolders => match reply {
            Reply::Folders(records) => (
                named && response.message@ == found(words, records@.len()) && response.folders
                    is Some && response.folders->0@.len() == records@.len() && (forall|i: int|
                    0 <= i < records@.len() ==> response.folders->0@[i] == folder_of(
                        #[trigger] records@[i],
                    )) && response == (FileFolderResponse { folders: response.folders, ..bare })
            ),
            _ => false,
        },
        FileFolderOperation::AttachFolder => match reply {
            Reply::Entity(state) => (
                named && response.message@ == words.fixed@ && response == (FileFolderResponse {
                    attached: Some(true),
                    agent_state: Some(state),
                    ..bare
                })
            ),
            _ => false,
        },
        FileFolderOperation::DetachFolder => match reply {
            Reply::Entity(state) => (
                named && response.message@ == words.fixed@ && response == (FileFolderResponse {
                    detached: Some(true),
                    agent_state: Some(state),
                    ..bare
                })
            ),
            _ => false,
        },
        FileFolderOperation::ListAgentsInFolder => match reply {
            Reply::Texts(ids) => (
                named && response.message@ == found(words, ids@.len()) && response.agents
                    is Some && response.agents->0@.len() == ids@.len() && (forall|i: int|
                    0 <= i < ids@.len() ==> (#[trigger] response.agents->0@[i]).id == ids@[i])
                    && response == (FileFolderResponse {
                    agent_ids: Some(ids),
                    agents: response.agents,
                    ..bare
                })
            ),
            _ => false,
        },
    }
}

/// The identifiers and names that `pending`'s call was made on, as the
/// caller wrote them.
pub open spec fn file_folder_subject(pending: FileFolderPending) -> Seq<char> {
    with_name(with_name(with_name(seq![], pending.agent_id), pending.file_id), pending.folder_id)
}

/// Whether `r` is what the router owes when `pending` is resumed with
/// `reply`.
pub open spec fn file_folder_resume_post(
    pending: FileFolderPending,
    reply: Result<Reply, BackendFailure>,
    r: Result<FileFolderStep, RouterError>,
) -> bool {
    let words = pending.operation.wording();
    match reply {
        Err(failure) => r matches Err(e) && is_failure_error(
            e,
            words.operation@,
            words.context@,
            file_folder_subject(pending),
            failure,
        ),
        Ok(reply) => if file_folder_fits(pending.operation, reply) {
            r matches Ok(Step::Done(response)) && file_folder_envelope(pending, reply, response)
        } else {
            r matches Err(e) && is_unexpected_reply(e, words.operation@, words.context@)
        },
    }
}

fn bare(pending: FileFolderPending, message: String) -> (response: FileFolderResponse)
    ensures
        response == bare_envelope(pending, response),
        response.message == message,
        response.operation@ == pending.operation.name_spec(),
{
    FileFolderResponse {
        success: true,
        operation: String::from_str(pending.operation.name()),
        message,
        agent_id: pending.agent_id,
        file_id: pending.file_id,
        folder_id: pending.folder_id,
        files: None,
        opened: None,
        evicted_files: None,
        closed: None,
        closed_count: None,
        closed_files: None,
        folders: None,
        attached: None,
        detached: None,
        agent_state: None,
        agent_ids: None,
        agents: None,
    }
}

/// Folds the backend's reply into the envelope.  What the backend reports as
/// evicted or closed is passed on as it came.
pub fn resume_file_folder_ops(
    pending: FileFolderPending,
    reply: Result<Reply, BackendFailure>,
) -> (r: Result<FileFolderStep, RouterError>)
    ensures
        file_folder_resume_post(pending, reply, r),
{
    let words = pending.operation.wording();
    let reply = match reply {
        Ok(reply) => reply,
        Err(failure) => {
            let subject = add_name(add_name(add_name(String::new(), &pending.agent_id), &pending.file_id), &pending.folder_id);
            return Err(failure_error(words.operation, words.context, subject.as_str(), &failure));
        },
    };
    match (pending.operation, reply) {
        (FileFolderOperation::ListFiles, Reply::Files(records)) => {
            let message = counted(words.before, records.len() as u64, words.after);
            let files = file_list(records);
            let mut response = bare(pending, message);
            response.files = Some(files);
            Ok(Step::Done(response))
        },
        (FileFolderOperation::OpenFile, Reply::Texts(evicted)) => {
            let mut response = bare(pending, String::from_str(words.fixed));
            response.opened = Some(true);
            response.evicted_files = Some(evicted);
            Ok(Step::Done(response))
        },
        (FileFolderOperation::CloseFile, _) => {
            let mut response = bare(pending, String::from_str(words.fixed));
            response.closed = Some(true);
            Ok(Step::Done(response))
        },
        (FileFolderOperation::CloseAllFiles, Reply::Texts(closed)) => {
            let message = counted(words.before, closed.len() as u64, words.after);
            let mut response = bare(pending, message);
            response.closed_count = Some(closed.len());
            response.closed_files = Some(closed);
            Ok(Step::Done(response))
        },
        (FileFolderOperation::ListFolders, Reply::Folders(records)) => {
            let message = counted(words.before, records.len() as u64, words.after);
            let folders = folder_list(records);
            let mut response = bare(pending, message);
            response.folders = Some(folders);
            Ok(Step::Done(response))
        },
        (FileFolderOperation::AttachFolder, Reply::Entity(state)) => {
            let mut response = bare(pending, String::from_str(words.fixed));
            response.attached = Some(true);
            response.agent_state = Some(state);
            Ok(Step::Done(response))
        },
        (FileFolderOperation::DetachFolder, Reply::Entity(state)) => {
            let mut response = bare(pending, String::from_str(words.fixed));
            response.detached = Some(true);
            response.agent_state = Some(state);
            Ok(Step::Done(response))
        },
        (FileFolderOperation::ListAgentsInFolder, Reply::Texts(ids)) => {
            let message = counted(words.before, ids.len() as u64, words.after);
            let agents = agent_references(&ids);
            let mut response = bare(pending, message);
            response.agent_ids = Some(ids);
            response.agents = Some(agents);
            Ok(Step::Done(response))
        },
        _ => Err(unexpected_reply(words.operation, words.context)),
    }
}

/// Every file_folder operation is read back from its own name.
pub proof fn lemma_file_folder_name_reads_back(op: FileFolderOperation)
    ensures
        FileFolderOperation::named(op.name_spec()) == Some(op),
{
    reveal_strlit("list_files");
    reveal_strlit("open_file");
    reveal_strlit("close_file");
    reveal_strlit("close_all_files");
    reveal_strlit("list_folders");
    reveal_strlit("attach_folder");
    reveal_strlit("detach_folder");
    reveal_strlit("list_agents_in_folder");
    assert("list_files"@.len() == 10);
    assert("open_file"@.len() == 9);
    assert("close_file"@.len() == 10);
    assert("close_all_files"@.len() == 15);
    assert("list_folders"@.len() == 12);
    assert("attach_folder"@.len() == 13);
    assert("detach_folder"@.len() == 13);
    assert("list_agents_in_folder"@.len() == 21);
    assert("close_file"@[0] == 'c');
    assert("list_files"@[0] == 'l');
    assert("detach_folder"@[0] == 'd');
    assert("attach_folder"@[0] == 'a');
}

/// No two file_folder operations share a name.
pub proof fn lemma_file_folder_names_differ(a: FileFolderOperation, b: FileFolderOperation)
    requires
        a.name_spec() == b.name_spec(),
    ensures
        a == b,
{
    lemma_file_folder_name_reads_back(a);
    lemma_file_folder_name_reads_back(b);
}

/// A request that lacks a field its operation requires is refused as
/// missing a field, and no backend call is asked for: the field reported is
/// required and absent, and it is the lacking field itself where every
/// field required before it is there.
pub proof fn lemma_file_folder_missing_field_is_refused(
    request: FileFolderRequest,
    op: FileFolderOperation,
    at: int,
    r: Result<FileFolderStep, RouterError>,
)
    requires
        file_folder_dispatch_post(request, r),
        FileFolderOperation::named(request.operation@) == Some(op),
        0 <= at < op.required().len(),
        !request.has_field(op.required()[at]),
    ensures
        r is Err,
        r->Err_0 is MissingField,
        ({
            let field = r->Err_0->MissingField_field;
            &&& r->Err_0->MissingField_operation@ == op.name_spec()
            &&& op.required().contains(field)
            &&& !request.has_field(field)
            &&& (forall|j: int| 0 <= j < at ==> request.has_field(#[trigger] op.required()[j]))
                ==> field == op.required()[at]
        }),
{
    lemma_missing_field_is_reported(op.required(), request, at);
}

/// A request that holds everything its operation requires but a malformed
/// identifier is refused as holding an invalid identifier, and no backend
/// call is asked for: the field reported is malformed, its text is
/// reported with it, and it is the malformed field itself where no
/// identifier field before it is malformed.
pub proof fn lemma_file_folder_malformed_identifier_is_refused(
    request: FileFolderRequest,
    op: FileFolderOperation,
    at: int,
    r: Result<FileFolderStep, RouterError>,
)
    requires
        file_folder_dispatch_post(request, r),
        FileFolderOperation::named(request.operation@) == Some(op),
        first_missing(op.required(), request) is None,
        0 <= at < op.identifiers().len(),
        malformed(request, op.identifiers()[at]),
    ensures
        r is Err,
        r->Err_0 is InvalidIdentifier,
        ({
            let field = r->Err_0->InvalidIdentifier_field;
            &&& r->Err_0->InvalidIdentifier_operation@ == op.name_spec()
            &&& malformed(request, field)
            &&& request.raw_identifier(field) == Some(r->Err_0->InvalidIdentifier_raw@)
            &&& (forall|j: int|
                0 <= j < at ==> !malformed(request, #[trigger] op.identifiers()[j]))
                ==> field == op.identifiers()[at]
        }),
{
    lemma_malformed_identifier_is_reported(op.identifiers(), request, at);
}

/// Dispatch reaches one handler, the operation's own: the step that a
/// request begins with belongs to the request's operation.
pub proof fn lemma_file_folder_dispatch_reaches_own_handler(
    request: FileFolderRequest,
    r: Result<FileFolderStep, RouterError>,
)
    requires
        file_folder_dispatch_post(request, r),
        r is Ok,
    ensures
        r matches Ok(Step::Call { call, pending }) && FileFolderOperation::named(
            request.operation@,
        ) == Some(pending.operation),
{
}

/// Reading is repeatable: resuming the same operation with the same reply
/// yields envelopes that name the operation and agree in every field.
pub proof fn lemma_file_folder_reading_is_repeatable(
    pending: FileFolderPending,
    reply: Result<Reply, BackendFailure>,
    a: Result<FileFolderStep, RouterError>,
    b: Result<FileFolderStep, RouterError>,
)
    requires
        file_folder_resume_post(pending, reply, a),
        file_folder_resume_post(pending, reply, b),
    ensures
        match (a, b) {
            (Ok(Step::Done(x)), Ok(Step::Done(y))) => x.operation@ == pending.operation.name_spec()
                && x.operation@ == y.operation@ && x.message@ == y.message@ && (x.files is Some) == (
                y.files is Some) && (x.files is Some ==> x.files->0@ =~= y.files->0@) && (x.folders
                is Some) == (y.folders is Some) && (x.folders is Some ==> x.folders->0@
                =~= y.folders->0@) && (x.agents is Some) == (y.agents is Some) && (x.agents
                is Some ==> x.agents->0@ =~= y.agents->0@) && x == (FileFolderResponse {
                operation: x.operation,
                message: x.message,
                files: x.files,
                folders: x.folders,
                agents: x.agents,
                ..y
            }),
            (Err(e), Err(f)) => e.kind_spec() == f.kind_spec() && e.message_spec()
                == f.message_spec(),
            _ => false,
        },
{
    match (a, b, reply) {
        (Ok(Step::Done(x)), Ok(Step::Done(y)), Ok(Reply::Files(records))) => {
            if pending.operation == FileFolderOperation::ListFiles {
                assert forall|i: int| 0 <= i < records@.len() implies x.files->0@[i]
                    == y.files->0@[i] by {
                    assert(x.files->0@[i] == metadata_of(records@[i]));
                    assert(y.files->0@[i] == metadata_of(records@[i]));
                }
                assert(x.files->0@ =~= y.files->0@);
            }
        },
        (Ok(Step::Done(x)), Ok(Step::Done(y)), Ok(Reply::Folders(records))) => {
            if pending.operation == FileFolderOperation::ListFolders {
                assert forall|i: int| 0 <= i < records@.len() implies x.folders->0@[i]
                    == y.folders->0@[i] by {
                    assert(x.folders->0@[i] == folder_of(records@[i]));
                    assert(y.folders->0@[i] == folder_of(records@[i]));
                }
                assert(x.folders->0@ =~= y.folders->0@);
            }
        },
        (Ok(Step::Done(x)), Ok(Step::Done(y)), Ok(Reply::Texts(ids))) => {
            if pending.operation == FileFolderOperation::ListAgentsInFolder {
                assert forall|i: int| 0 <= i < ids@.len() implies x.agents->0@[i]
                    == y.agents->0@[i] by {
                    assert(x.agents->0@[i].id == ids@[i]);
                    assert(y.agents->0@[i].id == ids@[i]);
                }
                assert(x.agents->0@ =~= y.agents->0@);
            }
        },
        _ => {},
    }
}

/// Every envelope of this router reports success: a failure is an error,
/// never an envelope.
pub proof fn lemma_file_folder_envelopes_report_success(
    pending: FileFolderPending,
    reply: Result<Reply, BackendFailure>,
    r: Result<FileFolderStep, RouterError>,
)
    requires
        file_folder_resume_post(pending, reply, r),
    ensures
        r matches Ok(Step::Done(response)) ==> response.success,
{
}

} // verus!
