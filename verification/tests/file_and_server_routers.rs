use letta_server::backend::{BackendFailure, FileRecord, FolderRecord, Reply, Step};
use letta_server::error::{ErrorKind, RouterError};
use letta_server::field::Field;
use letta_server::file_folder::{
    handle_file_folder_ops, resume_file_folder_ops, AgentReference, FileFolderCall, FileFolderOperation,
    FileFolderPending, FileFolderRequest, FileFolderResponse, FileMetadata, FolderMetadata,
};
use letta_server::json::{Json, JsonNumber};
use letta_server::mcp::{
    handle_mcp_ops, resume_mcp_ops, McpCall, McpOperation, McpOpsRequest, McpOpsResponse, McpPending,
};

const F_AGENT: &str = "agent-550e8400-e29b-41d4-a716-446655440000";
const F_FILE: &str = "file-123e4567-e89b-12d3-a456-426614174000";
const F_FOLDER: &str = "source-123e4567-e89b-12d3-a456-426614174777";

fn file_request(operation: &str) -> FileFolderRequest {
    FileFolderRequest {
        operation: operation.to_string(),
        agent_id: None,
        file_id: None,
        folder_id: None,
        request_heartbeat: None,
    }
}

fn file_blank(operation: &str, message: &str) -> FileFolderResponse {
    FileFolderResponse {
        success: true,
        operation: operation.to_string(),
        message: message.to_string(),
        agent_id: None,
        file_id: None,
        folder_id: None,
        files: None,
        opened: None,
        evicted_files: None,
        closed: None,
        closed_count: None,
        closed_files: None,
        folders: None,
        attached: None,
        detached: None,
        agent_state: None,
        agent_ids: None,
        agents: None,
    }
}

fn server_request(operation: McpOperation) -> McpOpsRequest {
    McpOpsRequest {
        operation,
        server_name: None,
        server_config: None,
        tool_name: None,
        tool_args: None,
        oauth_config: None,
        pagination: None,
        request_heartbeat: None,
    }
}

fn server_blank(operation: &str, message: &str) -> McpOpsResponse {
    McpOpsResponse {
        success: true,
        operation: operation.to_string(),
        message: message.to_string(),
        data: None,
        servers: None,
        tools: None,
        server_name: None,
        tool_name: None,
    }
}

fn object(members: Vec<(&str, Json)>) -> Json {
    Json::Object(members.into_iter().map(|(k, v)| (k.to_string(), v)).collect())
}

#[test]
fn file_folder_unknown_operation_is_refused() {
    let err = handle_file_folder_ops(file_request("open")).unwrap_err();
    assert_eq!(err, RouterError::UnknownOperation { raw: "open".to_string() });
    assert_eq!(err.message(), "Unknown operation: open");
    for (operation, name) in [
        (FileFolderOperation::ListFiles, "list_files"),
        (FileFolderOperation::OpenFile, "open_file"),
        (FileFolderOperation::CloseFile, "close_file"),
        (FileFolderOperation::CloseAllFiles, "close_all_files"),
        (FileFolderOperation::ListFolders, "list_folders"),
        (FileFolderOperation::AttachFolder, "attach_folder"),
        (FileFolderOperation::DetachFolder, "detach_folder"),
        (FileFolderOperation::ListAgentsInFolder, "list_agents_in_folder"),
    ] {
        assert_eq!(operation.name(), name);
        assert_eq!(FileFolderOperation::parse(name), Ok(operation));
    }
}

#[test]
fn open_file_passes_on_what_was_evicted() {
    let mut req = file_request("open_file");
    req.agent_id = Some(F_AGENT.to_string());
    req.file_id = Some(F_FILE.to_string());
    let pending = match handle_file_folder_ops(req) {
        Ok(Step::Call { call: FileFolderCall::OpenFile { agent, file }, pending }) => {
            assert_eq!(agent.as_str(), F_AGENT);
            assert_eq!(file.as_str(), F_FILE);
            pending
        }
        other => panic!("unexpected step: {:?}", other),
    };
    // The agent's file window was full: the backend reports two evictions.
    let evicted = vec!["file-old-1".to_string(), "file-old-2".to_string()];
    match resume_file_folder_ops(pending, Ok(Reply::Texts(evicted.clone()))) {
        Ok(Step::Done(response)) => {
            let mut expected = file_blank("open_file", "File opened successfully");
            expected.agent_id = Some(F_AGENT.to_string());
            expected.file_id = Some(F_FILE.to_string());
            expected.opened = Some(true);
            expected.evicted_files = Some(evicted);
            assert_eq!(response, expected);
        }
        other => panic!("unexpected step: {:?}", other),
    }
}

#[test]
fn open_file_validates_both_ids() {
    let mut req = file_request("open_file");
    req.file_id = Some(F_FILE.to_string());
    assert_eq!(
        handle_file_folder_ops(req).unwrap_err(),
        RouterError::MissingField { operation: "open_file".to_string(), field: Field::AgentId }
    );
    let mut req = file_request("open_file");
    req.agent_id = Some(F_AGENT.to_string());
    req.file_id = Some("f".to_string());
    assert_eq!(
        handle_file_folder_ops(req).unwrap_err(),
        RouterError::InvalidIdentifier {
            operation: "open_file".to_string(),
            field: Field::FileId,
            raw: "f".to_string(),
        }
    );
}

#[test]
fn list_files_describes_each_file() {
    let mut req = file_request("list_files");
    req.agent_id = Some(F_AGENT.to_string());
    let pending = match handle_file_folder_ops(req) {
        Ok(Step::Call { call: FileFolderCall::ListFiles { .. }, pending }) => pending,
        other => panic!("unexpected step: {:?}", other),
    };
    let records = vec![
        FileRecord {
            id: "f1".to_string(),
            filename: "a.txt".to_string(),
            size: 10,
            mime_type: "text/plain".to_string(),
            is_open: true,
            opened_at: Some("now".to_string()),
        },
        FileRecord {
            id: "f2".to_string(),
            filename: "b.pdf".to_string(),
            size: 0,
            mime_type: "application/pdf".to_string(),
            is_open: false,
            opened_at: None,
        },
    ];
    match resume_file_folder_ops(pending, Ok(Reply::Files(records))) {
        Ok(Step::Done(response)) => {
            let mut expected = file_blank("list_files", "Found 2 files");
            expected.agent_id = Some(F_AGENT.to_string());
            expected.files = Some(vec![
                FileMetadata {
                    id: "f1".to_string(),
                    filename: "a.txt".to_string(),
                    size: Some(10),
                    mime_type: Some("text/plain".to_string()),
                    is_open: Some(true),
                    opened_at: Some("now".to_string()),
                },
                FileMetadata {
                    id: "f2".to_string(),
                    filename: "b.pdf".to_string(),
                    size: Some(0),
                    mime_type: Some("application/pdf".to_string()),
                    is_open: Some(false),
                    opened_at: None,
                },
            ]);
            assert_eq!(response, expected);
        }
        other => panic!("unexpected step: {:?}", other),
    }
}

#[test]
fn close_all_files_lists_what_was_closed() {
    let pending = FileFolderPending {
        operation: FileFolderOperation::CloseAllFiles,
        agent_id: Some(F_AGENT.to_string()),
        file_id: None,
        folder_id: None,
    };
    let closed = vec!["f1".to_string(), "f2".to_string(), "f3".to_string()];
    match resume_file_folder_ops(pending, Ok(Reply::Texts(closed.clone()))) {
        Ok(Step::Done(response)) => {
            let mut expected = file_blank("close_all_files", "Closed 3 files");
            expected.agent_id = Some(F_AGENT.to_string());
            expected.closed_count = Some(3);
            expected.closed_files = Some(closed);
            assert_eq!(response, expected);
        }
        other => panic!("unexpected step: {:?}", other),
    }
    let pending = FileFolderPending {
        operation: FileFolderOperation::CloseFile,
        agent_id: Some(F_AGENT.to_string()),
        file_id: Some(F_FILE.to_string()),
        folder_id: None,
    };
    match resume_file_folder_ops(pending, Ok(Reply::Empty)) {
        Ok(Step::Done(response)) => {
            assert_eq!(response.closed, Some(true));
            assert_eq!(response.message, "File closed successfully");
        }
        other => panic!("unexpected step: {:?}", other),
    }
}

#[test]
fn folders_are_listed_attached_and_searched() {
    let pending = match handle_file_folder_ops(file_request("list_folders")) {
        Ok(Step::Call { call: FileFolderCall::ListFolders, pending }) => pending,
        other => panic!("unexpected step: {:?}", other),
    };
    let records = vec![FolderRecord {
        id: F_FOLDER.to_string(),
        name: "docs".to_string(),
        description: None,
    }];
    match resume_file_folder_ops(pending, Ok(Reply::Folders(records))) {
        Ok(Step::Done(response)) => {
            let mut expected = file_blank("list_folders", "Found 1 folders");
            expected.folders = Some(vec![FolderMetadata {
                id: F_FOLDER.to_string(),
                name: "docs".to_string(),
                description: None,
                file_count: None,
                agent_count: None,
            }]);
            assert_eq!(response, expected);
        }
        other => panic!("unexpected step: {:?}", other),
    }
    let mut req = file_request("attach_folder");
    req.agent_id = Some(F_AGENT.to_string());
    req.folder_id = Some(F_FOLDER.to_string());
    let pending = match handle_file_folder_ops(req) {
        Ok(Step::Call { call: FileFolderCall::AttachFolder { agent, folder }, pending }) => {
            assert_eq!(agent.as_str(), F_AGENT);
            assert_eq!(folder.as_str(), F_FOLDER);
            pending
        }
        other => panic!("unexpected step: {:?}", other),
    };
    match resume_file_folder_ops(pending, Ok(Reply::Entity(Json::text_of("state")))) {
        Ok(Step::Done(response)) => {
            let mut expected =
                file_blank("attach_folder", "Folder attached to agent successfully");
            expected.agent_id = Some(F_AGENT.to_string());
            expected.folder_id = Some(F_FOLDER.to_string());
            expected.attached = Some(true);
            expected.agent_state = Some(Json::text_of("state"));
            assert_eq!(response, expected);
        }
        other => panic!("unexpected step: {:?}", other),
    }
    let mut req = file_request("list_agents_in_folder");
    req.folder_id = Some(F_FOLDER.to_string());
    let pending = match handle_file_folder_ops(req) {
        Ok(Step::Call { call: FileFolderCall::ListAgentsInFolder { .. }, pending }) => pending,
        other => panic!("unexpected step: {:?}", other),
    };
    match resume_file_folder_ops(pending, Ok(Reply::Texts(vec![F_AGENT.to_string()]))) {
        Ok(Step::Done(response)) => {
            let mut expected = file_blank("list_agents_in_folder", "Found 1 agents in folder");
            expected.folder_id = Some(F_FOLDER.to_string());
            expected.agent_ids = Some(vec![F_AGENT.to_string()]);
            expected.agents = Some(vec![AgentReference { id: F_AGENT.to_string() }]);
            assert_eq!(response, expected);
        }
        other => panic!("unexpected step: {:?}", other),
    }
}

#[test]
fn file_folder_failures_and_odd_replies() {
    let pending = || FileFolderPending {
        operation: FileFolderOperation::DetachFolder,
        agent_id: None,
        file_id: None,
        folder_id: None,
    };
    let failure = BackendFailure { status: Some(404), detail: "none".to_string(), rejected: None };
    assert_eq!(
        resume_file_folder_ops(pending(), Err(failure)).unwrap_err(),
        RouterError::NotFound {
            operation: "detach_folder".to_string(),
            detail: "Failed to detach folder: none".to_string(),
        }
    );
    let err = resume_file_folder_ops(pending(), Ok(Reply::Count(1))).unwrap_err();
    assert_eq!(err.kind(), ErrorKind::BackendInternal);
}

#[test]
fn file_and_server_failures_name_what_the_call_was_made_on() {
    let mut req = file_request("close_file");
    req.agent_id = Some(F_AGENT.to_string());
    req.file_id = Some(F_FILE.to_string());
    let pending = match handle_file_folder_ops(req) {
        Ok(Step::Call { pending, .. }) => pending,
        other => panic!("unexpected step: {:?}", other),
    };
    let failure = BackendFailure { status: Some(404), detail: "none".to_string(), rejected: None };
    assert_eq!(
        resume_file_folder_ops(pending, Err(failure)).unwrap_err(),
        RouterError::NotFound {
            operation: "close_file".to_string(),
            detail: format!("Failed to close file ({}, {}): none", F_AGENT, F_FILE),
        }
    );
    let pending = McpPending {
        operation: McpOperation::RegisterTool,
        server_name: Some("files".to_string()),
        tool_name: Some("read".to_string()),
    };
    let failure = BackendFailure { status: Some(500), detail: "x".to_string(), rejected: None };
    assert_eq!(
        resume_mcp_ops(pending, Err(failure)).unwrap_err().message(),
        "Failed to register MCP tool (files, read): x"
    );
}

#[test]
fn server_operation_names_read_back() {
    for (operation, name) in [
        (McpOperation::Add, "add"),
        (McpOperation::Update, "update"),
        (McpOperation::Delete, "delete"),
        (McpOperation::Test, "test"),
        (McpOperation::Connect, "connect"),
        (McpOperation::Resync, "resync"),
        (McpOperation::Execute, "execute"),
        (McpOperation::ListServers, "list_servers"),
        (McpOperation::ListTools, "list_tools"),
        (McpOperation::RegisterTool, "register_tool"),
    ] {
        assert_eq!(operation.name(), name);
        assert_eq!(McpOperation::parse(name), Ok(operation));
    }
    assert!(McpOperation::parse("remove").is_err());
}

#[test]
fn connect_is_not_implemented_and_says_so() {
    let mut req = server_request(McpOperation::Connect);
    req.server_name = Some("files".to_string());
    let err = handle_mcp_ops(req).unwrap_err();
    assert_eq!(
        err,
        RouterError::NotImplemented {
            operation: "connect".to_string(),
            capability: "Connect operation not yet implemented in Rust SDK".to_string(),
        }
    );
    assert_eq!(err.kind(), ErrorKind::NotImplemented);
    assert_ne!(err.kind(), ErrorKind::BackendInternal);
    assert_ne!(err.kind(), ErrorKind::NotFound);
    // The required field is still checked first.
    assert_eq!(
        handle_mcp_ops(server_request(McpOperation::Connect)).unwrap_err(),
        RouterError::MissingField { operation: "connect".to_string(), field: Field::ServerName }
    );
    let mut req = server_request(McpOperation::Execute);
    req.server_name = Some("files".to_string());
    assert_eq!(
        handle_mcp_ops(req).unwrap_err(),
        RouterError::MissingField { operation: "execute".to_string(), field: Field::ToolName }
    );
    let mut req = server_request(McpOperation::Resync);
    req.server_name = Some("files".to_string());
    assert_eq!(
        handle_mcp_ops(req).unwrap_err().message(),
        "Resync operation not yet implemented in Rust SDK"
    );
}

#[test]
fn server_add_update_delete() {
    let config = object(vec![("command", Json::text_of("run"))]);
    let mut req = server_request(McpOperation::Add);
    req.server_config = Some(config.duplicate());
    let pending = match handle_mcp_ops(req) {
        Ok(Step::Call { call: McpCall::AddServer { config: sent }, pending }) => {
            assert_eq!(sent, config);
            pending
        }
        other => panic!("unexpected step: {:?}", other),
    };
    match resume_mcp_ops(pending, Ok(Reply::Entity(Json::Array(vec![])))) {
        Ok(Step::Done(response)) => {
            let mut expected = server_blank("add", "MCP server added successfully");
            expected.data = Some(Json::Array(vec![]));
            assert_eq!(response, expected);
        }
        other => panic!("unexpected step: {:?}", other),
    }
    let mut req = server_request(McpOperation::Update);
    req.server_config = Some(config.duplicate());
    assert_eq!(
        handle_mcp_ops(req).unwrap_err(),
        RouterError::MissingField { operation: "update".to_string(), field: Field::ServerName }
    );
    let mut req = server_request(McpOperation::Delete);
    req.server_name = Some("files".to_string());
    let pending = match handle_mcp_ops(req) {
        Ok(Step::Call { call: McpCall::DeleteServer { server }, pending }) => {
            assert_eq!(server, "files");
            pending
        }
        other => panic!("unexpected step: {:?}", other),
    };
    match resume_mcp_ops(pending, Ok(Reply::Empty)) {
        Ok(Step::Done(response)) => {
            let mut expected = server_blank("delete", "MCP server deleted successfully");
            expected.data = Some(Json::Null);
            expected.server_name = Some("files".to_string());
            assert_eq!(response, expected);
        }
        other => panic!("unexpected step: {:?}", other),
    }
}

#[test]
fn server_test_reports_latency_and_merges_the_answer() {
    let pending = McpPending { operation: McpOperation::Test, server_name: None, tool_name: None };
    let answer = object(vec![("tools", Json::unsigned(3)), ("connected", Json::text_of("yes"))]);
    match resume_mcp_ops(pending, Ok(Reply::Timed { elapsed_ms: 17, entity: answer })) {
        Ok(Step::Done(response)) => {
            let mut expected = server_blank("test", "MCP server connection successful");
            expected.data = Some(object(vec![
                ("connected", Json::text_of("yes")),
                ("latency_ms", Json::Number(JsonNumber::Signed(17))),
                ("tools", Json::unsigned(3)),
            ]));
            assert_eq!(response, expected);
        }
        other => panic!("unexpected step: {:?}", other),
    }
    let pending = McpPending { operation: McpOperation::Test, server_name: None, tool_name: None };
    match resume_mcp_ops(pending, Ok(Reply::Timed { elapsed_ms: 5, entity: Json::Array(vec![]) })) {
        Ok(Step::Done(response)) => assert_eq!(
            response.data,
            Some(object(vec![
                ("connected", Json::Bool(true)),
                ("latency_ms", Json::Number(JsonNumber::Signed(5))),
            ]))
        ),
        other => panic!("unexpected step: {:?}", other),
    }
}

#[test]
fn servers_are_listed_with_their_names() {
    let pending = match handle_mcp_ops(server_request(McpOperation::ListServers)) {
        Ok(Step::Call { call: McpCall::ListServers, pending }) => pending,
        other => panic!("unexpected step: {:?}", other),
    };
    let servers = object(vec![
        ("files", object(vec![("type", Json::text_of("stdio")), ("command", Json::text_of("fs"))])),
        ("odd", object(vec![("name", Json::text_of("inner"))])),
        ("bare", Json::Null),
    ]);
    match resume_mcp_ops(pending, Ok(Reply::Entity(servers))) {
        Ok(Step::Done(response)) => {
            let mut expected = server_blank("list_servers", "Found 3 MCP servers");
            expected.servers = Some(vec![
                object(vec![
                    ("name", Json::text_of("files")),
                    ("type", Json::text_of("stdio")),
                    ("command", Json::text_of("fs")),
                ]),
                object(vec![("name", Json::text_of("inner"))]),
                object(vec![("name", Json::text_of("bare"))]),
            ]);
            assert_eq!(response, expected);
        }
        other => panic!("unexpected step: {:?}", other),
    }
    let pending =
        McpPending { operation: McpOperation::ListServers, server_name: None, tool_name: None };
    match resume_mcp_ops(pending, Ok(Reply::Entity(Json::Array(vec![Json::Null])))) {
        Ok(Step::Done(response)) => {
            assert_eq!(response.servers, Some(vec![]));
            assert_eq!(response.message, "Found 0 MCP servers");
        }
        other => panic!("unexpected step: {:?}", other),
    }
}

#[test]
fn tools_of_a_server_are_simplified() {
    let mut req = server_request(McpOperation::ListTools);
    req.server_name = Some("files".to_string());
    let pending = match handle_mcp_ops(req) {
        Ok(Step::Call { call: McpCall::ListTools { server }, pending }) => {
            assert_eq!(server, "files");
            pending
        }
        other => panic!("unexpected step: {:?}", other),
    };
    let answer = Json::Array(vec![
        object(vec![
            ("inputSchema", Json::text_of("in")),
            ("name", Json::text_of("read")),
            ("extra", Json::Bool(true)),
            ("description", Json::text_of("reads")),
        ]),
        object(vec![
            ("name", Json::text_of("write")),
            ("schema", Json::text_of("own")),
            ("inputSchema", Json::text_of("in")),
        ]),
        object(vec![]),
        Json::text_of("plain"),
    ]);
    match resume_mcp_ops(pending, Ok(Reply::Entity(answer))) {
        Ok(Step::Done(response)) => {
            let mut expected = server_blank("list_tools", "Found 4 tools on server files");
            expected.server_name = Some("files".to_string());
            expected.tools = Some(vec![
                object(vec![
                    ("name", Json::text_of("read")),
                    ("description", Json::text_of("reads")),
                    ("schema", Json::text_of("in")),
                ]),
                object(vec![("name", Json::text_of("write")), ("schema", Json::text_of("own"))]),
                object(vec![]),
                Json::text_of("plain"),
            ]);
            assert_eq!(response, expected);
        }
        other => panic!("unexpected step: {:?}", other),
    }
    let pending = || McpPending {
        operation: McpOperation::ListTools,
        server_name: Some("s".to_string()),
        tool_name: None,
    };
    let wrapped = object(vec![("tools", Json::Array(vec![Json::text_of("t")]))]);
    match resume_mcp_ops(pending(), Ok(Reply::Entity(wrapped))) {
        Ok(Step::Done(response)) => assert_eq!(response.tools, Some(vec![Json::text_of("t")])),
        other => panic!("unexpected step: {:?}", other),
    }
    match resume_mcp_ops(pending(), Ok(Reply::Entity(object(vec![("tools", Json::Null)])))) {
        Ok(Step::Done(response)) => {
            assert_eq!(response.tools, Some(vec![]));
            assert_eq!(response.message, "Found 0 tools on server s");
        }
        other => panic!("unexpected step: {:?}", other),
    }
}

#[test]
fn registering_a_tool_names_tool_and_server() {
    let mut req = server_request(McpOperation::RegisterTool);
    req.server_name = Some("files".to_string());
    req.tool_name = Some("read".to_string());
    let pending = match handle_mcp_ops(req) {
        Ok(Step::Call { call: McpCall::RegisterTool { server, tool }, pending }) => {
            assert_eq!(server, "files");
            assert_eq!(tool, "read");
            pending
        }
        other => panic!("unexpected step: {:?}", other),
    };
    match resume_mcp_ops(pending, Ok(Reply::Entity(Json::Null))) {
        Ok(Step::Done(response)) => {
            let mut expected = server_blank(
                "register_tool",
                "Tool read from files registered successfully in Letta",
            );
            expected.data = Some(Json::Null);
            expected.server_name = Some("files".to_string());
            expected.tool_name = Some("read".to_string());
            assert_eq!(response, expected);
        }
        other => panic!("unexpected step: {:?}", other),
    }
    let pending =
        McpPending { operation: McpOperation::Add, server_name: None, tool_name: None };
    let failure = BackendFailure { status: Some(500), detail: "x".to_string(), rejected: None };
    assert_eq!(
        resume_mcp_ops(pending, Err(failure)).unwrap_err().message(),
        "Failed to add MCP server: x"
    );
}
