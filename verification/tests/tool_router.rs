use letta_server::backend::{BackendFailure, Reply, Step};
use letta_server::error::{ErrorKind, RouterError};
use letta_server::field::Field;
use letta_server::json::Json;
use letta_server::tool::{
    handle_tool_manager, resume_tool_manager, SourceKind, ToolCall, ToolManagerRequest, ToolOperation, ToolPending,
};

const AGENT_A: &str = "agent-550e8400-e29b-41d4-a716-446655440000";
const AGENT_B: &str = "agent-550e8400-e29b-41d4-a716-446655440001";
const TOOL: &str = "tool-123e4567-e89b-12d3-a456-426614174000";

fn request(operation: ToolOperation) -> ToolManagerRequest {
    ToolManagerRequest {
        operation,
        tool_id: None,
        agent_id: None,
        agent_ids: None,
        source_code: None,
        source_type: None,
        tags: None,
        description: None,
        json_schema: None,
        args_json_schema: None,
        return_char_limit: None,
        args: None,
        env_vars: None,
        name: None,
        request_heartbeat: None,
    }
}

fn entity(label: &str) -> Json {
    Json::Object(vec![("id".to_string(), Json::Str(label.to_string()))])
}

#[test]
fn tool_get_names_one_call_with_the_parsed_id() {
    let mut req = request(ToolOperation::Get);
    req.tool_id = Some(TOOL.to_string());
    match handle_tool_manager(req) {
        Ok(Step::Call { call: ToolCall::Get { tool }, pending }) => {
            assert_eq!(tool.as_str(), TOOL);
            assert_eq!(
                pending,
                ToolPending::Single { operation: ToolOperation::Get, subject: TOOL.to_string() }
            );
        }
        other => panic!("unexpected step: {:?}", other),
    }
}

#[test]
fn tool_get_without_id_is_missing_field() {
    let err = handle_tool_manager(request(ToolOperation::Get)).unwrap_err();
    assert_eq!(
        err,
        RouterError::MissingField { operation: "get".to_string(), field: Field::ToolId }
    );
    assert_eq!(err.message(), "tool_id is required for get operation");
}

#[test]
fn tool_attach_reports_missing_field_before_malformed_id() {
    let mut req = request(ToolOperation::Attach);
    req.agent_id = Some("not-a-uuid".to_string());
    let err = handle_tool_manager(req).unwrap_err();
    assert_eq!(
        err,
        RouterError::MissingField { operation: "attach".to_string(), field: Field::ToolId }
    );
}

#[test]
fn tool_attach_with_malformed_agent_id_is_invalid_identifier() {
    let mut req = request(ToolOperation::Attach);
    req.agent_id = Some("not-a-uuid".to_string());
    req.tool_id = Some(TOOL.to_string());
    let err = handle_tool_manager(req).unwrap_err();
    assert_eq!(err.kind(), ErrorKind::InvalidIdentifier);
    assert_eq!(
        err,
        RouterError::InvalidIdentifier {
            operation: "attach".to_string(),
            field: Field::AgentId,
            raw: "not-a-uuid".to_string(),
        }
    );
}

#[test]
fn tool_create_reads_the_source_type_whatever_its_case() {
    let mut req = request(ToolOperation::Create);
    req.source_code = Some("def f(): pass".to_string());
    req.source_type = Some("PyThOn".to_string());
    match handle_tool_manager(req) {
        Ok(Step::Call { call: ToolCall::Create(spec), .. }) => {
            assert_eq!(spec.source_type, Some(SourceKind::Python));
            assert_eq!(spec.source_code, "def f(): pass");
        }
        other => panic!("unexpected step: {:?}", other),
    }
    let mut req = request(ToolOperation::Create);
    req.source_code = Some("x".to_string());
    req.source_type = Some("ruby".to_string());
    match handle_tool_manager(req) {
        Ok(Step::Call { call: ToolCall::Create(spec), .. }) => assert_eq!(spec.source_type, None),
        other => panic!("unexpected step: {:?}", other),
    }
}

#[test]
fn tool_source_type_folds_ascii_letters_only() {
    for (text, expected) in [
        ("javascript", Some(SourceKind::JavaScript)),
        ("JavaScript", Some(SourceKind::JavaScript)),
        ("PYTHON", Some(SourceKind::Python)),
        // A dotted capital I is no ASCII letter: the text names no language.
        ("JAVASCR\u{130}PT", None),
        ("python3", None),
        ("", None),
    ] {
        let mut req = request(ToolOperation::Upsert);
        req.source_code = Some("x".to_string());
        req.source_type = Some(text.to_string());
        match handle_tool_manager(req) {
            Ok(Step::Call { call: ToolCall::Upsert(spec), .. }) => {
                assert_eq!(spec.source_type, expected, "{}", text)
            }
            other => panic!("unexpected step: {:?}", other),
        }
    }
}

#[test]
fn tool_generate_schema_is_not_implemented() {
    let err = handle_tool_manager(request(ToolOperation::GenerateSchema)).unwrap_err();
    assert_eq!(err.kind(), ErrorKind::NotImplemented);
    assert_ne!(err.kind(), ErrorKind::BackendInternal);
    assert_eq!(
        err.message(),
        "generate_schema not available in SDK - requires custom implementation"
    );
}

#[test]
fn tool_update_needs_a_field_to_change() {
    let mut req = request(ToolOperation::Update);
    req.tool_id = Some(TOOL.to_string());
    let err = handle_tool_manager(req).unwrap_err();
    assert_eq!(
        err,
        RouterError::MissingField { operation: "update".to_string(), field: Field::Description }
    );
}

#[test]
fn tool_failure_names_the_identifiers_of_the_call() {
    let mut req = request(ToolOperation::Detach);
    req.agent_id = Some(AGENT_A.to_string());
    req.tool_id = Some(TOOL.to_string());
    let pending = match handle_tool_manager(req) {
        Ok(Step::Call { call: ToolCall::Detach { .. }, pending }) => pending,
        other => panic!("unexpected step: {:?}", other),
    };
    let failure = BackendFailure { status: Some(404), detail: "gone".to_string(), rejected: None };
    assert_eq!(
        resume_tool_manager(pending, Err(failure)).unwrap_err(),
        RouterError::NotFound {
            operation: "detach".to_string(),
            detail: format!("Failed to detach tool ({}, {}): gone", AGENT_A, TOOL),
        }
    );
}

#[test]
fn tool_list_counts_the_payload() {
    let pending = ToolPending::Single { operation: ToolOperation::List, subject: String::new() };
    let reply = Reply::Entities(vec![entity("a"), entity("b"), entity("c")]);
    match resume_tool_manager(pending, Ok(reply)) {
        Ok(Step::Done(response)) => {
            assert!(response.success);
            assert_eq!(response.operation, "list");
            assert_eq!(response.message, "Found 3 tools");
            assert_eq!(response.count, Some(3));
            assert_eq!(
                response.data,
                Some(Json::Array(vec![entity("a"), entity("b"), entity("c")]))
            );
        }
        other => panic!("unexpected step: {:?}", other),
    }
}

#[test]
fn tool_list_of_nothing_is_a_success() {
    let pending = ToolPending::Single { operation: ToolOperation::List, subject: String::new() };
    match resume_tool_manager(pending, Ok(Reply::Entities(vec![]))) {
        Ok(Step::Done(response)) => {
            assert!(response.success);
            assert_eq!(response.count, Some(0));
            assert_eq!(response.message, "Found 0 tools");
        }
        other => panic!("unexpected step: {:?}", other),
    }
}

#[test]
fn tool_delete_of_unknown_id_is_not_found() {
    let pending = ToolPending::Single { operation: ToolOperation::Delete, subject: String::new() };
    let failure = BackendFailure { status: Some(404), detail: "no such tool".to_string(), rejected: None };
    let err = resume_tool_manager(pending, Err(failure)).unwrap_err();
    assert_eq!(
        err,
        RouterError::NotFound {
            operation: "delete".to_string(),
            detail: "Failed to delete tool: no such tool".to_string(),
        }
    );
}

#[test]
fn tool_backend_timeout_is_a_retryable_backend_failure() {
    let pending = ToolPending::Single { operation: ToolOperation::Get, subject: String::new() };
    let failure = BackendFailure { status: None, detail: "timed out".to_string(), rejected: None };
    let err = resume_tool_manager(pending, Err(failure)).unwrap_err();
    assert_eq!(err.kind(), ErrorKind::BackendInternal);
    assert!(err.retryable());
    assert_eq!(err.message(), "Failed to get tool: timed out");
}

#[test]
fn bulk_attach_reports_each_item_and_goes_on_after_a_failure() {
    let mut req = request(ToolOperation::BulkAttach);
    req.tool_id = Some(TOOL.to_string());
    req.agent_ids =
        Some(vec!["bogus".to_string(), AGENT_A.to_string(), AGENT_B.to_string()]);
    // The malformed first target is recorded without a call; the first call is for AGENT_A.
    let pending = match handle_tool_manager(req) {
        Ok(Step::Call { call: ToolCall::Attach { agent, tool }, pending }) => {
            assert_eq!(agent.as_str(), AGENT_A);
            assert_eq!(tool.as_str(), TOOL);
            pending
        }
        other => panic!("unexpected step: {:?}", other),
    };
    let failure = BackendFailure { status: Some(500), detail: "boom".to_string(), rejected: None };
    let pending = match resume_tool_manager(pending, Err(failure)) {
        Ok(Step::Call { call: ToolCall::Attach { agent, .. }, pending }) => {
            assert_eq!(agent.as_str(), AGENT_B);
            pending
        }
        other => panic!("unexpected step: {:?}", other),
    };
    match resume_tool_manager(pending, Ok(Reply::Entity(entity("state")))) {
        Ok(Step::Done(response)) => {
            assert!(!response.success);
            assert_eq!(response.operation, "bulk_attach");
            assert_eq!(response.count, Some(1));
            assert_eq!(response.message, "Attached to 1 agents, 2 errors");
            let expected = Json::Object(vec![
                (
                    "results".to_string(),
                    Json::Array(vec![Json::Object(vec![
                        ("agent_id".to_string(), Json::Str(AGENT_B.to_string())),
                        ("success".to_string(), Json::Bool(true)),
                        ("data".to_string(), entity("state")),
                    ])]),
                ),
                (
                    "errors".to_string(),
                    Json::Array(vec![
                        Json::Object(vec![
                            ("agent_id".to_string(), Json::Str("bogus".to_string())),
                            ("success".to_string(), Json::Bool(false)),
                            ("error".to_string(), Json::Str("Invalid agent_id: Invalid LettaId format: bogus".to_string())),
                        ]),
                        Json::Object(vec![
                            ("agent_id".to_string(), Json::Str(AGENT_A.to_string())),
                            ("success".to_string(), Json::Bool(false)),
                            ("error".to_string(), Json::Str("boom".to_string())),
                        ]),
                    ]),
                ),
            ]);
            assert_eq!(response.data, Some(expected));
        }
        other => panic!("unexpected step: {:?}", other),
    }
}

#[test]
fn bulk_attach_with_no_targets_succeeds_without_a_call() {
    let mut req = request(ToolOperation::BulkAttach);
    req.tool_id = Some(TOOL.to_string());
    req.agent_ids = Some(vec![]);
    match handle_tool_manager(req) {
        Ok(Step::Done(response)) => {
            assert!(response.success);
            assert_eq!(response.count, Some(0));
            assert_eq!(response.message, "Attached to 0 agents, 0 errors");
        }
        other => panic!("unexpected step: {:?}", other),
    }
}
