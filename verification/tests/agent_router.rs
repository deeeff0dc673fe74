use letta_server::agent::{
    handle_agent_advanced, resume_agent_advanced, list_limit, message_contents, read_tool_ids, select_targets,
    AgentAdvancedRequest, AgentCall, AgentOperation, AgentPending, BulkDeleteFilters,
};
use letta_server::backend::{AgentRecord, BackendFailure, Reply, Step};
use letta_server::envelope::{Message, Pagination};
use letta_server::error::{ErrorKind, RouterError};
use letta_server::field::Field;
use letta_server::json::Json;

const ID_A: &str = "agent-550e8400-e29b-41d4-a716-446655440000";
const ID_B: &str = "agent-550e8400-e29b-41d4-a716-446655440001";
const ID_C: &str = "agent-550e8400-e29b-41d4-a716-446655440002";

fn agent_request(operation: AgentOperation) -> AgentAdvancedRequest {
    AgentAdvancedRequest {
        operation,
        agent_id: None,
        name: None,
        description: None,
        system: None,
        llm_config: None,
        embedding_config: None,
        tool_ids: None,
        pagination: None,
        messages: None,
        stream: None,
        filters: None,
        query: None,
        search_filters: None,
        export_data: None,
        update_data: None,
    }
}

fn agent_entity(id: &str) -> Json {
    Json::Object(vec![("id".to_string(), Json::Str(id.to_string()))])
}

fn agent_record(id: &str, name: &str) -> AgentRecord {
    AgentRecord {
        id: id.to_string(),
        name: name.to_string(),
        description: Some("helper".to_string()),
        system: None,
        llm_config: Some(Json::Object(vec![("model".to_string(), Json::text_of("m"))])),
        embedding_config: None,
        created_at: Json::text_of("2024-01-01T00:00:00Z"),
        entity: agent_entity(id),
    }
}

fn single(operation: AgentOperation) -> AgentPending {
    AgentPending::Single { operation, agent: None }
}

#[test]
fn agent_operation_names_read_back() {
    let all = [
        (AgentOperation::List, "list"),
        (AgentOperation::Create, "create"),
        (AgentOperation::Get, "get"),
        (AgentOperation::Update, "update"),
        (AgentOperation::Delete, "delete"),
        (AgentOperation::ListTools, "list_tools"),
        (AgentOperation::SendMessage, "send_message"),
        (AgentOperation::Export, "export"),
        (AgentOperation::Import, "import"),
        (AgentOperation::Clone, "clone"),
        (AgentOperation::GetConfig, "get_config"),
        (AgentOperation::BulkDelete, "bulk_delete"),
        (AgentOperation::Context, "context"),
        (AgentOperation::ResetMessages, "reset_messages"),
        (AgentOperation::Summarize, "summarize"),
        (AgentOperation::Stream, "stream"),
        (AgentOperation::AsyncMessage, "async_message"),
        (AgentOperation::CancelMessage, "cancel_message"),
        (AgentOperation::PreviewPayload, "preview_payload"),
        (AgentOperation::SearchMessages, "search_messages"),
        (AgentOperation::GetMessage, "get_message"),
        (AgentOperation::Count, "count"),
    ];
    for (operation, name) in all {
        assert_eq!(operation.name(), name);
        assert_eq!(AgentOperation::parse(name), Ok(operation));
    }
    assert_eq!(
        AgentOperation::parse("List"),
        Err(RouterError::UnknownOperation { raw: "List".to_string() })
    );
}

#[test]
fn agent_list_with_limit_asks_for_that_page_and_counts_what_came() {
    let mut req = agent_request(AgentOperation::List);
    req.pagination = Some(Pagination { limit: Some(10), offset: Some(0) });
    let pending = match handle_agent_advanced(req) {
        Ok(Step::Call { call: AgentCall::List { limit }, pending }) => {
            assert_eq!(limit, Some(10));
            pending
        }
        other => panic!("unexpected step: {:?}", other),
    };
    // The backend holds 25 agents and returns the page of 10 that was asked for.
    let page: Vec<AgentRecord> = (0..10).map(|i| agent_record(&format!("a{}", i), "n")).collect();
    match resume_agent_advanced(pending, Ok(Reply::Agents(page))) {
        Ok(Step::Done(response)) => {
            assert!(response.success);
            assert_eq!(response.operation, "list");
            assert_eq!(response.message, "Retrieved 10 agents");
            match response.data {
                Some(Json::Array(items)) => assert_eq!(items.len(), 10),
                other => panic!("unexpected payload: {:?}", other),
            }
        }
        other => panic!("unexpected step: {:?}", other),
    }
}

#[test]
fn agent_list_defaults_to_fifty() {
    assert_eq!(list_limit(None), 50);
    assert_eq!(list_limit(Some(Pagination { limit: None, offset: Some(3) })), 50);
    assert_eq!(list_limit(Some(Pagination { limit: Some(7), offset: None })), 7);
    assert_eq!(list_limit(Some(Pagination { limit: Some(4294967295), offset: None })), u32::MAX);
    assert_eq!(list_limit(Some(Pagination { limit: Some(4294967301), offset: None })), 5);
    let mut req = agent_request(AgentOperation::List);
    req.pagination = Some(Pagination { limit: None, offset: Some(20) });
    match handle_agent_advanced(req) {
        Ok(Step::Call { call: AgentCall::List { limit }, .. }) => assert_eq!(limit, Some(50)),
        other => panic!("unexpected step: {:?}", other),
    }
    match handle_agent_advanced(agent_request(AgentOperation::List)) {
        Ok(Step::Call { call: AgentCall::List { limit }, .. }) => assert_eq!(limit, Some(50)),
        other => panic!("unexpected step: {:?}", other),
    }
}

#[test]
fn agent_get_requires_and_parses_the_id() {
    let err = handle_agent_advanced(agent_request(AgentOperation::Get)).unwrap_err();
    assert_eq!(
        err,
        RouterError::MissingField { operation: "get".to_string(), field: Field::AgentId }
    );
    let mut req = agent_request(AgentOperation::Get);
    req.agent_id = Some("nope".to_string());
    assert_eq!(
        handle_agent_advanced(req).unwrap_err(),
        RouterError::InvalidIdentifier {
            operation: "get".to_string(),
            field: Field::AgentId,
            raw: "nope".to_string(),
        }
    );
    let mut req = agent_request(AgentOperation::Get);
    req.agent_id = Some(ID_A.to_string());
    match handle_agent_advanced(req) {
        Ok(Step::Call { call: AgentCall::Get { agent }, pending }) => {
            assert_eq!(agent.as_str(), ID_A);
            match pending {
                AgentPending::Single { operation, agent: Some(on) } => {
                    assert_eq!(operation, AgentOperation::Get);
                    assert_eq!(on.as_str(), ID_A);
                }
                other => panic!("unexpected state: {:?}", other),
            }
        }
        other => panic!("unexpected step: {:?}", other),
    }
}

#[test]
fn agent_create_then_get_carry_the_same_entity() {
    let mut req = agent_request(AgentOperation::Create);
    req.name = Some("helper".to_string());
    req.description = Some("d".to_string());
    req.system = Some("s".to_string());
    req.tool_ids = Some(Json::Array(vec![Json::text_of(
        "tool-123e4567-e89b-12d3-a456-426614174000",
    )]));
    let pending = match handle_agent_advanced(req) {
        Ok(Step::Call { call: AgentCall::Create(spec), pending }) => {
            assert_eq!(spec.name, "helper");
            assert_eq!(spec.description, Some("d".to_string()));
            assert_eq!(spec.system, Some("s".to_string()));
            let ids = spec.tool_ids.unwrap();
            assert_eq!(ids.len(), 1);
            assert_eq!(ids[0].as_str(), "tool-123e4567-e89b-12d3-a456-426614174000");
            pending
        }
        other => panic!("unexpected step: {:?}", other),
    };
    let created = match resume_agent_advanced(pending, Ok(Reply::Agent(agent_record(ID_A, "helper")))) {
        Ok(Step::Done(response)) => response,
        other => panic!("unexpected step: {:?}", other),
    };
    assert_eq!(created.message, "Agent created successfully");
    let read = match resume_agent_advanced(
        single(AgentOperation::Get),
        Ok(Reply::Agent(agent_record(ID_A, "helper"))),
    ) {
        Ok(Step::Done(response)) => response,
        other => panic!("unexpected step: {:?}", other),
    };
    assert_eq!(read.message, "Agent retrieved successfully");
    assert_eq!(created.data, read.data);
    assert_eq!(read.data, Some(agent_entity(ID_A)));
}

#[test]
fn agent_create_rejects_tool_ids_that_are_no_identifier_list() {
    for bad in [
        Json::text_of("tool-123e4567-e89b-12d3-a456-426614174000"),
        Json::Array(vec![Json::unsigned(1)]),
        Json::Array(vec![Json::text_of("bogus")]),
    ] {
        let mut req = agent_request(AgentOperation::Create);
        req.name = Some("helper".to_string());
        req.tool_ids = Some(bad);
        assert_eq!(
            handle_agent_advanced(req).unwrap_err(),
            RouterError::InvalidPayload {
                operation: "create".to_string(),
                field: Field::ToolIds,
                reason: "expected a list of well-formed identifiers".to_string(),
            }
        );
    }
    assert_eq!(read_tool_ids(&Json::Array(vec![])), Some(vec![]));
    assert_eq!(read_tool_ids(&Json::Null), None);
}

#[test]
fn agent_unavailable_operations_say_what_is_missing() {
    for (operation, name, words) in [
        (
            AgentOperation::Update,
            "update",
            "Agent update operation not yet implemented in SDK v0.1.2. Please use specific update operations (memory, tools, etc.)",
        ),
        (
            AgentOperation::Import,
            "import",
            "Import operation not yet implemented - requires file upload support",
        ),
        (
            AgentOperation::Stream,
            "stream",
            "Stream operation not supported in MCP tool context - use async_message instead",
        ),
    ] {
        let err = handle_agent_advanced(agent_request(operation)).unwrap_err();
        assert_eq!(
            err,
            RouterError::NotImplemented {
                operation: name.to_string(),
                capability: words.to_string(),
            }
        );
        assert_eq!(err.kind(), ErrorKind::NotImplemented);
    }
}

#[test]
fn agent_delete_quotes_the_canonical_id() {
    let mut req = agent_request(AgentOperation::Delete);
    req.agent_id = Some("AGENT-550E8400-E29B-41D4-A716-446655440000".to_string());
    let pending = match handle_agent_advanced(req) {
        Ok(Step::Call { call: AgentCall::Delete { agent }, pending }) => {
            assert_eq!(agent.as_str(), "AGENT-550e8400-e29b-41d4-a716-446655440000");
            pending
        }
        other => panic!("unexpected step: {:?}", other),
    };
    match resume_agent_advanced(pending, Ok(Reply::Empty)) {
        Ok(Step::Done(response)) => {
            assert!(response.success);
            assert_eq!(response.data, None);
            assert_eq!(
                response.message,
                "Agent AGENT-550e8400-e29b-41d4-a716-446655440000 deleted successfully"
            );
        }
        other => panic!("unexpected step: {:?}", other),
    }
}

#[test]
fn agent_delete_of_unknown_id_is_not_found() {
    let mut req = agent_request(AgentOperation::Delete);
    req.agent_id = Some(ID_A.to_string());
    let pending = match handle_agent_advanced(req) {
        Ok(Step::Call { pending, .. }) => pending,
        other => panic!("unexpected step: {:?}", other),
    };
    let failure = BackendFailure { status: Some(404), detail: "agent not found".to_string(), rejected: None };
    let err = resume_agent_advanced(pending, Err(failure)).unwrap_err();
    assert_eq!(err.kind(), ErrorKind::NotFound);
    assert_eq!(
        err,
        RouterError::NotFound {
            operation: "delete".to_string(),
            detail: format!("Failed to delete agent ({}): agent not found", ID_A),
        }
    );
}

#[test]
fn agent_messages_are_sent_in_order() {
    let mut req = agent_request(AgentOperation::SendMessage);
    req.agent_id = Some(ID_A.to_string());
    req.messages = Some(vec![
        Message { role: "user".to_string(), content: "one".to_string() },
        Message { role: "system".to_string(), content: "two".to_string() },
    ]);
    match handle_agent_advanced(req) {
        Ok(Step::Call { call: AgentCall::SendMessages { agent, contents }, .. }) => {
            assert_eq!(agent.as_str(), ID_A);
            assert_eq!(contents, vec!["one".to_string(), "two".to_string()]);
        }
        other => panic!("unexpected step: {:?}", other),
    }
    assert_eq!(message_contents(vec![]), Vec::<String>::new());
    let mut req = agent_request(AgentOperation::AsyncMessage);
    req.agent_id = Some(ID_A.to_string());
    assert_eq!(
        handle_agent_advanced(req).unwrap_err(),
        RouterError::MissingField {
            operation: "async_message".to_string(),
            field: Field::Messages,
        }
    );
}

#[test]
fn agent_wrapped_payloads() {
    match resume_agent_advanced(single(AgentOperation::Export), Ok(Reply::Text("{}".to_string()))) {
        Ok(Step::Done(response)) => {
            assert_eq!(
                response.data,
                Some(Json::Object(vec![("export_data".to_string(), Json::text_of("{}"))]))
            );
            assert_eq!(response.message, "Agent exported successfully");
        }
        other => panic!("unexpected step: {:?}", other),
    }
    match resume_agent_advanced(single(AgentOperation::AsyncMessage), Ok(Reply::Entity(Json::text_of("r1"))))
    {
        Ok(Step::Done(response)) => assert_eq!(
            response.data,
            Some(Json::Object(vec![("run_id".to_string(), Json::text_of("r1"))]))
        ),
        other => panic!("unexpected step: {:?}", other),
    }
    match resume_agent_advanced(single(AgentOperation::Count), Ok(Reply::Count(42))) {
        Ok(Step::Done(response)) => {
            assert_eq!(
                response.data,
                Some(Json::Object(vec![("count".to_string(), Json::unsigned(42))]))
            );
            assert_eq!(response.message, "Total agents: 42");
            assert_eq!(response.operation, "count");
        }
        other => panic!("unexpected step: {:?}", other),
    }
    let err = resume_agent_advanced(single(AgentOperation::Count), Ok(Reply::Empty)).unwrap_err();
    assert_eq!(
        err.message(),
        "Failed to count agents: unexpected reply from the backend"
    );
}

#[test]
fn agent_repeated_reads_agree() {
    let reply = || Ok(Reply::Entities(vec![agent_entity(ID_A), agent_entity(ID_B)]));
    let first = resume_agent_advanced(single(AgentOperation::List), reply());
    let second = resume_agent_advanced(single(AgentOperation::List), reply());
    assert_eq!(first, second);
    let first = resume_agent_advanced(single(AgentOperation::Count), Ok(Reply::Count(2)));
    let second = resume_agent_advanced(single(AgentOperation::Count), Ok(Reply::Count(2)));
    assert_eq!(first, second);
}

#[test]
fn agent_summarize_keeps_ten_messages() {
    let mut req = agent_request(AgentOperation::Summarize);
    req.agent_id = Some(ID_A.to_string());
    match handle_agent_advanced(req) {
        Ok(Step::Call { call: AgentCall::Summarize { max_message_length, .. }, .. }) => {
            assert_eq!(max_message_length, 10)
        }
        other => panic!("unexpected step: {:?}", other),
    }
}

#[test]
fn agent_search_and_get_message_count_what_they_list() {
    let mut req = agent_request(AgentOperation::SearchMessages);
    req.query = Some("hello".to_string());
    let pending = match handle_agent_advanced(req) {
        Ok(Step::Call { call: AgentCall::SearchMessages { query }, pending }) => {
            assert_eq!(query, "hello");
            pending
        }
        other => panic!("unexpected step: {:?}", other),
    };
    match resume_agent_advanced(pending, Ok(Reply::Entities(vec![Json::Null]))) {
        Ok(Step::Done(response)) => assert_eq!(response.message, "Found 1 messages"),
        other => panic!("unexpected step: {:?}", other),
    }
    match resume_agent_advanced(single(AgentOperation::GetMessage), Ok(Reply::Entities(vec![]))) {
        Ok(Step::Done(response)) => {
            assert_eq!(response.message, "Retrieved 0 messages (filter client-side)")
        }
        other => panic!("unexpected step: {:?}", other),
    }
}

#[test]
fn agent_clone_reads_the_source_then_creates_the_copy() {
    let mut req = agent_request(AgentOperation::Clone);
    req.agent_id = Some(ID_A.to_string());
    req.name = Some("copy".to_string());
    let pending = match handle_agent_advanced(req) {
        Ok(Step::Call { call: AgentCall::Get { agent }, pending }) => {
            assert_eq!(agent.as_str(), ID_A);
            pending
        }
        other => panic!("unexpected step: {:?}", other),
    };
    let pending = match resume_agent_advanced(pending, Ok(Reply::Agent(agent_record(ID_A, "first")))) {
        Ok(Step::Call { call: AgentCall::Create(spec), pending }) => {
            assert_eq!(spec.name, "copy");
            assert_eq!(spec.description, Some("helper".to_string()));
            assert_eq!(spec.system, None);
            assert_eq!(
                spec.llm_config,
                Some(Json::Object(vec![("model".to_string(), Json::text_of("m"))]))
            );
            assert_eq!(spec.tool_ids, None);
            pending
        }
        other => panic!("unexpected step: {:?}", other),
    };
    match resume_agent_advanced(pending, Ok(Reply::Agent(agent_record(ID_B, "copy")))) {
        Ok(Step::Done(response)) => {
            assert_eq!(response.operation, "clone");
            assert_eq!(response.message, "Agent cloned successfully");
            assert_eq!(
                response.data,
                Some(Json::Object(vec![
                    ("source_agent_id".to_string(), Json::text_of(ID_A)),
                    ("new_agent_id".to_string(), Json::text_of(ID_B)),
                    ("new_agent_name".to_string(), Json::text_of("copy")),
                ]))
            );
        }
        other => panic!("unexpected step: {:?}", other),
    }
}

#[test]
fn agent_clone_failures_say_which_call_failed() {
    let failure = || BackendFailure { status: Some(500), detail: "x".to_string(), rejected: None };
    let source = AgentPending::CloneSource { source: ID_A.to_string(), new_name: "c".to_string() };
    assert_eq!(
        resume_agent_advanced(source, Err(failure())).unwrap_err().message(),
        format!("Failed to get source agent ({}): x", ID_A)
    );
    let create = AgentPending::CloneCreate { source: ID_A.to_string(), new_name: "c".to_string() };
    assert_eq!(
        resume_agent_advanced(create, Err(failure())).unwrap_err().message(),
        format!("Failed to create cloned agent ({}): x", ID_A)
    );
}

#[test]
fn agent_config_reads_the_agent_then_its_tools() {
    let mut req = agent_request(AgentOperation::GetConfig);
    req.agent_id = Some(ID_A.to_string());
    let pending = match handle_agent_advanced(req) {
        Ok(Step::Call { call: AgentCall::Get { .. }, pending }) => pending,
        other => panic!("unexpected step: {:?}", other),
    };
    let pending = match resume_agent_advanced(pending, Ok(Reply::Agent(agent_record(ID_A, "n")))) {
        Ok(Step::Call { call: AgentCall::ListTools { agent }, pending }) => {
            assert_eq!(agent.as_str(), ID_A);
            pending
        }
        other => panic!("unexpected step: {:?}", other),
    };
    match resume_agent_advanced(pending, Ok(Reply::Entities(vec![Json::text_of("t")]))) {
        Ok(Step::Done(response)) => {
            assert_eq!(response.message, "Agent configuration retrieved successfully");
            assert_eq!(
                response.data,
                Some(Json::Object(vec![
                    ("name".to_string(), Json::text_of("n")),
                    ("description".to_string(), Json::text_of("helper")),
                    ("system".to_string(), Json::Null),
                    (
                        "llm_config".to_string(),
                        Json::Object(vec![("model".to_string(), Json::text_of("m"))])
                    ),
                    ("embedding_config".to_string(), Json::Null),
                    ("tools".to_string(), Json::Array(vec![Json::text_of("t")])),
                    ("created_at".to_string(), Json::text_of("2024-01-01T00:00:00Z")),
                ]))
            );
        }
        other => panic!("unexpected step: {:?}", other),
    }
}

#[test]
fn agent_config_fails_where_the_tools_cannot_be_listed() {
    let failure = BackendFailure { status: Some(500), detail: "x".to_string(), rejected: None };
    let pending = AgentPending::ConfigTools { record: agent_record(ID_A, "n") };
    assert_eq!(
        resume_agent_advanced(pending, Err(failure)).unwrap_err(),
        RouterError::BackendInternal {
            operation: "get_config".to_string(),
            detail: format!("Failed to list agent tools ({}): x", ID_A),
        }
    );
    let pending = AgentPending::ConfigTools { record: agent_record(ID_A, "n") };
    let err = resume_agent_advanced(pending, Ok(Reply::Empty)).unwrap_err();
    assert_eq!(err.message(), "Failed to list agent tools: unexpected reply from the backend");
    // An agent without tools is a success with an empty list.
    let pending = AgentPending::ConfigTools { record: agent_record(ID_A, "n") };
    match resume_agent_advanced(pending, Ok(Reply::Entities(vec![]))) {
        Ok(Step::Done(response)) => match response.data {
            Some(Json::Object(members)) => {
                assert_eq!(members[5], ("tools".to_string(), Json::Array(vec![])))
            }
            other => panic!("unexpected payload: {:?}", other),
        },
        other => panic!("unexpected step: {:?}", other),
    }
}

#[test]
fn bulk_delete_selects_by_name_or_listed_id() {
    let filters = BulkDeleteFilters {
        agent_name_filter: Some("test".to_string()),
        agent_tag_filter: None,
        agent_ids: Some(vec![ID_C.to_string()]),
    };
    let records = vec![
        agent_record(ID_A, "my-test-agent"),
        agent_record(ID_B, "production"),
        agent_record(ID_C, "other"),
    ];
    assert_eq!(select_targets(&filters, &records), vec![ID_A.to_string(), ID_C.to_string()]);
    let none = BulkDeleteFilters {
        agent_name_filter: None,
        agent_tag_filter: Some("test".to_string()),
        agent_ids: None,
    };
    assert_eq!(select_targets(&none, &records), Vec::<String>::new());
}

#[test]
fn bulk_delete_counts_successes_and_names_failures() {
    let mut req = agent_request(AgentOperation::BulkDelete);
    req.filters = Some(BulkDeleteFilters {
        agent_name_filter: Some("tmp".to_string()),
        agent_tag_filter: None,
        agent_ids: None,
    });
    let pending = match handle_agent_advanced(req) {
        Ok(Step::Call { call: AgentCall::List { limit }, pending }) => {
            assert_eq!(limit, None);
            pending
        }
        other => panic!("unexpected step: {:?}", other),
    };
    let listed = vec![
        agent_record(ID_A, "tmp-1"),
        agent_record(ID_B, "keep"),
        agent_record(ID_C, "tmp-2"),
    ];
    let pending = match resume_agent_advanced(pending, Ok(Reply::Agents(listed))) {
        Ok(Step::Call { call: AgentCall::Delete { agent }, pending }) => {
            assert_eq!(agent.as_str(), ID_A);
            pending
        }
        other => panic!("unexpected step: {:?}", other),
    };
    let failure = BackendFailure { status: Some(500), detail: "locked".to_string(), rejected: None };
    let pending = match resume_agent_advanced(pending, Err(failure)) {
        Ok(Step::Call { call: AgentCall::Delete { agent }, pending }) => {
            assert_eq!(agent.as_str(), ID_C);
            pending
        }
        other => panic!("unexpected step: {:?}", other),
    };
    match resume_agent_advanced(pending, Ok(Reply::Empty)) {
        Ok(Step::Done(response)) => {
            assert!(!response.success);
            assert_eq!(response.operation, "bulk_delete");
            assert_eq!(response.message, "Deleted 1 agents");
            assert_eq!(
                response.data,
                Some(Json::Object(vec![
                    ("deleted_count".to_string(), Json::unsigned(1)),
                    ("failed_count".to_string(), Json::unsigned(1)),
                    (
                        "errors".to_string(),
                        Json::Array(vec![Json::Object(vec![
                            ("agent_id".to_string(), Json::text_of(ID_A)),
                            ("success".to_string(), Json::Bool(false)),
                            ("error".to_string(), Json::text_of("locked")),
                        ])])
                    ),
                ]))
            );
        }
        other => panic!("unexpected step: {:?}", other),
    }
}

#[test]
fn bulk_delete_of_nothing_succeeds() {
    let pending = AgentPending::BulkList {
        filters: BulkDeleteFilters {
            agent_name_filter: None,
            agent_tag_filter: None,
            agent_ids: Some(vec![]),
        },
    };
    match resume_agent_advanced(pending, Ok(Reply::Agents(vec![agent_record(ID_A, "a")]))) {
        Ok(Step::Done(response)) => {
            assert!(response.success);
            assert_eq!(response.message, "Deleted 0 agents");
        }
        other => panic!("unexpected step: {:?}", other),
    }
    let err = handle_agent_advanced(agent_request(AgentOperation::BulkDelete)).unwrap_err();
    assert_eq!(
        err,
        RouterError::MissingField { operation: "bulk_delete".to_string(), field: Field::Filters }
    );
}
