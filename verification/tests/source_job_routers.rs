use letta_server::backend::{AgentRecord, BackendFailure, Reply, Step};
use letta_server::error::{ErrorKind, RouterError};
use letta_server::field::Field;
use letta_server::job::{handle_job_monitor, resume_job_monitor, JobCall, JobMonitorRequest, JobOperation, JobPending};
use letta_server::json::Json;
use letta_server::source::{
    handle_source_manager, resume_source_manager, FileListing, SourceCall, SourceManagerRequest, SourceOperation,
    SourcePending,
};

const S_SOURCE: &str = "source-123e4567-e89b-12d3-a456-426614174000";
const S_AGENT_A: &str = "agent-550e8400-e29b-41d4-a716-446655440000";
const S_AGENT_B: &str = "agent-550e8400-e29b-41d4-a716-446655440001";
const S_FILE: &str = "file-123e4567-e89b-12d3-a456-426614174111";
const S_JOB: &str = "job-123e4567-e89b-12d3-a456-426614174222";

fn source_request(operation: SourceOperation) -> SourceManagerRequest {
    SourceManagerRequest {
        operation,
        source_id: None,
        agent_id: None,
        name: None,
        description: None,
        file_id: None,
        file_name: None,
        file_data: None,
        content_type: None,
        limit: None,
        include_content: None,
        request_heartbeat: None,
    }
}

fn source_single(operation: SourceOperation) -> SourcePending {
    SourcePending::Single { operation, file_name: None, subject: String::new() }
}

fn source_agent(id: &str) -> AgentRecord {
    AgentRecord {
        id: id.to_string(),
        name: "n".to_string(),
        description: None,
        system: None,
        llm_config: None,
        embedding_config: None,
        created_at: Json::Null,
        entity: Json::text_of(id),
    }
}

#[test]
fn source_operation_names_read_back() {
    let all = [
        (SourceOperation::List, "list"),
        (SourceOperation::Get, "get"),
        (SourceOperation::Create, "create"),
        (SourceOperation::Update, "update"),
        (SourceOperation::Delete, "delete"),
        (SourceOperation::Attach, "attach"),
        (SourceOperation::Detach, "detach"),
        (SourceOperation::ListAttached, "list_attached"),
        (SourceOperation::Upload, "upload"),
        (SourceOperation::DeleteFiles, "delete_files"),
        (SourceOperation::ListFiles, "list_files"),
        (SourceOperation::Count, "count"),
        (SourceOperation::ListAgentsUsing, "list_agents_using"),
        (SourceOperation::ListFolders, "list_folders"),
        (SourceOperation::GetFolderContents, "get_folder_contents"),
    ];
    for (operation, name) in all {
        assert_eq!(operation.name(), name);
        assert_eq!(SourceOperation::parse(name), Ok(operation));
    }
    assert!(SourceOperation::parse("").is_err());
}

#[test]
fn source_upload_decodes_the_data() {
    let mut req = source_request(SourceOperation::Upload);
    req.source_id = Some(S_SOURCE.to_string());
    req.file_name = Some("notes.txt".to_string());
    req.file_data = Some("aGVsbG8gd29ybGQ=".to_string());
    req.content_type = Some("text/plain".to_string());
    let pending = match handle_source_manager(req) {
        Ok(Step::Call { call: SourceCall::Upload { source, file_name, bytes, content_type }, pending }) => {
            assert_eq!(source.as_str(), S_SOURCE);
            assert_eq!(file_name, "notes.txt");
            assert_eq!(bytes, b"hello world".to_vec());
            assert_eq!(content_type, Some("text/plain".to_string()));
            pending
        }
        other => panic!("unexpected step: {:?}", other),
    };
    match resume_source_manager(pending, Ok(Reply::Entity(Json::text_of("job")))) {
        Ok(Step::Done(response)) => {
            assert_eq!(response.operation, "upload");
            assert_eq!(response.message, "File 'notes.txt' uploaded successfully");
            assert_eq!(response.data, Some(Json::text_of("job")));
            assert_eq!(response.count, None);
        }
        other => panic!("unexpected step: {:?}", other),
    }
}

#[test]
fn source_upload_rejects_data_that_is_not_base64() {
    let mut req = source_request(SourceOperation::Upload);
    req.source_id = Some(S_SOURCE.to_string());
    req.file_name = Some("notes.txt".to_string());
    req.file_data = Some("not base64!".to_string());
    match handle_source_manager(req).unwrap_err() {
        RouterError::InvalidPayload { operation, field, reason } => {
            assert_eq!(operation, "upload");
            assert_eq!(field, Field::FileData);
            assert!(!reason.is_empty());
        }
        other => panic!("unexpected error: {:?}", other),
    }
    // A malformed source id is reported before the data is looked at.
    let mut req = source_request(SourceOperation::Upload);
    req.source_id = Some("src".to_string());
    req.file_name = Some("notes.txt".to_string());
    req.file_data = Some("not base64!".to_string());
    assert_eq!(handle_source_manager(req).unwrap_err().kind(), ErrorKind::InvalidIdentifier);
    let mut req = source_request(SourceOperation::Upload);
    req.source_id = Some(S_SOURCE.to_string());
    req.file_data = Some("aGk=".to_string());
    assert_eq!(
        handle_source_manager(req).unwrap_err(),
        RouterError::MissingField { operation: "upload".to_string(), field: Field::FileName }
    );
}

#[test]
fn source_list_files_passes_paging_only_when_given() {
    let mut req = source_request(SourceOperation::ListFiles);
    req.source_id = Some(S_SOURCE.to_string());
    match handle_source_manager(req) {
        Ok(Step::Call { call: SourceCall::ListFiles { listing, .. }, .. }) => {
            assert_eq!(listing, None)
        }
        other => panic!("unexpected step: {:?}", other),
    }
    let mut req = source_request(SourceOperation::ListFiles);
    req.source_id = Some(S_SOURCE.to_string());
    req.include_content = Some(true);
    match handle_source_manager(req) {
        Ok(Step::Call { call: SourceCall::ListFiles { listing, .. }, .. }) => assert_eq!(
            listing,
            Some(FileListing { limit: None, include_content: Some(true) })
        ),
        other => panic!("unexpected step: {:?}", other),
    }
}

#[test]
fn source_create_update_delete() {
    let mut req = source_request(SourceOperation::Create);
    req.name = Some("docs".to_string());
    req.description = Some("papers".to_string());
    match handle_source_manager(req) {
        Ok(Step::Call { call: SourceCall::Create { name, description }, .. }) => {
            assert_eq!(name, "docs");
            assert_eq!(description, Some("papers".to_string()));
        }
        other => panic!("unexpected step: {:?}", other),
    }
    let mut req = source_request(SourceOperation::Update);
    req.source_id = Some(S_SOURCE.to_string());
    assert_eq!(
        handle_source_manager(req).unwrap_err(),
        RouterError::MissingField { operation: "update".to_string(), field: Field::Name }
    );
    let mut req = source_request(SourceOperation::Update);
    req.source_id = Some(S_SOURCE.to_string());
    req.description = Some("new".to_string());
    match handle_source_manager(req) {
        Ok(Step::Call { call: SourceCall::Update { source, name, description }, .. }) => {
            assert_eq!(source.as_str(), S_SOURCE);
            assert_eq!(name, None);
            assert_eq!(description, Some("new".to_string()));
        }
        other => panic!("unexpected step: {:?}", other),
    }
    match resume_source_manager(source_single(SourceOperation::Delete), Ok(Reply::Empty)) {
        Ok(Step::Done(response)) => {
            assert_eq!(response.message, "Source deleted successfully");
            assert_eq!(response.data, None);
        }
        other => panic!("unexpected step: {:?}", other),
    }
    let failure = BackendFailure { status: Some(404), detail: "none".to_string(), rejected: None };
    let err = resume_source_manager(source_single(SourceOperation::Delete), Err(failure)).unwrap_err();
    assert_eq!(err.kind(), ErrorKind::NotFound);
}

#[test]
fn source_attach_and_delete_file_parse_two_ids() {
    let mut req = source_request(SourceOperation::Attach);
    req.agent_id = Some(S_AGENT_A.to_string());
    req.source_id = Some(S_SOURCE.to_string());
    match handle_source_manager(req) {
        Ok(Step::Call { call: SourceCall::Attach { agent, source }, .. }) => {
            assert_eq!(agent.as_str(), S_AGENT_A);
            assert_eq!(source.as_str(), S_SOURCE);
        }
        other => panic!("unexpected step: {:?}", other),
    }
    let mut req = source_request(SourceOperation::DeleteFiles);
    req.source_id = Some(S_SOURCE.to_string());
    req.file_id = Some(S_FILE.to_string());
    let pending = match handle_source_manager(req) {
        Ok(Step::Call { call: SourceCall::DeleteFile { source, file }, pending }) => {
            assert_eq!(source.as_str(), S_SOURCE);
            assert_eq!(file.as_str(), S_FILE);
            pending
        }
        other => panic!("unexpected step: {:?}", other),
    };
    match resume_source_manager(pending, Ok(Reply::Empty)) {
        Ok(Step::Done(response)) => {
            assert_eq!(response.operation, "delete_files");
            assert_eq!(response.message, "File deleted successfully");
        }
        other => panic!("unexpected step: {:?}", other),
    }
}

#[test]
fn source_count_shows_the_scalar() {
    match resume_source_manager(source_single(SourceOperation::Count), Ok(Reply::Count(12))) {
        Ok(Step::Done(response)) => {
            assert_eq!(response.message, "Total sources: 12");
            assert_eq!(response.count, Some(12));
            assert_eq!(
                response.data,
                Some(Json::Object(vec![("count".to_string(), Json::unsigned(12))]))
            );
        }
        other => panic!("unexpected step: {:?}", other),
    }
    let first = resume_source_manager(source_single(SourceOperation::Count), Ok(Reply::Count(3)));
    let second = resume_source_manager(source_single(SourceOperation::Count), Ok(Reply::Count(3)));
    assert_eq!(first, second);
}

#[test]
fn source_folder_operations_point_to_the_other_router() {
    for operation in [SourceOperation::ListFolders, SourceOperation::GetFolderContents] {
        let err = handle_source_manager(source_request(operation)).unwrap_err();
        assert_eq!(err.kind(), ErrorKind::NotImplemented);
        assert_eq!(err.message(), "Folder operations belong in letta_file_folder_ops tool");
    }
}

#[test]
fn source_usage_search_checks_each_agent_in_turn() {
    let mut req = source_request(SourceOperation::ListAgentsUsing);
    req.source_id = Some(S_SOURCE.to_string());
    let pending = match handle_source_manager(req) {
        Ok(Step::Call { call: SourceCall::ListAgents, pending }) => pending,
        other => panic!("unexpected step: {:?}", other),
    };
    let agents = vec![source_agent(S_AGENT_A), source_agent(S_AGENT_B)];
    let pending = match resume_source_manager(pending, Ok(Reply::Agents(agents))) {
        Ok(Step::Call { call: SourceCall::ListAttached { agent }, pending }) => {
            assert_eq!(agent.as_str(), S_AGENT_A);
            pending
        }
        other => panic!("unexpected step: {:?}", other),
    };
    let entity = |id: &str| {
        Json::Object(vec![
            ("name".to_string(), Json::text_of("docs")),
            ("id".to_string(), Json::text_of(id)),
        ])
    };
    let other_source = "source-123e4567-e89b-12d3-a456-426614174999";
    let attached = vec![entity(other_source), Json::Object(vec![]), Json::Null];
    let pending = match resume_source_manager(pending, Ok(Reply::Entities(attached))) {
        Ok(Step::Call { call: SourceCall::ListAttached { agent }, pending }) => {
            assert_eq!(agent.as_str(), S_AGENT_B);
            pending
        }
        other => panic!("unexpected step: {:?}", other),
    };
    let attached = vec![entity(other_source), entity(S_SOURCE)];
    match resume_source_manager(pending, Ok(Reply::Entities(attached))) {
        Ok(Step::Done(response)) => {
            assert!(response.success);
            assert_eq!(response.operation, "list_agents_using");
            assert_eq!(response.message, "Found 1 agents using this source");
            assert_eq!(response.count, Some(1));
            assert_eq!(response.data, Some(Json::Array(vec![Json::text_of(S_AGENT_B)])));
        }
        other => panic!("unexpected step: {:?}", other),
    }
}

#[test]
fn source_usage_search_stops_at_a_failed_check() {
    let mut req = source_request(SourceOperation::ListAgentsUsing);
    req.source_id = Some(S_SOURCE.to_string());
    let pending = match handle_source_manager(req) {
        Ok(Step::Call { pending, .. }) => pending,
        other => panic!("unexpected step: {:?}", other),
    };
    let pending = match resume_source_manager(pending, Ok(Reply::Agents(vec![source_agent(S_AGENT_A)]))) {
        Ok(Step::Call { pending, .. }) => pending,
        other => panic!("unexpected step: {:?}", other),
    };
    let failure = BackendFailure { status: Some(500), detail: "down".to_string(), rejected: None };
    let err = resume_source_manager(pending, Err(failure)).unwrap_err();
    assert_eq!(
        err,
        RouterError::BackendInternal {
            operation: "list_agents_using".to_string(),
            detail: format!("Failed to check agent sources ({}): down", S_SOURCE),
        }
    );
    // With no agents at all the search ends at once.
    let mut req = source_request(SourceOperation::ListAgentsUsing);
    req.source_id = Some(S_SOURCE.to_string());
    let pending = match handle_source_manager(req) {
        Ok(Step::Call { pending, .. }) => pending,
        other => panic!("unexpected step: {:?}", other),
    };
    match resume_source_manager(pending, Ok(Reply::Agents(vec![]))) {
        Ok(Step::Done(response)) => {
            assert_eq!(response.message, "Found 0 agents using this source");
            assert_eq!(response.data, Some(Json::Array(vec![])));
        }
        other => panic!("unexpected step: {:?}", other),
    }
}

#[test]
fn job_operations_parse_from_their_names() {
    assert_eq!(JobOperation::parse("list"), Ok(JobOperation::List));
    assert_eq!(JobOperation::parse("get"), Ok(JobOperation::Get));
    assert_eq!(JobOperation::parse("cancel"), Ok(JobOperation::Cancel));
    assert_eq!(JobOperation::parse("list_active"), Ok(JobOperation::ListActive));
    assert_eq!(JobOperation::ListActive.name(), "list_active");
    let err = JobOperation::parse("pause").unwrap_err();
    assert_eq!(err, RouterError::UnknownOperation { raw: "pause".to_string() });
    assert_eq!(err.message(), "Unknown operation: pause");
}

#[test]
fn job_cancel_deletes_the_job() {
    let req = JobMonitorRequest {
        operation: JobOperation::Cancel,
        job_id: Some(S_JOB.to_string()),
        request_heartbeat: None,
    };
    let pending = match handle_job_monitor(req) {
        Ok(Step::Call { call: JobCall::Delete { job }, pending }) => {
            assert_eq!(job.as_str(), S_JOB);
            pending
        }
        other => panic!("unexpected step: {:?}", other),
    };
    assert_eq!(pending.subject, S_JOB);
    let failure = BackendFailure { status: Some(404), detail: "no job".to_string(), rejected: None };
    assert_eq!(
        resume_job_monitor(pending.clone(), Err(failure)).unwrap_err(),
        RouterError::NotFound {
            operation: "cancel".to_string(),
            detail: format!("Failed to cancel job ({}): no job", S_JOB),
        }
    );
    match resume_job_monitor(pending, Ok(Reply::Text("cancelled".to_string()))) {
        Ok(Step::Done(response)) => {
            assert!(response.success);
            assert_eq!(response.operation, "cancel");
            assert_eq!(response.message, "Job cancelled successfully");
            assert_eq!(response.data, None);
            assert_eq!(response.count, None);
        }
        other => panic!("unexpected step: {:?}", other),
    }
}

#[test]
fn job_get_requires_a_well_formed_id() {
    let req = JobMonitorRequest { operation: JobOperation::Get, job_id: None, request_heartbeat: None };
    assert_eq!(
        handle_job_monitor(req).unwrap_err(),
        RouterError::MissingField { operation: "get".to_string(), field: Field::JobId }
    );
    let req = JobMonitorRequest {
        operation: JobOperation::Get,
        job_id: Some("42".to_string()),
        request_heartbeat: None,
    };
    assert_eq!(
        handle_job_monitor(req).unwrap_err(),
        RouterError::InvalidIdentifier {
            operation: "get".to_string(),
            field: Field::JobId,
            raw: "42".to_string(),
        }
    );
}

#[test]
fn job_lists_count_their_jobs() {
    let req = JobMonitorRequest {
        operation: JobOperation::ListActive,
        job_id: None,
        request_heartbeat: None,
    };
    let pending = match handle_job_monitor(req) {
        Ok(Step::Call { call: JobCall::ListActive, pending }) => pending,
        other => panic!("unexpected step: {:?}", other),
    };
    match resume_job_monitor(pending, Ok(Reply::Entities(vec![Json::Null, Json::Null]))) {
        Ok(Step::Done(response)) => {
            assert_eq!(response.message, "Found 2 active jobs");
            assert_eq!(response.count, Some(2));
        }
        other => panic!("unexpected step: {:?}", other),
    }
    let list = JobPending { operation: JobOperation::List, subject: String::new() };
    match resume_job_monitor(list.clone(), Ok(Reply::Entities(vec![]))) {
        Ok(Step::Done(response)) => assert_eq!(response.message, "Found 0 jobs"),
        other => panic!("unexpected step: {:?}", other),
    }
    let err = resume_job_monitor(list, Ok(Reply::Count(1))).unwrap_err();
    assert_eq!(err.message(), "Failed to list jobs: unexpected reply from the backend");
}
