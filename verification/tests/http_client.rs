use letta_server::client::{
    body_wanted, expect_list, read_response, BodyRead, BodyWanted, HttpRequest, LettaClient,
    LettaError, Method,
};
use letta_server::error::ErrorClass;
use letta_server::json::Json;

fn http_client() -> LettaClient {
    LettaClient::new("http://localhost:8283/v1".to_string(), "SECRET-REDACTED".to_string())
}

fn http_object(members: Vec<(&str, Json)>) -> Json {
    Json::Object(members.into_iter().map(|(k, v)| (k.to_string(), v)).collect())
}

#[test]
fn client_lists_agents_by_page() {
    assert_eq!(
        http_client().list_agents(10, 20),
        HttpRequest {
            method: Method::Get,
            url: "http://localhost:8283/v1/agents?limit=10&offset=20".to_string(),
            authorization: "Bearer SECRET-REDACTED".to_string(),
            body: None,
        }
    );
}

#[test]
fn client_create_agent_sends_only_what_is_given() {
    let request = http_client().create_agent("helper".to_string(), None, None, None, None);
    assert_eq!(request.method, Method::Post);
    assert_eq!(request.url, "http://localhost:8283/v1/agents");
    assert_eq!(request.body, Some(http_object(vec![("name", Json::text_of("helper"))])));
    let request = http_client().create_agent(
        "helper".to_string(),
        Some("be kind".to_string()),
        Some(http_object(vec![("model", Json::text_of("m"))])),
        None,
        Some(vec!["t1".to_string(), "t2".to_string()]),
    );
    assert_eq!(
        request.body,
        Some(http_object(vec![
            ("name", Json::text_of("helper")),
            ("system", Json::text_of("be kind")),
            ("llm_config", http_object(vec![("model", Json::text_of("m"))])),
            ("tool_ids", Json::Array(vec![Json::text_of("t1"), Json::text_of("t2")])),
        ]))
    );
}

#[test]
fn client_addresses_one_agent() {
    let client = http_client();
    let get = client.get_agent("a1");
    assert_eq!(get.method, Method::Get);
    assert_eq!(get.url, "http://localhost:8283/v1/agents/a1");
    assert_eq!(get.body, None);
    let delete = client.delete_agent("a1");
    assert_eq!(delete.method, Method::Delete);
    assert_eq!(delete.url, "http://localhost:8283/v1/agents/a1");
    let update = client.update_agent("a1".to_string(), http_object(vec![("name", Json::text_of("n"))]));
    assert_eq!(update.method, Method::Patch);
    assert_eq!(update.url, "http://localhost:8283/v1/agents/a1");
    assert_eq!(update.body, Some(http_object(vec![("name", Json::text_of("n"))])));
}

#[test]
fn client_sends_messages() {
    let request = http_client().send_message("a1".to_string(), vec![Json::text_of("hi")], None);
    assert_eq!(request.method, Method::Post);
    assert_eq!(request.url, "http://localhost:8283/v1/agents/a1/messages");
    assert_eq!(
        request.body,
        Some(http_object(vec![("messages", Json::Array(vec![Json::text_of("hi")]))]))
    );
    let request = http_client().send_message("a1".to_string(), vec![], Some(false));
    assert_eq!(
        request.body,
        Some(http_object(vec![("messages", Json::Array(vec![])), ("stream", Json::Bool(false))]))
    );
}

#[test]
fn client_memory_block_requests() {
    let client = http_client();
    let list = client.list_memory_blocks("a1");
    assert_eq!(list.url, "http://localhost:8283/v1/agents/a1/memory/blocks");
    assert_eq!(list.method, Method::Get);
    let create = client.create_memory_block("human".to_string(), "tea".to_string());
    assert_eq!(create.method, Method::Post);
    assert_eq!(create.url, "http://localhost:8283/v1/blocks");
    assert_eq!(
        create.body,
        Some(http_object(vec![("label", Json::text_of("human")), ("value", Json::text_of("tea"))]))
    );
    let update = client.update_memory_block("b1", "coffee".to_string());
    assert_eq!(update.method, Method::Patch);
    assert_eq!(update.url, "http://localhost:8283/v1/blocks/b1");
    assert_eq!(update.body, Some(http_object(vec![("value", Json::text_of("coffee"))])));
}

#[test]
fn client_reads_the_body_that_the_status_calls_for() {
    assert_eq!(body_wanted(200), BodyWanted::Json);
    assert_eq!(body_wanted(201), BodyWanted::Json);
    assert_eq!(body_wanted(204), BodyWanted::Nothing);
    assert_eq!(body_wanted(404), BodyWanted::Nothing);
    assert_eq!(body_wanted(401), BodyWanted::Nothing);
    assert_eq!(body_wanted(400), BodyWanted::Text);
    assert_eq!(body_wanted(500), BodyWanted::Text);
}

#[test]
fn client_reads_responses_by_status() {
    assert_eq!(read_response(200, "/agents", BodyRead::Json(Json::Bool(true))), Ok(Json::Bool(true)));
    assert_eq!(
        read_response(201, "/agents", BodyRead::Failed("eof".to_string())),
        Err(LettaError::Request("eof".to_string()))
    );
    assert_eq!(read_response(204, "/agents/a", BodyRead::Nothing), Ok(Json::Null));
    assert_eq!(
        read_response(404, "/agents/a", BodyRead::Nothing),
        Err(LettaError::NotFound("/agents/a".to_string()))
    );
    assert_eq!(
        read_response(422, "/agents", BodyRead::Text("name missing".to_string())),
        Err(LettaError::InvalidRequest("name missing".to_string()))
    );
    assert_eq!(read_response(403, "/agents", BodyRead::Nothing), Err(LettaError::Unauthorized));
    assert_eq!(
        read_response(503, "/agents", BodyRead::Text("down".to_string())),
        Err(LettaError::Api { status: 503, message: "down".to_string() })
    );
    assert_eq!(
        read_response(503, "/agents", BodyRead::Failed("eof".to_string())),
        Err(LettaError::Api { status: 503, message: "Unknown error".to_string() })
    );
}

#[test]
fn client_expects_lists_where_lists_are_returned() {
    assert_eq!(expect_list(Json::Array(vec![Json::Null])), Ok(vec![Json::Null]));
    assert_eq!(
        expect_list(Json::Null),
        Err(LettaError::Serialization("expected a list".to_string()))
    );
}

#[test]
fn client_errors_have_their_sentences() {
    let api = LettaError::Api { status: 500, message: "boom".to_string() };
    assert_eq!(api.message(), "API error (500): boom");
    assert_eq!(api.protocol_message(), "API error (500): boom");
    assert_eq!(api.class(), ErrorClass::BackendInternal);
    let request = LettaError::Request("refused".to_string());
    assert_eq!(request.message(), "HTTP request failed: refused");
    assert_eq!(request.protocol_message(), "Request failed: refused");
    assert_eq!(request.class(), ErrorClass::BackendInternal);
    let not_found = LettaError::NotFound("/agents/a".to_string());
    assert_eq!(not_found.message(), "Resource not found: /agents/a");
    assert_eq!(not_found.protocol_message(), "Not found: /agents/a");
    assert_eq!(not_found.class(), ErrorClass::NotFound);
    let invalid = LettaError::InvalidRequest("bad".to_string());
    assert_eq!(invalid.message(), "Invalid request: bad");
    assert_eq!(invalid.protocol_message(), "bad");
    assert_eq!(invalid.class(), ErrorClass::ClientInput);
    assert_eq!(LettaError::Unauthorized.class(), ErrorClass::Unauthorized);
    let serialization = LettaError::Serialization("x".to_string());
    assert_eq!(serialization.message(), "Serialization error: x");
    assert_eq!(serialization.class(), ErrorClass::BackendInternal);
    assert_eq!(LettaError::Unauthorized.message(), "Authentication failed");
    assert_eq!(LettaError::Unauthorized.protocol_message(), "Authentication failed");
}
