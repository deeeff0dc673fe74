use letta_server::backend::{
    classify_status, failure_error, unexpected_reply, BackendFailure, StatusClass,
};
use letta_server::envelope::{Pagination, StandardResponse};
use letta_server::error::{ErrorClass, ErrorKind, RouterError};
use letta_server::field::Field;
use letta_server::ident::BackendId;
use letta_server::json::{find_member, insert_member, Json, JsonNumber};
use letta_server::text::{
    add_name, counted, equals_ignoring_case, join2, join3, render_count, reversed, same_text,
};

#[test]
fn render_count_gives_decimal_numerals() {
    assert_eq!(render_count(0), "0");
    assert_eq!(render_count(7), "7");
    assert_eq!(render_count(10), "10");
    assert_eq!(render_count(25), "25");
    assert_eq!(render_count(1009), "1009");
    assert_eq!(render_count(u64::MAX), "18446744073709551615");
}

#[test]
fn counted_surrounds_the_numeral() {
    assert_eq!(counted("Found ", 3, " tools"), "Found 3 tools");
    assert_eq!(counted("", 0, ""), "0");
}

#[test]
fn joins_keep_the_order_of_the_pieces() {
    assert_eq!(join2("a", "bc"), "abc");
    assert_eq!(join3("x", "", "yz"), "xyz");
}

#[test]
fn case_is_ignored_for_ascii_letters_only() {
    assert!(equals_ignoring_case("PyThOn", "python"));
    assert!(equals_ignoring_case("", ""));
    assert!(!equals_ignoring_case("pythons", "python"));
    assert!(!equals_ignoring_case("pyth0n", "python"));
    // '[' is 32 below '{' just as 'A' is 32 below 'a', but it is no letter.
    assert!(!equals_ignoring_case("[", "{"));
}

#[test]
fn texts_are_the_same_where_their_characters_are() {
    assert!(same_text("", ""));
    assert!(same_text("agént", "agént"));
    assert!(!same_text("agent", "agént"));
    assert!(!same_text("list", "lisT"));
    assert!(!same_text("list", "list_tools"));
}

#[test]
fn names_are_joined_with_commas() {
    assert_eq!(add_name(String::new(), &None), "");
    assert_eq!(add_name(String::new(), &Some("a".to_string())), "a");
    assert_eq!(add_name("a".to_string(), &Some("b".to_string())), "a, b");
    assert_eq!(add_name("a".to_string(), &None), "a");
}

#[test]
fn reversed_turns_the_order_around() {
    assert_eq!(reversed(vec![1, 2, 3]), vec![3, 2, 1]);
    assert_eq!(reversed(Vec::<u8>::new()), Vec::<u8>::new());
}

#[test]
fn identifier_parses_bare_and_prefixed_forms() {
    let bare = BackendId::parse("550e8400-e29b-41d4-a716-446655440000").unwrap();
    assert_eq!(bare.as_str(), "550e8400-e29b-41d4-a716-446655440000");
    let prefixed = BackendId::parse("agent-550e8400-e29b-41d4-a716-446655440000").unwrap();
    assert_eq!(prefixed.as_str(), "agent-550e8400-e29b-41d4-a716-446655440000");
    let underscored = BackendId::parse("memory_block-550e8400-e29b-41d4-a716-446655440000");
    assert!(underscored.is_ok());
}

#[test]
fn identifier_text_is_canonical_not_the_input() {
    // The parser accepts capital hex digits and the compact form; the identifier is held in
    // the one canonical form.
    let upper = BackendId::parse("agent-550E8400-E29B-41D4-A716-446655440000").unwrap();
    assert_eq!(upper.as_str(), "agent-550e8400-e29b-41d4-a716-446655440000");
    let compact = BackendId::parse("550e8400e29b41d4a716446655440000").unwrap();
    assert_eq!(compact.as_str(), "550e8400-e29b-41d4-a716-446655440000");
    assert_eq!(compact.duplicate(), compact);
}

#[test]
fn identifier_rejects_malformed_text_and_hands_it_back() {
    for raw in [
        "",
        "not-a-uuid",
        "agent-not-a-uuid",
        "-550e8400-e29b-41d4-a716-446655440000",
        "agent--550e8400-e29b-41d4-a716-446655440000",
    ] {
        assert_eq!(BackendId::parse(raw), Err(raw.to_string()));
    }
}

#[test]
fn identifier_rejects_text_that_splits_inside_a_character() {
    // 39 bytes whose 36th byte from the end lies inside a character.
    let raw = format!("éé-{}", "0".repeat(34));
    assert_eq!(raw.len(), 39);
    assert_eq!(BackendId::parse(&raw), Err(raw.clone()));
    // 54 bytes: a UUID after nine two-byte letters, so that the 37th byte from the end lies
    // inside the last letter.
    let raw = format!("{}550e8400-e29b-41d4-a716-446655440000", "é".repeat(9));
    assert_eq!(raw.len(), 54);
    assert_eq!(BackendId::parse(&raw), Err(raw.clone()));
}

#[test]
fn identifier_reads_letters_beyond_ascii_as_the_parser_does() {
    let plain = "agént-550e8400-e29b-41d4-a716-446655440000";
    assert_eq!(BackendId::parse(plain), Err(plain.to_string()));
    // The parser finds the dash by counting characters where it splits by counting bytes:
    // a prefix of nine two-byte letters puts a dash of the UUID where it looks for one.
    let odd = format!("{}-550e8400-e29b-41d4-a716-446655440000", "é".repeat(9));
    let parsed = BackendId::parse(&odd).unwrap();
    assert_eq!(parsed.as_str(), odd);
}

#[test]
fn json_constructors_build_the_variants() {
    assert_eq!(Json::boolean(true), Json::Bool(true));
    assert_eq!(Json::unsigned(5), Json::Number(JsonNumber::Unsigned(5)));
    assert_eq!(Json::signed(-5), Json::Number(JsonNumber::Signed(-5)));
    assert_eq!(Json::text_of("a"), Json::Str("a".to_string()));
    assert_eq!(Json::text("a".to_string()), Json::Str("a".to_string()));
    assert_eq!(Json::optional_text(None), Json::Null);
    assert_eq!(Json::optional_text(Some("t".to_string())), Json::Str("t".to_string()));
    assert_eq!(Json::optional(None), Json::Null);
    assert_eq!(Json::optional(Some(Json::Bool(false))), Json::Bool(false));
    assert_eq!(Json::array(vec![Json::Null]), Json::Array(vec![Json::Null]));
}

#[test]
fn json_insert_replaces_in_place_or_appends() {
    let mut members = vec![
        ("a".to_string(), Json::unsigned(1)),
        ("b".to_string(), Json::unsigned(2)),
    ];
    insert_member(&mut members, "a".to_string(), Json::unsigned(9));
    insert_member(&mut members, "c".to_string(), Json::unsigned(3));
    assert_eq!(
        members,
        vec![
            ("a".to_string(), Json::unsigned(9)),
            ("b".to_string(), Json::unsigned(2)),
            ("c".to_string(), Json::unsigned(3)),
        ]
    );
}

#[test]
fn json_find_uses_the_first_member_of_a_name() {
    let members = vec![
        ("k".to_string(), Json::unsigned(1)),
        ("x".to_string(), Json::unsigned(2)),
        ("k".to_string(), Json::unsigned(3)),
    ];
    assert_eq!(find_member(&members, "k"), Some(0));
    assert_eq!(find_member(&members, "x"), Some(1));
    assert_eq!(find_member(&members, "z"), None);
}

#[test]
fn json_duplicate_is_a_deep_copy() {
    let value = Json::Object(vec![
        ("list".to_string(), Json::Array(vec![Json::Null, Json::Bool(true), Json::signed(-1)])),
        (
            "inner".to_string(),
            Json::Object(vec![(
                "n".to_string(),
                Json::Number(JsonNumber::Literal("1.5".to_string())),
            )]),
        ),
        ("s".to_string(), Json::text_of("x")),
    ]);
    assert_eq!(value.duplicate(), value);
    assert_eq!(JsonNumber::Unsigned(3).duplicate(), JsonNumber::Unsigned(3));
    assert_eq!(
        Json::object(vec![("a".to_string(), Json::Null)]),
        Json::Object(vec![("a".to_string(), Json::Null)])
    );
}

#[test]
fn statuses_fall_into_their_classes() {
    assert_eq!(classify_status(200), StatusClass::Success);
    assert_eq!(classify_status(201), StatusClass::Success);
    assert_eq!(classify_status(204), StatusClass::NoContent);
    assert_eq!(classify_status(404), StatusClass::NotFound);
    assert_eq!(classify_status(400), StatusClass::InvalidRequest);
    assert_eq!(classify_status(422), StatusClass::InvalidRequest);
    assert_eq!(classify_status(401), StatusClass::Unauthorized);
    assert_eq!(classify_status(403), StatusClass::Unauthorized);
    assert_eq!(classify_status(500), StatusClass::Other);
    assert_eq!(classify_status(302), StatusClass::Other);
}

#[test]
fn failures_keep_their_kind() {
    let not_found = BackendFailure { status: Some(404), detail: "gone".to_string(), rejected: None };
    assert_eq!(
        failure_error("get", "Failed to get agent", "", &not_found),
        RouterError::NotFound {
            operation: "get".to_string(),
            detail: "Failed to get agent: gone".to_string(),
        }
    );
    assert_eq!(
        failure_error("get", "Failed to get agent", "agent-1", &not_found),
        RouterError::NotFound {
            operation: "get".to_string(),
            detail: "Failed to get agent (agent-1): gone".to_string(),
        }
    );
    let denied = BackendFailure { status: Some(401), detail: "no".to_string(), rejected: None };
    let error = failure_error("get", "Failed to get agent", "", &denied);
    assert_eq!(error.kind(), ErrorKind::Unauthorized);
    assert!(!error.retryable());
    assert_eq!(error.message(), "Authentication failed: Failed to get agent: no");
    let rejected = BackendFailure { status: Some(422), detail: "bad".to_string(), rejected: None };
    assert_eq!(failure_error("get", "c", "", &rejected).kind(), ErrorKind::BackendInternal);
    let refused = BackendFailure {
        status: None,
        detail: "missing field `model`".to_string(),
        rejected: Some(Field::LlmConfig),
    };
    assert_eq!(
        failure_error("create", "Failed to create agent", "a-1", &refused),
        RouterError::InvalidPayload {
            operation: "create".to_string(),
            field: Field::LlmConfig,
            reason: "missing field `model`".to_string(),
        }
    );
    let timeout = BackendFailure { status: None, detail: "timed out".to_string(), rejected: None };
    let error = failure_error("list", "Failed to list agents", "", &timeout);
    assert_eq!(error.kind(), ErrorKind::BackendInternal);
    assert!(error.retryable());
    assert_eq!(
        unexpected_reply("get", "Failed to get agent").message(),
        "Failed to get agent: unexpected reply from the backend"
    );
}

#[test]
fn error_messages_name_operation_and_field() {
    let missing = RouterError::MissingField { operation: "get".to_string(), field: Field::AgentId };
    assert_eq!(missing.message(), "agent_id is required for get operation");
    assert_eq!(missing.kind(), ErrorKind::MissingField);
    let invalid = RouterError::InvalidIdentifier {
        operation: "attach".to_string(),
        field: Field::ToolId,
        raw: "zzz".to_string(),
    };
    assert_eq!(invalid.message(), "Invalid tool_id for attach operation: zzz");
    let payload = RouterError::InvalidPayload {
        operation: "upload".to_string(),
        field: Field::FileData,
        reason: "bad".to_string(),
    };
    assert_eq!(payload.message(), "Invalid file_data for upload operation: bad");
    assert_eq!(payload.kind(), ErrorKind::InvalidPayload);
    let unknown = RouterError::UnknownOperation { raw: "fly".to_string() };
    assert_eq!(unknown.message(), "Unknown operation: fly");
    assert_eq!(unknown.kind(), ErrorKind::UnknownOperation);
    let not_found =
        RouterError::NotFound { operation: "get".to_string(), detail: "d".to_string() };
    assert_eq!(not_found.message(), "Not found: d");
    let unavailable = RouterError::NotImplemented {
        operation: "stream".to_string(),
        capability: "no streaming".to_string(),
    };
    assert_eq!(unavailable.message(), "no streaming");
    assert_eq!(unavailable.class(), ErrorClass::NotImplemented);
    assert_eq!(missing.class(), ErrorClass::ClientInput);
    assert_eq!(invalid.class(), ErrorClass::ClientInput);
    assert_eq!(payload.class(), ErrorClass::ClientInput);
    assert_eq!(unknown.class(), ErrorClass::ClientInput);
    assert_eq!(not_found.class(), ErrorClass::NotFound);
    assert!(!unavailable.retryable());
}

#[test]
fn every_field_has_its_wire_name() {
    assert_eq!(Field::AgentId.name(), "agent_id");
    assert_eq!(Field::AgentIds.name(), "agent_ids");
    assert_eq!(Field::BlockLabel.name(), "block_label");
    assert_eq!(Field::FileData.name(), "file_data");
    assert_eq!(Field::ServerConfig.name(), "server_config");
    assert_eq!(Field::ToolIds.name(), "tool_ids");
    assert_eq!(Field::Value.name(), "value");
}

#[test]
fn default_paging_is_the_first_fifty() {
    assert_eq!(Pagination::default(), Pagination { limit: Some(50), offset: Some(0) });
}

#[test]
fn standard_envelopes_have_the_three_forms() {
    let with = StandardResponse::success("get", Json::Null, "done");
    assert_eq!(
        with,
        StandardResponse {
            success: true,
            operation: "get".to_string(),
            data: Some(Json::Null),
            message: "done".to_string(),
        }
    );
    let without = StandardResponse::success_no_data("delete", "gone");
    assert!(without.success);
    assert_eq!(without.data, None);
    let failed = StandardResponse::error("connect", "not yet");
    assert!(!failed.success);
    assert_eq!(failed.operation, "connect");
    assert_eq!(failed.message, "not yet");
    assert_eq!(failed.data, None);
}
