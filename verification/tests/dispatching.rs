use cerebro_mcp::args::ArgValue;
use cerebro_mcp::cards;
use cerebro_mcp::dispatch::{failure_result, finish_invocation, plan_invocation, FetchOutcome, ToolResult};
use cerebro_mcp::errors::CerebroError;
use cerebro_mcp::origin::Origin;
use cerebro_mcp::packs;
use cerebro_mcp::schema::{cards_schema, packs_schema, server_meta, sets_schema, tool_definitions, FieldType};

fn text_arg(key: &str, value: &str) -> (String, ArgValue) {
    (key.to_string(), ArgValue::Text(value.to_string()))
}

#[test]
fn get_cards_by_name_issues_one_encoded_get() {
    let args = vec![text_arg("name", "Iron Man")];
    let enc = plan_invocation("get_cards", &args).unwrap();
    assert_eq!(enc.path, "cards");
    assert_eq!(enc.query.as_deref(), Some("name=Iron%20Man"));
    assert_eq!(enc.target(), "cards?name=Iron%20Man");
    let body = "[{\"name\":\"Iron Man\"}]".to_string();
    match finish_invocation(FetchOutcome::Body(body.clone())) {
        ToolResult::Text(t) => assert_eq!(t, body),
        ToolResult::Failure(m) => panic!("unexpected failure: {m}"),
    }
}

#[test]
fn unknown_tool_yields_error_and_no_request() {
    let args: Vec<(String, ArgValue)> = vec![];
    let res = plan_invocation("get_heroes", &args);
    match res {
        Err(CerebroError::UnknownToolError(d)) => {
            assert_eq!(d, "no tool is registered under the name 'get_heroes'");
        }
        _ => panic!("expected an unknown-tool error"),
    }
}

#[test]
fn unknown_field_yields_schema_error_and_no_request() {
    let args = vec![text_arg("frobnicate", "x")];
    let res = plan_invocation("get_cards", &args);
    assert!(matches!(res, Err(CerebroError::SchemaValidationError(_))));
}

#[test]
fn wrong_type_yields_schema_error_and_no_request() {
    let args = vec![("name".to_string(), ArgValue::Flag(true))];
    assert!(matches!(
        plan_invocation("get_cards", &args),
        Err(CerebroError::SchemaValidationError(_))
    ));
    let args = vec![text_arg("incomplete", "yes")];
    assert!(matches!(
        plan_invocation("get_cards", &args),
        Err(CerebroError::SchemaValidationError(_))
    ));
    let args = vec![text_arg("origin", "Official")];
    assert!(matches!(
        plan_invocation("get_cards", &args),
        Err(CerebroError::SchemaValidationError(_))
    ));
    let args = vec![("id".to_string(), ArgValue::Other)];
    assert!(matches!(
        plan_invocation("get_packs", &args),
        Err(CerebroError::SchemaValidationError(_))
    ));
}

#[test]
fn transport_failure_yields_one_error_and_session_stays_usable() {
    match finish_invocation(FetchOutcome::TransportFailure("connection refused".to_string())) {
        ToolResult::Failure(m) => assert_eq!(m, "HTTP request failed: connection refused"),
        ToolResult::Text(_) => panic!("expected a failure result"),
    }
    let args = vec![text_arg("name", "Iron Man")];
    let enc = plan_invocation("get_cards", &args).unwrap();
    assert_eq!(enc.target(), "cards?name=Iron%20Man");
    match finish_invocation(FetchOutcome::Body("ok".to_string())) {
        ToolResult::Text(t) => assert_eq!(t, "ok"),
        ToolResult::Failure(m) => panic!("unexpected failure: {m}"),
    }
}

#[test]
fn plan_errors_render_as_failure_results() {
    let args = vec![text_arg("frobnicate", "x")];
    let err = plan_invocation("get_cards", &args).unwrap_err();
    match failure_result(&err) {
        ToolResult::Failure(m) => assert_eq!(
            m,
            "Invalid tool arguments: the arguments do not match the tool's parameter schema"
        ),
        ToolResult::Text(_) => panic!("expected a failure result"),
    }
    let err = plan_invocation("nonsense", &vec![]).unwrap_err();
    match failure_result(&err) {
        ToolResult::Failure(m) => {
            assert_eq!(m, "Unknown tool: no tool is registered under the name 'nonsense'")
        }
        ToolResult::Text(_) => panic!("expected a failure result"),
    }
}

#[test]
fn body_failure_yields_one_error_envelope() {
    match finish_invocation(FetchOutcome::BodyFailure("stream cut".to_string())) {
        ToolResult::Failure(m) => assert_eq!(m, "Failed to read response body: stream cut"),
        ToolResult::Text(_) => panic!("expected a failure result"),
    }
}

#[test]
fn upstream_body_passes_through_verbatim_even_for_error_text() {
    let body = "{\"error\":\"internal\"}".to_string();
    match finish_invocation(FetchOutcome::Body(body.clone())) {
        ToolResult::Text(t) => assert_eq!(t, body),
        ToolResult::Failure(m) => panic!("unexpected failure: {m}"),
    }
}

#[test]
fn validated_arguments_fill_the_filter() {
    let args = vec![
        text_arg("origin", "official"),
        ("incomplete".to_string(), ArgValue::Flag(true)),
        text_arg("id", "core"),
        ("name".to_string(), ArgValue::Null),
    ];
    let req = packs::Request::from_args(&args).unwrap();
    assert!(matches!(req.origin, Some(Origin::Official)));
    assert_eq!(req.incomplete, Some(true));
    assert_eq!(req.id.as_deref(), Some("core"));
    assert!(req.name.is_none());
}

#[test]
fn later_entry_overwrites_earlier_one() {
    let args = vec![text_arg("name", "first"), text_arg("name", "second")];
    let req = cards::Request::from_args(&args).unwrap();
    assert_eq!(req.name.as_deref(), Some("second"));
}

#[test]
fn null_leaves_a_field_unset() {
    let args = vec![("origin".to_string(), ArgValue::Null)];
    let req = cards::Request::from_args(&args).unwrap();
    assert!(req.origin.is_none());
    assert_eq!(req.to_pairs().len(), 0);
}

#[test]
fn plan_uses_each_tool_path() {
    let args: Vec<(String, ArgValue)> = vec![];
    assert_eq!(plan_invocation("get_cards", &args).unwrap().path, "cards");
    assert_eq!(plan_invocation("get_packs", &args).unwrap().path, "packs");
    assert_eq!(plan_invocation("get_sets", &args).unwrap().path, "sets");
}

#[test]
fn error_messages_name_each_kind() {
    assert_eq!(
        CerebroError::SerializationError("x".to_string()).message(),
        "Failed to serialize request parameters: x"
    );
    assert_eq!(
        CerebroError::HttpRequestError("x".to_string()).message(),
        "HTTP request failed: x"
    );
    assert_eq!(
        CerebroError::ResponseBodyError("x".to_string()).message(),
        "Failed to read response body: x"
    );
    assert_eq!(
        CerebroError::SchemaValidationError("x".to_string()).message(),
        "Invalid tool arguments: x"
    );
    assert_eq!(
        CerebroError::UnknownToolError("x".to_string()).message(),
        "Unknown tool: x"
    );
}

#[test]
fn parameter_tables_have_the_advertised_shape() {
    let cs = cards_schema();
    assert_eq!(cs.len(), 14);
    assert_eq!(cs[0].wire, "origin");
    assert!(matches!(cs[0].typ, FieldType::OriginToken));
    assert_eq!(cs[6].name, "exclude_campaign");
    assert_eq!(cs[6].wire, "excludeCampaign");
    assert!(matches!(cs[6].typ, FieldType::Flag));
    assert_eq!(cs[11].name, "type_");
    assert_eq!(cs[11].wire, "type");
    assert!(cs.iter().all(|f| !f.required && !f.description.is_empty()));

    let ps = packs_schema();
    assert_eq!(ps.len(), 4);
    assert_eq!(ps[2].wire, "id");

    let ss = sets_schema();
    assert_eq!(ss.len(), 4);
    assert_eq!(ss[3].wire, "type");
}

#[test]
fn handshake_advertises_three_tools_and_instructions() {
    let ts = tool_definitions();
    assert_eq!(ts.len(), 3);
    assert_eq!(ts[0].name, "get_cards");
    assert_eq!(ts[0].description, "Fetch a list of Marvel Champions card data");
    assert_eq!(ts[0].fields.len(), 14);
    assert_eq!(ts[1].name, "get_packs");
    assert_eq!(ts[1].fields.len(), 4);
    assert_eq!(ts[2].name, "get_sets");
    assert_eq!(ts[2].fields.len(), 4);

    let meta = server_meta();
    assert_eq!(meta.instructions, "Cerebro API");
    assert!(meta.tools_enabled);
}
