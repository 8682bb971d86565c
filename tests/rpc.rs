use pcli2_mcp::json::{JsonNumber, JsonValue};
use pcli2_mcp::rpc::{
    finish_call, handle_request, json_error, json_ok, parse_rpc_request, RpcReply, RpcStep,
};
use pcli2_mcp::tools::{find_tool, finish_command, plan_command, tool_arguments, ToolCall};
use pcli2_mcp::AppState;

fn text(s: &str) -> JsonValue {
    JsonValue::Str(s.to_string())
}

fn obj(members: Vec<(&str, JsonValue)>) -> JsonValue {
    JsonValue::Object(members.into_iter().map(|(k, v)| (k.to_string(), v)).collect())
}

fn num(n: u64) -> JsonValue {
    JsonValue::Number(JsonNumber::PosInt(n))
}

fn state() -> AppState {
    AppState { server_name: "test".to_string(), server_version: "0.0.0".to_string() }
}

fn reply(step: RpcStep) -> RpcReply {
    match step {
        RpcStep::Reply(r) => r,
        RpcStep::CallTool { .. } => panic!("expected a reply"),
    }
}

fn error_code(step: RpcStep) -> i64 {
    match reply(step) {
        RpcReply::Failure(f) => f.error.code,
        other => panic!("expected an error, got {:?}", other),
    }
}

fn content_text(v: &JsonValue) -> String {
    let content = v.get("content").unwrap();
    match content {
        JsonValue::Array(items) => items[0].get("text").unwrap().as_str().unwrap().to_string(),
        _ => panic!("content is not an array"),
    }
}

#[test]
fn test_parse_rpc_request_valid() {
    let input = obj(vec![
        ("jsonrpc", text("2.0")),
        ("id", num(1)),
        ("method", text("test_method")),
        ("params", obj(vec![("key", text("value"))])),
    ]);
    let result = parse_rpc_request(input);
    assert!(result.is_ok());
    let request = result.unwrap();
    assert_eq!(request.jsonrpc, Some("2.0".to_string()));
    assert_eq!(request.id, Some(num(1)));
    assert_eq!(request.method, Some("test_method".to_string()));
    assert_eq!(request.params, Some(obj(vec![("key", text("value"))])));
}

#[test]
fn test_parse_rpc_request_missing_method() {
    let input = obj(vec![("jsonrpc", text("2.0")), ("id", num(1))]);
    let result = parse_rpc_request(input);
    assert!(result.is_ok());
    let request = result.unwrap();
    assert_eq!(request.method, None);
}

#[test]
fn test_parse_rpc_request_invalid_json() {
    let input = JsonValue::Array(vec![]);
    let result = parse_rpc_request(input);
    assert!(result.is_err());
}

#[test]
fn parse_rpc_request_rejects_non_string_members() {
    let bad_version = obj(vec![("jsonrpc", num(2)), ("method", text("x"))]);
    assert_eq!(
        parse_rpc_request(bad_version).unwrap_err(),
        "Invalid Request: 'jsonrpc' must be a string"
    );
    let bad_method = obj(vec![("method", JsonValue::Bool(true))]);
    assert_eq!(
        parse_rpc_request(bad_method).unwrap_err(),
        "Invalid Request: 'method' must be a string"
    );
}

#[test]
fn test_json_ok() {
    let response = json_ok(num(1), obj(vec![("test", text("value"))]));
    assert_eq!(response.jsonrpc, "2.0");
    assert_eq!(response.id, num(1));
    assert_eq!(response.result, obj(vec![("test", text("value"))]));
}

#[test]
fn test_json_error() {
    let response = json_error(num(1), -32601, "Method not found".to_string());
    assert_eq!(response.jsonrpc, "2.0");
    assert_eq!(response.id, num(1));
    assert_eq!(response.error.code, -32601);
    assert_eq!(response.error.message, "Method not found");
}

#[test]
fn jsonrpc_parse_error_returns_32700() {
    match reply(handle_request(None, &state(), vec![])) {
        RpcReply::Failure(f) => {
            assert_eq!(f.error.code, -32700);
            assert_eq!(f.id, JsonValue::Null);
        }
        other => panic!("unexpected {:?}", other),
    }
}

#[test]
fn jsonrpc_invalid_request_returns_32600() {
    let body = obj(vec![("jsonrpc", text("2.0")), ("id", num(1))]);
    match reply(handle_request(Some(body), &state(), vec![])) {
        RpcReply::Failure(f) => {
            assert_eq!(f.error.code, -32600);
            assert_eq!(f.id, num(1));
            assert_eq!(f.error.message, "Invalid Request: missing 'method'");
        }
        other => panic!("unexpected {:?}", other),
    }
}

#[test]
fn jsonrpc_notification_returns_no_content() {
    let body = obj(vec![("jsonrpc", text("2.0")), ("method", text("tools/list"))]);
    assert!(matches!(reply(handle_request(Some(body), &state(), vec![])), RpcReply::Empty));
    let unknown = obj(vec![("id", JsonValue::Null), ("method", text("no/such"))]);
    assert!(matches!(reply(handle_request(Some(unknown), &state(), vec![])), RpcReply::Empty));
}

#[test]
fn test_initialize_method() {
    let body = obj(vec![
        ("jsonrpc", text("2.0")),
        ("id", num(1)),
        ("method", text("initialize")),
        ("params", obj(vec![])),
    ]);
    match reply(handle_request(Some(body), &state(), vec![])) {
        RpcReply::Success(s) => {
            assert_eq!(s.result.get("protocolVersion"), Some(&text("2025-03-26")));
            let info = s.result.get("serverInfo").unwrap();
            assert_eq!(info.get("name"), Some(&text("test")));
            assert_eq!(info.get("version"), Some(&text("0.0.0")));
        }
        other => panic!("unexpected {:?}", other),
    }
}

#[test]
fn test_tools_list_method() {
    let body = obj(vec![
        ("jsonrpc", text("2.0")),
        ("id", num(1)),
        ("method", text("tools/list")),
        ("params", obj(vec![])),
    ]);
    let catalogue = vec![obj(vec![("name", text("pcli2_version"))])];
    match reply(handle_request(Some(body), &state(), catalogue)) {
        RpcReply::Success(s) => {
            assert_eq!(s.jsonrpc, "2.0");
            match s.result.get("tools") {
                Some(JsonValue::Array(tools)) => assert_eq!(tools.len(), 1),
                other => panic!("unexpected {:?}", other),
            }
        }
        other => panic!("unexpected {:?}", other),
    }
}

#[test]
fn test_unknown_method_returns_error() {
    let body = obj(vec![
        ("jsonrpc", text("2.0")),
        ("id", num(1)),
        ("method", text("unknown/method")),
        ("params", obj(vec![])),
    ]);
    match reply(handle_request(Some(body), &state(), vec![])) {
        RpcReply::Failure(f) => {
            assert_eq!(f.error.code, -32601);
            assert_eq!(f.error.message, "Method 'unknown/method' not found");
        }
        other => panic!("unexpected {:?}", other),
    }
}

#[test]
fn test_jsonrpc_wrong_version() {
    let body = obj(vec![
        ("jsonrpc", text("1.0")),
        ("id", num(1)),
        ("method", text("tools/list")),
        ("params", obj(vec![])),
    ]);
    match reply(handle_request(Some(body), &state(), vec![])) {
        RpcReply::Failure(f) => {
            assert_eq!(f.error.code, -32600);
            assert_eq!(f.error.message, "Invalid jsonrpc version '1.0'");
        }
        other => panic!("unexpected {:?}", other),
    }
}

#[test]
fn wrong_version_without_id_is_still_an_error() {
    let body = obj(vec![("jsonrpc", text("1.0")), ("method", text("tools/list"))]);
    assert_eq!(error_code(handle_request(Some(body), &state(), vec![])), -32600);
}

#[test]
fn non_object_body_is_invalid_request() {
    assert_eq!(error_code(handle_request(Some(num(3)), &state(), vec![])), -32600);
}

#[test]
fn tools_call_without_params_gets_empty_object() {
    let body = obj(vec![("id", text("a")), ("method", text("tools/call"))]);
    match handle_request(Some(body), &state(), vec![]) {
        RpcStep::CallTool { id, params } => {
            assert_eq!(id, text("a"));
            assert_eq!(params, JsonValue::Object(vec![]));
        }
        other => panic!("unexpected {:?}", other),
    }
}

#[test]
fn tenant_list_call_returns_program_output() {
    let params = obj(vec![("name", text("pcli2_tenant_list")), ("arguments", obj(vec![]))]);
    let entry = find_tool(&params).unwrap();
    let empty = obj(vec![]);
    let args = tool_arguments(&params).unwrap_or(&empty);
    let plan = match plan_command(&entry, args, "/tmp/unused.png").unwrap() {
        ToolCall::Run(plan) => plan,
        ToolCall::CleanupCache => panic!("expected a command"),
    };
    assert_eq!(plan.argv, vec!["tenant", "list"]);
    let result = finish_command(&plan, Ok("tenant list ok".to_string()));
    match finish_call(num(7), result) {
        RpcReply::Success(s) => {
            assert_eq!(s.id, num(7));
            assert_eq!(content_text(&s.result), "tenant list ok");
        }
        other => panic!("unexpected {:?}", other),
    }
}

#[test]
fn threshold_out_of_range_is_invalid_params() {
    let params = obj(vec![
        ("name", text("pcli2_asset_part_match")),
        ("arguments", obj(vec![("uuid", text("u")), ("threshold", num(101))])),
    ]);
    let entry = find_tool(&params).unwrap();
    let args = tool_arguments(&params).unwrap();
    let err = match plan_command(&entry, args, "/tmp/unused.png") {
        Err(e) => e,
        Ok(_) => panic!("expected a validation failure"),
    };
    match finish_call(num(2), Err(err)) {
        RpcReply::Failure(f) => {
            assert_eq!(f.error.code, -32602);
            assert!(f.error.message.contains("must be between 0 and 100"));
            assert_eq!(
                f.error.message,
                "pcli2 asset part-match failed: Invalid argument 'threshold': value 101 must be between 0 and 100"
            );
        }
        other => panic!("unexpected {:?}", other),
    }
}

#[test]
fn unknown_and_missing_tool_names() {
    let unknown = obj(vec![("name", text("nope"))]);
    assert_eq!(find_tool(&unknown).unwrap_err(), "Unknown tool 'nope'");
    assert_eq!(find_tool(&obj(vec![])).unwrap_err(), "Missing tool name");
}

#[test]
fn asset_geometric_match_failures_are_prefixed() {
    let params = obj(vec![("name", text("pcli2_geometric_match")), ("arguments", obj(vec![]))]);
    let entry = find_tool(&params).unwrap();
    let args = tool_arguments(&params).unwrap();
    assert_eq!(
        plan_command(&entry, args, "t").err(),
        Some("pcli2 asset geometric-match failed: Missing required argument: provide either 'uuid' or 'path'".to_string())
    );
}

#[test]
fn listing_label_names_resource() {
    let params = obj(vec![
        ("name", text("pcli2")),
        ("arguments", obj(vec![("resource", text("asset")), ("reload", JsonValue::Bool(true))])),
    ]);
    let entry = find_tool(&params).unwrap();
    let args = tool_arguments(&params).unwrap();
    match plan_command(&entry, args, "t").unwrap() {
        ToolCall::Run(plan) => {
            assert_eq!(plan.argv, vec!["asset", "list", "--reload"]);
            assert_eq!(plan.label, "pcli2 asset list");
            let failed = finish_command(&plan, Err("boom".to_string()));
            assert_eq!(failed.unwrap_err(), "pcli2 asset list failed: boom");
        }
        ToolCall::CleanupCache => panic!("expected a command"),
    }
}

#[test]
fn thumbnail_plan_writes_to_file() {
    let params = obj(vec![
        ("name", text("pcli2_asset_thumbnail")),
        ("arguments", obj(vec![("path", text("/Root/a.stl")), ("tenant", text("t1"))])),
    ]);
    let entry = find_tool(&params).unwrap();
    let args = tool_arguments(&params).unwrap();
    match plan_command(&entry, args, "/tmp/x.png").unwrap() {
        ToolCall::Run(plan) => assert_eq!(
            plan.argv,
            vec!["asset", "thumbnail", "-t", "t1", "--path", "/Root/a.stl", "--file", "/tmp/x.png"]
        ),
        ToolCall::CleanupCache => panic!("expected a command"),
    }
}

#[test]
fn simple_tool_failure_is_prefixed() {
    let params = obj(vec![("name", text("pcli2_tenant_use")), ("arguments", obj(vec![]))]);
    let entry = find_tool(&params).unwrap();
    let args = tool_arguments(&params).unwrap();
    assert_eq!(
        plan_command(&entry, args, "t").err(),
        Some("pcli2 tenant use failed: Missing required argument: provide 'tenant_name' or 'name'".to_string())
    );
}

#[test]
fn metadata_delete_names() {
    let params = obj(vec![
        ("name", text("pcli2_asset_metadata_delete")),
        ("arguments", obj(vec![("uuid", text("u1")), ("name", text("a, b"))])),
    ]);
    let entry = find_tool(&params).unwrap();
    let args = tool_arguments(&params).unwrap();
    match plan_command(&entry, args, "t").unwrap() {
        ToolCall::Run(plan) => assert_eq!(
            plan.argv,
            vec!["asset", "metadata", "delete", "--uuid", "u1", "--name", "a", "--name", "b"]
        ),
        ToolCall::CleanupCache => panic!("expected a command"),
    }
}

#[test]
fn cleanup_tool_runs_no_command() {
    let params = obj(vec![("name", text("pcli2_thumbnail_cache_cleanup"))]);
    let entry = find_tool(&params).unwrap();
    let empty = obj(vec![]);
    assert!(matches!(plan_command(&entry, &empty, "t").unwrap(), ToolCall::CleanupCache));
}

#[test]
fn negative_concurrency_is_rejected() {
    for name in ["pcli2_folder_geometric_match", "pcli2_folder_part_match", "pcli2_folder_visual_match"] {
        let params = obj(vec![
            ("name", text(name)),
            (
                "arguments",
                obj(vec![
                    ("folder_path", text("/Root")),
                    ("concurrent", JsonValue::Number(JsonNumber::NegInt(-1))),
                ]),
            ),
        ]);
        let entry = find_tool(&params).unwrap();
        let args = tool_arguments(&params).unwrap();
        let err = match plan_command(&entry, args, "t") {
            Err(e) => e,
            Ok(_) => panic!("expected a validation failure for {}", name),
        };
        assert!(err.contains("'concurrent'"));
        assert!(err.ends_with("value -1 must be between 1 and 10"));
    }
}

#[test]
fn concurrency_out_of_range_above() {
    let params = obj(vec![
        ("name", text("pcli2_folder_visual_match")),
        ("arguments", obj(vec![("folder_path", text("/Root")), ("concurrent", num(11))])),
    ]);
    let entry = find_tool(&params).unwrap();
    let args = tool_arguments(&params).unwrap();
    assert_eq!(
        plan_command(&entry, args, "t").err(),
        Some("pcli2 folder visual-match failed: Invalid argument 'concurrent': value 11 must be between 1 and 10".to_string())
    );
}
