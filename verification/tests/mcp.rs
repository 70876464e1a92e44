use notezilla::file_tree_backend::{FileTreeBackend, TreeOp};
use notezilla::import::{JsonScalar, JsonValue};
use notezilla::mcp::{
    file_not_found_error, initialize_request_body, initialized_notification_body,
    move_arguments, new_file_created, path_arguments, rename_arguments, search_arguments,
    session_header_matches, sse_data_payload, tool_call_body, tool_outcome, upsert_arguments,
    warnings_from_structured, RequestIds, RpcReply, ToolReply,
};
use serde_json::Value;

fn json(text: &str) -> Value {
    serde_json::from_str(text).expect("json")
}

fn reply(message: Option<&str>, warnings: Option<JsonValue>) -> RpcReply {
    RpcReply {
        result: Some(ToolReply {
            message: message.map(|m| m.to_string()),
            result_text: "{\"content\":[]}".to_string(),
            structured: None,
            warnings,
        }),
        error: None,
    }
}

#[test]
fn parse_sse_reads_the_first_data_payload() {
    let body = "event: message\ndata: {\"result\":{\"ok\":true}}\n\n";
    let payload = sse_data_payload(body).expect("payload");
    assert_eq!(json(&payload), json("{\"result\":{\"ok\":true}}"));
    assert_eq!(json(&payload).get("error"), None);
}

#[test]
fn parse_sse_skips_empty_and_done_lines() {
    let body = "data:\ndata: [DONE]\ndata: {\"error\":{\"code\":1}}\n";
    let payload = sse_data_payload(body).expect("payload");
    assert_eq!(json(&payload)["error"], json("{\"code\":1}"));
}

#[test]
fn parse_sse_returns_none_without_valid_json() {
    assert!(sse_data_payload("no data here").is_none());
    let payload = sse_data_payload("data: not-json\n").expect("payload line");
    assert!(serde_json::from_str::<Value>(&payload).is_err());
}

#[test]
fn warnings_from_structured_collects_non_empty_strings() {
    let items = JsonValue::Array(vec![
        JsonScalar::Str("a".to_string()),
        JsonScalar::Str(String::new()),
        JsonScalar::Str("b".to_string()),
        JsonScalar::Number("1".to_string()),
    ]);
    assert_eq!(warnings_from_structured(&Some(items)), vec!["a".to_string(), "b".to_string()]);
    assert!(warnings_from_structured(&None).is_empty());
    let not_list = JsonValue::Scalar(JsonScalar::Str("x".to_string()));
    assert!(warnings_from_structured(&Some(not_list)).is_empty());
}

#[test]
fn tool_outcome_judges_the_tool_message() {
    assert_eq!(tool_outcome(&reply(Some("Success"), None)).result, Ok("{}".to_string()));
    assert_eq!(tool_outcome(&reply(Some("Error: not found"), None)).result, Err("not found".to_string()));
    assert_eq!(
        tool_outcome(&reply(Some("Maybe"), None)).result,
        Err("Unexpected tool message: Maybe".to_string())
    );
    assert_eq!(
        tool_outcome(&reply(None, None)).result,
        Err("Unexpected result shape: {\"content\":[]}".to_string())
    );
    let empty = RpcReply { result: None, error: None };
    assert_eq!(tool_outcome(&empty).result, Err("Empty RPC result".to_string()));
    let failed = RpcReply { result: None, error: Some("{\"code\":1}".to_string()) };
    assert_eq!(tool_outcome(&failed).result, Err("RPC error: {\"code\":1}".to_string()));
}

#[test]
fn tool_outcome_shows_warnings_once_the_message_is_read() {
    let warnings = JsonValue::Array(vec![JsonScalar::Str("careful".to_string())]);
    let out = tool_outcome(&reply(Some("Error: x"), Some(warnings)));
    assert_eq!(out.warnings, vec!["careful".to_string()]);
    let warnings = JsonValue::Array(vec![JsonScalar::Str("careful".to_string())]);
    let out = tool_outcome(&reply(None, Some(warnings)));
    assert!(out.warnings.is_empty());
}

#[test]
fn request_bodies_are_json_rpc() {
    let init = json(&initialize_request_body());
    assert_eq!(init["method"], Value::String("initialize".to_string()));
    assert_eq!(init["params"]["clientInfo"]["name"], Value::String("notezilla-leptos".to_string()));
    let note = json(&initialized_notification_body());
    assert_eq!(note["method"], Value::String("notifications/initialized".to_string()));
    let call = json(&tool_call_body(7, "get_note", &path_arguments("a \"b\".md")));
    assert_eq!(call["id"], Value::from(7u64));
    assert_eq!(call["method"], Value::String("tools/call".to_string()));
    assert_eq!(call["params"]["name"], Value::String("get_note".to_string()));
    assert_eq!(call["params"]["arguments"]["path"], Value::String("a \"b\".md".to_string()));
}

#[test]
fn tool_arguments_carry_their_fields() {
    let mv = json(&move_arguments("a", "b"));
    assert_eq!(mv, json("{\"src\":\"a\",\"dst\":\"b\"}"));
    let rn = json(&rename_arguments("a", "c"));
    assert_eq!(rn, json("{\"path\":\"a\",\"new_name\":\"c\"}"));
    let search = json(&search_arguments("q", "tags: [x]", "2026", 20, 40));
    assert_eq!(
        search,
        json("{\"text\":\"q\",\"frontmatter\":\"tags: [x]\",\"path_filter\":\"2026\",\"n_results\":20,\"offset\":40}")
    );
    let up = json(&upsert_arguments("a.md", "body\n", "{\"title\":\"x\"}"));
    assert_eq!(up, json("{\"path\":\"a.md\",\"contents\":\"body\\n\",\"fields\":{\"title\":\"x\"}}"));
}

#[test]
fn session_header_is_found_ignoring_case() {
    assert!(session_header_matches("mcp-session-id"));
    assert!(session_header_matches("MCP-Session-Id"));
    assert!(!session_header_matches("mcp-session"));
    assert!(!session_header_matches("content-type"));
}

#[test]
fn upsert_payload_reports_new_files() {
    assert!(new_file_created(&Some(JsonValue::Scalar(JsonScalar::Bool(true)))));
    assert!(!new_file_created(&Some(JsonValue::Scalar(JsonScalar::Bool(false)))));
    assert!(!new_file_created(&Some(JsonValue::Scalar(JsonScalar::Str("true".to_string())))));
    assert!(!new_file_created(&None));
}

#[test]
fn missing_file_error_names_the_path() {
    assert_eq!(file_not_found_error("a.md"), "File not found at 'a.md'");
}

#[test]
fn each_tree_calls_its_own_tools() {
    assert_eq!(FileTreeBackend::Notes.tool_name(TreeOp::GetDirContents), "get_dir_contents");
    assert_eq!(FileTreeBackend::Templates.tool_name(TreeOp::GetDirContents), "get_template_dir_contents");
    assert_eq!(FileTreeBackend::Notes.tool_name(TreeOp::GetFile), "get_note");
    assert_eq!(FileTreeBackend::Templates.tool_name(TreeOp::GetFile), "get_template");
    assert_eq!(FileTreeBackend::Notes.tool_name(TreeOp::DeleteFolder), "delete_folder");
    assert_eq!(FileTreeBackend::Templates.tool_name(TreeOp::DeleteFolder), "delete_template_folder");
    assert_eq!(FileTreeBackend::Notes.tool_name(TreeOp::MoveItem), "move_dir");
    assert_eq!(FileTreeBackend::Templates.tool_name(TreeOp::Rename), "rename_template_dir");
}

#[test]
fn successful_tool_call_returns_its_structured_payload() {
    let mut r = reply(Some("Success"), None);
    if let Some(result) = r.result.as_mut() {
        result.structured = Some("{\"newFileCreated\":true}".to_string());
    }
    assert_eq!(tool_outcome(&r).result, Ok("{\"newFileCreated\":true}".to_string()));
    let mut failed = reply(Some("Error: busy"), None);
    if let Some(result) = failed.result.as_mut() {
        result.structured = Some("{\"x\":1}".to_string());
    }
    assert_eq!(tool_outcome(&failed).result, Err("busy".to_string()));
}

#[test]
fn request_ids_grow_with_each_call() {
    let mut ids = RequestIds::new();
    let first = ids.take();
    let second = ids.take();
    let third = ids.take();
    assert_eq!((first, second, third), (1, 2, 3));
}

#[test]
fn tool_call_body_escapes_control_characters() {
    let body = tool_call_body(1, "t\u{1}\"", "{}");
    assert!(body.contains("\"name\":\"t\\u0001\\\"\""));
    let call = json(&body);
    assert_eq!(call["params"]["name"], Value::String("t\u{1}\"".to_string()));
}

#[test]
fn request_bodies_list_keys_in_sorted_order() {
    assert_eq!(
        initialize_request_body(),
        "{\"id\":0,\"jsonrpc\":\"2.0\",\"method\":\"initialize\",\"params\":{\"capabilities\":{},\"clientInfo\":{\"name\":\"notezilla-leptos\",\"version\":\"0.1.0\"},\"protocolVersion\":\"2024-11-05\"}}"
    );
    assert_eq!(
        tool_call_body(3, "move_dir", &move_arguments("a", "b")),
        "{\"id\":3,\"jsonrpc\":\"2.0\",\"method\":\"tools/call\",\"params\":{\"arguments\":{\"dst\":\"b\",\"src\":\"a\"},\"name\":\"move_dir\"}}"
    );
    assert_eq!(rename_arguments("a", "c"), "{\"new_name\":\"c\",\"path\":\"a\"}");
    assert_eq!(
        search_arguments("q", "f", "p", 2, 4),
        "{\"frontmatter\":\"f\",\"n_results\":2,\"offset\":4,\"path_filter\":\"p\",\"text\":\"q\"}"
    );
    assert_eq!(upsert_arguments("a.md", "x", "{}"), "{\"contents\":\"x\",\"fields\":{},\"path\":\"a.md\"}");
}
