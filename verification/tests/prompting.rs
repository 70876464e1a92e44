use notezilla::block::EditorEntry;
use notezilla::constants::{
    gemini_model_url, GEMINI_API_ORIGIN, GEMINI_GENERATE_CONTENT_ACTION, GEMINI_MODELS_PATH,
    OLLAMA_GENERATE_PATH, OLLAMA_TAGS_PATH, OLLAMA_URL,
};
use notezilla::default_settings::{DEFAULT_GEMINI_MODEL, DEFAULT_OLLAMA_PORT};
use notezilla::file_tree_backend::FileTreeBackend;
use notezilla::info_messages::ENTER_PROMPT_TOAST;
use notezilla::prompting::create_prompt::{assembled_prompt, build_prompt, create_prompt};
use notezilla::prompting::gemini_adapter::{
    self, gemini_generate_url, gemini_init_failed_log, gemini_probe_ready, gemini_ready_log,
    generate_request_body, parse_model_metadata, Candidate, Content, GeminiError,
    GeminiErrorBody, ModelMetadata, Part,
};
use notezilla::prompting::ollama_adapter::{
    self, ollama_base_url, ollama_url, parse_model_names, TagsModel, TagsResponse,
};
use notezilla::prompting::{http_status_error, is_success_status};
use serde_json::Value;

fn decode_error(body: &str) -> String {
    serde_json::from_str::<Value>(body).unwrap_err().to_string()
}

fn note_and_template() -> Vec<EditorEntry> {
    let note = EditorEntry::new(1, "./a.md", "note body");
    let mut tmpl = EditorEntry::new(2, "./t.md", "template body");
    tmpl.backend = FileTreeBackend::Templates;
    vec![note, tmpl]
}

fn assert_filled(out: &str) {
    assert!(!out.contains("{{USER_PROMPT}}"));
    assert!(!out.contains("{{CONTEXT}}"));
    assert!(!out.contains("{{RESPONSE_TEMPLATE}}"));
}

#[test]
fn create_prompt_fills_user_context_and_response_placeholders() {
    let out = create_prompt("Ask this", "note body", "template body");
    assert!(out.contains("Ask this"));
    assert!(out.contains("note body"));
    assert!(out.contains("template body"));
    assert_filled(&out);
}

#[test]
fn create_prompt_build_prompt_uses_open_notes_and_template() {
    let out = build_prompt("Ask this", &note_and_template());
    assert!(out.contains("Ask this"));
    assert!(out.contains("./a.md"));
    assert!(out.contains("note body"));
    assert!(out.contains("template body"));
    assert_filled(&out);
}

#[test]
fn prompt_panel_build_prompt_uses_open_notes_and_template() {
    let out = build_prompt("Ask this", &note_and_template());
    assert!(out.contains("Ask this"));
    assert!(out.contains("./a.md"));
    assert!(out.contains("note body"));
    assert!(out.contains("template body"));
    assert_filled(&out);
}

#[test]
fn build_prompt_sections_each_note_and_uses_the_last_template() {
    let mut entries = note_and_template();
    entries.insert(1, EditorEntry::new(3, "./b.md", "second"));
    let mut later = EditorEntry::new(4, "./u.md", "later template");
    later.backend = FileTreeBackend::Templates;
    entries.push(later);
    let expected = create_prompt(
        "Q",
        "## ./a.md\n\nnote body\n\n## ./b.md\n\nsecond",
        "later template",
    );
    assert_eq!(build_prompt("Q", &entries), expected);
    assert_eq!(build_prompt("Q", &Vec::new()), create_prompt("Q", "", ""));
}

#[test]
fn assembled_prompt_requires_user_text() {
    assert_eq!(assembled_prompt("   ", &note_and_template()), Err(ENTER_PROMPT_TOAST.to_string()));
    assert_eq!(
        assembled_prompt("Q", &note_and_template()),
        Ok(build_prompt("Q", &note_and_template()))
    );
}

#[test]
fn gemini_ready_log_names_the_api_origin() {
    assert_eq!(gemini_ready_log(), format!("Gemini connection ready: {GEMINI_API_ORIGIN}"));
}

#[test]
fn gemini_init_failed_log_names_the_error() {
    assert_eq!(
        gemini_init_failed_log("HTTP 403"),
        "Gemini init failed: HTTP 403. Prompt send will be unavailable."
    );
}

#[test]
fn generate_request_body_sets_contents_text() {
    let body: Value = serde_json::from_str(&generate_request_body("Ask this")).expect("json");
    let mut part = serde_json::Map::new();
    part.insert("text".to_string(), Value::String("Ask this".to_string()));
    let mut content = serde_json::Map::new();
    content.insert("parts".to_string(), Value::Array(vec![Value::Object(part)]));
    let mut expected = serde_json::Map::new();
    expected.insert("contents".to_string(), Value::Array(vec![Value::Object(content)]));
    assert_eq!(body, Value::Object(expected));
}

#[test]
fn generate_request_body_escapes_the_prompt() {
    let body: Value = serde_json::from_str(&generate_request_body("a \"quote\"\nline")).expect("json");
    assert_eq!(body["contents"][0]["parts"][0]["text"], Value::String("a \"quote\"\nline".to_string()));
}

#[test]
fn gemini_urls_include_model_action_and_key() {
    let key = "AIzaSyExample";
    assert_eq!(
        gemini_model_url(DEFAULT_GEMINI_MODEL, key),
        format!("{GEMINI_API_ORIGIN}{GEMINI_MODELS_PATH}/{DEFAULT_GEMINI_MODEL}?key={key}")
    );
    assert_eq!(
        gemini_generate_url(DEFAULT_GEMINI_MODEL, key),
        format!(
            "{GEMINI_API_ORIGIN}{GEMINI_MODELS_PATH}/{DEFAULT_GEMINI_MODEL}:{GEMINI_GENERATE_CONTENT_ACTION}?key={key}"
        )
    );
}

#[test]
fn parse_model_metadata_requires_name() {
    parse_model_metadata(Ok(ModelMetadata { name: Some("models/gemini-2.5-flash".to_string()) }))
        .expect("name");
    let err = parse_model_metadata(Ok(ModelMetadata { name: None })).unwrap_err();
    assert!(err.contains("Missing name"), "{err}");
    let err = parse_model_metadata(Err(decode_error("not-json"))).unwrap_err();
    assert!(err.contains("Parse error"), "{err}");
}

fn part(text: &str) -> Part {
    Part { text: Some(text.to_string()) }
}

#[test]
fn parse_generate_response_reads_candidate_text() {
    let response = gemini_adapter::GenerateResponse {
        error: None,
        candidates: Some(vec![Candidate {
            content: Some(Content { parts: Some(vec![part("hello"), part(" world")]) }),
        }]),
    };
    assert_eq!(gemini_adapter::parse_generate_response(Ok(response)).expect("text"), "hello world");
}

#[test]
fn parse_generate_response_prefers_error_and_requires_text() {
    let failed = gemini_adapter::GenerateResponse {
        error: Some(GeminiError { message: Some("API key not valid".to_string()) }),
        candidates: None,
    };
    assert_eq!(gemini_adapter::parse_generate_response(Ok(failed)).unwrap_err(), "API key not valid");
    let empty = gemini_adapter::GenerateResponse { error: None, candidates: Some(Vec::new()) };
    let err = gemini_adapter::parse_generate_response(Ok(empty)).unwrap_err();
    assert!(err.contains("Missing text"), "{err}");
    let err = gemini_adapter::parse_generate_response(Err(decode_error("not-json"))).unwrap_err();
    assert!(err.contains("Parse error"), "{err}");
}

#[test]
fn gemini_http_error_prefers_the_error_message() {
    let body = GeminiErrorBody { error: Some(GeminiError { message: Some("quota".to_string()) }) };
    assert_eq!(gemini_adapter::http_error(429, Some(body)), "quota");
    let blank = GeminiErrorBody { error: Some(GeminiError { message: Some(String::new()) }) };
    assert_eq!(gemini_adapter::http_error(500, Some(blank)), "HTTP 500");
    assert_eq!(gemini_adapter::http_error(404, None), "HTTP 404");
}

#[test]
fn gemini_probe_needs_key_and_model() {
    assert!(gemini_probe_ready("key", "model"));
    assert!(!gemini_probe_ready("  ", "model"));
    assert!(!gemini_probe_ready("key", ""));
}

#[test]
fn ollama_base_url_uses_same_origin_proxy() {
    assert_eq!(ollama_base_url(DEFAULT_OLLAMA_PORT), OLLAMA_URL);
    assert_eq!(ollama_base_url(1), OLLAMA_URL);
    assert!(OLLAMA_URL.starts_with('/'));
    assert!(!OLLAMA_URL.contains("://"));
}

#[test]
fn ollama_url_appends_api_paths() {
    assert_eq!(
        ollama_url(DEFAULT_OLLAMA_PORT, OLLAMA_TAGS_PATH),
        format!("{OLLAMA_URL}{OLLAMA_TAGS_PATH}")
    );
    assert_eq!(
        ollama_url(DEFAULT_OLLAMA_PORT, OLLAMA_GENERATE_PATH),
        format!("{OLLAMA_URL}{OLLAMA_GENERATE_PATH}")
    );
}

#[test]
fn parse_model_names_reads_name_fields() {
    let tags = TagsResponse {
        models: vec![TagsModel { name: "a".to_string() }, TagsModel { name: "b".to_string() }],
    };
    assert_eq!(parse_model_names(Ok(tags)).expect("tags"), vec!["a".to_string(), "b".to_string()]);
    assert!(parse_model_names(Ok(TagsResponse { models: Vec::new() })).expect("empty").is_empty());
}

#[test]
fn parse_model_names_rejects_missing_models() {
    let err = parse_model_names(Err(decode_error("{"))).unwrap_err();
    assert!(err.contains("Parse error"), "{err}");
    let err = parse_model_names(Err(decode_error("not-json"))).unwrap_err();
    assert!(err.contains("Parse error"), "{err}");
}

#[test]
fn parse_generate_response_reads_response_field() {
    let reply = ollama_adapter::GenerateResponse { response: Some("hello".to_string()), error: None };
    assert_eq!(ollama_adapter::parse_generate_response(Ok(reply)).expect("text"), "hello");
}

#[test]
fn parse_generate_response_prefers_error_and_requires_response() {
    let failed = ollama_adapter::GenerateResponse { response: None, error: Some("model not found".to_string()) };
    assert_eq!(ollama_adapter::parse_generate_response(Ok(failed)).unwrap_err(), "model not found");
    let done = ollama_adapter::GenerateResponse { response: None, error: None };
    let err = ollama_adapter::parse_generate_response(Ok(done)).unwrap_err();
    assert!(err.contains("Missing response"), "{err}");
    let err = ollama_adapter::parse_generate_response(Err(decode_error("not-json"))).unwrap_err();
    assert!(err.contains("Parse error"), "{err}");
}

#[test]
fn ollama_http_error_prefers_the_error_field() {
    let body = ollama_adapter::GenerateResponse { response: None, error: Some("bad".to_string()) };
    assert_eq!(ollama_adapter::http_error(400, Some(body)), "bad");
    assert_eq!(ollama_adapter::http_error(502, None), "HTTP 502");
}

#[test]
fn http_status_helpers() {
    assert!(is_success_status(200));
    assert!(is_success_status(299));
    assert!(!is_success_status(300));
    assert!(!is_success_status(199));
    assert_eq!(http_status_error(0), "HTTP 0");
    assert_eq!(http_status_error(65535), "HTTP 65535");
}
