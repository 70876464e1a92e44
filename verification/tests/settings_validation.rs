use notezilla::constants::gemini_model_url;
use notezilla::default_settings::{
    DEFAULT_GEMINI_API_KEY, DEFAULT_GEMINI_MODEL, DEFAULT_OLLAMA_MODEL, DEFAULT_OLLAMA_NUM_CTX,
    DEFAULT_OLLAMA_NUM_PREDICT, DEFAULT_OLLAMA_PORT, DEFAULT_OLLAMA_TOP_K,
};
use notezilla::hotkeys::normalize_hotkey_key;
use notezilla::info_messages::{
    invalid_setting_toast, HOTKEY_CONSTRAINT, OLLAMA_MODEL_CONSTRAINT, OLLAMA_MODEL_LABEL,
    OLLAMA_NUM_CTX_CONSTRAINT, OLLAMA_NUM_CTX_LABEL, OLLAMA_NUM_PREDICT_CONSTRAINT,
    OLLAMA_NUM_PREDICT_LABEL, OLLAMA_PORT_CONSTRAINT, OLLAMA_PORT_LABEL,
    OLLAMA_TEMPERATURE_CONSTRAINT, OLLAMA_TEMPERATURE_LABEL, OLLAMA_TOP_K_CONSTRAINT,
    OLLAMA_TOP_K_LABEL, OLLAMA_TOP_P_CONSTRAINT, OLLAMA_TOP_P_LABEL, RESULTS_PER_PAGE_CONSTRAINT,
    RESULTS_PER_PAGE_LABEL, SAVE_HOTKEY_LABEL,
};
use notezilla::settings_validation::{
    is_incomplete_float, parse_gemini_api_key, parse_gemini_model, parse_ollama_model,
    parse_ollama_num_predict, parse_ollama_port, parse_positive_u32, parse_results_per_page,
    validate_setting,
};

/// The bounded float parse of the two floating-point settings, as the app runs it.
fn parse_bounded_f64(raw: &str, min: f64, max: f64) -> Option<f64> {
    if is_incomplete_float(raw) {
        return None;
    }
    let n = raw.parse::<f64>().ok()?;
    if n.is_finite() && (min..=max).contains(&n) {
        Some(n)
    } else {
        None
    }
}

#[test]
fn parse_ollama_port_accepts_valid_tcp_ports() {
    assert_eq!(parse_ollama_port("11434"), Some(DEFAULT_OLLAMA_PORT));
    assert_eq!(parse_ollama_port("1"), Some(1));
    assert_eq!(parse_ollama_port("65535"), Some(65535));
    assert_eq!(parse_ollama_port("0"), None);
    assert_eq!(parse_ollama_port(""), None);
    assert_eq!(parse_ollama_port("abc"), None);
    assert_eq!(parse_ollama_port("65536"), None);
}

#[test]
fn parse_bounded_f64_rejects_incomplete_decimals() {
    assert_eq!(parse_bounded_f64("0.", 0.0, 2.0), None);
    assert_eq!(parse_bounded_f64(".", 0.0, 2.0), None);
    assert_eq!(parse_bounded_f64("1e-", 0.0, 2.0), None);
    assert_eq!(parse_bounded_f64("0.5", 0.0, 2.0), Some(0.5));
    assert_eq!(parse_bounded_f64("0.8", 0.0, 2.0), Some(0.8));
    assert_eq!(parse_bounded_f64("0.9", 0.0, 1.0), Some(0.9));
}

#[test]
fn validate_setting_returns_toast_text_when_invalid() {
    assert_eq!(
        validate_setting("20", parse_results_per_page, RESULTS_PER_PAGE_LABEL, RESULTS_PER_PAGE_CONSTRAINT),
        Ok(20)
    );
    assert_eq!(
        validate_setting("0", parse_results_per_page, RESULTS_PER_PAGE_LABEL, RESULTS_PER_PAGE_CONSTRAINT),
        Err(invalid_setting_toast(RESULTS_PER_PAGE_LABEL, RESULTS_PER_PAGE_CONSTRAINT))
    );
    assert_eq!(
        validate_setting("11434", parse_ollama_port, OLLAMA_PORT_LABEL, OLLAMA_PORT_CONSTRAINT),
        Ok(DEFAULT_OLLAMA_PORT)
    );
    assert_eq!(
        validate_setting("0", parse_ollama_port, OLLAMA_PORT_LABEL, OLLAMA_PORT_CONSTRAINT),
        Err(invalid_setting_toast(OLLAMA_PORT_LABEL, OLLAMA_PORT_CONSTRAINT))
    );
    assert_eq!(
        validate_setting(DEFAULT_OLLAMA_MODEL, parse_ollama_model, OLLAMA_MODEL_LABEL, OLLAMA_MODEL_CONSTRAINT),
        Ok(DEFAULT_OLLAMA_MODEL.to_string())
    );
    assert_eq!(
        validate_setting("  ", parse_ollama_model, OLLAMA_MODEL_LABEL, OLLAMA_MODEL_CONSTRAINT),
        Err(invalid_setting_toast(OLLAMA_MODEL_LABEL, OLLAMA_MODEL_CONSTRAINT))
    );
    assert_eq!(
        validate_setting(
            "0.8",
            |s| parse_bounded_f64(s, 0.0, 2.0),
            OLLAMA_TEMPERATURE_LABEL,
            OLLAMA_TEMPERATURE_CONSTRAINT,
        ),
        Ok(0.8)
    );
    assert_eq!(
        validate_setting(
            "3",
            |s| parse_bounded_f64(s, 0.0, 2.0),
            OLLAMA_TEMPERATURE_LABEL,
            OLLAMA_TEMPERATURE_CONSTRAINT,
        ),
        Err(invalid_setting_toast(OLLAMA_TEMPERATURE_LABEL, OLLAMA_TEMPERATURE_CONSTRAINT))
    );
    assert_eq!(
        validate_setting("-1", parse_ollama_num_predict, OLLAMA_NUM_PREDICT_LABEL, OLLAMA_NUM_PREDICT_CONSTRAINT),
        Ok(DEFAULT_OLLAMA_NUM_PREDICT)
    );
    assert_eq!(
        validate_setting("-2", parse_ollama_num_predict, OLLAMA_NUM_PREDICT_LABEL, OLLAMA_NUM_PREDICT_CONSTRAINT),
        Err(invalid_setting_toast(OLLAMA_NUM_PREDICT_LABEL, OLLAMA_NUM_PREDICT_CONSTRAINT))
    );
    assert_eq!(
        validate_setting("2048", parse_positive_u32, OLLAMA_NUM_CTX_LABEL, OLLAMA_NUM_CTX_CONSTRAINT),
        Ok(DEFAULT_OLLAMA_NUM_CTX)
    );
    assert_eq!(
        validate_setting("0", parse_positive_u32, OLLAMA_NUM_CTX_LABEL, OLLAMA_NUM_CTX_CONSTRAINT),
        Err(invalid_setting_toast(OLLAMA_NUM_CTX_LABEL, OLLAMA_NUM_CTX_CONSTRAINT))
    );
    assert_eq!(
        validate_setting("0.9", |s| parse_bounded_f64(s, 0.0, 1.0), OLLAMA_TOP_P_LABEL, OLLAMA_TOP_P_CONSTRAINT),
        Ok(0.9)
    );
    assert_eq!(
        validate_setting("1.1", |s| parse_bounded_f64(s, 0.0, 1.0), OLLAMA_TOP_P_LABEL, OLLAMA_TOP_P_CONSTRAINT),
        Err(invalid_setting_toast(OLLAMA_TOP_P_LABEL, OLLAMA_TOP_P_CONSTRAINT))
    );
    assert_eq!(
        validate_setting("40", parse_positive_u32, OLLAMA_TOP_K_LABEL, OLLAMA_TOP_K_CONSTRAINT),
        Ok(DEFAULT_OLLAMA_TOP_K)
    );
    assert_eq!(
        validate_setting("0", parse_positive_u32, OLLAMA_TOP_K_LABEL, OLLAMA_TOP_K_CONSTRAINT),
        Err(invalid_setting_toast(OLLAMA_TOP_K_LABEL, OLLAMA_TOP_K_CONSTRAINT))
    );
    assert_eq!(
        validate_setting("Enter", normalize_hotkey_key, SAVE_HOTKEY_LABEL, HOTKEY_CONSTRAINT),
        Err(invalid_setting_toast(SAVE_HOTKEY_LABEL, HOTKEY_CONSTRAINT))
    );
}

#[test]
fn parse_gemini_settings_accept_key_and_model_for_models_url() {
    assert_eq!(parse_gemini_api_key(DEFAULT_GEMINI_API_KEY), Some(DEFAULT_GEMINI_API_KEY.to_string()));
    assert_eq!(parse_gemini_api_key("  AIzaSyExample  "), Some("AIzaSyExample".to_string()));
    assert_eq!(parse_gemini_api_key("AIza Sy"), None);
    assert_eq!(parse_gemini_model(DEFAULT_GEMINI_MODEL), Some(DEFAULT_GEMINI_MODEL.to_string()));
    assert_eq!(parse_gemini_model("  "), None);
    assert_eq!(parse_gemini_model("models/gemini-2.5-flash"), None);
    let key = parse_gemini_api_key("AIzaSyExample").expect("valid Gemini API key");
    let model = parse_gemini_model(DEFAULT_GEMINI_MODEL).expect("valid Gemini model");
    assert_eq!(
        gemini_model_url(&model, &key),
        "https://generativelanguage.googleapis.com/v1beta/models/gemini-2.5-flash?key=AIzaSyExample"
    );
}

#[test]
fn whole_numbers_parse_like_str_parse() {
    assert_eq!(parse_results_per_page("+7"), Some(7));
    assert_eq!(parse_results_per_page(" 7"), None);
    assert_eq!(parse_positive_u32("4294967295"), Some(4294967295));
    assert_eq!(parse_positive_u32("4294967296"), None);
    assert_eq!(parse_ollama_num_predict("-0"), Some(0));
    assert_eq!(parse_ollama_num_predict("2147483647"), Some(2147483647));
    assert_eq!(parse_ollama_num_predict("2147483648"), None);
}

#[test]
fn incomplete_floats_are_recognised() {
    for raw in ["", " ", "-", ".", "-.", "1.", "1e", "1E", "1e-", "1E+"] {
        assert!(is_incomplete_float(raw), "{raw}");
    }
    for raw in ["1", "0.5", "1e3"] {
        assert!(!is_incomplete_float(raw), "{raw}");
    }
}
