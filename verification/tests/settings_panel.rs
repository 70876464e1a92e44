use notezilla::info_messages::{
    invalid_setting_toast, HOTKEY_CONSTRAINT, OLLAMA_PORT_CONSTRAINT, OLLAMA_PORT_LABEL,
    SAVE_HOTKEY_LABEL,
};
use notezilla::settings_panel::{
    apply_if_valid, commit_setting, field_text, hotkey_field_label, hotkey_keydown,
    signed_decimal_string, HotkeyField, HotkeyKeyOutcome, SettingField, Settings,
};

#[test]
fn commit_applies_valid_values_and_toasts_invalid_ones() {
    let mut s = Settings::defaults();
    assert_eq!(commit_setting(&mut s, SettingField::OllamaPort, "8080"), None);
    assert_eq!(s.ollama_port, 8080);
    assert_eq!(
        commit_setting(&mut s, SettingField::OllamaPort, "0"),
        Some(invalid_setting_toast(OLLAMA_PORT_LABEL, OLLAMA_PORT_CONSTRAINT))
    );
    assert_eq!(s.ollama_port, 8080);
    assert_eq!(field_text(&s, SettingField::OllamaPort), "8080");
    assert_eq!(commit_setting(&mut s, SettingField::GeminiModel, " gemini-pro "), None);
    assert_eq!(s.gemini_model, "gemini-pro");
    assert!(commit_setting(&mut s, SettingField::GeminiModel, "models/x").is_some());
    assert_eq!(s.gemini_model, "gemini-pro");
}

#[test]
fn typing_applies_only_valid_values() {
    let mut s = Settings::defaults();
    apply_if_valid(&mut s, SettingField::ResultsPerPage, "");
    assert_eq!(s.results_per_page, 20);
    apply_if_valid(&mut s, SettingField::ResultsPerPage, "5");
    assert_eq!(s.results_per_page, 5);
    apply_if_valid(&mut s, SettingField::OllamaNumPredict, "-1");
    assert_eq!(s.ollama_num_predict, -1);
    apply_if_valid(&mut s, SettingField::OllamaModel, "  ");
    assert_eq!(s.ollama_model, "qwen3:4b");
}

#[test]
fn shown_values_read_back_unchanged() {
    let mut s = Settings::defaults();
    for f in [
        SettingField::ResultsPerPage,
        SettingField::OllamaPort,
        SettingField::OllamaNumPredict,
        SettingField::OllamaNumCtx,
        SettingField::OllamaTopK,
        SettingField::OllamaModel,
        SettingField::GeminiModel,
    ] {
        let before = field_text(&s, f);
        assert_eq!(commit_setting(&mut s, f, &before), None);
        assert_eq!(field_text(&s, f), before);
    }
    assert_eq!(signed_decimal_string(i32::MIN), "-2147483648");
    assert_eq!(signed_decimal_string(0), "0");
}

#[test]
fn hotkey_fields_capture_printable_keys() {
    let mut s = Settings::defaults();
    assert!(matches!(hotkey_keydown(&mut s, HotkeyField::Save, "Tab"), HotkeyKeyOutcome::Passed));
    assert_eq!(s.hotkeys.save, 's');
    assert!(matches!(hotkey_keydown(&mut s, HotkeyField::Save, "K"), HotkeyKeyOutcome::Assigned('k')));
    assert_eq!(s.hotkeys.save, 'k');
    assert_eq!(hotkey_field_label(&s, HotkeyField::Save), "Save hotkey (Ctrl+K)");
    assert!(matches!(
        hotkey_keydown(&mut s, HotkeyField::Save, "Enter"),
        HotkeyKeyOutcome::Rejected(t) if t == invalid_setting_toast(SAVE_HOTKEY_LABEL, HOTKEY_CONSTRAINT)
    ));
    assert_eq!(s.hotkeys.save, 'k');
}
