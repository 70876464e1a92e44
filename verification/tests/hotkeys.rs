use notezilla::hotkeys::{
    format_ctrl_hotkey, hotkey_action, hotkey_capture, keys_match, normalize_hotkey_key,
    HotkeyAction, HotkeyCapture, HotkeyKeys,
};

fn default_keys() -> HotkeyKeys {
    HotkeyKeys { save: 's', new_file: 'n', import: 'i', export: 'e', toggle_markdown_editing: 'm' }
}

#[test]
fn normalize_hotkey_key_takes_one_printable_letter() {
    assert_eq!(normalize_hotkey_key("S"), Some('s'));
    assert_eq!(normalize_hotkey_key(" s "), Some('s'));
    assert_eq!(normalize_hotkey_key("ab"), None);
    assert_eq!(normalize_hotkey_key(""), None);
    assert_eq!(normalize_hotkey_key("\u{1}"), None);
}

#[test]
fn keys_match_ignores_case() {
    assert!(keys_match("S", 's'));
    assert!(keys_match("s", 's'));
    assert!(!keys_match("n", 's'));
    assert!(!keys_match("ab", 'a'));
}

#[test]
fn format_ctrl_hotkey_uppercases_the_key() {
    assert_eq!(format_ctrl_hotkey('s'), "Ctrl+S");
    assert_eq!(format_ctrl_hotkey('N'), "Ctrl+N");
}

#[test]
fn hotkey_action_needs_ctrl_or_meta_without_alt() {
    let keys = default_keys();
    assert_eq!(hotkey_action(true, false, false, "s", keys), Some(HotkeyAction::Save));
    assert_eq!(hotkey_action(false, true, false, "N", keys), Some(HotkeyAction::NewFile));
    assert_eq!(hotkey_action(true, false, false, "i", keys), Some(HotkeyAction::Import));
    assert_eq!(hotkey_action(true, false, false, "e", keys), Some(HotkeyAction::Export));
    assert_eq!(
        hotkey_action(true, false, false, "m", keys),
        Some(HotkeyAction::ToggleMarkdownEditing)
    );
    assert_eq!(hotkey_action(false, false, false, "s", keys), None);
    assert_eq!(hotkey_action(true, false, true, "s", keys), None);
    assert_eq!(hotkey_action(true, false, false, "x", keys), None);
}

#[test]
fn hotkey_capture_passes_modifiers_and_rejects_long_keys() {
    assert_eq!(hotkey_capture("Tab"), HotkeyCapture::Ignore);
    assert_eq!(hotkey_capture("Shift"), HotkeyCapture::Ignore);
    assert_eq!(hotkey_capture("K"), HotkeyCapture::Assign('k'));
    assert_eq!(hotkey_capture("Enter"), HotkeyCapture::Reject);
}
