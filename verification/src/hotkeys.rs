//! Ctrl/Meta hotkeys: how a settings value or a pressed key becomes a hotkey
//! letter, how hotkeys are labelled, and which action a key press triggers.

use vstd::prelude::*;
use crate::text::{chars_of, is_ws, is_ws_exec, string_of, trim, trimmed_chars};

verus! {

/// `char::is_control`: general category `Cc`.
pub open spec fn is_control(c: char) -> bool {
    ('\u{0}' <= c <= '\u{1f}') || ('\u{7f}' <= c <= '\u{9f}')
}

/// `char::to_ascii_lowercase`.
pub open spec fn ascii_lower(c: char) -> char {
    if 'A' <= c <= 'Z' {
        ((c as u32) + 32) as char
    } else {
        c
    }
}

/// `char::to_ascii_uppercase`.
pub open spec fn ascii_upper(c: char) -> char {
    if 'a' <= c <= 'z' {
        ((c as u32) - 32) as char
    } else {
        c
    }
}

/// The hotkey letter of a settings value: a single printable character
/// (after trimming), lowercased.
pub open spec fn hotkey_of(raw: Seq<char>) -> Option<char> {
    let t = trim(raw);
    if t.len() == 1 && !is_control(t[0]) && !is_ws(t[0]) {
        Some(ascii_lower(t[0]))
    } else {
        None
    }
}

/// Whether `c` is a control character.
pub fn is_control_exec(c: char) -> (r: bool)
    ensures
        r == is_control(c),
{
    ('\u{0}' <= c && c <= '\u{1f}') || ('\u{7f}' <= c && c <= '\u{9f}')
}

/// The ASCII lowercase of `c`.
pub fn ascii_lower_exec(c: char) -> (r: char)
    ensures
        r == ascii_lower(c),
{
    if 'A' <= c && c <= 'Z' {
        ((c as u8) + 32) as char
    } else {
        c
    }
}

/// The ASCII uppercase of `c`.
pub fn ascii_upper_exec(c: char) -> (r: char)
    ensures
        r == ascii_upper(c),
{
    if 'a' <= c && c <= 'z' {
        ((c as u8) - 32) as char
    } else {
        c
    }
}

/// Normalize a settings hotkey value to a single lowercase character.
pub fn normalize_hotkey_key(raw: &str) -> (r: Option<char>)
    ensures
        r == hotkey_of(raw@),
{
    let t = trimmed_chars(raw);
    if t.len() == 1 && !is_control_exec(t[0]) && !is_ws_exec(t[0]) {
        Some(ascii_lower_exec(t[0]))
    } else {
        None
    }
}

/// Return whether a pressed key matches the configured hotkey letter.
pub fn keys_match(pressed: &str, configured: char) -> (r: bool)
    ensures
        r == (hotkey_of(pressed@) == Some(configured)),
{
    match normalize_hotkey_key(pressed) {
        Some(c) => c == configured,
        None => false,
    }
}

/// Format a Ctrl/Meta hotkey for button titles and settings labels.
pub fn format_ctrl_hotkey(key: char) -> (r: String)
    ensures
        r@ == crate::info_messages::CTRL_HOTKEY_PREFIX@.push(ascii_upper(key)),
{
    let mut out = chars_of(crate::info_messages::CTRL_HOTKEY_PREFIX);
    out.push(ascii_upper_exec(key));
    string_of(&out)
}

/// The actions bound to global hotkeys.
#[derive(Clone, Copy, PartialEq, Eq, Debug, Structural)]
pub enum HotkeyAction {
    Save,
    NewFile,
    Import,
    Export,
    ToggleMarkdownEditing,
}

/// The configured hotkey letters.
#[derive(Clone, Copy, PartialEq, Eq, Debug, Structural)]
pub struct HotkeyKeys {
    pub save: char,
    pub new_file: char,
    pub import: char,
    pub export: char,
    pub toggle_markdown_editing: char,
}

/// The action a key press triggers: only with Ctrl or Meta and without Alt,
/// checked in the order save, new file, import, export, toggle editing.
pub open spec fn hotkey_action_of(
    ctrl: bool,
    meta: bool,
    alt: bool,
    pressed: Seq<char>,
    keys: HotkeyKeys,
) -> Option<HotkeyAction> {
    if !(ctrl || meta) || alt {
        None
    } else {
        let k = hotkey_of(pressed);
        if k == Some(keys.save) {
            Some(HotkeyAction::Save)
        } else if k == Some(keys.new_file) {
            Some(HotkeyAction::NewFile)
        } else if k == Some(keys.import) {
            Some(HotkeyAction::Import)
        } else if k == Some(keys.export) {
            Some(HotkeyAction::Export)
        } else if k == Some(keys.toggle_markdown_editing) {
            Some(HotkeyAction::ToggleMarkdownEditing)
        } else {
            None
        }
    }
}

/// Decide which global hotkey action a key press triggers, if any.
pub fn hotkey_action(ctrl: bool, meta: bool, alt: bool, pressed: &str, keys: HotkeyKeys) -> (r:
    Option<HotkeyAction>)
    ensures
        r == hotkey_action_of(ctrl, meta, alt, pressed@, keys),
{
    if !(ctrl || meta) || alt {
        return None;
    }
    if keys_match(pressed, keys.save) {
        Some(HotkeyAction::Save)
    } else if keys_match(pressed, keys.new_file) {
        Some(HotkeyAction::NewFile)
    } else if keys_match(pressed, keys.import) {
        Some(HotkeyAction::Import)
    } else if keys_match(pressed, keys.export) {
        Some(HotkeyAction::Export)
    } else if keys_match(pressed, keys.toggle_markdown_editing) {
        Some(HotkeyAction::ToggleMarkdownEditing)
    } else {
        None
    }
}

/// What a key press in a hotkey setting does.
#[derive(Clone, Copy, PartialEq, Eq, Debug, Structural)]
pub enum HotkeyCapture {
    /// Navigation and modifier keys pass through.
    Ignore,
    /// The setting becomes this letter.
    Assign(char),
    /// The key is not a valid hotkey; an invalid-setting toast is due.
    Reject,
}

/// Keys a hotkey setting lets through untouched.
pub open spec fn is_passthrough_key(key: Seq<char>) -> bool {
    key == "Tab"@ || key == "Escape"@ || key == "Shift"@ || key == "Control"@ || key == "Alt"@
        || key == "Meta"@
}

/// The effect of pressing `key` in a hotkey setting.
pub open spec fn hotkey_capture_of(key: Seq<char>) -> HotkeyCapture {
    if is_passthrough_key(key) {
        HotkeyCapture::Ignore
    } else {
        match hotkey_of(key) {
            Some(c) => HotkeyCapture::Assign(c),
            None => HotkeyCapture::Reject,
        }
    }
}

/// Whether the characters `k` spell `s`.
pub fn text_is(k: &Vec<char>, s: &str) -> (r: bool)
    ensures
        r == (k@ == s@),
{
    crate::path::chars_eq(k, &chars_of(s))
}

/// Decide what a key press in a hotkey setting does.
pub fn hotkey_capture(key: &str) -> (r: HotkeyCapture)
    ensures
        r == hotkey_capture_of(key@),
{
    let k = chars_of(key);
    if text_is(&k, "Tab") || text_is(&k, "Escape") || text_is(&k, "Shift") || text_is(&k, "Control")
        || text_is(&k, "Alt") || text_is(&k, "Meta") {
        return HotkeyCapture::Ignore;
    }
    match normalize_hotkey_key(key) {
        Some(c) => HotkeyCapture::Assign(c),
        None => HotkeyCapture::Reject,
    }
}

} // verus!
