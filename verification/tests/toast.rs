use notezilla::hotkeys::{HotkeyAction, HotkeyKeys};
use notezilla::info_messages::{CLIPBOARD_COPY_FAILED_TOAST, ERROR_COPIED_TOAST};
use notezilla::toast::{error_toast_copy_feedback, mcp_warning_message};
use notezilla::app_state::AppState;
use notezilla::block::{EditorEntry, FrontMatterBlock};
use notezilla::top_bar::{action_button_title, finish_save_run, save_requests, save_run_report, SaveTally};

#[test]
fn show_mcp_warnings_is_noop_when_unbound_or_empty() {
    assert_eq!(mcp_warning_message(&Vec::new()), None);
    assert_eq!(mcp_warning_message(&vec![String::new(), String::new()]), None);
    assert_eq!(mcp_warning_message(&vec!["warn".to_string()]), Some("warn".to_string()));
    assert_eq!(
        mcp_warning_message(&vec!["a".to_string(), String::new(), "b".to_string()]),
        Some("a\nb".to_string())
    );
}

#[test]
fn error_toast_copy_feedback_uses_status_copy() {
    assert_eq!(error_toast_copy_feedback(true), ERROR_COPIED_TOAST);
    assert_eq!(error_toast_copy_feedback(false), CLIPBOARD_COPY_FAILED_TOAST);
}

#[test]
fn save_tally_reports_counts_and_failures() {
    let mut tally = SaveTally::new();
    let report = tally.finish();
    assert!(!report.refresh_tree);
    assert_eq!(report.toast, None);
    assert_eq!(report.error_toast, None);
    tally.record("a.md", Ok(true));
    tally.record("b.md", Ok(false));
    tally.record("c.md", Ok(false));
    tally.record("d.md", Err("offline".to_string()));
    let report = tally.finish();
    assert!(report.refresh_tree);
    assert_eq!(report.toast.as_deref(), Some("Created 1 file and updated 2 files"));
    assert_eq!(report.error_toast.as_deref(), Some("Save failed for d.md: offline"));
}

#[test]
fn top_bar_titles_name_their_hotkeys() {
    let keys = HotkeyKeys { save: 's', new_file: 'n', import: 'i', export: 'e', toggle_markdown_editing: 'm' };
    assert_eq!(action_button_title(HotkeyAction::Save, keys, true), "Save (Ctrl+S)");
    assert_eq!(action_button_title(HotkeyAction::Import, keys, true), "Import Markdown (Ctrl+I)");
    assert_eq!(
        action_button_title(HotkeyAction::ToggleMarkdownEditing, keys, true),
        "Edit main text (on) (Ctrl+M)"
    );
    assert!(action_button_title(HotkeyAction::ToggleMarkdownEditing, keys, false).starts_with("Main text frozen"));
}

#[test]
fn save_requests_follow_the_entries_in_order() {
    let mut state = AppState::new();
    state.entries = Vec::new();
    state.entries.push(EditorEntry::new(1, " ./a.md ", "x\r\ny"));
    let mut b = EditorEntry::new(2, ".\\sub\\b.md", "b");
    b.front_matter = Some(FrontMatterBlock::new("title: B"));
    state.entries.push(b);
    assert!(save_requests(&state).is_none());
    state.session_id = Some("s".to_string());
    let requests = save_requests(&state).expect("session open");
    assert_eq!(requests.len(), 2);
    assert_eq!(requests[0].path, "a.md");
    assert_eq!(requests[0].contents, "x\ny");
    assert_eq!(requests[0].fields, "{}");
    assert_eq!(requests[1].path, "sub/b.md");
    assert_eq!(requests[1].fields, "{\"title\":\"B\"}");
}

#[test]
fn save_run_report_counts_every_outcome() {
    let paths = vec!["a.md".to_string(), "b.md".to_string(), "c.md".to_string(), "d.md".to_string()];
    let outcomes = vec![Err("offline".to_string()), Ok(true), Err("denied".to_string()), Ok(true)];
    let report = save_run_report(&paths, &outcomes);
    assert!(report.refresh_tree);
    assert_eq!(report.toast.as_deref(), Some("Created 2 files"));
    assert_eq!(
        report.error_toast.as_deref(),
        Some("Save failed for a.md: offline\nSave failed for c.md: denied")
    );
    let report = save_run_report(&Vec::new(), &Vec::new());
    assert!(!report.refresh_tree);
    assert_eq!(report.toast, None);
    assert_eq!(report.error_toast, None);
}

#[test]
fn finish_save_run_refreshes_the_notes_tree_only_after_a_save() {
    let mut state = AppState::new();
    let before = state.file_tree_epoch;
    let templates = state.template_tree_epoch;
    let report = finish_save_run(&mut state, &vec!["a.md".to_string()], &vec![Err("x".to_string())]);
    assert!(!report.refresh_tree);
    assert_eq!(state.file_tree_epoch, before);
    let report = finish_save_run(&mut state, &vec!["a.md".to_string()], &vec![Ok(false)]);
    assert!(report.refresh_tree);
    assert_eq!(report.toast.as_deref(), Some("Updated 1 file"));
    assert_eq!(state.file_tree_epoch, before + 1);
    assert_eq!(state.template_tree_epoch, templates);
}
