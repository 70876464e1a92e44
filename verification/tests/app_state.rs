use notezilla::app_state::{
    add_front_matter, append_new_file, apply_fetched_note, apply_fetched_note_to, delete_entry,
    delete_front_matter, entry_is_being_edited, entry_markdown, on_file_change_notify,
    open_fetched_note, open_imported_file, relative_path_from_file, select_note,
    toggle_markdown_editing, AppState,
};
use notezilla::block::{EditorEntry, FrontMatterBlock};
use notezilla::constants::DEFAULT_MARKDOWN_PATH;
use notezilla::file_tree_backend::FileTreeBackend;
use notezilla::import::{JsonScalar, JsonValue};
use notezilla::note::NoteFile;

fn note(text: &str, meta: Vec<(String, JsonValue)>) -> NoteFile {
    NoteFile { filename: "a.md".to_string(), text: text.to_string(), metadata: meta }
}

#[test]
fn delete_entry_removes_matching_id() {
    let mut state = AppState::new();
    let id = state.entries[0].title.id;
    delete_entry(&mut state, id);
    assert!(state.entries.is_empty());
    delete_entry(&mut state, id);
    assert!(state.entries.is_empty());
}

#[test]
fn delete_entry_keeps_other_entries_in_order() {
    let mut state = AppState::new();
    state.entries.push(EditorEntry::new(5, "./b.md", "b"));
    state.entries.push(EditorEntry::new(6, "./c.md", "c"));
    delete_entry(&mut state, 5);
    let ids: Vec<u64> = state.entries.iter().map(|e| e.title.id).collect();
    assert_eq!(ids, vec![0, 6]);
}

#[test]
fn add_front_matter_inserts_default_tags() {
    let mut state = AppState::new();
    let id = state.entries[0].title.id;
    add_front_matter(&mut state, id);
    let fm = state.entries[0].front_matter.as_ref().expect("front matter");
    assert_eq!(fm.raw, "tags: []");
}

#[test]
fn delete_front_matter_clears_the_block() {
    let mut state = AppState::new();
    let id = state.entries[0].title.id;
    add_front_matter(&mut state, id);
    delete_front_matter(&mut state, id);
    assert!(state.entries[0].front_matter.is_none());
}

#[test]
fn entry_markdown_returns_raw_source() {
    let mut state = AppState::new();
    let entry = EditorEntry::new(9, "./a.md", "body");
    state.entries = vec![entry];
    assert_eq!(entry_markdown(&state, 9).as_deref(), Some("body"));

    state.entries[0].front_matter = Some(FrontMatterBlock::new("title: x"));
    assert_eq!(entry_markdown(&state, 9).as_deref(), Some("---\ntitle: x\n---\nbody"));

    state.entries[0].front_matter = Some(FrontMatterBlock::new(""));
    assert_eq!(entry_markdown(&state, 9).as_deref(), Some("body"));

    assert_eq!(entry_markdown(&state, 10), None);
}

#[test]
fn append_new_file_adds_an_empty_focused_entry() {
    let mut state = AppState::new();
    append_new_file(&mut state);
    assert_eq!(state.entries.len(), 2);
    assert_eq!(state.entries[0].title.path, DEFAULT_MARKDOWN_PATH);
    let added = &state.entries[1];
    assert_eq!(added.title.path, "./new_file.md");
    assert_eq!(added.content.text, "");
    assert!(added.content.focused);
}

#[test]
fn append_new_file_skips_focus_when_editing_disabled() {
    let mut state = AppState::new();
    state.markdown_editing_enabled = false;
    append_new_file(&mut state);
    assert!(!state.entries[1].content.focused);
}

#[test]
fn append_new_file_goes_before_templates_with_a_fresh_id() {
    let mut state = AppState::new();
    let mut tmpl = EditorEntry::new(50, "./t.md", "t");
    tmpl.backend = FileTreeBackend::Templates;
    state.entries.push(tmpl);
    append_new_file(&mut state);
    assert_eq!(state.entries[1].title.path, "./new_file.md");
    assert_eq!(state.entries[2].backend, FileTreeBackend::Templates);
    assert_ne!(state.entries[1].title.id, state.entries[0].title.id);
}

#[test]
fn toggle_markdown_editing_flips_the_flag() {
    let mut state = AppState::new();
    assert!(state.markdown_editing_enabled);
    toggle_markdown_editing(&mut state);
    assert!(!state.markdown_editing_enabled);
    toggle_markdown_editing(&mut state);
    assert!(state.markdown_editing_enabled);
}

#[test]
fn on_file_change_notify_bumps_the_notes_tree_epoch() {
    let mut state = AppState::new();
    on_file_change_notify(&mut state);
    assert_eq!(state.file_tree_epoch, 1);
    assert_eq!(state.template_tree_epoch, 0);
}

#[test]
fn on_file_change_notify_reloads_idle_notes_only() {
    let mut state = AppState::new();
    assert!(on_file_change_notify(&mut state).is_empty());
    state.session_id = Some("sid".to_string());
    let mut busy = EditorEntry::new(1, "./busy.md", "b");
    busy.title.focused = true;
    let mut tmpl = EditorEntry::new(2, "./t.md", "t");
    tmpl.backend = FileTreeBackend::Templates;
    state.entries.push(busy);
    state.entries.push(tmpl);
    state.entries.push(EditorEntry::new(3, ".\\sub\\c.md", "c"));
    let targets = on_file_change_notify(&mut state);
    let got: Vec<(u64, String)> = targets.into_iter().map(|t| (t.entry_id, t.path)).collect();
    assert_eq!(
        got,
        vec![(0, "example_folder/new_markdown.md".to_string()), (3, "sub/c.md".to_string())]
    );
    assert_eq!(state.file_tree_epoch, 2);
}

#[test]
fn apply_fetched_note_updates_body_when_it_changed() {
    let mut entry = EditorEntry::new(1, "./a.md", "old");
    let fetched = note("new", Vec::new());
    assert!(apply_fetched_note(&mut entry, &fetched));
    assert_eq!(entry.content.text, "new");
    assert!(!apply_fetched_note(&mut entry, &fetched));
    assert_eq!(entry.content.text, "new");
}

#[test]
fn apply_fetched_note_replaces_front_matter_and_keeps_focus() {
    let mut entry = EditorEntry::new(1, "./a.md", "body");
    let mut block = FrontMatterBlock::new("title: old");
    block.focused = true;
    entry.front_matter = Some(block);
    let meta = vec![("title".to_string(), JsonValue::Scalar(JsonScalar::Str("new".to_string())))];
    assert!(!apply_fetched_note(&mut entry, &note("body", meta)));
    let fm = entry.front_matter.as_ref().expect("front matter");
    assert_eq!(fm.raw, "title: new");
    assert!(fm.focused);
    apply_fetched_note(&mut entry, &note("body", Vec::new()));
    assert!(entry.front_matter.is_none());
}

#[test]
fn apply_fetched_note_to_finds_the_entry() {
    let mut state = AppState::new();
    assert!(apply_fetched_note_to(&mut state, 0, &note("fresh", Vec::new())));
    assert_eq!(state.entries[0].content.text, "fresh");
    assert!(!apply_fetched_note_to(&mut state, 42, &note("x", Vec::new())));
}

#[test]
fn entry_is_being_edited_checks_every_block() {
    let mut entry = EditorEntry::new(1, "./a.md", "x");
    assert!(!entry_is_being_edited(&entry));
    entry.content.focused = true;
    assert!(entry_is_being_edited(&entry));
    entry.content.focused = false;
    let mut block = FrontMatterBlock::new("a: b");
    block.focused = true;
    entry.front_matter = Some(block);
    assert!(entry_is_being_edited(&entry));
}

#[test]
fn imported_files_open_at_their_display_path() {
    assert_eq!(relative_path_from_file(Some("dir/a.md".to_string()), "a.md"), "dir/a.md");
    assert_eq!(relative_path_from_file(Some(String::new()), "a.md"), "a.md");
    assert_eq!(relative_path_from_file(None, "a.md"), "a.md");
    let mut state = AppState::new();
    open_imported_file(&mut state, None, "b.md", "---\ntitle: x\n---\nbody");
    let added = &state.entries[1];
    assert_eq!(added.title.path, "./b.md");
    assert_eq!(added.content.text, "body");
    assert_eq!(added.front_matter.as_ref().expect("front matter").raw, "title: x");
}

#[test]
fn fetched_notes_open_in_place_of_the_same_path() {
    let mut state = AppState::new();
    select_note(&mut state, "example_folder/new_markdown.md");
    assert_eq!(state.current_path.as_deref(), Some("example_folder/new_markdown.md"));
    open_fetched_note(&mut state, "example_folder/new_markdown.md", &note("loaded", Vec::new()));
    assert_eq!(state.entries.len(), 1);
    assert_eq!(state.entries[0].title.path, "./example_folder/new_markdown.md");
    assert_eq!(state.entries[0].content.text, "loaded");
}
