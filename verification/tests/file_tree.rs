use notezilla::app_state::AppState;
use notezilla::block::EditorEntry;
use notezilla::dialogs::{dialog_key, open_root_new_folder, DialogKey, NewFolderModalCtrl, RenameModalCtrl};
use notezilla::file_tree::{
    apply_move, apply_rename, bump_tree_epoch, file_row_class, folder_row_class,
    new_folder_request, rename_request, root_class, FileTreeDnD, FolderRequest, RenameRequest,
};
use notezilla::file_tree_backend::FileTreeBackend;
use notezilla::info_messages::{CREATE_FOLDER_SEPARATORS_TOAST, RENAME_SEPARATORS_TOAST};

#[test]
fn open_in_editor_keeps_a_single_template_last() {
    let mut list = vec![EditorEntry::new(1, "./note.md", "note")];
    FileTreeBackend::Templates.open_in_editor(&mut list, EditorEntry::new(2, "./t1.md", "one"));
    FileTreeBackend::Templates.open_in_editor(&mut list, EditorEntry::new(3, "./t2.md", "two"));
    assert_eq!(list.len(), 2);
    assert_eq!(list[0].backend, FileTreeBackend::Notes);
    assert_eq!(list[0].title.path, "./note.md");
    assert_eq!(list[1].backend, FileTreeBackend::Templates);
    assert_eq!(list[1].title.path, "./t2.md");

    FileTreeBackend::Notes.open_in_editor(&mut list, EditorEntry::new(4, "./b.md", "b"));
    assert_eq!(list.len(), 3);
    assert_eq!(list[1].title.path, "./b.md");
    assert_eq!(list[2].backend, FileTreeBackend::Templates);
}

#[test]
fn template_editor_classes_differ_from_notes() {
    assert_eq!(FileTreeBackend::Notes.entry_class(), "editor-entry");
    assert_eq!(FileTreeBackend::Templates.entry_class(), "editor-entry editor-entry-template");
}

#[test]
fn header_new_folder_opens_modal_at_root() {
    let mut ctrl = NewFolderModalCtrl::new();
    open_root_new_folder(&mut ctrl);
    assert_eq!(ctrl.parent_path.as_deref(), Some(""));
}

#[test]
fn drag_and_drop_accepts_only_valid_moves() {
    let mut dnd = FileTreeDnD::new();
    assert!(!dnd.drag_over("notes"));
    dnd.drag_start("notes/a.md");
    assert!(!dnd.drag_over("notes"));
    assert_eq!(dnd.drop_target, None);
    assert!(dnd.drag_over("archive"));
    assert_eq!(dnd.drop_target.as_deref(), Some("archive"));
    assert_eq!(root_class(&dnd), "p-2 file-tree-root");
    assert_eq!(folder_row_class("archive", &dnd), "drag-over");
    assert_eq!(dnd.drop_at("archive", None), Some("notes/a.md".to_string()));
    assert_eq!(dnd.drag_src, None);
    assert_eq!(dnd.drop_target, None);
}

#[test]
fn drop_uses_the_carried_path_without_a_recorded_source() {
    let mut dnd = FileTreeDnD::new();
    assert_eq!(dnd.drop_at("", Some("notes/a.md".to_string())), Some("notes/a.md".to_string()));
    assert_eq!(dnd.drop_at("", Some(String::new())), None);
    assert_eq!(dnd.drop_at("notes", Some("notes/a.md".to_string())), None);
}

#[test]
fn row_classes_mark_dragging_targets_and_the_current_note() {
    let mut dnd = FileTreeDnD::new();
    dnd.drag_start("notes");
    dnd.drop_target = Some("notes".to_string());
    assert_eq!(folder_row_class("notes", &dnd), "dragging drag-over");
    assert_eq!(folder_row_class("other", &dnd), "");
    dnd.drop_target = Some(String::new());
    assert_eq!(root_class(&dnd), "p-2 file-tree-root drag-over");
    let current = Some("a.md".to_string());
    assert_eq!(file_row_class("a.md", &current, &dnd), "is-active");
    dnd.drag_start("a.md");
    assert_eq!(file_row_class("a.md", &current, &dnd), "is-active dragging");
    assert_eq!(file_row_class("b.md", &None, &dnd), "");
}

#[test]
fn new_folder_requests_are_trimmed_and_checked() {
    assert!(matches!(new_folder_request("notes", "   "), FolderRequest::Ignore));
    assert!(matches!(
        new_folder_request("notes", "a/b"),
        FolderRequest::Reject(t) if t == CREATE_FOLDER_SEPARATORS_TOAST
    ));
    assert!(matches!(new_folder_request("notes", " sub "), FolderRequest::Create(p) if p == "notes/sub"));
    assert!(matches!(new_folder_request("", "top"), FolderRequest::Create(p) if p == "top"));
}

#[test]
fn rename_requests_keep_suffixes_and_skip_no_ops() {
    assert!(matches!(rename_request("notes/a.md", "  ", true), RenameRequest::Ignore));
    assert!(matches!(rename_request("notes/a.md", "a", true), RenameRequest::Ignore));
    assert!(matches!(
        rename_request("notes/a.md", "x\\y", true),
        RenameRequest::Reject(t) if t == RENAME_SEPARATORS_TOAST
    ));
    assert!(matches!(
        rename_request("notes/a.md", " b ", true),
        RenameRequest::Rename { new_name, resolved } if new_name == "b" && resolved == "b.md"
    ));
    assert!(matches!(
        rename_request("notes", "archive", false),
        RenameRequest::Rename { new_name, resolved } if new_name == "archive" && resolved == "archive"
    ));
}

#[test]
fn a_move_carries_open_notes_along() {
    let mut state = AppState::new();
    state.entries = vec![
        EditorEntry::new(1, "./notes/a.md", "a"),
        EditorEntry::new(2, "./notes/sub/b.md", "b"),
        EditorEntry::new(3, "./other.md", "c"),
    ];
    state.current_path = Some("notes/sub/b.md".to_string());
    let toast = apply_move(&mut state, FileTreeBackend::Notes, "notes/sub", "", "note folder root");
    assert_eq!(toast, "Moved sub to note folder root");
    assert_eq!(state.entries[0].title.path, "./notes/a.md");
    assert_eq!(state.entries[1].title.path, "./sub/b.md");
    assert_eq!(state.entries[2].title.path, "./other.md");
    assert_eq!(state.current_path.as_deref(), Some("sub/b.md"));
    assert_eq!(state.file_tree_epoch, 1);
    assert_eq!(state.template_tree_epoch, 0);
    let toast = apply_move(&mut state, FileTreeBackend::Templates, "other.md", "archive", "root");
    assert_eq!(toast, "Moved other.md to archive");
    assert_eq!(state.entries[2].title.path, "./archive/other.md");
    assert_eq!(state.template_tree_epoch, 1);
}

#[test]
fn a_rename_carries_open_notes_along() {
    let mut state = AppState::new();
    state.entries = vec![EditorEntry::new(1, "./notes/a.md", "a"), EditorEntry::new(2, "./notes/b.md", "b")];
    state.current_path = Some("notes/a.md".to_string());
    let toast = apply_rename(&mut state, FileTreeBackend::Notes, "notes/a.md", "z.md");
    assert_eq!(toast, "Renamed to z.md");
    assert_eq!(state.entries[0].title.path, "./notes/z.md");
    assert_eq!(state.entries[1].title.path, "./notes/b.md");
    assert_eq!(state.current_path.as_deref(), Some("notes/z.md"));
    let toast = apply_rename(&mut state, FileTreeBackend::Notes, "notes", "archive");
    assert_eq!(toast, "Renamed to archive");
    assert_eq!(state.entries[1].title.path, "./archive/b.md");
}

#[test]
fn tree_epochs_wrap() {
    let mut state = AppState::new();
    state.file_tree_epoch = u64::MAX;
    bump_tree_epoch(&mut state, FileTreeBackend::Notes);
    assert_eq!(state.file_tree_epoch, 0);
}

#[test]
fn rename_dialog_confirms_with_its_draft() {
    let mut ctrl = RenameModalCtrl::new();
    assert_eq!(ctrl.confirm(), None);
    ctrl.open("notes/a.md", true);
    assert_eq!(ctrl.draft, "a.md");
    assert_eq!(ctrl.title(), "Rename file");
    ctrl.input("b.md");
    assert_eq!(ctrl.key("x"), None);
    assert_eq!(ctrl.key("Enter"), Some(("notes/a.md".to_string(), "b.md".to_string(), true)));
    assert_eq!(ctrl.path, None);
    ctrl.open("notes", false);
    assert_eq!(ctrl.title(), "Rename folder");
    assert_eq!(ctrl.key("Escape"), None);
    assert_eq!(ctrl.path, None);
}

#[test]
fn new_folder_dialog_confirms_with_its_draft() {
    let mut ctrl = NewFolderModalCtrl::new();
    ctrl.open("notes");
    ctrl.input("sub");
    assert_eq!(ctrl.confirm(), Some(("notes".to_string(), "sub".to_string())));
    assert_eq!(ctrl.parent_path, None);
    ctrl.open("notes");
    assert_eq!(ctrl.draft, "");
    ctrl.close();
    assert_eq!(ctrl.key("Enter"), None);
    assert_eq!(dialog_key("Escape"), DialogKey::Dismiss);
    assert_eq!(dialog_key("Enter"), DialogKey::Confirm);
    assert_eq!(dialog_key("a"), DialogKey::Type);
}
