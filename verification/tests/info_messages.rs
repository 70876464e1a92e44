use notezilla::info_messages::{
    export_progress_label, file_count_label, format_save_summary, invalid_setting_toast,
    moved_toast, save_failed_toast, with_hotkey,
};

#[test]
fn file_count_label_picks_singular_or_plural() {
    assert_eq!(file_count_label(1), "1 file");
    assert_eq!(file_count_label(0), "0 files");
    assert_eq!(file_count_label(2), "2 files");
}

#[test]
fn format_save_summary_describes_created_and_updated() {
    assert_eq!(format_save_summary(0, 0), "");
    assert_eq!(format_save_summary(1, 0), "Created 1 file");
    assert_eq!(format_save_summary(0, 2), "Updated 2 files");
    assert_eq!(format_save_summary(1, 2), "Created 1 file and updated 2 files");
}

#[test]
fn export_progress_label_names_the_file_and_index() {
    assert_eq!(export_progress_label("hello.pdf", 0, 1), "Generating hello.pdf");
    assert_eq!(export_progress_label("hello.pdf", 0, 3), "Generating hello.pdf (1 of 3)");
    assert_eq!(export_progress_label("note.html", 2, 3), "Generating note.html (3 of 3)");
}

#[test]
fn messages_compose_their_parts() {
    assert_eq!(with_hotkey("Save", "Ctrl+S"), "Save (Ctrl+S)");
    assert_eq!(save_failed_toast("a.md", "boom"), "Save failed for a.md: boom");
    assert_eq!(moved_toast("a.md", "notes"), "Moved a.md to notes");
    assert_eq!(invalid_setting_toast("Top K", "x"), "Invalid Top K: must be x");
}
