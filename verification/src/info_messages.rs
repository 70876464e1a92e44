//! User-visible copy of the notes frontend and the messages built from it.

use vstd::prelude::*;
use crate::text::{chars_of, decimal, decimal_exec, push_all, push_str, string_of};

verus! {

pub const ACTIVITY_FILES_TITLE: &'static str = "Files";
pub const ACTIVITY_TEMPLATES_TITLE: &'static str = "Templates";
pub const ACTIVITY_SEARCH_TITLE: &'static str = "Search";
pub const ACTIVITY_PROMPT_TITLE: &'static str = "Send prompt";
pub const ACTIVITY_SETTINGS_TITLE: &'static str = "Settings";
pub const IMPORT_MARKDOWN_TITLE: &'static str = "Import Markdown";
pub const SAVE_TITLE: &'static str = "Save";
pub const EXPORT_HTML_TITLE: &'static str = "Export as HTML";
pub const EXPORT_PDF_TITLE: &'static str = "Export as PDF";
pub const EXPORT_MARKDOWN_TITLE: &'static str = "Export as Markdown";
pub const EDIT_MAIN_TEXT_ON_TITLE: &'static str = "Edit main text (on)";
pub const EDIT_MAIN_TEXT_FROZEN_TITLE: &'static str = "Main text frozen — select and copy without opening the editor";
pub const NEW_FILE_TITLE: &'static str = "New File";
pub const NEW_FILE_BUTTON: &'static str = "＋";
pub const NOTES_HEADING: &'static str = "NOTES";
pub const TEMPLATES_HEADING: &'static str = "TEMPLATE MARKDOWN RESPONSES";
pub const NOTE_FOLDER_ROOT_LABEL: &'static str = "note folder root";
pub const TEMPLATE_FOLDER_ROOT_LABEL: &'static str = "template folder root";
pub const NEW_FOLDER_TITLE: &'static str = "New folder";
pub const CREATE_FOLDER_SEPARATORS_TOAST: &'static str = "Create folder failed: name cannot contain path separators";
pub const RENAME_SEPARATORS_TOAST: &'static str = "Rename failed: name cannot contain path separators";
pub const OPEN_MENU: &'static str = "Open";
pub const RENAME_MENU: &'static str = "Rename";
pub const DELETE_MENU: &'static str = "Delete";
pub const NEW_FOLDER_MENU: &'static str = "New Folder";
pub const RENAME_FILE_TITLE: &'static str = "Rename file";
pub const RENAME_FOLDER_TITLE: &'static str = "Rename folder";
pub const CANCEL_BUTTON: &'static str = "Cancel";
pub const RENAME_BUTTON: &'static str = "Rename";
pub const CREATE_BUTTON: &'static str = "Create";
pub const FOLDER_NAME_PLACEHOLDER: &'static str = "Folder name";
pub const SEARCH_HEADING: &'static str = "SEARCH";
pub const SEARCH_PLACEHOLDER: &'static str = "Search notes...";
pub const SEARCH_GO_BUTTON: &'static str = "Go";
pub const PATH_FILTER_LABEL: &'static str = "Path filter";
pub const PATH_FILTER_PLACEHOLDER: &'static str = "2026/02";
pub const FRONT_MATTER_FILTER_LABEL: &'static str = "Front matter filter";
pub const FRONT_MATTER_FILTER_PLACEHOLDER: &'static str = "tags: [hello]\ndate: 2025-01-01";
pub const PREV_BUTTON: &'static str = "Prev";
pub const NEXT_BUTTON: &'static str = "Next";
pub const PROMPT_HEADING: &'static str = "Send prompt";
pub const PROMPT_PLACEHOLDER: &'static str = "Write a prompt...";
pub const OUTPUT_FILE_LABEL: &'static str = "output file";
pub const SEND_BUTTON: &'static str = "Send";
pub const COPY_BUTTON: &'static str = "Copy";
pub const COPY_PROMPT_TITLE: &'static str = "Copy prompt";
pub const ENTER_PROMPT_TOAST: &'static str = "Enter a prompt";
pub const PROMPT_COPIED_TOAST: &'static str = "Copied prompt";
pub const CLIPBOARD_COPY_FAILED_TOAST: &'static str = "Clipboard copy failed";
pub const SETTINGS_HEADING: &'static str = "SETTINGS";
pub const RESULTS_PER_PAGE_LABEL: &'static str = "Results per page";
pub const OLLAMA_PORT_LABEL: &'static str = "Ollama port";
pub const SAVE_HOTKEY_LABEL: &'static str = "Save hotkey";
pub const NEW_FILE_HOTKEY_LABEL: &'static str = "New file hotkey";
pub const IMPORT_HOTKEY_LABEL: &'static str = "Import hotkey";
pub const EXPORT_HOTKEY_LABEL: &'static str = "Export hotkey";
pub const TOGGLE_MARKDOWN_EDITING_HOTKEY_LABEL: &'static str = "Toggle markdown editing";
pub const EXPAND_SECTION_TITLE: &'static str = "Expand section";
pub const COLLAPSE_SECTION_TITLE: &'static str = "Collapse section";
pub const ADD_FRONTMATTER_TITLE: &'static str = "Add frontmatter";
pub const DELETE_BLOCK_TITLE: &'static str = "Delete block";
pub const DELETE_FRONT_MATTER_TITLE: &'static str = "Delete front matter";
pub const FILE_READ_ERROR_TOAST: &'static str = "File cannot be read";
pub const EXPORT_METADATA_HEADING: &'static str = "Metadata";
pub const CTRL_HOTKEY_PREFIX: &'static str = "Ctrl+";
pub const PAGE_TITLE: &'static str = "Notezilla";

pub const MARKDOWN_COPIED_TOAST: &'static str = "Copied markdown";
pub const ERROR_COPIED_TOAST: &'static str = "Copied error";
pub const ERROR_TOAST_COPY_TITLE: &'static str = "Click to copy";
pub const HOTKEY_CONSTRAINT: &'static str = "a single printable character";
pub const RESULTS_PER_PAGE_CONSTRAINT: &'static str = "a whole number of at least 1";
pub const OLLAMA_PORT_CONSTRAINT: &'static str = "a port from 1 to 65535";
pub const OLLAMA_MODEL_LABEL: &'static str = "Ollama model";
pub const OLLAMA_MODEL_CONSTRAINT: &'static str = "a non-empty model name";
pub const OLLAMA_TEMPERATURE_LABEL: &'static str = "Temperature";
pub const OLLAMA_TEMPERATURE_CONSTRAINT: &'static str = "a number from 0 to 2";
pub const OLLAMA_NUM_PREDICT_LABEL: &'static str = "Max output tokens";
pub const OLLAMA_NUM_PREDICT_CONSTRAINT: &'static str = "a whole number of at least -1";
pub const OLLAMA_NUM_CTX_LABEL: &'static str = "Context window";
pub const OLLAMA_NUM_CTX_CONSTRAINT: &'static str = "a whole number of at least 1";
pub const OLLAMA_TOP_P_LABEL: &'static str = "Top P";
pub const OLLAMA_TOP_P_CONSTRAINT: &'static str = "a number from 0 to 1";
pub const OLLAMA_TOP_K_LABEL: &'static str = "Top K";
pub const OLLAMA_TOP_K_CONSTRAINT: &'static str = "a whole number of at least 1";
pub const GEMINI_API_KEY_LABEL: &'static str = "Gemini API key";
pub const GEMINI_API_KEY_CONSTRAINT: &'static str = "a key without spaces";
pub const GEMINI_MODEL_LABEL: &'static str = "Gemini model";
pub const GEMINI_MODEL_CONSTRAINT: &'static str = "a non-empty model id without '/'";

// --- Formatted messages ---

/// `label` followed by ` (hotkey)`.
pub open spec fn with_hotkey_text(label: Seq<char>, hotkey: Seq<char>) -> Seq<char> {
    label + " ("@ + hotkey + ")"@
}

/// A count with the matching noun: `1 file`, otherwise `N files`.
pub open spec fn file_count_text(count: nat) -> Seq<char> {
    if count == 1 {
        "1 file"@
    } else {
        decimal(count) + " files"@
    }
}

/// The toast after a multi-file save; empty when nothing was saved.
pub open spec fn save_summary_text(created: nat, updated: nat) -> Seq<char> {
    if created == 0 && updated == 0 {
        Seq::empty()
    } else if updated == 0 {
        "Created "@ + file_count_text(created)
    } else if created == 0 {
        "Updated "@ + file_count_text(updated)
    } else {
        "Created "@ + file_count_text(created) + " and updated "@ + file_count_text(updated)
    }
}

/// `prefix` + `subject` + `: ` + `error`.
pub open spec fn failure_text(prefix: Seq<char>, subject: Seq<char>, error: Seq<char>) -> Seq<char> {
    prefix + subject + ": "@ + error
}

/// The overlay label while file `index` (from 0) of `total` is generated.
pub open spec fn export_progress_text(filename: Seq<char>, index: nat, total: nat) -> Seq<char> {
    if total <= 1 {
        "Generating "@ + filename
    } else {
        "Generating "@ + filename + " ("@ + decimal(index + 1) + " of "@ + decimal(total) + ")"@
    }
}

/// The toast for a rejected setting value.
pub open spec fn invalid_setting_text(label: Seq<char>, constraint: Seq<char>) -> Seq<char> {
    "Invalid "@ + label + ": must be "@ + constraint
}

/// Return `label` with a parenthetical hotkey for titles and settings.
pub fn with_hotkey(label: &str, hotkey: &str) -> (r: String)
    ensures
        r@ == with_hotkey_text(label@, hotkey@),
{
    let mut out = chars_of(label);
    push_str(&mut out, " (");
    push_str(&mut out, hotkey);
    push_str(&mut out, ")");
    string_of(&out)
}

/// Characters of [`file_count_label`].
fn file_count_chars(count: usize) -> (r: Vec<char>)
    ensures
        r@ == file_count_text(count as nat),
{
    if count == 1 {
        chars_of("1 file")
    } else {
        let mut out = decimal_exec(count);
        push_str(&mut out, " files");
        out
    }
}

/// Return a count with the matching singular or plural file noun.
pub fn file_count_label(count: usize) -> (r: String)
    ensures
        r@ == file_count_text(count as nat),
{
    string_of(&file_count_chars(count))
}

/// Return the toast text after a multi-file save.
pub fn format_save_summary(created: usize, updated: usize) -> (r: String)
    ensures
        r@ == save_summary_text(created as nat, updated as nat),
{
    let mut out: Vec<char> = Vec::new();
    if created == 0 && updated == 0 {
    } else if updated == 0 {
        push_str(&mut out, "Created ");
        push_all(&mut out, &file_count_chars(created));
    } else if created == 0 {
        push_str(&mut out, "Updated ");
        push_all(&mut out, &file_count_chars(updated));
    } else {
        push_str(&mut out, "Created ");
        push_all(&mut out, &file_count_chars(created));
        push_str(&mut out, " and updated ");
        push_all(&mut out, &file_count_chars(updated));
    }
    string_of(&out)
}

/// `prefix` + `subject` + `: ` + `error`.
fn failure(prefix: &str, subject: &str, error: &str) -> (r: String)
    ensures
        r@ == failure_text(prefix@, subject@, error@),
{
    let mut out = chars_of(prefix);
    push_str(&mut out, subject);
    push_str(&mut out, ": ");
    push_str(&mut out, error);
    string_of(&out)
}

/// `prefix` + `subject`.
fn prefixed(prefix: &str, subject: &str) -> (r: String)
    ensures
        r@ == prefix@ + subject@,
{
    let mut out = chars_of(prefix);
    push_str(&mut out, subject);
    string_of(&out)
}

/// Return the toast text when a save fails for `path`.
pub fn save_failed_toast(path: &str, error: &str) -> (r: String)
    ensures
        r@ == failure_text("Save failed for "@, path@, error@),
{
    failure("Save failed for ", path, error)
}

/// Return the toast text after moving an item.
pub fn moved_toast(name: &str, dest: &str) -> (r: String)
    ensures
        r@ == "Moved "@ + name@ + " to "@ + dest@,
{
    let mut out = chars_of("Moved ");
    push_str(&mut out, name);
    push_str(&mut out, " to ");
    push_str(&mut out, dest);
    string_of(&out)
}

/// Return the toast text when a move fails.
pub fn move_failed_toast(src: &str, error: &str) -> (r: String)
    ensures
        r@ == failure_text("Move failed for "@, src@, error@),
{
    failure("Move failed for ", src, error)
}

/// Return the toast text after creating a folder.
pub fn created_folder_toast(path: &str) -> (r: String)
    ensures
        r@ == "Created folder "@ + path@,
{
    prefixed("Created folder ", path)
}

/// Return the toast text when folder creation fails.
pub fn create_folder_failed_toast(path: &str, error: &str) -> (r: String)
    ensures
        r@ == failure_text("Create folder failed for "@, path@, error@),
{
    failure("Create folder failed for ", path, error)
}

/// Return the toast text after a rename.
pub fn renamed_toast(resolved: &str) -> (r: String)
    ensures
        r@ == "Renamed to "@ + resolved@,
{
    prefixed("Renamed to ", resolved)
}

/// Return the toast text when a rename fails.
pub fn rename_failed_toast(path: &str, error: &str) -> (r: String)
    ensures
        r@ == failure_text("Rename failed for "@, path@, error@),
{
    failure("Rename failed for ", path, error)
}

/// Return the toast text after deleting a folder.
pub fn deleted_folder_toast(path: &str) -> (r: String)
    ensures
        r@ == "Deleted folder "@ + path@,
{
    prefixed("Deleted folder ", path)
}

/// Return the toast text when folder deletion fails.
pub fn delete_folder_failed_toast(path: &str, error: &str) -> (r: String)
    ensures
        r@ == failure_text("Delete folder failed for "@, path@, error@),
{
    failure("Delete folder failed for ", path, error)
}

/// Return the toast text after deleting a file.
pub fn deleted_toast(path: &str) -> (r: String)
    ensures
        r@ == "Deleted "@ + path@,
{
    prefixed("Deleted ", path)
}

/// Return the toast text when file deletion fails.
pub fn delete_failed_toast(path: &str, error: &str) -> (r: String)
    ensures
        r@ == failure_text("Delete failed for "@, path@, error@),
{
    failure("Delete failed for ", path, error)
}

/// Return the overlay label for the file currently being generated.
pub fn export_progress_label(filename: &str, index: usize, total: usize) -> (r: String)
    requires
        total > 1 ==> index < usize::MAX,
    ensures
        r@ == export_progress_text(filename@, index as nat, total as nat),
{
    let mut out = chars_of("Generating ");
    push_str(&mut out, filename);
    if total > 1 {
        push_str(&mut out, " (");
        push_all(&mut out, &decimal_exec(index + 1));
        push_str(&mut out, " of ");
        push_all(&mut out, &decimal_exec(total));
        push_str(&mut out, ")");
    }
    string_of(&out)
}

/// Return the toast text when an HTML or markdown export download fails.
pub fn export_failed_toast(filename: &str, err: &str) -> (r: String)
    ensures
        r@ == failure_text("Export failed for "@, filename@, err@),
{
    failure("Export failed for ", filename, err)
}

/// Return the toast text when a PDF download fails.
pub fn pdf_export_failed_toast(filename: &str, err: &str) -> (r: String)
    ensures
        r@ == failure_text("PDF export failed for "@, filename@, err@),
{
    failure("PDF export failed for ", filename, err)
}

/// Return the toast text when HTML-to-PDF conversion fails.
pub fn pdf_conversion_failed_toast(filename: &str, error: &str) -> (r: String)
    ensures
        r@ == failure_text("PDF conversion failed for "@, filename@, error@),
{
    failure("PDF conversion failed for ", filename, error)
}

/// Return the toast text for a setting value that does not meet its constraint.
pub fn invalid_setting_toast(label: &str, constraint: &str) -> (r: String)
    ensures
        r@ == invalid_setting_text(label@, constraint@),
{
    let mut out = chars_of("Invalid ");
    push_str(&mut out, label);
    push_str(&mut out, ": must be ");
    push_str(&mut out, constraint);
    string_of(&out)
}

} // verus!
