use notezilla::import::{JsonScalar, JsonValue};
use notezilla::note::NoteFile;

fn note(filename: &str) -> NoteFile {
    NoteFile { filename: filename.to_string(), text: String::new(), metadata: Vec::new() }
}

#[test]
fn file_name_returns_basename_or_unknown() {
    assert_eq!(note("folder/hello.md").file_name(), "hello.md");
    assert_eq!(note("folder\\hello.md").file_name(), "hello.md");
    assert_eq!(note("hello.md").file_name(), "hello.md");
    assert_eq!(note("folder/").file_name(), "unknown.md");
    assert_eq!(note("").file_name(), "unknown.md");
}

#[test]
fn snippet_text_truncates_with_ellipsis() {
    assert_eq!(NoteFile::snippet_text("hello", 10), "hello");
    assert_eq!(NoteFile::snippet_text("hello", 3), "hel\u{2026}");
    assert_eq!(NoteFile::snippet_text("café", 3), "caf\u{2026}");
    assert_eq!(NoteFile::snippet_text("", 5), "");
    assert_eq!(NoteFile::snippet_text("abc", 3), "abc");
}

#[test]
fn metadata_keys_must_be_distinct() {
    let mut n = note("a.md");
    assert!(n.has_distinct_keys());
    n.metadata.push(("title".to_string(), JsonValue::Scalar(JsonScalar::Null)));
    n.metadata.push(("tags".to_string(), JsonValue::Scalar(JsonScalar::Null)));
    assert!(n.has_distinct_keys());
    n.metadata.push(("title".to_string(), JsonValue::Scalar(JsonScalar::Bool(true))));
    assert!(!n.has_distinct_keys());
}
