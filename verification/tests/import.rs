use notezilla::block::EditorEntry;
use notezilla::import::{
    entry_from_markdown, entry_from_note, format_front_matter_line, format_yaml_scalar,
    front_matter_from_metadata, is_internal_metadata_key, json_value_from_text,
    open_note_in_editor, JsonScalar, JsonValue,
};

fn text(s: &str) -> JsonValue {
    JsonValue::Scalar(JsonScalar::Str(s.to_string()))
}

#[test]
fn is_internal_metadata_key_matches_filename_text_and_newline() {
    assert!(is_internal_metadata_key("filename"));
    assert!(is_internal_metadata_key("text"));
    assert!(is_internal_metadata_key("\ninternal"));
    assert!(!is_internal_metadata_key("title"));
}

#[test]
fn format_yaml_scalar_stringifies_json_values() {
    assert_eq!(format_yaml_scalar(&JsonScalar::Str("hello".to_string())), "hello");
    assert_eq!(format_yaml_scalar(&JsonScalar::Number("2".to_string())), "2");
    assert_eq!(format_yaml_scalar(&JsonScalar::Bool(true)), "true");
    assert_eq!(format_yaml_scalar(&JsonScalar::Null), "");
    assert_eq!(format_yaml_scalar(&JsonScalar::Compound("{\"a\":1}".to_string())), "{\"a\":1}");
}

#[test]
fn format_front_matter_line_formats_scalars_and_arrays() {
    assert_eq!(format_front_matter_line("title", &text("Hello")), "title: Hello");
    assert_eq!(
        format_front_matter_line("n", &JsonValue::Scalar(JsonScalar::Number("3".to_string()))),
        "n: 3"
    );
    let tags = JsonValue::Array(vec![
        JsonScalar::Str("b".to_string()),
        JsonScalar::Str("a".to_string()),
    ]);
    assert_eq!(format_front_matter_line("tags", &tags), "tags: [b, a]");
    assert_eq!(format_front_matter_line("tags", &text("[\"a\", \"b\"]")), "tags: [a, b]");
}

#[test]
fn front_matter_from_metadata_builds_sorted_yaml() {
    let meta = vec![
        ("filename".to_string(), text("skip.md")),
        ("text".to_string(), text("body")),
        ("title".to_string(), text("Hello")),
        ("priority".to_string(), JsonValue::Scalar(JsonScalar::Number("1".to_string()))),
        ("tags\twork".to_string(), JsonValue::Scalar(JsonScalar::Bool(true))),
        ("tags\thome".to_string(), JsonValue::Scalar(JsonScalar::Bool(true))),
        ("tags\tskip".to_string(), JsonValue::Scalar(JsonScalar::Bool(false))),
    ];
    let yaml = front_matter_from_metadata(&meta).expect("yaml");
    assert_eq!(yaml, "priority: 1\ntitle: Hello\ntags: [home, work]");
    assert_eq!(front_matter_from_metadata(&Vec::new()), None);
}

#[test]
fn entry_from_markdown_splits_front_matter() {
    let entry = entry_from_markdown(1, "./a.md", "---\ntitle: x\n---\nbody");
    assert_eq!(entry.title.path, "./a.md");
    assert_eq!(entry.content.text, "body");
    let fm = entry.front_matter.expect("front matter");
    assert_eq!(fm.raw, "title: x");

    let empty = entry_from_markdown(2, "./b.md", "");
    assert_eq!(empty.content.text, "");
    assert!(empty.front_matter.is_none());
}

#[test]
fn entry_from_note_uses_metadata_as_front_matter() {
    let meta = vec![("title".to_string(), text("Hello"))];
    let entry = entry_from_note(1, "./a.md", "body", &meta);
    assert_eq!(entry.content.text, "body");
    let fm = entry.front_matter.expect("front matter");
    assert_eq!(fm.raw, "title: Hello");
}

#[test]
fn open_note_in_editor_replaces_same_path() {
    let mut entries = vec![EditorEntry::new(1, "./a.md", "old")];
    open_note_in_editor(&mut entries, EditorEntry::new(2, "./a.md", "new"));
    assert_eq!(entries.len(), 1);
    assert_eq!(entries[0].content.text, "new");

    open_note_in_editor(&mut entries, EditorEntry::new(3, "./b.md", "other"));
    assert_eq!(entries.len(), 2);
}

#[test]
fn json_value_from_text_reads_scalars_and_arrays() {
    assert!(matches!(
        json_value_from_text("\"hi\""),
        Some(JsonValue::Scalar(JsonScalar::Str(s))) if s == "hi"
    ));
    assert!(matches!(
        json_value_from_text("[1, \"a\"]"),
        Some(JsonValue::Array(items)) if items.len() == 2
    ));
    assert!(matches!(
        json_value_from_text("{\"a\":1}"),
        Some(JsonValue::Scalar(JsonScalar::Compound(s))) if s == "{\"a\":1}"
    ));
    assert!(json_value_from_text("not-json").is_none());
}
