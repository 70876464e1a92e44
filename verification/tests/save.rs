use notezilla::block::{EditorEntry, FrontMatterBlock};
use notezilla::save::{
    display_note_path, entry_save_params, normalize_markdown_body, normalize_note_path,
    yaml_to_fields,
};
use serde_json::Value;

fn fields_value(text: &str) -> Value {
    serde_json::from_str(text).expect("fields are JSON")
}

fn empty_object() -> Value {
    Value::Object(serde_json::Map::new())
}

fn hello_fields() -> Value {
    let mut map = serde_json::Map::new();
    map.insert("title".to_string(), Value::String("Hello".to_string()));
    map.insert("count".to_string(), Value::from(2));
    Value::Object(map)
}

#[test]
fn normalize_note_path_strips_dot_slash_and_normalises() {
    assert_eq!(normalize_note_path("./notes/a.md"), "notes/a.md");
    assert_eq!(normalize_note_path(".\\notes\\a.md"), "notes/a.md");
    assert_eq!(normalize_note_path("  notes/a.md  "), "notes/a.md");
    assert_eq!(normalize_note_path("notes/a.md"), "notes/a.md");
}

#[test]
fn display_note_path_prefixes_dot_slash() {
    assert_eq!(display_note_path("notes\\a.md"), "./notes/a.md");
    assert_eq!(display_note_path("./notes/a.md"), "./notes/a.md");
    assert_eq!(display_note_path("  notes/a.md  "), "./notes/a.md");
}

#[test]
fn entry_save_params_normalises_path_body_and_fields() {
    let mut entry = EditorEntry::new(1, "./notes\\hello.md", "a\r\nb");
    entry.front_matter = Some(FrontMatterBlock::new("title: Hello\ncount: 2"));
    let params = entry_save_params(&entry);
    assert_eq!(params.path, "notes/hello.md");
    assert_eq!(params.contents, "a\nb");
    assert_eq!(fields_value(&params.fields), hello_fields());
    assert_eq!(params.warning, None);
}

#[test]
fn entry_save_params_empty_front_matter_is_empty_object() {
    let mut entry = EditorEntry::new(1, "a.md", "body");
    let params = entry_save_params(&entry);
    assert_eq!(fields_value(&params.fields), empty_object());

    entry.front_matter = Some(FrontMatterBlock::new("   "));
    let params = entry_save_params(&entry);
    assert_eq!(fields_value(&params.fields), empty_object());
}

#[test]
fn normalize_markdown_body_converts_crlf() {
    assert_eq!(normalize_markdown_body("a\r\nb\r\n"), "a\nb\n");
    assert_eq!(normalize_markdown_body("a\nb"), "a\nb");
}

#[test]
fn yaml_to_fields_parses_mapping_or_empty() {
    assert_eq!(fields_value(&yaml_to_fields("").0), empty_object());
    assert_eq!(fields_value(&yaml_to_fields("  ").0), empty_object());
    assert_eq!(fields_value(&yaml_to_fields("title: Hello\ncount: 2").0), hello_fields());
}

#[test]
fn yaml_to_fields_falls_back_to_empty_object_with_a_warning() {
    let (fields, warning) = yaml_to_fields("title: [unclosed");
    assert_eq!(fields_value(&fields), empty_object());
    let warning = warning.expect("a parse warning");
    assert!(warning.starts_with("YAML parse failed, saving without front matter fields: "));
    assert_eq!(yaml_to_fields("title: ok").1, None);
}

#[test]
fn normalizing_a_displayed_path_names_the_same_note() {
    for raw in ["notes/a.md", "./notes/a.md", ".\\notes\\a.md", "  x.md "] {
        assert_eq!(normalize_note_path(&display_note_path(raw)), normalize_note_path(raw));
    }
}

#[test]
fn normalising_a_displayed_path_drops_exactly_its_prefix() {
    for raw in [" .\\notes\\a.md ", "./b.md", "c.md", "././d.md", ""] {
        let shown = display_note_path(raw);
        let backend = normalize_note_path(&shown);
        assert_eq!(format!("./{backend}"), shown);
        assert!(!backend.contains('\\'));
    }
    assert_eq!(normalize_note_path(&display_note_path(" .\\notes\\a.md ")), "notes/a.md");
}

#[test]
fn displaying_a_displayed_path_changes_nothing() {
    for raw in [" .\\notes\\a.md ", "./b.md", "c.md", "././d.md", ""] {
        let shown = display_note_path(raw);
        assert!(shown.starts_with("./"));
        assert!(!shown.contains('\\'));
        assert_eq!(display_note_path(&shown), shown);
    }
    assert_eq!(display_note_path(" .\\notes\\a.md "), "./notes/a.md");
}
