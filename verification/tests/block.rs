use notezilla::app_state::AppState;
use notezilla::block::{entry_to_markdown, split_front_matter, EditorEntry, FrontMatterBlock};

#[test]
fn split_front_matter_extracts_yaml_and_body() {
    let (fm, body) = split_front_matter("---\ntitle: x\n---\nhello\n");
    assert_eq!(fm.as_deref(), Some("title: x"));
    assert_eq!(body, "hello\n");
}

#[test]
fn split_front_matter_accepts_eof_closing_delimiter() {
    let (fm, body) = split_front_matter("---\ntitle: x\n---");
    assert_eq!(fm.as_deref(), Some("title: x"));
    assert_eq!(body, "");
}

#[test]
fn split_front_matter_without_delimiters_is_body() {
    let src = "hello\n---\nnot front matter";
    let (fm, body) = split_front_matter(src);
    assert_eq!(fm, None);
    assert_eq!(body, src);

    let unclosed = "---\ntitle: x\n";
    let (fm, body) = split_front_matter(unclosed);
    assert_eq!(fm, None);
    assert_eq!(body, unclosed);
}

#[test]
fn split_front_matter_normalises_crlf() {
    let (fm, body) = split_front_matter("---\r\ntitle: x\r\n---\r\nbody");
    assert_eq!(fm.as_deref(), Some("title: x"));
    assert_eq!(body, "body");
}

#[test]
fn parse_fields_reads_key_value_lines() {
    let fields = FrontMatterBlock::parse_fields("title: Hello\n\n- skip\n: empty\ntags: [a, b]");
    assert_eq!(
        fields,
        vec![("title".to_string(), "Hello".to_string()), ("tags".to_string(), "[a, b]".to_string())]
    );
    assert_eq!(
        FrontMatterBlock::parse_fields("title:"),
        vec![("title".to_string(), "".to_string())]
    );
}

#[test]
fn empty_entry_has_path_and_blank_body() {
    let entry = EditorEntry::empty(7, "./a.md");
    assert_eq!(entry.title.path, "./a.md");
    assert_eq!(entry.content.text, "");
    assert!(entry.front_matter.is_none());
}

#[test]
fn title_blocks_receive_distinct_ids() {
    let mut state = AppState::new();
    let a = state.fresh_entry_id();
    let b = state.fresh_entry_id();
    assert_ne!(a, b);
}

#[test]
fn entry_to_markdown_includes_front_matter() {
    let mut entry = EditorEntry::new(1, "./a.md", "body");
    assert_eq!(entry_to_markdown(&entry), "body");

    entry.front_matter = Some(FrontMatterBlock::new("title: x"));
    assert_eq!(entry_to_markdown(&entry), "---\ntitle: x\n---\nbody");

    entry.front_matter = Some(FrontMatterBlock::new(""));
    assert_eq!(entry_to_markdown(&entry), "body");
}

#[test]
fn written_markdown_splits_back_into_its_parts() {
    let mut entry = EditorEntry::new(1, "./a.md", "hello\nworld");
    entry.front_matter = Some(FrontMatterBlock::new("title: x\ntags: [a]"));
    let text = entry_to_markdown(&entry);
    let (fm, body) = split_front_matter(&text);
    assert_eq!(fm.as_deref(), Some("title: x\ntags: [a]"));
    assert_eq!(body, "hello\nworld");

    let plain = EditorEntry::new(2, "./b.md", "just text");
    let (fm, body) = split_front_matter(&entry_to_markdown(&plain));
    assert_eq!(fm, None);
    assert_eq!(body, "just text");
}
