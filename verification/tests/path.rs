use notezilla::path::{
    diagram_svg_filename, DiagramKind,
    basename, html_page_title, is_invalid_move, join_path, parent_path, path_to_html_filename,
    path_to_markdown_filename, path_to_pdf_filename, rebase_path, resolved_rename_basename,
    rewrite_path_after_move, rewrite_path_after_rename, strip_md_ext,
};

#[test]
fn basename_returns_last_segment() {
    assert_eq!(basename("notes/hello.md"), "hello.md");
    assert_eq!(basename("notes\\hello.md"), "hello.md");
    assert_eq!(basename("hello.md"), "hello.md");
    assert_eq!(basename("notes/"), "notes/");
    assert_eq!(basename(""), "");
}

#[test]
fn strip_md_ext_drops_markdown_suffixes() {
    assert_eq!(strip_md_ext("hello.md"), "hello");
    assert_eq!(strip_md_ext("hello.markdown"), "hello");
    assert_eq!(strip_md_ext("hello.txt"), "hello.txt");
    assert_eq!(strip_md_ext("hello.md.bak"), "hello.md.bak");
}

#[test]
fn path_to_markdown_filename_keeps_or_adds_md() {
    assert_eq!(path_to_markdown_filename("notes/hello.md"), "hello.md");
    assert_eq!(path_to_markdown_filename("notes/hello.markdown"), "hello.markdown");
    assert_eq!(path_to_markdown_filename("notes/hello"), "hello.md");
}

#[test]
fn path_to_html_filename_strips_md_and_uses_basename() {
    assert_eq!(path_to_html_filename("notes/hello.md"), "hello.html");
    assert_eq!(path_to_html_filename("notes/hello.markdown"), "hello.html");
    assert_eq!(path_to_html_filename("no-ext"), "no-ext.html");
}

#[test]
fn path_to_pdf_filename_strips_md_and_uses_basename() {
    assert_eq!(path_to_pdf_filename("notes/hello.md"), "hello.pdf");
    assert_eq!(path_to_pdf_filename("notes/hello.markdown"), "hello.pdf");
    assert_eq!(path_to_pdf_filename("notes\\windows.md"), "windows.pdf");
    assert_eq!(path_to_pdf_filename("no-ext"), "no-ext.pdf");
}

#[test]
fn html_page_title_strips_md_and_uses_basename() {
    assert_eq!(html_page_title("notes/hello.md"), "hello");
    assert_eq!(html_page_title("notes/hello.markdown"), "hello");
    assert_eq!(html_page_title("no-ext"), "no-ext");
}

#[test]
fn join_path_joins_or_returns_name() {
    assert_eq!(join_path("notes", "a.md"), "notes/a.md");
    assert_eq!(join_path("", "a.md"), "a.md");
}

#[test]
fn parent_path_returns_directory_or_empty() {
    assert_eq!(parent_path("notes/sub/a.md"), "notes/sub");
    assert_eq!(parent_path("a.md"), "");
}

#[test]
fn is_invalid_move_rejects_noop_and_into_self() {
    assert!(is_invalid_move("", "notes"));
    assert!(is_invalid_move("notes/a.md", "notes"));
    assert!(is_invalid_move("notes", "notes"));
    assert!(is_invalid_move("notes", "notes/sub"));
    assert!(!is_invalid_move("notes/a.md", "other"));
    assert!(!is_invalid_move("notes-old", "notes"));
}

#[test]
fn rewrite_path_after_move_updates_src_and_children() {
    assert_eq!(
        rewrite_path_after_move("notes/a.md", "notes/a.md", "other"),
        Some("other/a.md".into())
    );
    assert_eq!(
        rewrite_path_after_move("notes/sub/b.md", "notes", "archive"),
        Some("archive/notes/sub/b.md".into())
    );
    assert_eq!(rewrite_path_after_move("other/x.md", "notes", "archive"), None);
}

#[test]
fn resolved_rename_basename_preserves_file_suffix() {
    assert_eq!(resolved_rename_basename("a.md", "b", true), "b.md");
    assert_eq!(resolved_rename_basename("a.md", "b.txt", true), "b.txt");
    assert_eq!(resolved_rename_basename("folder", "renamed", false), "renamed");
    assert_eq!(resolved_rename_basename(".hidden", "x", true), "x");
    assert_eq!(resolved_rename_basename("noext", "x", true), "x");
}

#[test]
fn rewrite_path_after_rename_updates_src_and_children() {
    assert_eq!(
        rewrite_path_after_rename("notes/a.md", "notes/a.md", "b.md"),
        Some("notes/b.md".into())
    );
    assert_eq!(
        rewrite_path_after_rename("notes/sub/x.md", "notes", "archive"),
        Some("archive/sub/x.md".into())
    );
    assert_eq!(rewrite_path_after_rename("other/x.md", "notes", "archive"), None);
}

#[test]
fn moved_item_lands_directly_in_destination() {
    let moved = rewrite_path_after_move("notes/sub/a.md", "notes/sub/a.md", "archive").unwrap();
    assert_eq!(parent_path(&moved), "archive");
    assert_eq!(basename(&moved), "a.md");
    let to_root = rewrite_path_after_move("notes/a.md", "notes/a.md", "").unwrap();
    assert_eq!(to_root, "a.md");
    assert_eq!(parent_path(&to_root), "");
}

#[test]
fn renamed_item_stays_in_its_folder() {
    let renamed = rewrite_path_after_rename("notes/sub/a.md", "notes/sub/a.md", "b.md").unwrap();
    assert_eq!(parent_path(&renamed), "notes/sub");
    assert_eq!(basename(&renamed), "b.md");
}

#[test]
fn join_then_parent_and_basename_give_the_parts() {
    let joined = join_path("a/b", "c.md");
    assert_eq!(parent_path(&joined), "a/b");
    assert_eq!(basename(&joined), "c.md");
}

#[test]
fn rebase_path_moves_descendants_only() {
    assert_eq!(rebase_path("x/y", "x", "z"), Some("z/y".to_string()));
    assert_eq!(rebase_path("x", "x", "z"), Some("z".to_string()));
    assert_eq!(rebase_path("xy", "x", "z"), None);
}

#[test]
fn diagram_svg_files_are_named_by_stem_kind_and_index() {
    let path = "./folder/new-markdown.md";
    assert_eq!(diagram_svg_filename(path, DiagramKind::Mermaid.as_str(), 0), "new-markdown_mermaid_0.svg");
    assert_eq!(diagram_svg_filename(path, DiagramKind::Graphviz.as_str(), 1), "new-markdown_graphviz_1.svg");
    assert_eq!(diagram_svg_filename("x", "mermaid", 12), "x_mermaid_12.svg");
}
