use notezilla::block::{EditorEntry, FrontMatterBlock};
use notezilla::constants::{BG_2, EXPORT_TEMPLATE};
use notezilla::path::DiagramKind;
use notezilla::export::{
    build_html_document, diagram_export_jobs, entry_body_html, escape_html, export_errors_toast, export_filename,
    export_run_plan, export_run_report, export_should_start, html_export_document,
    with_page_background, DiagramFence, ExportFormat,
};
use notezilla::info_messages::EXPORT_METADATA_HEADING;

#[test]
fn build_html_document_fills_title_and_body() {
    let html = build_html_document("<title>{{TITLE}}</title>{{BODY}}", "A & B", "<p>ok</p>");
    assert_eq!(html, "<title>A &amp; B</title><p>ok</p>");
}

#[test]
fn entry_body_html_prepends_escaped_front_matter() {
    let mut entry = EditorEntry::new(1, "./a.md", "ignored");
    entry.front_matter = Some(FrontMatterBlock::new("title: <x>"));
    let html = entry_body_html(&entry, "<p>md</p>");
    assert!(
        html.starts_with(&format!("<section class=\"frontmatter\"><h2>{EXPORT_METADATA_HEADING}</h2><pre>")),
        "{html}"
    );
    assert!(html.contains("title: &lt;x&gt;"), "{html}");
    assert!(html.ends_with("</pre></section><p>md</p>"), "{html}");

    let no_fm = EditorEntry::new(2, "./b.md", "ignored");
    assert_eq!(entry_body_html(&no_fm, "<p>md</p>"), "<p>md</p>");
}

#[test]
fn with_page_background_inserts_a_fill_rect() {
    let out = with_page_background("<svg viewBox=\"0 0 10 10\"><g/></svg>", BG_2);
    let rect = format!("<rect width=\"100%\" height=\"100%\" fill=\"{BG_2}\"/>");
    assert_eq!(out, format!("<svg viewBox=\"0 0 10 10\">{rect}<g/></svg>"));
    assert_eq!(with_page_background("<g/>", BG_2), "<g/>");
    assert_eq!(with_page_background("<svg/>", BG_2), "<svg/>");
}

#[test]
fn escape_html_escapes_markup() {
    assert_eq!(escape_html("<a href=\"x\">'&'</a>"), "&lt;a href=&quot;x&quot;&gt;&#39;&amp;&#39;&lt;/a&gt;");
    assert_eq!(escape_html("plain"), "plain");
    for c in escape_html("<>\"'").chars() {
        assert!(!"<>\"'".contains(c));
    }
}

#[test]
fn html_export_uses_the_page_title() {
    let entry = EditorEntry::new(1, "./notes/hello.md", "x");
    let doc = html_export_document(&entry, "<p>x</p>");
    assert!(doc.contains("<title>hello</title>"), "{doc}");
    assert!(doc.contains("<p>x</p>"), "{doc}");
}

#[test]
fn export_runs_report_their_failures() {
    assert!(export_should_start(false, 2));
    assert!(!export_should_start(true, 2));
    assert!(!export_should_start(false, 0));
    assert_eq!(export_errors_toast(&Vec::new()), None);
    assert_eq!(
        export_errors_toast(&vec!["a failed".to_string(), "b failed".to_string()]),
        Some("a failed\nb failed".to_string())
    );
}

#[test]
fn export_run_plan_names_and_labels_each_file() {
    let paths = vec!["./notes/a.md".to_string(), "b.markdown".to_string(), "c".to_string()];
    assert!(export_run_plan(true, ExportFormat::Html, &paths).is_none());
    assert!(export_run_plan(false, ExportFormat::Html, &Vec::new()).is_none());
    let plan = export_run_plan(false, ExportFormat::Pdf, &paths).expect("plan");
    assert_eq!(plan.names, vec!["a.pdf".to_string(), "b.pdf".to_string(), "c.pdf".to_string()]);
    assert_eq!(plan.labels[0], "Generating a.pdf (1 of 3)");
    assert_eq!(plan.labels[2], "Generating c.pdf (3 of 3)");
    let single = export_run_plan(false, ExportFormat::Markdown, &vec!["./x/y".to_string()]).expect("plan");
    assert_eq!(single.names, vec!["y.md".to_string()]);
    assert_eq!(single.labels, vec!["Generating y.md".to_string()]);
}

#[test]
fn export_filename_follows_the_format() {
    assert_eq!(export_filename(ExportFormat::Html, "dir/note.md"), "note.html");
    assert_eq!(export_filename(ExportFormat::Markdown, "dir/note.md"), "note.md");
    assert_eq!(export_filename(ExportFormat::Markdown, "dir/note.txt"), "note.txt.md");
}

#[test]
fn export_run_report_joins_the_failures_in_order() {
    assert_eq!(export_run_report(&vec![None, None]), None);
    let outcomes = vec![Some("first".to_string()), None, Some("second".to_string())];
    assert_eq!(export_run_report(&outcomes).as_deref(), Some("first\nsecond"));
}

#[test]
fn build_html_document_embeds_the_active_theme() {
    let night = build_html_document(EXPORT_TEMPLATE, "n", "<p>ok</p>");
    assert!(night.contains(r#"data-theme="dark""#), "{night}");
    assert!(night.contains("--text: #cdd6f4"), "{night}");
}

#[test]
fn diagram_export_jobs_names_each_diagram() {
    let markdown = "```mermaid\ngraph LR\n    A --> B\n```\n\n```graphviz\ndigraph { A -> B }\n```\n";
    let entry = EditorEntry::new(1, "./folder/new-markdown.md", markdown);
    let fences = vec![vec![
        DiagramFence { kind: DiagramKind::Mermaid, source: "graph LR\n    A --> B\n".to_string() },
        DiagramFence { kind: DiagramKind::Graphviz, source: "digraph { A -> B }\n".to_string() },
    ]];
    let jobs = diagram_export_jobs(&vec![entry], &fences);
    assert_eq!(jobs.len(), 2);
    assert_eq!(jobs[0].filename, "new-markdown_mermaid_0.svg");
    assert_eq!(jobs[1].filename, "new-markdown_graphviz_1.svg");
    assert_eq!(jobs[0].kind, DiagramKind::Mermaid);
    assert_eq!(jobs[1].kind, DiagramKind::Graphviz);
    assert!(jobs[0].source.contains("graph LR"), "{}", jobs[0].source);
    assert!(jobs[1].source.contains("digraph"), "{}", jobs[1].source);
}

#[test]
fn diagram_export_jobs_number_each_entry_from_zero() {
    let a = EditorEntry::new(1, "a.md", "");
    let b = EditorEntry::new(2, "dir/b.markdown", "");
    let fences = vec![
        vec![DiagramFence { kind: DiagramKind::Graphviz, source: "g".to_string() }],
        Vec::new(),
    ];
    let jobs = diagram_export_jobs(&vec![a, b], &fences);
    assert_eq!(jobs.len(), 1);
    assert_eq!(jobs[0].filename, "a_graphviz_0.svg");
    let fences = vec![
        vec![DiagramFence { kind: DiagramKind::Mermaid, source: "m".to_string() }],
        vec![DiagramFence { kind: DiagramKind::Mermaid, source: "n".to_string() }],
    ];
    let a = EditorEntry::new(1, "a.md", "");
    let b = EditorEntry::new(2, "dir/b.markdown", "");
    let jobs = diagram_export_jobs(&vec![a, b], &fences);
    let names: Vec<&str> = jobs.iter().map(|j| j.filename.as_str()).collect();
    assert_eq!(names, vec!["a_mermaid_0.svg", "b_mermaid_0.svg"]);
}
