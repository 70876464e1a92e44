use notezilla::constants::{
    ACCENT, BG_0, BG_1, BG_2, BG_3, BORDER, CODE, EXPORT_PDF_TEMPLATE, TEXT, TEXT_MUTED,
};

#[test]
fn export_pdf_stylesheet_matches_palette() {
    for (token, hex) in [
        ("--bg-0", BG_0),
        ("--bg-1", BG_1),
        ("--bg-2", BG_2),
        ("--bg-3", BG_3),
        ("--border", BORDER),
        ("--text", TEXT),
        ("--text-muted", TEXT_MUTED),
        ("--accent", ACCENT),
        ("--code", CODE),
    ] {
        let decl = format!("{token}: {hex}");
        assert!(EXPORT_PDF_TEMPLATE.contains(&decl), "missing {decl} in {EXPORT_PDF_TEMPLATE}");
    }
}

#[test]
fn export_pdf_stylesheet_uses_code_alias() {
    assert!(EXPORT_PDF_TEMPLATE.contains("color: var(--code)"));
    assert!(!EXPORT_PDF_TEMPLATE.contains(&format!("color: {CODE}")));
}
