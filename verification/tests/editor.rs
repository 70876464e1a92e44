use notezilla::block::{EditorEntry, FrontMatterBlock};
use notezilla::editor::{markdown_block_class, shows_add_front_matter};

#[test]
fn markdown_block_opens_only_while_editing_is_enabled() {
    let mut entry = EditorEntry::new(1, "./a.md", "x");
    entry.content.click(false);
    assert!(!entry.content.focused);
    entry.content.click(true);
    assert!(entry.content.focused);
    entry.content.input("y");
    assert_eq!(entry.content.text, "y");
    assert!(entry.content.editing_changed(false));
    assert!(!entry.content.focused);
    assert!(!entry.content.editing_changed(false));
    entry.content.click(true);
    assert!(entry.content.blur());
    assert!(!entry.content.focused);
    assert_eq!(markdown_block_class(true), "editor-block");
    assert_eq!(markdown_block_class(false), "editor-block editor-block-frozen");
}

#[test]
fn title_and_front_matter_edit_in_place() {
    let mut entry = EditorEntry::new(1, "./a.md", "x");
    entry.title.click();
    entry.title.input("./b.md");
    entry.title.blur();
    assert_eq!(entry.title.path, "./b.md");
    assert!(!entry.title.focused);
    assert!(shows_add_front_matter(&entry.front_matter));
    let mut fm = FrontMatterBlock::new("a: 1");
    fm.click();
    fm.input("a: 2");
    assert!(fm.focused);
    fm.blur();
    assert_eq!(fm.raw, "a: 2");
    entry.front_matter = Some(fm);
    assert!(!shows_add_front_matter(&entry.front_matter));
}
