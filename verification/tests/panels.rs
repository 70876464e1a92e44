use notezilla::panels::{activity_btn_class, panel_class, sidebar_class, toggle_panel, ActivePanel};
use notezilla::search::{can_next, can_prev, page_offset, search_query_ready, warns_without_session, SearchAction};

#[test]
fn activity_buttons_toggle_their_panel() {
    assert_eq!(toggle_panel(None, ActivePanel::Files), Some(ActivePanel::Files));
    assert_eq!(toggle_panel(Some(ActivePanel::Files), ActivePanel::Files), None);
    assert_eq!(toggle_panel(Some(ActivePanel::Files), ActivePanel::Search), Some(ActivePanel::Search));
    let twice = toggle_panel(toggle_panel(Some(ActivePanel::Prompt), ActivePanel::Settings), ActivePanel::Settings);
    assert_eq!(twice, None);
}

#[test]
fn sidebar_and_panel_classes() {
    assert_eq!(sidebar_class(None, true), "sidebar-panel collapsed");
    assert_eq!(sidebar_class(Some(ActivePanel::Files), true), "sidebar-panel resizing");
    assert_eq!(sidebar_class(Some(ActivePanel::Files), false), "sidebar-panel");
    assert_eq!(panel_class(Some(ActivePanel::Search), ActivePanel::Search), "");
    assert_eq!(panel_class(Some(ActivePanel::Search), ActivePanel::Files), "is-hidden");
    assert_eq!(activity_btn_class(true), "activity-btn is-active");
    assert_eq!(activity_btn_class(false), "activity-btn");
}

#[test]
fn search_pages_advance_and_saturate() {
    assert_eq!(page_offset(40, 20, SearchAction::Go), 0);
    assert_eq!(page_offset(40, 20, SearchAction::Enter), 0);
    assert_eq!(page_offset(40, 20, SearchAction::Next), 60);
    assert_eq!(page_offset(40, 20, SearchAction::Prev), 20);
    assert_eq!(page_offset(10, 20, SearchAction::Prev), 0);
    assert_eq!(page_offset(usize::MAX - 1, 20, SearchAction::Next), usize::MAX);
    assert_eq!(page_offset(page_offset(40, 20, SearchAction::Next), 20, SearchAction::Prev), 40);
    assert!(can_prev(1));
    assert!(!can_prev(0));
    assert!(can_next(20, 20));
    assert!(!can_next(3, 20));
    assert!(search_query_ready(" q "));
    assert!(!search_query_ready("   "));
    assert!(!warns_without_session(SearchAction::Enter));
    assert!(warns_without_session(SearchAction::Next));
}
