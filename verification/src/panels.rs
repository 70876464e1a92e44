//! The activity bar and sidebar: which panel is shown and how the buttons and
//! panels are styled.

use vstd::prelude::*;

verus! {

/// The sidebar panels.
#[derive(Clone, Copy, PartialEq, Eq, Debug, Structural)]
pub enum ActivePanel {
    Files,
    Templates,
    Search,
    Prompt,
    Settings,
}

/// The panel shown after its activity button is pressed: pressing the shown
/// panel's button hides the sidebar, any other button shows that panel.
pub open spec fn toggled(current: Option<ActivePanel>, panel: ActivePanel) -> Option<ActivePanel> {
    if current == Some(panel) {
        None
    } else {
        Some(panel)
    }
}

/// Switch the sidebar for a press of `panel`'s activity button.
pub fn toggle_panel(current: Option<ActivePanel>, panel: ActivePanel) -> (r: Option<ActivePanel>)
    ensures
        r == toggled(current, panel),
{
    match current {
        Some(p) => {
            if p == panel {
                None
            } else {
                Some(panel)
            }
        },
        None => Some(panel),
    }
}

/// CSS class of an activity or top-bar button, highlighted when active.
pub fn activity_btn_class(active: bool) -> (r: &'static str)
    ensures
        r@ == (if active {
            "activity-btn is-active"@
        } else {
            "activity-btn"@
        }),
{
    if active {
        "activity-btn is-active"
    } else {
        "activity-btn"
    }
}

/// CSS class of the sidebar: collapsed without a panel, marked while resizing.
pub fn sidebar_class(active: Option<ActivePanel>, resizing: bool) -> (r: &'static str)
    ensures
        r@ == (if active is None {
            "sidebar-panel collapsed"@
        } else if resizing {
            "sidebar-panel resizing"@
        } else {
            "sidebar-panel"@
        }),
{
    match active {
        None => "sidebar-panel collapsed",
        Some(_) => {
            if resizing {
                "sidebar-panel resizing"
            } else {
                "sidebar-panel"
            }
        },
    }
}

/// CSS class of a panel's container: hidden unless it is the shown panel.
pub fn panel_class(active: Option<ActivePanel>, panel: ActivePanel) -> (r: &'static str)
    ensures
        r@ == (if active == Some(panel) {
            ""@
        } else {
            "is-hidden"@
        }),
{
    if active == Some(panel) {
        ""
    } else {
        "is-hidden"
    }
}

/// Pressing the same activity button twice leaves the sidebar as it was.
pub proof fn lemma_toggle_twice(current: Option<ActivePanel>, panel: ActivePanel)
    ensures
        toggled(toggled(current, panel), panel) == (if current == Some(panel) {
            Some(panel)
        } else {
            None::<ActivePanel>
        }),
{
}

/// After pressing a button, that panel is shown or the sidebar is hidden, and
/// at most one panel is shown.
pub proof fn lemma_toggle_shows_pressed(current: Option<ActivePanel>, panel: ActivePanel)
    ensures
        toggled(current, panel) is None || toggled(current, panel) == Some(panel),
{
}

} // verus!
