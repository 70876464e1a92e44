//! The editing behaviour of an entry's blocks: a click opens a block for
//! editing, typing changes its text, and leaving it closes it again. The main
//! markdown block opens only while main-text editing is enabled.

use vstd::prelude::*;
use crate::block::{FrontMatterBlock, MarkdownBlock, TitleBlock};
use crate::text::{chars_of, string_of};

verus! {

impl TitleBlock {
    /// A click on the title opens it for editing.
    pub fn click(&mut self)
        ensures
            final(self).focused,
            final(self).id == old(self).id,
            final(self).path == old(self).path,
            final(self).collapsed == old(self).collapsed,
    {
        if !self.focused {
            self.focused = true;
        }
    }

    /// The title input changed to `text`: the entry's path becomes `text`.
    pub fn input(&mut self, text: &str)
        ensures
            final(self).path@ == text@,
            final(self).id == old(self).id,
            final(self).focused == old(self).focused,
            final(self).collapsed == old(self).collapsed,
    {
        self.path = string_of(&chars_of(text));
    }

    /// The title input lost focus (Enter also leaves it): editing ends.
    pub fn blur(&mut self)
        ensures
            !final(self).focused,
            final(self).id == old(self).id,
            final(self).path == old(self).path,
            final(self).collapsed == old(self).collapsed,
    {
        self.focused = false;
    }
}

impl FrontMatterBlock {
    /// A click on the front matter opens it for editing.
    pub fn click(&mut self)
        ensures
            final(self).focused,
            final(self).raw == old(self).raw,
    {
        if !self.focused {
            self.focused = true;
        }
    }

    /// The front-matter text changed to `text`.
    pub fn input(&mut self, text: &str)
        ensures
            final(self).raw@ == text@,
            final(self).focused == old(self).focused,
    {
        self.raw = string_of(&chars_of(text));
    }

    /// The front-matter text lost focus: editing ends.
    pub fn blur(&mut self)
        ensures
            !final(self).focused,
            final(self).raw == old(self).raw,
    {
        self.focused = false;
    }
}

impl MarkdownBlock {
    /// A click on the block opens it for editing, while editing is enabled.
    pub fn click(&mut self, editing_enabled: bool)
        ensures
            final(self).focused == (old(self).focused || editing_enabled),
            final(self).text == old(self).text,
            final(self).html == old(self).html,
    {
        if editing_enabled && !self.focused {
            self.focused = true;
        }
    }

    /// The markdown text changed to `text`.
    pub fn input(&mut self, text: &str)
        ensures
            final(self).text@ == text@,
            final(self).focused == old(self).focused,
            final(self).html == old(self).html,
    {
        self.text = string_of(&chars_of(text));
    }

    /// The block lost focus: editing ends and its HTML is rendered again.
    /// Return whether rendering is due (always).
    pub fn blur(&mut self) -> (rerender: bool)
        ensures
            rerender,
            !final(self).focused,
            final(self).text == old(self).text,
            final(self).html == old(self).html,
    {
        self.focused = false;
        true
    }

    /// Main-text editing was switched to `editing_enabled`: a block being
    /// edited when editing is turned off leaves edit mode. Return whether its
    /// HTML is to be rendered again.
    pub fn editing_changed(&mut self, editing_enabled: bool) -> (rerender: bool)
        ensures
            rerender == (!editing_enabled && old(self).focused),
            final(self).focused == (old(self).focused && editing_enabled),
            final(self).text == old(self).text,
            final(self).html == old(self).html,
    {
        if !editing_enabled && self.focused {
            self.focused = false;
            true
        } else {
            false
        }
    }
}

/// CSS class of a markdown block: marked frozen while editing is off.
pub fn markdown_block_class(editing_enabled: bool) -> (r: &'static str)
    ensures
        r@ == (if editing_enabled {
            "editor-block"@
        } else {
            "editor-block editor-block-frozen"@
        }),
{
    if editing_enabled {
        "editor-block"
    } else {
        "editor-block editor-block-frozen"
    }
}

/// Whether the title row offers to add front matter: only when there is none.
pub fn shows_add_front_matter(front_matter: &Option<FrontMatterBlock>) -> (r: bool)
    ensures
        r == (front_matter is None),
{
    front_matter.is_none()
}

} // verus!
