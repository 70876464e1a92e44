//! The rename and new-folder dialogs of the file trees: when they are open,
//! what their input holds, and what confirming or dismissing them yields.

use vstd::prelude::*;
use crate::info_messages::{RENAME_FILE_TITLE, RENAME_FOLDER_TITLE};
use crate::path::{basename, basename_of};
use crate::text::{chars_of, string_of};

verus! {

/// What a key press in a dialog's input does.
#[derive(Clone, Copy, PartialEq, Eq, Debug, Structural)]
pub enum DialogKey {
    /// Escape: close without confirming.
    Dismiss,
    /// Enter: confirm.
    Confirm,
    /// Any other key: typed into the input.
    Type,
}

/// The effect of key `key` in a dialog's input.
pub open spec fn dialog_key_of(key: Seq<char>) -> DialogKey {
    if key == "Escape"@ {
        DialogKey::Dismiss
    } else if key == "Enter"@ {
        DialogKey::Confirm
    } else {
        DialogKey::Type
    }
}

/// Decide what a key press in a dialog's input does.
pub fn dialog_key(key: &str) -> (r: DialogKey)
    ensures
        r == dialog_key_of(key@),
{
    let k = chars_of(key);
    if crate::hotkeys::text_is(&k, "Escape") {
        DialogKey::Dismiss
    } else if crate::hotkeys::text_is(&k, "Enter") {
        DialogKey::Confirm
    } else {
        DialogKey::Type
    }
}

/// Controller of the rename dialog: the item being renamed (none while
/// closed), whether it is a file, and the name typed so far.
pub struct RenameModalCtrl {
    pub path: Option<String>,
    pub is_file: bool,
    pub draft: String,
}

impl RenameModalCtrl {
    /// Create a closed rename-dialog controller.
    pub fn new() -> (r: Self)
        ensures
            r.path is None,
            r.is_file,
            r.draft@ == Seq::<char>::empty(),
    {
        RenameModalCtrl { path: None, is_file: true, draft: string_of(&Vec::new()) }
    }

    /// Open the rename dialog for `path`, with its basename as the draft.
    pub fn open(&mut self, path: &str, is_file: bool)
        ensures
            final(self).path matches Some(p) && p@ == path@,
            final(self).is_file == is_file,
            final(self).draft@ == basename_of(path@),
    {
        self.is_file = is_file;
        self.path = Some(path.to_string());
        self.draft = basename(path).to_string();
    }

    /// Close the rename dialog.
    pub fn close(&mut self)
        ensures
            final(self).path is None,
            final(self).is_file == old(self).is_file,
            final(self).draft == old(self).draft,
    {
        self.path = None;
    }

    /// The input changed to `text`.
    pub fn input(&mut self, text: &str)
        ensures
            final(self).draft@ == text@,
            final(self).path == old(self).path,
            final(self).is_file == old(self).is_file,
    {
        self.draft = text.to_string();
    }

    /// The dialog's title.
    pub fn title(&self) -> (r: &'static str)
        ensures
            r@ == (if self.is_file {
                RENAME_FILE_TITLE@
            } else {
                RENAME_FOLDER_TITLE@
            }),
    {
        if self.is_file {
            RENAME_FILE_TITLE
        } else {
            RENAME_FOLDER_TITLE
        }
    }

    /// Confirm: close the dialog and hand back the item path, the typed name
    /// and whether it is a file; nothing while closed.
    pub fn confirm(&mut self) -> (r: Option<(String, String, bool)>)
        ensures
            final(self).path is None,
            match old(self).path {
                Some(p) => r matches Some((a, b, f)) && a == p && b == old(self).draft && f
                    == old(self).is_file,
                None => r is None,
            },
    {
        match self.path.take() {
            Some(p) => Some((p, self.draft.clone(), self.is_file)),
            None => None,
        }
    }

    /// A key press in the input: Escape closes, Enter confirms.
    pub fn key(&mut self, key: &str) -> (r: Option<(String, String, bool)>)
        ensures
            match dialog_key_of(key@) {
                DialogKey::Dismiss => final(self).path is None && r is None,
                DialogKey::Confirm => final(self).path is None && match old(self).path {
                    Some(p) => r matches Some((a, b, f)) && a == p && b == old(self).draft && f
                        == old(self).is_file,
                    None => r is None,
                },
                DialogKey::Type => final(self).path == old(self).path && r is None,
            },
    {
        match dialog_key(key) {
            DialogKey::Dismiss => {
                self.close();
                None
            },
            DialogKey::Confirm => self.confirm(),
            DialogKey::Type => None,
        }
    }
}

/// Controller of the new-folder dialog: the parent folder (`Some("")` for the
/// tree root, none while closed) and the name typed so far.
pub struct NewFolderModalCtrl {
    pub parent_path: Option<String>,
    pub draft: String,
}

impl NewFolderModalCtrl {
    /// Create a closed new-folder dialog controller.
    pub fn new() -> (r: Self)
        ensures
            r.parent_path is None,
            r.draft@ == Seq::<char>::empty(),
    {
        NewFolderModalCtrl { parent_path: None, draft: string_of(&Vec::new()) }
    }

    /// Open the new-folder dialog under `parent_path`, with an empty draft.
    pub fn open(&mut self, parent_path: &str)
        ensures
            final(self).parent_path matches Some(p) && p@ == parent_path@,
            final(self).draft@ == Seq::<char>::empty(),
    {
        self.parent_path = Some(parent_path.to_string());
        self.draft = string_of(&Vec::new());
    }

    /// Close the new-folder dialog.
    pub fn close(&mut self)
        ensures
            final(self).parent_path is None,
            final(self).draft == old(self).draft,
    {
        self.parent_path = None;
    }

    /// The input changed to `text`.
    pub fn input(&mut self, text: &str)
        ensures
            final(self).draft@ == text@,
            final(self).parent_path == old(self).parent_path,
    {
        self.draft = text.to_string();
    }

    /// Confirm: close the dialog and hand back the parent folder and the
    /// typed name; nothing while closed.
    pub fn confirm(&mut self) -> (r: Option<(String, String)>)
        ensures
            final(self).parent_path is None,
            match old(self).parent_path {
                Some(p) => r matches Some((a, b)) && a == p && b == old(self).draft,
                None => r is None,
            },
    {
        match self.parent_path.take() {
            Some(p) => Some((p, self.draft.clone())),
            None => None,
        }
    }

    /// A key press in the input: Escape closes, Enter confirms.
    pub fn key(&mut self, key: &str) -> (r: Option<(String, String)>)
        ensures
            match dialog_key_of(key@) {
                DialogKey::Dismiss => final(self).parent_path is None && r is None,
                DialogKey::Confirm => final(self).parent_path is None && match old(self).parent_path {
                    Some(p) => r matches Some((a, b)) && a == p && b == old(self).draft,
                    None => r is None,
                },
                DialogKey::Type => final(self).parent_path == old(self).parent_path && r is None,
            },
    {
        match dialog_key(key) {
            DialogKey::Dismiss => {
                self.close();
                None
            },
            DialogKey::Confirm => self.confirm(),
            DialogKey::Type => None,
        }
    }
}

/// Open the new-folder dialog for a folder at the tree root.
pub fn open_root_new_folder(ctrl: &mut NewFolderModalCtrl)
    ensures
        final(ctrl).parent_path matches Some(p) && p@ == Seq::<char>::empty(),
{
    proof {
        reveal_strlit("");
    }
    ctrl.open("");
}

} // verus!
