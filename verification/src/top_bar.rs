//! The top bar: its button titles, and how a save of all open entries is
//! tallied and reported.

use vstd::prelude::*;
use crate::hotkeys::{ascii_upper, format_ctrl_hotkey, HotkeyAction, HotkeyKeys};
use crate::info_messages::{
    format_save_summary, save_failed_toast, save_summary_text, with_hotkey, with_hotkey_text,
    CTRL_HOTKEY_PREFIX, EDIT_MAIN_TEXT_FROZEN_TITLE, EDIT_MAIN_TEXT_ON_TITLE, EXPORT_HTML_TITLE,
    IMPORT_MARKDOWN_TITLE, NEW_FILE_TITLE, SAVE_TITLE,
};
use crate::text::{chars_of, join, join_exec, string_of, texts};
use crate::app_state::{bumped, AppState};
use crate::block::EditorEntry;
use crate::file_tree::bump_tree_epoch;
use crate::file_tree_backend::FileTreeBackend;
use crate::save::{entry_save_params, sends_entry, SaveParams};

verus! {

/// The title of the button for a hotkey action, without its hotkey.
pub open spec fn action_title_of(action: HotkeyAction, editing_enabled: bool) -> Seq<char> {
    match action {
        HotkeyAction::Save => SAVE_TITLE@,
        HotkeyAction::NewFile => NEW_FILE_TITLE@,
        HotkeyAction::Import => IMPORT_MARKDOWN_TITLE@,
        HotkeyAction::Export => EXPORT_HTML_TITLE@,
        HotkeyAction::ToggleMarkdownEditing => if editing_enabled {
            EDIT_MAIN_TEXT_ON_TITLE@
        } else {
            EDIT_MAIN_TEXT_FROZEN_TITLE@
        },
    }
}

/// The hotkey letter of an action.
pub open spec fn action_key_of(action: HotkeyAction, keys: HotkeyKeys) -> char {
    match action {
        HotkeyAction::Save => keys.save,
        HotkeyAction::NewFile => keys.new_file,
        HotkeyAction::Import => keys.import,
        HotkeyAction::Export => keys.export,
        HotkeyAction::ToggleMarkdownEditing => keys.toggle_markdown_editing,
    }
}

/// Return the title of the top-bar button for `action`, with its `Ctrl+` hotkey.
pub fn action_button_title(action: HotkeyAction, keys: HotkeyKeys, editing_enabled: bool) -> (r: String)
    ensures
        r@ == with_hotkey_text(
            action_title_of(action, editing_enabled),
            CTRL_HOTKEY_PREFIX@.push(ascii_upper(action_key_of(action, keys))),
        ),
{
    let (title, key) = match action {
        HotkeyAction::Save => (SAVE_TITLE, keys.save),
        HotkeyAction::NewFile => (NEW_FILE_TITLE, keys.new_file),
        HotkeyAction::Import => (IMPORT_MARKDOWN_TITLE, keys.import),
        HotkeyAction::Export => (EXPORT_HTML_TITLE, keys.export),
        HotkeyAction::ToggleMarkdownEditing => {
            if editing_enabled {
                (EDIT_MAIN_TEXT_ON_TITLE, keys.toggle_markdown_editing)
            } else {
                (EDIT_MAIN_TEXT_FROZEN_TITLE, keys.toggle_markdown_editing)
            }
        },
    };
    let hotkey = format_ctrl_hotkey(key);
    with_hotkey(title, hotkey.as_str())
}

/// The running tally of a save of all open entries: files created, files
/// updated, and the failure toast of each entry that failed.
pub struct SaveTally {
    pub created: usize,
    pub updated: usize,
    pub errors: Vec<String>,
}

/// The strings of a vector, as text.
pub open spec fn string_texts(v: Seq<String>) -> Seq<Seq<char>> {
    Seq::new(v.len(), |i: int| v[i]@)
}

/// How a save run ends: whether the notes tree refreshes, the status toast,
/// and the error toast.
pub struct SaveReport {
    pub refresh_tree: bool,
    pub toast: Option<String>,
    pub error_toast: Option<String>,
}

impl SaveTally {
    /// Nothing saved yet.
    pub fn new() -> (r: Self)
        ensures
            r.created == 0,
            r.updated == 0,
            r.errors@.len() == 0,
    {
        SaveTally { created: 0, updated: 0, errors: Vec::new() }
    }

    /// Count the outcome of saving the entry at `path`: `Ok(true)` when the
    /// backend created a new file, `Ok(false)` when it updated one, or the error.
    pub fn record(&mut self, path: &str, outcome: Result<bool, String>)
        requires
            old(self).created < usize::MAX,
            old(self).updated < usize::MAX,
        ensures
            match outcome {
                Ok(true) => final(self).created == old(self).created + 1 && final(self).updated
                    == old(self).updated && final(self).errors == old(self).errors,
                Ok(false) => final(self).updated == old(self).updated + 1 && final(self).created
                    == old(self).created && final(self).errors == old(self).errors,
                Err(e) => final(self).created == old(self).created && final(self).updated
                    == old(self).updated && string_texts(final(self).errors@) == string_texts(
                    old(self).errors@,
                ).push("Save failed for "@ + path@ + ": "@ + e@),
            },
    {
        match outcome {
            Ok(true) => self.created = self.created + 1,
            Ok(false) => self.updated = self.updated + 1,
            Err(e) => {
                let ghost before = string_texts(self.errors@);
                self.errors.push(save_failed_toast(path, e.as_str()));
                assert(string_texts(self.errors@) =~= before.push(self.errors@.last()@));
            },
        }
    }

    /// How the save run ends: when anything was saved, the tree refreshes and
    /// the summary toast shows; the failures show one per line.
    pub fn finish(&self) -> (r: SaveReport)
        ensures
            r.refresh_tree == (self.created > 0 || self.updated > 0),
            r.refresh_tree ==> (r.toast matches Some(t) && t@ == save_summary_text(
                self.created as nat,
                self.updated as nat,
            )),
            !r.refresh_tree ==> r.toast is None,
            self.errors@.len() == 0 ==> r.error_toast is None,
            self.errors@.len() > 0 ==> (r.error_toast matches Some(t) && t@ == join(
                string_texts(self.errors@),
                seq!['\n'],
            )),
    {
        let refresh_tree = self.created > 0 || self.updated > 0;
        let toast = if refresh_tree {
            Some(format_save_summary(self.created, self.updated))
        } else {
            None
        };
        let error_toast = crate::export::export_errors_toast(&self.errors);
        proof {
            assert(crate::export::string_texts(self.errors@) =~= string_texts(self.errors@));
        }
        SaveReport { refresh_tree, toast, error_toast }
    }
}


// ---------------------------------------------------------------------------
// A save of all open entries
// ---------------------------------------------------------------------------

/// Files that a run of save outcomes created.
pub open spec fn created_count(outcomes: Seq<Result<bool, String>>) -> nat
    decreases outcomes.len(),
{
    if outcomes.len() == 0 {
        0
    } else {
        created_count(outcomes.drop_last()) + match outcomes.last() {
            Ok(true) => 1nat,
            _ => 0nat,
        }
    }
}

/// Files that a run of save outcomes updated.
pub open spec fn updated_count(outcomes: Seq<Result<bool, String>>) -> nat
    decreases outcomes.len(),
{
    if outcomes.len() == 0 {
        0
    } else {
        updated_count(outcomes.drop_last()) + match outcomes.last() {
            Ok(false) => 1nat,
            _ => 0nat,
        }
    }
}

/// The failure toast of each save that failed, in order: the outcome at
/// position `i` belongs to the save of `paths[i]`.
pub open spec fn save_failures(paths: Seq<String>, outcomes: Seq<Result<bool, String>>) -> Seq<Seq<char>>
    decreases outcomes.len(),
{
    if outcomes.len() == 0 {
        Seq::empty()
    } else {
        let earlier = save_failures(paths.drop_last(), outcomes.drop_last());
        match outcomes.last() {
            Err(e) => earlier.push("Save failed for "@ + paths.last()@ + ": "@ + e@),
            _ => earlier,
        }
    }
}

/// The upserts that a save of all open entries sends, one per entry and in
/// entry order; none while no backend session is open.
pub fn save_requests(state: &AppState) -> (r: Option<Vec<SaveParams>>)
    ensures
        r is None <==> state.session_id is None,
        r matches Some(v) ==> v@.len() == state.entries@.len() && forall|i: int|
            0 <= i < v@.len() ==> #[trigger] sends_entry(state.entries@[i], v@[i]),
{
    if state.session_id.is_none() {
        return None;
    }
    let mut out: Vec<SaveParams> = Vec::new();
    let n = state.entries.len();
    let mut i: usize = 0;
    while i < n
        invariant
            n == state.entries@.len(),
            i <= n,
            out@.len() == i,
            forall|j: int| 0 <= j < i ==> #[trigger] sends_entry(state.entries@[j], out@[j]),
        decreases n - i,
    {
        let entry: &EditorEntry = &state.entries[i];
        out.push(entry_save_params(entry));
        i = i + 1;
    }
    Some(out)
}

/// How a save run ends, from the path and the outcome of each upsert in the
/// order they were sent (`Ok(true)`: a file was created, `Ok(false)`: one was
/// updated): when anything was saved, the tree refreshes and the summary
/// toast shows; the failures show one per line.
pub fn save_run_report(paths: &Vec<String>, outcomes: &Vec<Result<bool, String>>) -> (r: SaveReport)
    requires
        paths@.len() == outcomes@.len(),
    ensures
        r.refresh_tree == (created_count(outcomes@) + updated_count(outcomes@) > 0),
        r.refresh_tree ==> (r.toast matches Some(t) && t@ == save_summary_text(
            created_count(outcomes@),
            updated_count(outcomes@),
        )),
        !r.refresh_tree ==> r.toast is None,
        save_failures(paths@, outcomes@).len() == 0 ==> r.error_toast is None,
        save_failures(paths@, outcomes@).len() > 0 ==> (r.error_toast matches Some(t) && t@ == join(
            save_failures(paths@, outcomes@),
            seq!['\n'],
        )),
{
    let mut tally = SaveTally::new();
    let n = outcomes.len();
    let mut i: usize = 0;
    assert(outcomes@.take(0) =~= Seq::<Result<bool, String>>::empty());
    assert(paths@.take(0) =~= Seq::<String>::empty());
    assert(string_texts(tally.errors@) =~= Seq::<Seq<char>>::empty());
    while i < n
        invariant
            n == outcomes@.len(),
            n == paths@.len(),
            i <= n,
            tally.created == created_count(outcomes@.take(i as int)),
            tally.updated == updated_count(outcomes@.take(i as int)),
            tally.created + tally.updated <= i,
            string_texts(tally.errors@) == save_failures(paths@.take(i as int), outcomes@.take(i as int)),
        decreases n - i,
    {
        let outcome: Result<bool, String> = match &outcomes[i] {
            Ok(b) => Ok(*b),
            Err(e) => Err(e.clone()),
        };
        let ghost o = outcomes@.take(i + 1);
        let ghost ps = paths@.take(i + 1);
        assert(o.drop_last() =~= outcomes@.take(i as int));
        assert(ps.drop_last() =~= paths@.take(i as int));
        assert(o.last() == outcomes@[i as int]);
        assert(ps.last() == paths@[i as int]);
        tally.record(paths[i].as_str(), outcome);
        i = i + 1;
    }
    assert(outcomes@.take(n as int) =~= outcomes@);
    assert(paths@.take(n as int) =~= paths@);
    tally.finish()
}

/// End a save run: report it as [`save_run_report`] does, and refresh the
/// notes tree when anything was saved. Nothing else in the state changes.
pub fn finish_save_run(
    state: &mut AppState,
    paths: &Vec<String>,
    outcomes: &Vec<Result<bool, String>>,
) -> (r: SaveReport)
    requires
        paths@.len() == outcomes@.len(),
    ensures
        r.refresh_tree == (created_count(outcomes@) + updated_count(outcomes@) > 0),
        r.refresh_tree ==> (r.toast matches Some(t) && t@ == save_summary_text(
            created_count(outcomes@),
            updated_count(outcomes@),
        )),
        !r.refresh_tree ==> r.toast is None,
        save_failures(paths@, outcomes@).len() == 0 ==> r.error_toast is None,
        save_failures(paths@, outcomes@).len() > 0 ==> (r.error_toast matches Some(t) && t@ == join(
            save_failures(paths@, outcomes@),
            seq!['\n'],
        )),
        final(state).file_tree_epoch == if r.refresh_tree {
            bumped(old(state).file_tree_epoch)
        } else {
            old(state).file_tree_epoch
        },
        final(state).template_tree_epoch == old(state).template_tree_epoch,
        final(state).entries == old(state).entries,
        final(state).current_path == old(state).current_path,
        final(state).session_id == old(state).session_id,
        final(state).markdown_editing_enabled == old(state).markdown_editing_enabled,
        final(state).next_entry_id == old(state).next_entry_id,
{
    let report = save_run_report(paths, outcomes);
    if report.refresh_tree {
        bump_tree_epoch(state, FileTreeBackend::Notes);
    }
    report
}

/// Every outcome of a save run is counted once: as a created file, an
/// updated file, or a failure.
pub proof fn lemma_save_run_counts(paths: Seq<String>, outcomes: Seq<Result<bool, String>>)
    ensures
        created_count(outcomes) + updated_count(outcomes) + save_failures(paths, outcomes).len()
            == outcomes.len(),
    decreases outcomes.len(),
{
    if outcomes.len() > 0 {
        lemma_save_run_counts(paths.drop_last(), outcomes.drop_last());
    }
}

} // verus!
