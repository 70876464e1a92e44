//! The state the editor works on, and the editor-wide actions on it: deleting
//! entries and front matter, adding a new file, toggling main-text editing, and
//! reloading open notes after a file-change ping.

use vstd::prelude::*;
use crate::block::{entry_markdown_text, entry_to_markdown, front_matter_raw, EditorEntry, FrontMatterBlock};
use crate::constants::{DEFAULT_MARKDOWN_PATH, NEW_FILE_PATH};
use crate::file_tree_backend::{first_template_from, inserted, opened, FileTreeBackend};
use crate::import::{
    entry_from_markdown, entry_from_note, fresh_entry, front_matter_from_metadata, front_matter_text,
    meta_model, open_note_in_editor,
};
use crate::block::split_of;
use crate::note::NoteFile;
use crate::save::{display_note_path, displayed_path, normalize_note_path, normalized_path};
use crate::text::{chars_of, string_of};

verus! {

/// The editor's state: the open entries, the note shown as current in the
/// file tree, the backend session, whether the main text may be edited, the
/// two file trees' refresh counters, and the identifier the next entry gets.
pub struct AppState {
    pub entries: Vec<EditorEntry>,
    pub current_path: Option<String>,
    pub session_id: Option<String>,
    pub markdown_editing_enabled: bool,
    pub file_tree_epoch: u64,
    pub template_tree_epoch: u64,
    pub next_entry_id: u64,
}

/// A note to reload after a file-change ping: the entry and its backend path.
pub struct ReloadTarget {
    pub entry_id: u64,
    pub path: String,
}

/// The front matter the add action writes.
pub const DEFAULT_FRONT_MATTER: &'static str = "tags: []";

// ---------------------------------------------------------------------------
// Specifications
// ---------------------------------------------------------------------------

/// A refresh counter after one bump (wrapping).
pub open spec fn bumped(n: u64) -> u64 {
    if n == u64::MAX {
        0
    } else {
        (n + 1) as u64
    }
}

/// The entries of `s` whose identifier is not `id`, in order.
pub open spec fn without_id(s: Seq<EditorEntry>, id: u64) -> Seq<EditorEntry>
    decreases s.len(),
{
    if s.len() == 0 {
        s
    } else {
        let rest = without_id(s.drop_last(), id);
        if s.last().title.id != id {
            rest.push(s.last())
        } else {
            rest
        }
    }
}

/// Index of the first entry of `s` with identifier `id`, from `k` on.
pub open spec fn first_with_id_from(s: Seq<EditorEntry>, id: u64, k: int) -> Option<int>
    decreases s.len() - k,
{
    if k < 0 || k >= s.len() {
        None
    } else if s[k].title.id == id {
        Some(k)
    } else {
        first_with_id_from(s, id, k + 1)
    }
}

/// Index of the first entry of `s` with identifier `id`.
pub open spec fn first_with_id(s: Seq<EditorEntry>, id: u64) -> Option<int> {
    first_with_id_from(s, id, 0)
}

/// `b` is `a` with only its front matter changed.
pub open spec fn same_but_front_matter(a: EditorEntry, b: EditorEntry) -> bool {
    &&& b.title == a.title
    &&& b.content == a.content
    &&& b.backend == a.backend
}

/// `t` is `s` with only entry `i` changed.
pub open spec fn only_changed_at(s: Seq<EditorEntry>, t: Seq<EditorEntry>, i: int) -> bool {
    &&& t.len() == s.len()
    &&& forall|j: int| 0 <= j < s.len() && j != i ==> t[j] == s[j]
}

/// The state's fields other than the entries are those of `a`.
pub open spec fn same_but_entries(a: AppState, b: AppState) -> bool {
    &&& b.current_path == a.current_path
    &&& b.session_id == a.session_id
    &&& b.markdown_editing_enabled == a.markdown_editing_enabled
    &&& b.file_tree_epoch == a.file_tree_epoch
    &&& b.template_tree_epoch == a.template_tree_epoch
    &&& b.next_entry_id == a.next_entry_id
}

/// Where a new note goes: before the first template, or at the end.
pub open spec fn note_insert_index(s: Seq<EditorEntry>) -> int {
    match first_template_from(s, 0) {
        Some(i) => i,
        None => s.len() as int,
    }
}

/// `e` is the empty note the New File action adds, with identifier `id`,
/// its markdown focused exactly when editing is enabled.
pub open spec fn new_file_entry(e: EditorEntry, id: u64, focused: bool) -> bool {
    &&& e.title.id == id
    &&& e.title.path@ == NEW_FILE_PATH@
    &&& !e.title.focused
    &&& !e.title.collapsed
    &&& e.front_matter is None
    &&& e.content.text@ == Seq::<char>::empty()
    &&& e.content.html@ == Seq::<char>::empty()
    &&& e.content.focused == focused
    &&& e.backend == FileTreeBackend::Notes
}

/// Whether an entry has an editor focus that a reload would clobber.
pub open spec fn being_edited(e: EditorEntry) -> bool {
    e.content.focused || e.title.focused || (e.front_matter matches Some(fm) && fm.focused)
}

/// Whether a file-change ping reloads `e`: an open note not being edited.
pub open spec fn reloads(e: EditorEntry) -> bool {
    e.backend == FileTreeBackend::Notes && !being_edited(e)
}

/// The `(identifier, backend path)` of each entry of `s` a ping reloads, in order.
pub open spec fn reload_targets(s: Seq<EditorEntry>) -> Seq<(u64, Seq<char>)>
    decreases s.len(),
{
    if s.len() == 0 {
        Seq::empty()
    } else {
        let rest = reload_targets(s.drop_last());
        if reloads(s.last()) {
            rest.push((s.last().title.id, normalized_path(s.last().title.path@)))
        } else {
            rest
        }
    }
}

/// The reload targets as values.
pub open spec fn target_views(v: Seq<ReloadTarget>) -> Seq<(u64, Seq<char>)> {
    Seq::new(v.len(), |i: int| (v[i].entry_id, v[i].path@))
}

/// The front matter a fetched note brings: its metadata as YAML, when non-empty.
pub open spec fn incoming_front_matter(note: NoteFile) -> Option<Seq<char>> {
    match front_matter_text(meta_model(note.metadata@)) {
        Some(raw) => if raw.len() > 0 {
            Some(raw)
        } else {
            None
        },
        None => None,
    }
}

/// `after` is `before` with a fetched note copied onto it: the body replaced
/// when it differs, the front matter replaced when it differs (an existing
/// block keeps its focus, a new block starts unfocused).
pub open spec fn fetched_onto(before: EditorEntry, after: EditorEntry, note: NoteFile) -> bool {
    &&& after.title == before.title
    &&& after.backend == before.backend
    &&& (if before.content.text@ == note.text@ {
        after.content == before.content
    } else {
        &&& after.content.text@ == note.text@
        &&& after.content.html == before.content.html
        &&& after.content.focused == before.content.focused
    })
    &&& front_matter_raw(after) == incoming_front_matter(note)
    &&& (front_matter_raw(before) == incoming_front_matter(note) ==> after.front_matter
        == before.front_matter)
    &&& (after.front_matter matches Some(b2) ==> match before.front_matter {
        Some(b) => b2.focused == b.focused,
        None => !b2.focused,
    })
}

// ---------------------------------------------------------------------------
// The state
// ---------------------------------------------------------------------------

impl AppState {
    /// The initial state: one empty note at the default path, editing enabled.
    pub fn new() -> (r: Self)
        ensures
            r.entries@.len() == 1,
            r.entries@[0].title.id == 0,
            r.entries@[0].title.path@ == DEFAULT_MARKDOWN_PATH@,
            r.entries@[0].front_matter is None,
            r.entries@[0].content.text@ == Seq::<char>::empty(),
            r.entries@[0].backend == FileTreeBackend::Notes,
            r.current_path is None,
            r.session_id is None,
            r.markdown_editing_enabled,
            r.file_tree_epoch == 0,
            r.template_tree_epoch == 0,
            r.next_entry_id == 1,
    {
        let mut entries: Vec<EditorEntry> = Vec::new();
        entries.push(EditorEntry::empty(0, DEFAULT_MARKDOWN_PATH));
        AppState {
            entries,
            current_path: None,
            session_id: None,
            markdown_editing_enabled: true,
            file_tree_epoch: 0,
            template_tree_epoch: 0,
            next_entry_id: 1,
        }
    }

    /// Take the identifier for a new entry.
    pub fn fresh_entry_id(&mut self) -> (id: u64)
        ensures
            id == old(self).next_entry_id,
            final(self).next_entry_id == bumped(old(self).next_entry_id),
            final(self).entries == old(self).entries,
            final(self).current_path == old(self).current_path,
            final(self).session_id == old(self).session_id,
            final(self).markdown_editing_enabled == old(self).markdown_editing_enabled,
            final(self).file_tree_epoch == old(self).file_tree_epoch,
            final(self).template_tree_epoch == old(self).template_tree_epoch,
    {
        let id = self.next_entry_id;
        self.next_entry_id = bump(id);
        id
    }
}

/// A refresh counter after one bump (wrapping).
pub fn bump(n: u64) -> (r: u64)
    ensures
        r == bumped(n),
{
    if n == u64::MAX {
        0
    } else {
        n + 1
    }
}

/// Index of the first entry with identifier `id`.
pub fn find_entry(entries: &Vec<EditorEntry>, id: u64) -> (r: Option<usize>)
    ensures
        match r {
            Some(i) => first_with_id(entries@, id) == Some(i as int) && i < entries@.len(),
            None => first_with_id(entries@, id) is None,
        },
{
    let n = entries.len();
    let mut i: usize = 0;
    while i < n
        invariant
            n == entries@.len(),
            i <= n,
            first_with_id(entries@, id) == first_with_id_from(entries@, id, i as int),
        decreases n - i,
    {
        if entries[i].title.id == id {
            return Some(i);
        }
        i = i + 1;
    }
    None
}

// ---------------------------------------------------------------------------
// Entry actions
// ---------------------------------------------------------------------------

/// Remove the editor entries whose `title.id` matches `entry_id`.
pub fn delete_entry(state: &mut AppState, entry_id: u64)
    ensures
        final(state).entries@ == without_id(old(state).entries@, entry_id),
        same_but_entries(*old(state), *final(state)),
{
    let ghost orig = state.entries@;
    let mut remaining: Vec<EditorEntry> = Vec::new();
    std::mem::swap(&mut state.entries, &mut remaining);
    let n = remaining.len();
    let mut k: usize = 0;
    assert(orig.subrange(0, 0) =~= Seq::<EditorEntry>::empty());
    while remaining.len() > 0
        invariant
            n == orig.len(),
            k <= n,
            remaining@ == orig.subrange(k as int, n as int),
            state.entries@ == without_id(orig.subrange(0, k as int), entry_id),
            same_but_entries(*old(state), *state),
        decreases remaining@.len(),
    {
        let e = remaining.remove(0);
        assert(orig.subrange(0, k + 1).drop_last() =~= orig.subrange(0, k as int));
        assert(orig.subrange(0, k + 1).last() == e);
        if e.title.id != entry_id {
            state.entries.push(e);
        }
        k = k + 1;
        assert(remaining@ =~= orig.subrange(k as int, n as int));
    }
    assert(orig.subrange(0, n as int) =~= orig);
}

/// Clear the front matter of the first entry identified by `entry_id`.
pub fn delete_front_matter(state: &mut AppState, entry_id: u64)
    ensures
        same_but_entries(*old(state), *final(state)),
        match first_with_id(old(state).entries@, entry_id) {
            Some(i) => {
                &&& only_changed_at(old(state).entries@, final(state).entries@, i)
                &&& same_but_front_matter(old(state).entries@[i], final(state).entries@[i])
                &&& final(state).entries@[i].front_matter is None
            },
            None => final(state).entries@ == old(state).entries@,
        },
{
    match find_entry(&state.entries, entry_id) {
        Some(i) => {
            let mut e = state.entries.remove(i);
            e.front_matter = None;
            state.entries.insert(i, e);
        },
        None => {},
    }
}

/// Add default front matter (`tags: []`) to the first entry identified by `entry_id`.
pub fn add_front_matter(state: &mut AppState, entry_id: u64)
    ensures
        same_but_entries(*old(state), *final(state)),
        match first_with_id(old(state).entries@, entry_id) {
            Some(i) => {
                &&& only_changed_at(old(state).entries@, final(state).entries@, i)
                &&& same_but_front_matter(old(state).entries@[i], final(state).entries@[i])
                &&& final(state).entries@[i].front_matter matches Some(b) && b.raw@
                    == DEFAULT_FRONT_MATTER@ && !b.focused
            },
            None => final(state).entries@ == old(state).entries@,
        },
{
    match find_entry(&state.entries, entry_id) {
        Some(i) => {
            let mut e = state.entries.remove(i);
            e.front_matter = Some(FrontMatterBlock::new(DEFAULT_FRONT_MATTER));
            state.entries.insert(i, e);
        },
        None => {},
    }
}

/// Return the markdown file of the first entry identified by `entry_id`.
pub fn entry_markdown(state: &AppState, entry_id: u64) -> (r: Option<String>)
    ensures
        match first_with_id(state.entries@, entry_id) {
            Some(i) => r matches Some(t) && t@ == entry_markdown_text(state.entries@[i]),
            None => r is None,
        },
{
    match find_entry(&state.entries, entry_id) {
        Some(i) => Some(entry_to_markdown(&state.entries[i])),
        None => None,
    }
}

/// Append a new empty note (before any open template) with a fresh identifier;
/// its markdown is focused when editing is enabled.
pub fn append_new_file(state: &mut AppState)
    ensures
        final(state).next_entry_id == bumped(old(state).next_entry_id),
        final(state).current_path == old(state).current_path,
        final(state).session_id == old(state).session_id,
        final(state).markdown_editing_enabled == old(state).markdown_editing_enabled,
        final(state).file_tree_epoch == old(state).file_tree_epoch,
        final(state).template_tree_epoch == old(state).template_tree_epoch,
        final(state).entries@ == inserted(
            old(state).entries@,
            FileTreeBackend::Notes,
            final(state).entries@[note_insert_index(old(state).entries@)],
        ),
        new_file_entry(
            final(state).entries@[note_insert_index(old(state).entries@)],
            old(state).next_entry_id,
            old(state).markdown_editing_enabled,
        ),
{
    let editing_enabled = state.markdown_editing_enabled;
    let id = state.fresh_entry_id();
    let mut entry = EditorEntry::empty(id, NEW_FILE_PATH);
    if editing_enabled {
        entry.content.focused = true;
    }
    let ghost e = entry;
    let ghost before = state.entries@;
    FileTreeBackend::Notes.insert_in_editor(&mut state.entries, entry);
    proof {
        let e2 = crate::file_tree_backend::with_backend(e, FileTreeBackend::Notes);
        assert(e2 == e);
        match first_template_from(before, 0) {
            Some(i) => {
                crate::file_tree_backend::lemma_first_template(before, 0);
                assert(state.entries@[i] == e);
            },
            None => {
                assert(state.entries@[before.len() as int] == e);
            },
        }
    }
}

/// Toggle whether main markdown blocks can enter edit mode.
pub fn toggle_markdown_editing(state: &mut AppState)
    ensures
        final(state).markdown_editing_enabled == !old(state).markdown_editing_enabled,
        final(state).entries == old(state).entries,
        final(state).current_path == old(state).current_path,
        final(state).session_id == old(state).session_id,
        final(state).file_tree_epoch == old(state).file_tree_epoch,
        final(state).template_tree_epoch == old(state).template_tree_epoch,
        final(state).next_entry_id == old(state).next_entry_id,
{
    state.markdown_editing_enabled = !state.markdown_editing_enabled;
}

// ---------------------------------------------------------------------------
// Reloading after a file-change ping
// ---------------------------------------------------------------------------

/// Return whether the entry has an active editor focus that a reload would clobber.
pub fn entry_is_being_edited(entry: &EditorEntry) -> (r: bool)
    ensures
        r == being_edited(*entry),
{
    if entry.content.focused || entry.title.focused {
        return true;
    }
    match &entry.front_matter {
        Some(fm) => fm.focused,
        None => false,
    }
}

/// Bump the notes file-tree counter and return the open notes to reload: every
/// open note not being edited, by identifier and backend path; none without a
/// backend session.
pub fn on_file_change_notify(state: &mut AppState) -> (r: Vec<ReloadTarget>)
    ensures
        final(state).file_tree_epoch == bumped(old(state).file_tree_epoch),
        final(state).entries == old(state).entries,
        final(state).current_path == old(state).current_path,
        final(state).session_id == old(state).session_id,
        final(state).markdown_editing_enabled == old(state).markdown_editing_enabled,
        final(state).template_tree_epoch == old(state).template_tree_epoch,
        final(state).next_entry_id == old(state).next_entry_id,
        target_views(r@) == (match old(state).session_id {
            Some(_) => reload_targets(old(state).entries@),
            None => Seq::empty(),
        }),
{
    state.file_tree_epoch = bump(state.file_tree_epoch);
    let mut out: Vec<ReloadTarget> = Vec::new();
    if state.session_id.is_none() {
        assert(target_views(out@) =~= Seq::<(u64, Seq<char>)>::empty());
        return out;
    }
    let n = state.entries.len();
    let mut i: usize = 0;
    assert(target_views(out@) =~= reload_targets(state.entries@.take(0)));
    while i < n
        invariant
            n == state.entries@.len(),
            i <= n,
            target_views(out@) == reload_targets(state.entries@.take(i as int)),
        decreases n - i,
    {
        let e = &state.entries[i];
        assert(state.entries@.take(i + 1).drop_last() == state.entries@.take(i as int));
        assert(state.entries@.take(i + 1).last() == state.entries@[i as int]);
        if e.backend == FileTreeBackend::Notes && !entry_is_being_edited(e) {
            let path = normalize_note_path(e.title.path.as_str());
            let ghost before = target_views(out@);
            out.push(ReloadTarget { entry_id: e.title.id, path });
            assert(target_views(out@) =~= before.push((e.title.id, path@)));
        }
        i = i + 1;
    }
    assert(state.entries@.take(n as int) == state.entries@);
    out
}

/// The front matter a fetched note brings, when non-empty.
fn incoming_front_matter_of(note: &NoteFile) -> (r: Option<String>)
    requires
        note.wf(),
    ensures
        match r {
            Some(t) => incoming_front_matter(*note) == Some(t@),
            None => incoming_front_matter(*note) is None,
        },
{
    match front_matter_from_metadata(&note.metadata) {
        Some(raw) => {
            if raw.as_str().is_empty() {
                None
            } else {
                Some(raw)
            }
        },
        None => None,
    }
}

/// Whether an entry's front matter already is `incoming`.
fn same_front_matter(incoming: &Option<String>, current: &Option<FrontMatterBlock>) -> (r: bool)
    ensures
        r == ((match incoming {
            Some(t) => Some(t@),
            None => None::<Seq<char>>,
        }) == (match current {
            Some(b) => Some(b.raw@),
            None => None::<Seq<char>>,
        })),
{
    match (incoming, current) {
        (Some(a), Some(b)) => *a == b.raw,
        (None, None) => true,
        _ => false,
    }
}

/// Copy a fetched note's body and front matter onto `entry` where they differ.
/// Return whether the body changed (its HTML then needs rendering again).
pub fn apply_fetched_note(entry: &mut EditorEntry, note: &NoteFile) -> (body_changed: bool)
    requires
        note.wf(),
    ensures
        fetched_onto(*old(entry), *final(entry), *note),
        body_changed == (old(entry).content.text@ != note.text@),
{
    let changed = !(entry.content.text == note.text);
    if changed {
        entry.content.text = string_of(&chars_of(note.text.as_str()));
    }
    let incoming = incoming_front_matter_of(note);
    if !same_front_matter(&incoming, &entry.front_matter) {
        match incoming {
            Some(raw) => {
                let focused = match &entry.front_matter {
                    Some(b) => b.focused,
                    None => false,
                };
                entry.front_matter = Some(FrontMatterBlock { raw, focused });
            },
            None => {
                entry.front_matter = None;
            },
        }
    }
    changed
}

/// Copy a fetched note onto the first open entry identified by `entry_id`.
/// Return whether that entry's body changed.
pub fn apply_fetched_note_to(state: &mut AppState, entry_id: u64, note: &NoteFile) -> (r: bool)
    requires
        note.wf(),
    ensures
        same_but_entries(*old(state), *final(state)),
        match first_with_id(old(state).entries@, entry_id) {
            Some(i) => {
                &&& only_changed_at(old(state).entries@, final(state).entries@, i)
                &&& fetched_onto(old(state).entries@[i], final(state).entries@[i], *note)
                &&& r == (old(state).entries@[i].content.text@ != note.text@)
            },
            None => final(state).entries@ == old(state).entries@ && !r,
        },
{
    match find_entry(&state.entries, entry_id) {
        Some(i) => {
            let mut e = state.entries.remove(i);
            let changed = apply_fetched_note(&mut e, note);
            state.entries.insert(i, e);
            changed
        },
        None => false,
    }
}

// ---------------------------------------------------------------------------
// Opening notes
// ---------------------------------------------------------------------------

/// The path of an imported file: its relative path when the browser gives a
/// non-empty one, else its name.
pub open spec fn import_path_of(relative: Option<Seq<char>>, name: Seq<char>) -> Seq<char> {
    match relative {
        Some(r) => if r.len() > 0 {
            r
        } else {
            name
        },
        None => name,
    }
}

/// Return the path of an imported file.
pub fn relative_path_from_file(relative: Option<String>, name: &str) -> (r: String)
    ensures
        r@ == import_path_of(
            match relative {
                Some(t) => Some(t@),
                None => None,
            },
            name@,
        ),
{
    match relative {
        Some(r) => {
            if r.as_str().is_empty() {
                name.to_string()
            } else {
                r
            }
        },
        None => name.to_string(),
    }
}

/// A file read from disk opens in the editor: its markdown (front matter and
/// body) becomes a note shown at its display path, replacing an open note of
/// the same path, before any template.
pub fn open_imported_file(state: &mut AppState, relative: Option<String>, name: &str, text: &str)
    ensures
        final(state).next_entry_id == bumped(old(state).next_entry_id),
        final(state).current_path == old(state).current_path,
        final(state).session_id == old(state).session_id,
        final(state).markdown_editing_enabled == old(state).markdown_editing_enabled,
        final(state).file_tree_epoch == old(state).file_tree_epoch,
        final(state).template_tree_epoch == old(state).template_tree_epoch,
        exists|e: EditorEntry|
            {
                &&& final(state).entries@ == opened(old(state).entries@, FileTreeBackend::Notes, e)
                &&& fresh_entry(
                    e,
                    old(state).next_entry_id,
                    displayed_path(
                        import_path_of(
                            match relative {
                                Some(t) => Some(t@),
                                None => None,
                            },
                            name@,
                        ),
                    ),
                    split_of(text@).1,
                    split_of(text@).0,
                )
            },
{
    let path = relative_path_from_file(relative, name);
    let display = display_note_path(path.as_str());
    let id = state.fresh_entry_id();
    let entry = entry_from_markdown(id, display.as_str(), text);
    let ghost e = entry;
    open_note_in_editor(&mut state.entries, entry);
    assert(fresh_entry(e, old(state).next_entry_id, display@, split_of(text@).1, split_of(text@).0));
}

/// A note is chosen in a tree or the search results: it becomes the current path.
pub fn select_note(state: &mut AppState, path: &str)
    ensures
        final(state).current_path matches Some(c) && c@ == path@,
        final(state).entries == old(state).entries,
        final(state).session_id == old(state).session_id,
        final(state).markdown_editing_enabled == old(state).markdown_editing_enabled,
        final(state).file_tree_epoch == old(state).file_tree_epoch,
        final(state).template_tree_epoch == old(state).template_tree_epoch,
        final(state).next_entry_id == old(state).next_entry_id,
{
    state.current_path = Some(path.to_string());
}

/// The note fetched for backend path `path` opens in the editor at its display
/// path, replacing an open note of the same path, before any template.
pub fn open_fetched_note(state: &mut AppState, path: &str, note: &NoteFile)
    requires
        note.wf(),
    ensures
        final(state).next_entry_id == bumped(old(state).next_entry_id),
        final(state).current_path == old(state).current_path,
        final(state).session_id == old(state).session_id,
        final(state).markdown_editing_enabled == old(state).markdown_editing_enabled,
        final(state).file_tree_epoch == old(state).file_tree_epoch,
        final(state).template_tree_epoch == old(state).template_tree_epoch,
        exists|e: EditorEntry|
            {
                &&& final(state).entries@ == opened(old(state).entries@, FileTreeBackend::Notes, e)
                &&& fresh_entry(
                    e,
                    old(state).next_entry_id,
                    displayed_path(path@),
                    note.text@,
                    front_matter_text(meta_model(note.metadata@)),
                )
            },
{
    let display = display_note_path(path);
    let id = state.fresh_entry_id();
    let entry = entry_from_note(id, display.as_str(), note.text.as_str(), &note.metadata);
    let ghost e = entry;
    open_note_in_editor(&mut state.entries, entry);
    assert(fresh_entry(e, old(state).next_entry_id, display@, note.text@, front_matter_text(meta_model(note.metadata@))));
}

// ---------------------------------------------------------------------------
// Laws
// ---------------------------------------------------------------------------

/// After deleting identifier `id` no open entry has it, every other entry
/// stays in order, and deleting it again changes nothing.
pub proof fn lemma_delete_entry(s: Seq<EditorEntry>, id: u64)
    ensures
        forall|i: int| 0 <= i < without_id(s, id).len() ==> #[trigger] without_id(s, id)[i].title.id != id,
        without_id(without_id(s, id), id) == without_id(s, id),
        first_with_id(s, id) is None ==> without_id(s, id) == s,
    decreases s.len(),
{
    if s.len() > 0 {
        lemma_delete_entry(s.drop_last(), id);
        let rest = without_id(s.drop_last(), id);
        if s.last().title.id != id {
            assert(rest.push(s.last()).drop_last() =~= rest);
        }
        if first_with_id(s, id) is None {
            lemma_first_with_id_none(s, id, 0);
            lemma_first_with_id_none_prefix(s, id);
            assert(s.drop_last().push(s.last()) =~= s);
        }
    }
}

/// Without a match from `k` on, no entry from `k` on has identifier `id`.
proof fn lemma_first_with_id_none(s: Seq<EditorEntry>, id: u64, k: int)
    requires
        0 <= k <= s.len(),
        first_with_id_from(s, id, k) is None,
    ensures
        forall|j: int| k <= j < s.len() ==> s[j].title.id != id,
    decreases s.len() - k,
{
    if k < s.len() {
        lemma_first_with_id_none(s, id, k + 1);
    }
}

/// Without identifier `id` in `s`, none is in its prefix either.
proof fn lemma_first_with_id_none_prefix(s: Seq<EditorEntry>, id: u64)
    requires
        s.len() > 0,
        forall|j: int| 0 <= j < s.len() ==> s[j].title.id != id,
    ensures
        first_with_id(s.drop_last(), id) is None,
{
    lemma_no_id_from(s.drop_last(), id, 0);
}

/// Without identifier `id` among the entries from `k` on, no match from `k` on.
proof fn lemma_no_id_from(s: Seq<EditorEntry>, id: u64, k: int)
    requires
        0 <= k,
        forall|j: int| k <= j < s.len() ==> s[j].title.id != id,
    ensures
        first_with_id_from(s, id, k) is None,
    decreases s.len() - k,
{
    if k < s.len() {
        lemma_no_id_from(s, id, k + 1);
    }
}

/// Copying the same fetched note onto an entry a second time changes nothing
/// and reports no body change.
pub proof fn lemma_fetch_twice(a: EditorEntry, b: EditorEntry, c: EditorEntry, note: NoteFile)
    requires
        fetched_onto(a, b, note),
        fetched_onto(b, c, note),
    ensures
        c == b,
        b.content.text@ == note.text@,
{
}

/// Adding front matter to an entry and then deleting it leaves the entry as it
/// was apart from having no front matter, and every other entry untouched.
pub proof fn lemma_add_then_delete_front_matter(s0: Seq<EditorEntry>, s1: Seq<EditorEntry>, s2: Seq<EditorEntry>, i: int)
    requires
        0 <= i < s0.len(),
        only_changed_at(s0, s1, i),
        same_but_front_matter(s0[i], s1[i]),
        only_changed_at(s1, s2, i),
        same_but_front_matter(s1[i], s2[i]),
        s2[i].front_matter is None,
    ensures
        only_changed_at(s0, s2, i),
        same_but_front_matter(s0[i], s2[i]),
        s2[i].front_matter is None,
{
}

} // verus!
