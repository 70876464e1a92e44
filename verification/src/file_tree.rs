//! The decisions of the file trees: drag-and-drop, moving, renaming, creating
//! and deleting folders and files, and how the open editor follows a move or
//! rename. The backend calls themselves are made by the caller; these
//! functions decide whether to make them and what changes when they succeed.

use vstd::prelude::*;
use crate::app_state::{bump, bumped, AppState};
use crate::block::EditorEntry;
use crate::file_tree_backend::FileTreeBackend;
use crate::info_messages::{
    moved_toast, renamed_toast, CREATE_FOLDER_SEPARATORS_TOAST, RENAME_SEPARATORS_TOAST,
};
use crate::path::{
    basename, basename_of, invalid_move, is_invalid_move, join_of, join_path, parent_of,
    parent_path, rebase_of, rebase_path, resolved_rename_basename, resolved_rename_of,
};
use crate::save::{display_note_path, displayed_path, normalize_note_path, normalized_path};
use crate::text::{chars_of, has_char, has_char_exec, push_str, string_of, trim, trimmed_chars};

verus! {

/// Drag-and-drop state of one file tree: the item being dragged and the
/// folder under the pointer that would accept it.
pub struct FileTreeDnD {
    pub drag_src: Option<String>,
    pub drop_target: Option<String>,
}

/// What the new-folder dialog's confirmation asks for.
pub enum FolderRequest {
    /// Nothing: the name is blank.
    Ignore,
    /// Refused, with the error toast to show.
    Reject(String),
    /// Create the folder at this path.
    Create(String),
}

/// What the rename dialog's confirmation asks for.
pub enum RenameRequest {
    /// Nothing: the name is blank or leaves the basename unchanged.
    Ignore,
    /// Refused, with the error toast to show.
    Reject(String),
    /// Rename to `new_name`; the item's basename becomes `resolved`.
    Rename { new_name: String, resolved: String },
}

// ---------------------------------------------------------------------------
// Specifications
// ---------------------------------------------------------------------------

/// Whether `o` holds the text `s`.
pub open spec fn holds(o: Option<String>, s: Seq<char>) -> bool {
    o matches Some(t) && t@ == s
}

/// Whether `name` holds a path separator.
pub open spec fn has_separator(name: Seq<char>) -> bool {
    has_char(name, '/') || has_char(name, '\\')
}

/// What confirming a new folder `name` under `parent` asks for.
pub open spec fn folder_request_of(parent: Seq<char>, name: Seq<char>) -> Option<Result<Seq<char>, Seq<char>>> {
    let n = trim(name);
    if n.len() == 0 {
        None
    } else if has_separator(n) {
        Some(Err(CREATE_FOLDER_SEPARATORS_TOAST@))
    } else {
        Some(Ok(join_of(parent, n)))
    }
}

/// What confirming a rename of `path` to `name` asks for: nothing, a refusal,
/// or the trimmed name with the basename it resolves to.
pub open spec fn rename_request_of(path: Seq<char>, name: Seq<char>, is_file: bool) -> Option<
    Result<(Seq<char>, Seq<char>), Seq<char>>,
> {
    let n = trim(name);
    if n.len() == 0 {
        None
    } else if has_separator(n) {
        Some(Err(RENAME_SEPARATORS_TOAST@))
    } else if resolved_rename_of(path, n, is_file) == basename_of(path) {
        None
    } else {
        Some(Ok((n, resolved_rename_of(path, n, is_file))))
    }
}

/// The path an open entry shows after `src` is rebased to `new_root`.
pub open spec fn rebased_display(p: Seq<char>, src: Seq<char>, new_root: Seq<char>) -> Seq<char> {
    match rebase_of(normalized_path(p), src, new_root) {
        Some(np) => displayed_path(np),
        None => p,
    }
}

/// `b` is entry `a` shown at path `path`.
pub open spec fn at_path(a: EditorEntry, b: EditorEntry, path: Seq<char>) -> bool {
    &&& b.title.id == a.title.id
    &&& b.title.focused == a.title.focused
    &&& b.title.collapsed == a.title.collapsed
    &&& b.title.path@ == path
    &&& b.front_matter == a.front_matter
    &&& b.content == a.content
    &&& b.backend == a.backend
}

/// The open entries after `src` is rebased to `new_root`: each keeps all but
/// its path, which follows the rebase.
pub open spec fn entries_rebased(s: Seq<EditorEntry>, t: Seq<EditorEntry>, src: Seq<char>, new_root: Seq<char>) -> bool {
    &&& t.len() == s.len()
    &&& forall|i: int|
        0 <= i < s.len() ==> #[trigger] at_path(s[i], t[i], rebased_display(s[i].title.path@, src, new_root))
}

/// The current path after `src` is rebased to `new_root`.
pub open spec fn current_rebased(cur: Option<String>, src: Seq<char>, new_root: Seq<char>) -> Option<Seq<char>> {
    match cur {
        Some(c) => match rebase_of(c@, src, new_root) {
            Some(np) => Some(np),
            None => Some(c@),
        },
        None => None,
    }
}

/// The current path as characters.
pub open spec fn current_view(cur: Option<String>) -> Option<Seq<char>> {
    match cur {
        Some(c) => Some(c@),
        None => None,
    }
}

/// The folder label of a move's destination: the root label for the tree root.
pub open spec fn dest_label_of(dst: Seq<char>, root_label: Seq<char>) -> Seq<char> {
    if dst.len() == 0 {
        root_label
    } else {
        dst
    }
}

/// The state after the tree of `backend` changed: its refresh counter bumped.
pub open spec fn epoch_bumped(a: AppState, b: AppState, backend: FileTreeBackend) -> bool {
    match backend {
        FileTreeBackend::Notes => b.file_tree_epoch == bumped(a.file_tree_epoch)
            && b.template_tree_epoch == a.template_tree_epoch,
        FileTreeBackend::Templates => b.template_tree_epoch == bumped(a.template_tree_epoch)
            && b.file_tree_epoch == a.file_tree_epoch,
    }
}

// ---------------------------------------------------------------------------
// Small helpers
// ---------------------------------------------------------------------------

/// Whether `o` holds the text `s`.
pub fn holds_text(o: &Option<String>, s: &str) -> (r: bool)
    ensures
        r == holds(*o, s@),
{
    match o {
        Some(t) => crate::path::chars_eq(&chars_of(t.as_str()), &chars_of(s)),
        None => false,
    }
}

/// Whether `name` holds a path separator.
fn has_separator_exec(name: &Vec<char>) -> (r: bool)
    ensures
        r == has_separator(name@),
{
    has_char_exec(name, '/') || has_char_exec(name, '\\')
}

// ---------------------------------------------------------------------------
// Drag and drop
// ---------------------------------------------------------------------------

impl FileTreeDnD {
    /// Nothing dragged, nothing highlighted.
    pub fn new() -> (r: Self)
        ensures
            r.drag_src is None,
            r.drop_target is None,
    {
        FileTreeDnD { drag_src: None, drop_target: None }
    }

    /// Record the drag source when a tree item starts dragging.
    pub fn drag_start(&mut self, path: &str)
        ensures
            holds(final(self).drag_src, path@),
            final(self).drop_target == old(self).drop_target,
    {
        self.drag_src = Some(path.to_string());
    }

    /// Clear drag-source and drop-target highlights.
    pub fn clear(&mut self)
        ensures
            final(self).drag_src is None,
            final(self).drop_target is None,
    {
        self.drag_src = None;
        self.drop_target = None;
    }

    /// A drag moves over folder `target` (`""` for the tree root): accept it,
    /// and highlight the target, when the dragged item may move there.
    pub fn drag_over(&mut self, target: &str) -> (accepted: bool)
        ensures
            accepted == (old(self).drag_src matches Some(s) && !invalid_move(s@, target@)),
            accepted ==> holds(final(self).drop_target, target@),
            !accepted ==> final(self).drop_target == old(self).drop_target,
            final(self).drag_src == old(self).drag_src,
    {
        let accepted = match &self.drag_src {
            Some(src) => !is_invalid_move(src.as_str(), target),
            None => false,
        };
        if accepted {
            self.drop_target = Some(target.to_string());
        }
        accepted
    }

    /// The dragged item is dropped on folder `dst`; `transferred` is the path
    /// the drag carried. Clear the drag state and return the move to make:
    /// the recorded source (else a non-empty carried path) into `dst`, unless
    /// there is no source or the move is invalid.
    pub fn drop_at(&mut self, dst: &str, transferred: Option<String>) -> (r: Option<String>)
        ensures
            final(self).drag_src is None,
            final(self).drop_target is None,
            ({
                let src = match old(self).drag_src {
                    Some(s) => Some(s@),
                    None => match transferred {
                        Some(t) => if t@.len() > 0 {
                            Some(t@)
                        } else {
                            None
                        },
                        None => None,
                    },
                };
                match src {
                    Some(s) => if invalid_move(s, dst@) {
                        r is None
                    } else {
                        holds(r, s)
                    },
                    None => r is None,
                }
            }),
    {
        let src = match self.drag_src.take() {
            Some(s) => Some(s),
            None => match transferred {
                Some(t) => {
                    if t.as_str().is_empty() {
                        None
                    } else {
                        Some(t)
                    }
                },
                None => None,
            },
        };
        self.clear();
        match src {
            Some(s) => {
                if is_invalid_move(s.as_str(), dst) {
                    None
                } else {
                    Some(s)
                }
            },
            None => None,
        }
    }
}

/// CSS class of the tree root: highlighted while it is the drop target.
pub fn root_class(dnd: &FileTreeDnD) -> (r: &'static str)
    ensures
        r@ == (if holds(dnd.drop_target, Seq::empty()) {
            "p-2 file-tree-root drag-over"@
        } else {
            "p-2 file-tree-root"@
        }),
{
    proof {
        reveal_strlit("");
    }
    assert(""@ =~= Seq::<char>::empty());
    if holds_text(&dnd.drop_target, "") {
        "p-2 file-tree-root drag-over"
    } else {
        "p-2 file-tree-root"
    }
}

/// `a` and `b` joined by a space, or whichever is non-empty.
pub open spec fn class_join(a: Seq<char>, b: Seq<char>) -> Seq<char> {
    if a.len() == 0 {
        b
    } else if b.len() == 0 {
        a
    } else {
        a + seq![' '] + b
    }
}

/// CSS classes of a folder row: `dragging` while it is dragged, `drag-over`
/// while it is the drop target.
pub fn folder_row_class(path: &str, dnd: &FileTreeDnD) -> (r: String)
    ensures
        r@ == class_join(
            if holds(dnd.drag_src, path@) { "dragging"@ } else { Seq::empty() },
            if holds(dnd.drop_target, path@) { "drag-over"@ } else { Seq::empty() },
        ),
{
    let mut out: Vec<char> = Vec::new();
    if holds_text(&dnd.drag_src, path) {
        push_str(&mut out, "dragging");
    }
    if holds_text(&dnd.drop_target, path) {
        if out.len() > 0 {
            out.push(' ');
        }
        push_str(&mut out, "drag-over");
    }
    proof {
        reveal_strlit("dragging");
        reveal_strlit("drag-over");
    }
    string_of(&out)
}

/// CSS classes of a file row: `is-active` for the current note, `dragging`
/// while it is dragged.
pub fn file_row_class(path: &str, current_path: &Option<String>, dnd: &FileTreeDnD) -> (r: String)
    ensures
        r@ == class_join(
            if holds(*current_path, path@) { "is-active"@ } else { Seq::empty() },
            if holds(dnd.drag_src, path@) { "dragging"@ } else { Seq::empty() },
        ),
{
    let mut out: Vec<char> = Vec::new();
    if holds_text(current_path, path) {
        push_str(&mut out, "is-active");
    }
    if holds_text(&dnd.drag_src, path) {
        if out.len() > 0 {
            out.push(' ');
        }
        push_str(&mut out, "dragging");
    }
    proof {
        reveal_strlit("is-active");
        reveal_strlit("dragging");
    }
    string_of(&out)
}

// ---------------------------------------------------------------------------
// Requests from the dialogs
// ---------------------------------------------------------------------------

/// Decide a new-folder confirmation: ignore a blank name, refuse one with a
/// path separator, else create `parent/name` (the name trimmed).
pub fn new_folder_request(parent_path: &str, name: &str) -> (r: FolderRequest)
    ensures
        match folder_request_of(parent_path@, name@) {
            None => r is Ignore,
            Some(Err(t)) => r matches FolderRequest::Reject(m) && m@ == t,
            Some(Ok(p)) => r matches FolderRequest::Create(m) && m@ == p,
        },
{
    let n = trimmed_chars(name);
    if n.len() == 0 {
        FolderRequest::Ignore
    } else if has_separator_exec(&n) {
        FolderRequest::Reject(CREATE_FOLDER_SEPARATORS_TOAST.to_string())
    } else {
        FolderRequest::Create(join_path(parent_path, string_of(&n).as_str()))
    }
}

/// Decide a rename confirmation: ignore a blank name or one that keeps the
/// basename, refuse one with a path separator, else rename (the name trimmed).
pub fn rename_request(path: &str, new_name: &str, is_file: bool) -> (r: RenameRequest)
    ensures
        match rename_request_of(path@, new_name@, is_file) {
            None => r is Ignore,
            Some(Err(t)) => r matches RenameRequest::Reject(m) && m@ == t,
            Some(Ok((n, res))) => r matches RenameRequest::Rename { new_name: a, resolved: b } && a@
                == n && b@ == res,
        },
{
    let n = trimmed_chars(new_name);
    if n.len() == 0 {
        return RenameRequest::Ignore;
    }
    if has_separator_exec(&n) {
        return RenameRequest::Reject(RENAME_SEPARATORS_TOAST.to_string());
    }
    let name = string_of(&n);
    let resolved = resolved_rename_basename(path, name.as_str(), is_file);
    let current = basename(path);
    if crate::path::chars_eq(&chars_of(resolved.as_str()), &chars_of(current)) {
        RenameRequest::Ignore
    } else {
        RenameRequest::Rename { new_name: name, resolved }
    }
}

// ---------------------------------------------------------------------------
// After a successful change
// ---------------------------------------------------------------------------

/// Bump the refresh counter of the tree of `backend`.
pub fn bump_tree_epoch(state: &mut AppState, backend: FileTreeBackend)
    ensures
        epoch_bumped(*old(state), *final(state), backend),
        final(state).entries == old(state).entries,
        final(state).current_path == old(state).current_path,
        final(state).session_id == old(state).session_id,
        final(state).markdown_editing_enabled == old(state).markdown_editing_enabled,
        final(state).next_entry_id == old(state).next_entry_id,
{
    match backend {
        FileTreeBackend::Notes => state.file_tree_epoch = bump(state.file_tree_epoch),
        FileTreeBackend::Templates => state.template_tree_epoch = bump(state.template_tree_epoch),
    }
}

/// Point the current path and every open entry that was `src` or inside it
/// at `new_root`.
pub fn rebase_open_paths(state: &mut AppState, src: &str, new_root: &str)
    ensures
        current_view(final(state).current_path) == current_rebased(old(state).current_path, src@, new_root@),
        entries_rebased(old(state).entries@, final(state).entries@, src@, new_root@),
        final(state).session_id == old(state).session_id,
        final(state).markdown_editing_enabled == old(state).markdown_editing_enabled,
        final(state).file_tree_epoch == old(state).file_tree_epoch,
        final(state).template_tree_epoch == old(state).template_tree_epoch,
        final(state).next_entry_id == old(state).next_entry_id,
{
    let cur = state.current_path.take();
    state.current_path = match cur {
        Some(c) => match rebase_path(c.as_str(), src, new_root) {
            Some(np) => Some(np),
            None => Some(c),
        },
        None => None,
    };
    let ghost orig = state.entries@;
    let ghost cp = state.current_path;
    let n = state.entries.len();
    let mut i: usize = 0;
    while i < n
        invariant
            state.current_path == cp,
            state.session_id == old(state).session_id,
            state.markdown_editing_enabled == old(state).markdown_editing_enabled,
            state.file_tree_epoch == old(state).file_tree_epoch,
            state.template_tree_epoch == old(state).template_tree_epoch,
            state.next_entry_id == old(state).next_entry_id,
            n == orig.len(),
            n == state.entries@.len(),
            i <= n,
            forall|j: int| 0 <= j < i ==> #[trigger] at_path(orig[j], state.entries@[j], rebased_display(orig[j].title.path@, src@, new_root@)),
            forall|j: int| i <= j < n ==> state.entries@[j] == orig[j],
        decreases n - i,
    {
        let mut e = state.entries.remove(i);
        let norm = normalize_note_path(e.title.path.as_str());
        match rebase_path(norm.as_str(), src, new_root) {
            Some(np) => {
                e.title.path = display_note_path(np.as_str());
            },
            None => {},
        }
        state.entries.insert(i, e);
        i = i + 1;
    }
}

/// After `src` moved into folder `dst` in the tree of `backend`: the open
/// editor follows the move, the tree refreshes, and the toast names the item
/// and the folder (`root_label` for the tree root).
pub fn apply_move(state: &mut AppState, backend: FileTreeBackend, src: &str, dst: &str, root_label: &str) -> (toast: String)
    ensures
        current_view(final(state).current_path) == current_rebased(
            old(state).current_path,
            src@,
            join_of(dst@, basename_of(src@)),
        ),
        entries_rebased(old(state).entries@, final(state).entries@, src@, join_of(dst@, basename_of(src@))),
        epoch_bumped(*old(state), *final(state), backend),
        final(state).session_id == old(state).session_id,
        final(state).markdown_editing_enabled == old(state).markdown_editing_enabled,
        final(state).next_entry_id == old(state).next_entry_id,
        toast@ == "Moved "@ + basename_of(src@) + " to "@ + dest_label_of(dst@, root_label@),
{
    let name = basename(src);
    let new_root = join_path(dst, name);
    rebase_open_paths(state, src, new_root.as_str());
    bump_tree_epoch(state, backend);
    if dst.is_empty() {
        moved_toast(name, root_label)
    } else {
        moved_toast(name, dst)
    }
}

/// After `path` was renamed so that its basename is `resolved`, in the tree of
/// `backend`: the open editor follows the rename, the tree refreshes, and the
/// toast names the new basename.
pub fn apply_rename(state: &mut AppState, backend: FileTreeBackend, path: &str, resolved: &str) -> (toast: String)
    ensures
        current_view(final(state).current_path) == current_rebased(
            old(state).current_path,
            path@,
            join_of(parent_of(path@), resolved@),
        ),
        entries_rebased(old(state).entries@, final(state).entries@, path@, join_of(parent_of(path@), resolved@)),
        epoch_bumped(*old(state), *final(state), backend),
        final(state).session_id == old(state).session_id,
        final(state).markdown_editing_enabled == old(state).markdown_editing_enabled,
        final(state).next_entry_id == old(state).next_entry_id,
        toast@ == "Renamed to "@ + resolved@,
{
    let new_root = join_path(parent_path(path), resolved);
    rebase_open_paths(state, path, new_root.as_str());
    bump_tree_epoch(state, backend);
    renamed_toast(resolved)
}

// ---------------------------------------------------------------------------
// Laws
// ---------------------------------------------------------------------------

/// An open entry showing the moved or renamed item afterwards names the item's
/// new backend path (for a new path already in backend form), and an entry
/// showing neither the item nor anything inside it keeps its path.
pub proof fn lemma_open_entry_follows(p: Seq<char>, src: Seq<char>, new_root: Seq<char>)
    requires
        normalized_path(new_root) == new_root,
    ensures
        normalized_path(p) == src ==> normalized_path(rebased_display(p, src, new_root)) == new_root,
        rebase_of(normalized_path(p), src, new_root) is None ==> rebased_display(p, src, new_root)
            == p,
{
    crate::save::lemma_normalize_display(new_root);
}

} // verus!
