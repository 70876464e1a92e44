//! Which backend folder a file tree reads and writes, and how entries opened
//! from it are placed in the editor list: notes before templates, at most one
//! open copy of a note path, and at most one template, kept last.

use vstd::prelude::*;
use crate::block::EditorEntry;
use crate::save::{normalized_chars, normalized_path};
use crate::path::chars_eq;
use crate::text::chars_of;

verus! {

/// Which backend folder a file tree operates on.
#[derive(Clone, Copy, PartialEq, Eq, Debug, Structural)]
pub enum FileTreeBackend {
    Notes,
    Templates,
}

/// The backend operations a file tree makes.
#[derive(Clone, Copy, PartialEq, Eq, Debug, Structural)]
pub enum TreeOp {
    GetDirContents,
    GetFile,
    DeleteFile,
    DeleteFolder,
    NewDir,
    MoveItem,
    Rename,
}

/// The MCP tool that makes operation `op` for the tree of `backend`.
pub open spec fn tool_name_of(backend: FileTreeBackend, op: TreeOp) -> Seq<char> {
    match backend {
        FileTreeBackend::Notes => match op {
            TreeOp::GetDirContents => "get_dir_contents"@,
            TreeOp::GetFile => "get_note"@,
            TreeOp::DeleteFile => "delete_note"@,
            TreeOp::DeleteFolder => "delete_folder"@,
            TreeOp::NewDir => "new_dir"@,
            TreeOp::MoveItem => "move_dir"@,
            TreeOp::Rename => "rename_dir"@,
        },
        FileTreeBackend::Templates => match op {
            TreeOp::GetDirContents => "get_template_dir_contents"@,
            TreeOp::GetFile => "get_template"@,
            TreeOp::DeleteFile => "delete_template"@,
            TreeOp::DeleteFolder => "delete_template_folder"@,
            TreeOp::NewDir => "new_template_dir"@,
            TreeOp::MoveItem => "move_template_dir"@,
            TreeOp::Rename => "rename_template_dir"@,
        },
    }
}

// ---------------------------------------------------------------------------
// Specifications
// ---------------------------------------------------------------------------

/// Index of the first template entry of `s` at or after `k`.
pub open spec fn first_template_from(s: Seq<EditorEntry>, k: int) -> Option<int>
    decreases s.len() - k,
{
    if k < 0 || k >= s.len() {
        None
    } else if s[k].backend == FileTreeBackend::Templates {
        Some(k)
    } else {
        first_template_from(s, k + 1)
    }
}

/// `e` marked as belonging to `backend`.
pub open spec fn with_backend(e: EditorEntry, backend: FileTreeBackend) -> EditorEntry {
    EditorEntry { backend: backend, ..e }
}

/// The list after inserting `e` for `backend`: a note goes just before the
/// first template (or at the end), a template goes at the end.
pub open spec fn inserted(s: Seq<EditorEntry>, backend: FileTreeBackend, e: EditorEntry) -> Seq<
    EditorEntry,
> {
    let e2 = with_backend(e, backend);
    match backend {
        FileTreeBackend::Notes => match first_template_from(s, 0) {
            Some(i) => s.insert(i, e2),
            None => s.push(e2),
        },
        FileTreeBackend::Templates => s.push(e2),
    }
}

/// Whether `e` stays open when an entry with path `path` is opened for
/// `backend`: opening a note closes the note with the same backend path,
/// opening a template closes every template.
pub open spec fn stays(e: EditorEntry, backend: FileTreeBackend, path: Seq<char>) -> bool {
    match backend {
        FileTreeBackend::Notes => e.backend != FileTreeBackend::Notes || normalized_path(
            e.title.path@,
        ) != normalized_path(path),
        FileTreeBackend::Templates => e.backend != FileTreeBackend::Templates,
    }
}

/// The entries of `s` that stay, in order.
pub open spec fn kept(s: Seq<EditorEntry>, backend: FileTreeBackend, path: Seq<char>) -> Seq<
    EditorEntry,
>
    decreases s.len(),
{
    if s.len() == 0 {
        s
    } else {
        let rest = kept(s.drop_last(), backend, path);
        if stays(s.last(), backend, path) {
            rest.push(s.last())
        } else {
            rest
        }
    }
}

/// The list after opening `e` for `backend`.
pub open spec fn opened(s: Seq<EditorEntry>, backend: FileTreeBackend, e: EditorEntry) -> Seq<
    EditorEntry,
> {
    inserted(kept(s, backend, e.title.path@), backend, e)
}

/// Every note comes before every template.
pub open spec fn notes_before_templates(s: Seq<EditorEntry>) -> bool {
    forall|i: int, j: int|
        0 <= i < j < s.len() && s[i].backend == FileTreeBackend::Templates ==> s[j].backend
            == FileTreeBackend::Templates
}

// ---------------------------------------------------------------------------
// Functions
// ---------------------------------------------------------------------------

/// Whether `e` stays open when an entry with backend path `norm` is opened for `backend`.
fn stays_exec(e: &EditorEntry, backend: FileTreeBackend, norm: &Vec<char>, Ghost(path): Ghost<
    Seq<char>,
>) -> (r: bool)
    requires
        norm@ == normalized_path(path),
    ensures
        r == stays(*e, backend, path),
{
    match backend {
        FileTreeBackend::Notes => e.backend != FileTreeBackend::Notes || !chars_eq(
            &normalized_chars(&chars_of(e.title.path.as_str())),
            norm,
        ),
        FileTreeBackend::Templates => e.backend != FileTreeBackend::Templates,
    }
}

impl FileTreeBackend {
    /// Insert `entry` into the open list: notes before templates, templates last.
    pub fn insert_in_editor(self, list: &mut Vec<EditorEntry>, entry: EditorEntry)
        ensures
            final(list)@ == inserted(old(list)@, self, entry),
    {
        let ghost e2 = with_backend(entry, self);
        let mut placed = entry;
        placed.backend = self;
        assert(placed == e2);
        match self {
            FileTreeBackend::Notes => {
                let mut i: usize = 0;
                while i < list.len()
                    invariant
                        self == FileTreeBackend::Notes,
                        placed == e2,
                        e2 == with_backend(entry, self),
                        i <= list@.len(),
                        list@ == old(list)@,
                        first_template_from(list@, 0) == first_template_from(list@, i as int),
                    decreases list@.len() - i,
                {
                    if list[i].backend == FileTreeBackend::Templates {
                        assert(first_template_from(old(list)@, 0) == Some(i as int));
                        list.insert(i, placed);
                        return;
                    }
                    i = i + 1;
                }
                list.push(placed);
            },
            FileTreeBackend::Templates => list.push(placed),
        }
    }

    /// Open `entry` in the editor list for this backend.
    /// Notes replace the same path; templates replace any open template and stay last.
    pub fn open_in_editor(self, list: &mut Vec<EditorEntry>, entry: EditorEntry)
        ensures
            final(list)@ == opened(old(list)@, self, entry),
    {
        let norm = normalized_chars(&chars_of(entry.title.path.as_str()));
        let ghost path = entry.title.path@;
        let ghost orig = list@;
        let n = list.len();
        let mut remaining: Vec<EditorEntry> = Vec::new();
        std::mem::swap(list, &mut remaining);
        let mut k: usize = 0;
        assert(orig.subrange(0, 0) =~= Seq::<EditorEntry>::empty());
        while remaining.len() > 0
            invariant
                n == orig.len(),
                k <= orig.len(),
                remaining@ == orig.subrange(k as int, orig.len() as int),
                list@ == kept(orig.subrange(0, k as int), self, path),
                norm@ == normalized_path(path),
            decreases remaining@.len(),
        {
            let e = remaining.remove(0);
            assert(orig.subrange(0, k + 1).drop_last() =~= orig.subrange(0, k as int));
            assert(orig.subrange(0, k + 1).last() == e);
            if stays_exec(&e, self, &norm, Ghost(path)) {
                list.push(e);
            }
            k = k + 1;
            assert(remaining@ =~= orig.subrange(k as int, orig.len() as int));
        }
        assert(orig.subrange(0, orig.len() as int) =~= orig);
        self.insert_in_editor(list, entry);
    }

    /// Return the MCP tool that makes operation `op` for this tree's folder.
    pub fn tool_name(self, op: TreeOp) -> (r: &'static str)
        ensures
            r@ == tool_name_of(self, op),
    {
        match self {
            FileTreeBackend::Notes => match op {
                TreeOp::GetDirContents => "get_dir_contents",
                TreeOp::GetFile => "get_note",
                TreeOp::DeleteFile => "delete_note",
                TreeOp::DeleteFolder => "delete_folder",
                TreeOp::NewDir => "new_dir",
                TreeOp::MoveItem => "move_dir",
                TreeOp::Rename => "rename_dir",
            },
            FileTreeBackend::Templates => match op {
                TreeOp::GetDirContents => "get_template_dir_contents",
                TreeOp::GetFile => "get_template",
                TreeOp::DeleteFile => "delete_template",
                TreeOp::DeleteFolder => "delete_template_folder",
                TreeOp::NewDir => "new_template_dir",
                TreeOp::MoveItem => "move_template_dir",
                TreeOp::Rename => "rename_template_dir",
            },
        }
    }

    /// Return the CSS class for an editor entry frame.
    pub fn entry_class(self) -> (r: &'static str)
        ensures
            r@ == (match self {
                FileTreeBackend::Notes => "editor-entry"@,
                FileTreeBackend::Templates => "editor-entry editor-entry-template"@,
            }),
    {
        match self {
            FileTreeBackend::Notes => "editor-entry",
            FileTreeBackend::Templates => "editor-entry editor-entry-template",
        }
    }
}

// ---------------------------------------------------------------------------
// Laws
// ---------------------------------------------------------------------------

/// Every entry that stays open was open before and does stay.
pub proof fn lemma_kept_from(s: Seq<EditorEntry>, backend: FileTreeBackend, path: Seq<char>)
    ensures
        forall|k: int|
            0 <= k < kept(s, backend, path).len() ==> stays(
                #[trigger] kept(s, backend, path)[k],
                backend,
                path,
            ) && exists|i: int| 0 <= i < s.len() && s[i] == kept(s, backend, path)[k],
        notes_before_templates(s) ==> notes_before_templates(kept(s, backend, path)),
        kept(s, backend, path).len() <= s.len(),
    decreases s.len(),
{
    if s.len() > 0 {
        let t = s.drop_last();
        lemma_kept_from(t, backend, path);
        let r = kept(t, backend, path);
        assert forall|k: int| 0 <= k < r.len() implies exists|i: int|
            0 <= i < s.len() && s[i] == #[trigger] r[k] by {
            let i = choose|i: int| 0 <= i < t.len() && t[i] == r[k];
            assert(s[i] == t[i]);
        }
        if stays(s.last(), backend, path) {
            let r2 = r.push(s.last());
            assert forall|k: int| 0 <= k < r2.len() implies stays(#[trigger] r2[k], backend, path)
                && exists|i: int| 0 <= i < s.len() && s[i] == r2[k] by {
                if k == r.len() {
                    assert(s[s.len() - 1] == r2[k]);
                } else {
                    assert(r2[k] == r[k]);
                }
            }
            if notes_before_templates(s) {
                assert forall|i: int, j: int|
                    0 <= i < j < r2.len() && r2[i].backend
                        == FileTreeBackend::Templates implies r2[j].backend
                        == FileTreeBackend::Templates by {
                    if j == r.len() {
                        let a = choose|a: int| 0 <= a < s.len() && s[a] == r2[i];
                        if a < s.len() - 1 {
                            assert(s[s.len() - 1].backend == FileTreeBackend::Templates);
                        } else {
                            assert(r2[i] == s.last());
                        }
                    }
                }
            }
        }
    }
}

/// The entries of `s` that are templates form a suffix starting at the first template.
pub proof fn lemma_first_template(s: Seq<EditorEntry>, k: int)
    requires
        0 <= k <= s.len(),
    ensures
        first_template_from(s, k) matches Some(i) ==> k <= i < s.len() && s[i].backend
            == FileTreeBackend::Templates && forall|j: int|
            k <= j < i ==> s[j].backend == FileTreeBackend::Notes,
        first_template_from(s, k) is None ==> forall|j: int|
            k <= j < s.len() ==> s[j].backend == FileTreeBackend::Notes,
    decreases s.len() - k,
{
    if k < s.len() && s[k].backend != FileTreeBackend::Templates {
        lemma_first_template(s, k + 1);
    }
}

/// Opening an entry keeps every note before every template.
pub proof fn lemma_open_keeps_notes_before_templates(
    s: Seq<EditorEntry>,
    backend: FileTreeBackend,
    e: EditorEntry,
)
    requires
        notes_before_templates(s),
    ensures
        notes_before_templates(opened(s, backend, e)),
{
    lemma_kept_from(s, backend, e.title.path@);
    lemma_insert_keeps_notes_before_templates(kept(s, backend, e.title.path@), backend, e);
}

/// Inserting an entry keeps every note before every template.
pub proof fn lemma_insert_keeps_notes_before_templates(
    r: Seq<EditorEntry>,
    backend: FileTreeBackend,
    e: EditorEntry,
)
    requires
        notes_before_templates(r),
    ensures
        notes_before_templates(inserted(r, backend, e)),
{
    let o = inserted(r, backend, e);
    lemma_first_template(r, 0);
    match backend {
        FileTreeBackend::Notes => {
            match first_template_from(r, 0) {
                Some(p) => {
                    assert forall|i: int, j: int|
                        0 <= i < j < o.len() && o[i].backend
                            == FileTreeBackend::Templates implies o[j].backend
                            == FileTreeBackend::Templates by {
                        if i < p {
                            assert(o[i] == r[i]);
                        } else if i == p {
                        } else {
                            assert(o[i] == r[i - 1]);
                            assert(o[j] == r[j - 1]);
                        }
                    }
                },
                None => {
                    assert forall|i: int, j: int|
                        0 <= i < j < o.len() && o[i].backend
                            == FileTreeBackend::Templates implies o[j].backend
                            == FileTreeBackend::Templates by {
                        assert(o[i] == r[i]);
                    }
                },
            }
        },
        FileTreeBackend::Templates => {
            assert forall|i: int, j: int|
                0 <= i < j < o.len() && o[i].backend
                    == FileTreeBackend::Templates implies o[j].backend
                    == FileTreeBackend::Templates by {
                if j < r.len() {
                    assert(o[i] == r[i]);
                    assert(o[j] == r[j]);
                }
            }
        },
    }
}

/// Opening a template leaves exactly one template open: the new one, last.
pub proof fn lemma_open_template_is_single_and_last(s: Seq<EditorEntry>, e: EditorEntry)
    ensures
        opened(s, FileTreeBackend::Templates, e).last() == with_backend(
            e,
            FileTreeBackend::Templates,
        ),
        forall|i: int|
            0 <= i < opened(s, FileTreeBackend::Templates, e).len() ==> ((#[trigger] opened(
                s,
                FileTreeBackend::Templates,
                e,
            )[i]).backend == FileTreeBackend::Templates <==> i == opened(
                s,
                FileTreeBackend::Templates,
                e,
            ).len() - 1),
{
    let path = e.title.path@;
    lemma_kept_from(s, FileTreeBackend::Templates, path);
    let r = kept(s, FileTreeBackend::Templates, path);
    let o = opened(s, FileTreeBackend::Templates, e);
    assert forall|i: int| 0 <= i < o.len() implies (#[trigger] o[i]).backend
        == FileTreeBackend::Templates <==> i == o.len() - 1 by {
        if i < r.len() {
            assert(o[i] == r[i]);
            assert(stays(r[i], FileTreeBackend::Templates, path));
        }
    }
}

/// Opening a note leaves exactly one open note with its backend path: the new one.
pub proof fn lemma_open_note_is_unique(s: Seq<EditorEntry>, e: EditorEntry)
    ensures
        exists|p: int|
            0 <= p < opened(s, FileTreeBackend::Notes, e).len() && opened(
                s,
                FileTreeBackend::Notes,
                e,
            )[p] == with_backend(e, FileTreeBackend::Notes) && forall|i: int|
                0 <= i < opened(s, FileTreeBackend::Notes, e).len() && i != p ==> !((#[trigger] opened(
                    s,
                    FileTreeBackend::Notes,
                    e,
                )[i]).backend == FileTreeBackend::Notes && normalized_path(
                    opened(s, FileTreeBackend::Notes, e)[i].title.path@,
                ) == normalized_path(e.title.path@)),
{
    let path = e.title.path@;
    lemma_kept_from(s, FileTreeBackend::Notes, path);
    let r = kept(s, FileTreeBackend::Notes, path);
    let o = opened(s, FileTreeBackend::Notes, e);
    let e2 = with_backend(e, FileTreeBackend::Notes);
    let p = match first_template_from(r, 0) {
        Some(p) => p,
        None => r.len() as int,
    };
    lemma_first_template(r, 0);
    assert(o[p] == e2);
    assert forall|i: int| 0 <= i < o.len() && i != p implies !((#[trigger] o[i]).backend
        == FileTreeBackend::Notes && normalized_path(o[i].title.path@) == normalized_path(
        path,
    )) by {
        if i < p {
            assert(o[i] == r[i]);
            assert(stays(r[i], FileTreeBackend::Notes, path));
        } else {
            assert(o[i] == r[i - 1]);
            assert(stays(r[i - 1], FileTreeBackend::Notes, path));
        }
    }
}

/// At most one entry of `s` is a template.
pub open spec fn at_most_one_template(s: Seq<EditorEntry>) -> bool {
    forall|i: int, j: int|
        0 <= i < s.len() && 0 <= j < s.len() && s[i].backend == FileTreeBackend::Templates
            && s[j].backend == FileTreeBackend::Templates ==> i == j
}

/// Every entry of `s` but possibly the last is a note.
pub open spec fn templates_only_last(s: Seq<EditorEntry>) -> bool {
    forall|i: int| 0 <= i < s.len() - 1 ==> #[trigger] s[i].backend == FileTreeBackend::Notes
}

/// Whether an entry stays when an entry with path `path` is opened for `backend`.
pub open spec fn stays_pred(backend: FileTreeBackend, path: Seq<char>) -> spec_fn(EditorEntry) -> bool {
    |e: EditorEntry| stays(e, backend, path)
}

/// The entries that stay are exactly those of `s` that stay, in their order.
pub proof fn lemma_kept_is_filter(s: Seq<EditorEntry>, backend: FileTreeBackend, path: Seq<char>)
    ensures
        kept(s, backend, path) == s.filter(stays_pred(backend, path)),
    decreases s.len(),
{
    reveal(Seq::filter);
    if s.len() > 0 {
        lemma_kept_is_filter(s.drop_last(), backend, path);
    }
}

/// Keeping entries for a note keeps every entry but the last a note.
proof fn lemma_kept_only_last(s: Seq<EditorEntry>, path: Seq<char>)
    requires
        templates_only_last(s),
    ensures
        templates_only_last(kept(s, FileTreeBackend::Notes, path)),
{
    if s.len() > 0 {
        let d = s.drop_last();
        lemma_kept_from(d, FileTreeBackend::Notes, path);
        let kd = kept(d, FileTreeBackend::Notes, path);
        assert forall|k: int| 0 <= k < kd.len() implies #[trigger] kd[k].backend == FileTreeBackend::Notes by {
            let i = choose|i: int| 0 <= i < d.len() && d[i] == kd[k];
            assert(d[i] == s[i]);
        }
        let r = kept(s, FileTreeBackend::Notes, path);
        assert forall|i: int| 0 <= i < r.len() - 1 implies #[trigger] r[i].backend == FileTreeBackend::Notes by {
            assert(r[i] == kd[i]);
        }
    }
}

/// A list whose notes come first and that holds at most one template has
/// notes everywhere but possibly at its end.
proof fn lemma_only_last_from_shape(s: Seq<EditorEntry>)
    requires
        notes_before_templates(s),
        at_most_one_template(s),
    ensures
        templates_only_last(s),
{
    assert forall|i: int| 0 <= i < s.len() - 1 implies #[trigger] s[i].backend == FileTreeBackend::Notes by {
        if s[i].backend == FileTreeBackend::Templates {
            assert(s[s.len() - 1].backend == FileTreeBackend::Templates);
        }
    }
}

/// A list with notes everywhere but possibly at its end has its notes first
/// and at most one template.
proof fn lemma_shape_from_only_last(s: Seq<EditorEntry>)
    requires
        templates_only_last(s),
    ensures
        notes_before_templates(s),
        at_most_one_template(s),
{
    assert forall|i: int, j: int|
        0 <= i < s.len() && 0 <= j < s.len() && s[i].backend == FileTreeBackend::Templates
            && s[j].backend == FileTreeBackend::Templates implies i == j by {
        if i < s.len() - 1 {
            assert(s[i].backend == FileTreeBackend::Notes);
        }
        if j < s.len() - 1 {
            assert(s[j].backend == FileTreeBackend::Notes);
        }
    }
    assert forall|i: int, j: int|
        0 <= i < j < s.len() && s[i].backend == FileTreeBackend::Templates implies s[j].backend
            == FileTreeBackend::Templates by {
        assert(s[i].backend == FileTreeBackend::Notes);
    }
}

/// Inserting a note into a list with notes everywhere but possibly at its end
/// puts it right after the notes, and keeps that shape.
proof fn lemma_insert_note_after_notes(r: Seq<EditorEntry>, e: EditorEntry)
    requires
        templates_only_last(r),
    ensures
        templates_only_last(inserted(r, FileTreeBackend::Notes, e)),
        exists|k: int|
            0 <= k < inserted(r, FileTreeBackend::Notes, e).len() && inserted(r, FileTreeBackend::Notes, e)
                == r.insert(k, with_backend(e, FileTreeBackend::Notes)) && (forall|i: int|
                0 <= i < k ==> #[trigger] inserted(r, FileTreeBackend::Notes, e)[i].backend
                    == FileTreeBackend::Notes) && (forall|i: int|
                k < i < inserted(r, FileTreeBackend::Notes, e).len() ==> #[trigger] inserted(
                    r,
                    FileTreeBackend::Notes,
                    e,
                )[i].backend == FileTreeBackend::Templates),
{
    let e2 = with_backend(e, FileTreeBackend::Notes);
    let o = inserted(r, FileTreeBackend::Notes, e);
    lemma_first_template(r, 0);
    match first_template_from(r, 0) {
        Some(p) => {
            assert(p == r.len() - 1);
            assert forall|i: int| 0 <= i < p implies #[trigger] o[i].backend == FileTreeBackend::Notes by {
                assert(o[i] == r[i]);
            }
            assert forall|i: int| p < i < o.len() implies #[trigger] o[i].backend == FileTreeBackend::Templates by {
                assert(o[i] == r[i - 1]);
            }
            assert forall|i: int| 0 <= i < o.len() - 1 implies #[trigger] o[i].backend == FileTreeBackend::Notes by {
                if i < p {
                    assert(o[i] == r[i]);
                } else {
                    assert(o[i] == e2);
                }
            }
            assert(0 <= p < o.len());
        },
        None => {
            assert(o =~= r.insert(r.len() as int, e2));
            assert forall|i: int| 0 <= i < r.len() implies #[trigger] o[i].backend == FileTreeBackend::Notes by {
                assert(o[i] == r[i]);
            }
            assert(o[r.len() as int] == e2);
        },
    }
}

/// Opening a note in a list whose notes come first and that holds at most one
/// template: the list keeps that shape, the entries that stay are those of the
/// list that stay, in their order, and the new note sits right after the
/// notes, before the template.
pub proof fn lemma_open_note_keeps_shape(s: Seq<EditorEntry>, e: EditorEntry)
    requires
        notes_before_templates(s),
        at_most_one_template(s),
    ensures
        notes_before_templates(opened(s, FileTreeBackend::Notes, e)),
        at_most_one_template(opened(s, FileTreeBackend::Notes, e)),
        kept(s, FileTreeBackend::Notes, e.title.path@) == s.filter(
            stays_pred(FileTreeBackend::Notes, e.title.path@),
        ),
        exists|k: int|
            0 <= k < opened(s, FileTreeBackend::Notes, e).len() && opened(s, FileTreeBackend::Notes, e)
                == kept(s, FileTreeBackend::Notes, e.title.path@).insert(
                k,
                with_backend(e, FileTreeBackend::Notes),
            ) && (forall|i: int|
                0 <= i < k ==> #[trigger] opened(s, FileTreeBackend::Notes, e)[i].backend
                    == FileTreeBackend::Notes) && (forall|i: int|
                k < i < opened(s, FileTreeBackend::Notes, e).len() ==> #[trigger] opened(
                    s,
                    FileTreeBackend::Notes,
                    e,
                )[i].backend == FileTreeBackend::Templates),
{
    let path = e.title.path@;
    lemma_only_last_from_shape(s);
    lemma_kept_only_last(s, path);
    lemma_kept_is_filter(s, FileTreeBackend::Notes, path);
    let r = kept(s, FileTreeBackend::Notes, path);
    lemma_insert_note_after_notes(r, e);
    lemma_shape_from_only_last(inserted(r, FileTreeBackend::Notes, e));
}

} // verus!
