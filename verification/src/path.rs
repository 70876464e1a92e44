//! Note and folder paths of the file tree: basenames, markdown suffixes,
//! download file names, joining, parents, and how paths change when an item
//! is moved or renamed.

use vstd::prelude::*;
use vstd::string::StrSliceExecFns;
use crate::text::{
    chars_of, ends_with_str, is_prefix, is_suffix, last_of, last_of2, last_of2_exec, matches_at,
    push_all, push_str, slice_of, starts_with, string_of, strip_prefix, strip_suffix,
};

verus! {

// ---------------------------------------------------------------------------
// Specifications
// ---------------------------------------------------------------------------

/// The last `/`- or `\`-separated segment of `p`; the whole of `p` when that
/// segment is empty.
pub open spec fn basename_of(p: Seq<char>) -> Seq<char> {
    let seg = match last_of2(p, '/', '\\') {
        Some(i) => p.subrange(i + 1, p.len() as int),
        None => p,
    };
    if seg.len() == 0 {
        p
    } else {
        seg
    }
}

/// `n` without a trailing `.markdown`, or else without a trailing `.md`.
pub open spec fn strip_md_ext_of(n: Seq<char>) -> Seq<char> {
    match strip_suffix(n, ".markdown"@) {
        Some(r) => r,
        None => match strip_suffix(n, ".md"@) {
            Some(r) => r,
            None => n,
        },
    }
}

/// Whether `n` ends with `.md` or `.markdown`.
pub open spec fn has_md_ext(n: Seq<char>) -> bool {
    is_suffix(".md"@, n) || is_suffix(".markdown"@, n)
}

/// The markdown download name of path `p`.
pub open spec fn markdown_filename_of(p: Seq<char>) -> Seq<char> {
    let name = basename_of(p);
    if has_md_ext(name) {
        name
    } else {
        name + ".md"@
    }
}

/// `dir` and `name` joined by `/`; `name` alone for an empty `dir`.
pub open spec fn join_of(dir: Seq<char>, name: Seq<char>) -> Seq<char> {
    if dir.len() == 0 {
        name
    } else {
        dir + seq!['/'] + name
    }
}

/// Everything before the last `/` of `p`; empty when `p` has no `/`.
pub open spec fn parent_of(p: Seq<char>) -> Seq<char> {
    match last_of(p, '/') {
        Some(i) => p.subrange(0, i),
        None => Seq::empty(),
    }
}

/// Moving `src` into folder `dst` is invalid: no source, already there, onto
/// itself, or into one of its own descendants.
pub open spec fn invalid_move(src: Seq<char>, dst: Seq<char>) -> bool {
    ||| src.len() == 0
    ||| parent_of(src) == dst
    ||| src == dst
    ||| is_prefix(src, dst) && dst.len() > src.len() && dst[src.len() as int] == '/'
}

/// `path` rebased from under `src` to under `new_root`: `src` itself becomes
/// `new_root`, a descendant `src/rest` becomes `new_root/rest`, others are untouched.
pub open spec fn rebase_of(path: Seq<char>, src: Seq<char>, new_root: Seq<char>) -> Option<
    Seq<char>,
> {
    if path == src {
        Some(new_root)
    } else {
        match strip_prefix(path, src + seq!['/']) {
            Some(rest) => Some(new_root + seq!['/'] + rest),
            None => None,
        }
    }
}

/// Where `path` ends up after `src` is moved into folder `dst`.
pub open spec fn after_move_of(path: Seq<char>, src: Seq<char>, dst: Seq<char>) -> Option<
    Seq<char>,
> {
    rebase_of(path, src, join_of(dst, basename_of(src)))
}

/// Where `path` ends up after `src` is renamed to `new_base`.
pub open spec fn after_rename_of(path: Seq<char>, src: Seq<char>, new_base: Seq<char>) -> Option<
    Seq<char>,
> {
    rebase_of(path, src, join_of(parent_of(src), new_base))
}

/// The suffix of `name` from its last `.`, when that dot is not the first character.
pub open spec fn ext_of(name: Seq<char>) -> Seq<char> {
    match last_of(name, '.') {
        Some(i) => if i > 0 {
            name.subrange(i, name.len() as int)
        } else {
            Seq::empty()
        },
        None => Seq::empty(),
    }
}

/// Whether `name` has a `.` after its first character.
pub open spec fn has_ext(name: Seq<char>) -> bool {
    match last_of(name, '.') {
        Some(i) => i > 0,
        None => false,
    }
}

/// The basename a rename of `src_path` to `new_name` produces: a file keeps
/// its extension when the new name has none.
pub open spec fn resolved_rename_of(src_path: Seq<char>, new_name: Seq<char>, is_file: bool) -> Seq<
    char,
> {
    let suffix = ext_of(basename_of(src_path));
    if is_file && suffix.len() > 0 && !has_ext(new_name) {
        new_name + suffix
    } else {
        new_name
    }
}

// ---------------------------------------------------------------------------
// Functions
// ---------------------------------------------------------------------------

/// Character bounds `(a, b)` of the basename of `v`.
fn basename_bounds(v: &Vec<char>) -> (r: (usize, usize))
    ensures
        r.0 <= r.1 <= v@.len(),
        v@.subrange(r.0 as int, r.1 as int) == basename_of(v@),
{
    match last_of2_exec(v, '/', '\\') {
        Some(i) => {
            if i == v.len() - 1 {
                assert(v@.subrange(0, v@.len() as int) == v@);
                (0, v.len())
            } else {
                (i + 1, v.len())
            }
        },
        None => {
            assert(v@.subrange(0, v@.len() as int) == v@);
            (0, v.len())
        },
    }
}

/// Return the last path segment of `path`.
pub fn basename(path: &str) -> (r: &str)
    ensures
        r@ == basename_of(path@),
{
    let v = chars_of(path);
    let (a, b) = basename_bounds(&v);
    path.substring_char(a, b)
}

/// Character length of `v` once a markdown suffix is stripped.
fn strip_md_len(v: &Vec<char>) -> (n: usize)
    ensures
        n <= v@.len(),
        v@.subrange(0, n as int) == strip_md_ext_of(v@),
{
    if ends_with_str(v, ".markdown") {
        proof {
            reveal_strlit(".markdown");
        }
        v.len() - 9
    } else if ends_with_str(v, ".md") {
        proof {
            reveal_strlit(".md");
        }
        v.len() - 3
    } else {
        assert(v@.subrange(0, v@.len() as int) == v@);
        v.len()
    }
}

/// Strip a trailing `.md` or `.markdown` suffix from `name`.
pub fn strip_md_ext(name: &str) -> (r: &str)
    ensures
        r@ == strip_md_ext_of(name@),
{
    let v = chars_of(name);
    let n = strip_md_len(&v);
    name.substring_char(0, n)
}

/// Return a markdown download filename for `path`.
pub fn path_to_markdown_filename(path: &str) -> (r: String)
    ensures
        r@ == markdown_filename_of(path@),
{
    let name = chars_of(basename(path));
    if ends_with_str(&name, ".md") || ends_with_str(&name, ".markdown") {
        string_of(&name)
    } else {
        let mut out = name;
        push_str(&mut out, ".md");
        string_of(&out)
    }
}

/// The basename of `path` without a markdown suffix, followed by `ext`.
fn stem_with(path: &str, ext: &str) -> (r: String)
    ensures
        r@ == strip_md_ext_of(basename_of(path@)) + ext@,
{
    let mut out = chars_of(strip_md_ext(basename(path)));
    push_str(&mut out, ext);
    string_of(&out)
}

/// Return an HTML download filename for `path`.
pub fn path_to_html_filename(path: &str) -> (r: String)
    ensures
        r@ == strip_md_ext_of(basename_of(path@)) + ".html"@,
{
    stem_with(path, ".html")
}

/// Return a PDF download filename for `path`.
pub fn path_to_pdf_filename(path: &str) -> (r: String)
    ensures
        r@ == strip_md_ext_of(basename_of(path@)) + ".pdf"@,
{
    stem_with(path, ".pdf")
}

/// Return the HTML page title derived from `path`.
pub fn html_page_title(path: &str) -> (r: String)
    ensures
        r@ == strip_md_ext_of(basename_of(path@)),
{
    let v = chars_of(strip_md_ext(basename(path)));
    string_of(&v)
}

/// `dir` and `name` joined with `/`, as characters.
pub fn join_chars(dir: &Vec<char>, name: &Vec<char>) -> (r: Vec<char>)
    ensures
        r@ == join_of(dir@, name@),
{
    let mut out = slice_of(dir, 0, dir.len());
    assert(out@ == dir@);
    if dir.len() == 0 {
        return slice_of(name, 0, name.len());
    }
    out.push('/');
    push_all(&mut out, name);
    out
}

/// The kinds of diagram an entry can hold.
#[derive(Clone, Copy, PartialEq, Eq, Debug, Structural)]
pub enum DiagramKind {
    Mermaid,
    Graphviz,
}

impl DiagramKind {
    /// The fence language naming this kind.
    pub fn as_str(self) -> (r: &'static str)
        ensures
            r@ == (match self {
                DiagramKind::Mermaid => "mermaid"@,
                DiagramKind::Graphviz => "graphviz"@,
            }),
    {
        match self {
            DiagramKind::Mermaid => "mermaid",
            DiagramKind::Graphviz => "graphviz",
        }
    }
}

/// The download name of diagram `index` of `kind` in the note at `path`:
/// `{stem}_{kind}_{index}.svg`, the stem being the basename without a
/// markdown extension.
pub fn diagram_svg_filename(path: &str, kind: &str, index: usize) -> (r: String)
    ensures
        r@ == strip_md_ext_of(basename_of(path@)) + seq!['_'] + kind@ + seq!['_'] + crate::text::decimal(
            index as nat,
        ) + ".svg"@,
{
    let mut out = chars_of(strip_md_ext(basename(path)));
    out.push('_');
    crate::text::push_str(&mut out, kind);
    out.push('_');
    let digits = crate::text::decimal_exec(index);
    push_all(&mut out, &digits);
    crate::text::push_str(&mut out, ".svg");
    string_of(&out)
}

/// Join a directory path and an entry name with `/`.
pub fn join_path(dir: &str, name: &str) -> (r: String)
    ensures
        r@ == join_of(dir@, name@),
{
    let out = join_chars(&chars_of(dir), &chars_of(name));
    string_of(&out)
}

/// Characters of the parent directory of `v`.
pub fn parent_chars(v: &Vec<char>) -> (r: Vec<char>)
    ensures
        r@ == parent_of(v@),
{
    match last_of2_exec(v, '/', '/') {
        Some(i) => slice_of(v, 0, i),
        None => Vec::new(),
    }
}

/// Return the parent directory of `path`, or `""` for a top-level entry.
pub fn parent_path(path: &str) -> (r: &str)
    ensures
        r@ == parent_of(path@),
{
    let v = chars_of(path);
    match last_of2_exec(&v, '/', '/') {
        Some(i) => path.substring_char(0, i),
        None => path.substring_char(0, 0),
    }
}

/// Whether two character vectors are equal.
pub fn chars_eq(a: &Vec<char>, b: &Vec<char>) -> (r: bool)
    ensures
        r == (a@ == b@),
{
    if a.len() != b.len() {
        return false;
    }
    let r = matches_at(a, b, 0);
    assert(a@.subrange(0, a@.len() as int) == a@);
    r
}

/// Return whether moving `src` into directory `dst` is a no-op or invalid.
pub fn is_invalid_move(src: &str, dst: &str) -> (r: bool)
    ensures
        r == invalid_move(src@, dst@),
{
    let s = chars_of(src);
    let d = chars_of(dst);
    if s.len() == 0 {
        return true;
    }
    if chars_eq(&parent_chars(&s), &d) {
        return true;
    }
    if chars_eq(&s, &d) {
        return true;
    }
    starts_with(&d, &s) && d.len() > s.len() && d[s.len()] == '/'
}

/// `path` rebased from under `src` to under `new_root`.
fn rebase(path: &Vec<char>, src: &Vec<char>, new_root: Vec<char>) -> (r: Option<Vec<char>>)
    ensures
        match r {
            Some(v) => rebase_of(path@, src@, new_root@) == Some(v@),
            None => rebase_of(path@, src@, new_root@) is None,
        },
{
    if chars_eq(path, src) {
        return Some(new_root);
    }
    let mut prefix = slice_of(src, 0, src.len());
    prefix.push('/');
    assert(prefix@ == src@ + seq!['/']);
    if starts_with(path, &prefix) {
        let rest = slice_of(path, prefix.len(), path.len());
        let mut out = new_root;
        out.push('/');
        push_all(&mut out, &rest);
        Some(out)
    } else {
        None
    }
}

/// Option of characters as an option of `String`.
fn string_opt(v: Option<Vec<char>>) -> (r: Option<String>)
    ensures
        match v {
            Some(c) => r matches Some(s) && s@ == c@,
            None => r is None,
        },
{
    match v {
        Some(c) => Some(string_of(&c)),
        None => None,
    }
}

/// Return `path` rebased from under `src` to under `new_root`, or `None` when
/// `path` is neither `src` nor inside it.
pub fn rebase_path(path: &str, src: &str, new_root: &str) -> (r: Option<String>)
    ensures
        match r {
            Some(s) => rebase_of(path@, src@, new_root@) == Some(s@),
            None => rebase_of(path@, src@, new_root@) is None,
        },
{
    string_opt(rebase(&chars_of(path), &chars_of(src), chars_of(new_root)))
}

/// Return the new path of `path` after moving `src` into directory `dst`.
pub fn rewrite_path_after_move(path: &str, src: &str, dst: &str) -> (r: Option<String>)
    ensures
        match r {
            Some(s) => after_move_of(path@, src@, dst@) == Some(s@),
            None => after_move_of(path@, src@, dst@) is None,
        },
{
    let new_root = join_chars(&chars_of(dst), &chars_of(basename(src)));
    string_opt(rebase(&chars_of(path), &chars_of(src), new_root))
}

/// Resolve the basename after rename, matching backend `rename_basename` rules.
pub fn resolved_rename_basename(src_path: &str, new_name: &str, is_file: bool) -> (r: String)
    ensures
        r@ == resolved_rename_of(src_path@, new_name@, is_file),
{
    let name = chars_of(new_name);
    if !is_file {
        return string_of(&name);
    }
    let base = chars_of(basename(src_path));
    let suffix = match last_of2_exec(&base, '.', '.') {
        Some(i) => if i > 0 {
            slice_of(&base, i, base.len())
        } else {
            Vec::new()
        },
        None => Vec::new(),
    };
    let new_has_suffix = match last_of2_exec(&name, '.', '.') {
        Some(i) => i > 0,
        None => false,
    };
    if suffix.len() > 0 && !new_has_suffix {
        let mut out = name;
        push_all(&mut out, &suffix);
        string_of(&out)
    } else {
        string_of(&name)
    }
}

/// Return the new path of `path` after renaming `src` to `new_basename`.
pub fn rewrite_path_after_rename(path: &str, src: &str, new_basename: &str) -> (r: Option<String>)
    ensures
        match r {
            Some(s) => after_rename_of(path@, src@, new_basename@) == Some(s@),
            None => after_rename_of(path@, src@, new_basename@) is None,
        },
{
    let s = chars_of(src);
    let new_root = join_chars(&parent_chars(&s), &chars_of(new_basename));
    string_opt(rebase(&chars_of(path), &s, new_root))
}

// ---------------------------------------------------------------------------
// Laws
// ---------------------------------------------------------------------------

/// Appending characters other than `a` and `b` keeps the last `a`/`b` where it was.
pub proof fn lemma_last_of2_append(x: Seq<char>, y: Seq<char>, a: char, b: char)
    requires
        forall|j: int| 0 <= j < y.len() ==> y[j] != a && y[j] != b,
    ensures
        last_of2(x + y, a, b) == last_of2(x, a, b),
    decreases y.len(),
{
    if y.len() > 0 {
        assert((x + y).drop_last() =~= x + y.drop_last());
        assert((x + y).last() == y.last());
        lemma_last_of2_append(x, y.drop_last(), a, b);
    } else {
        assert(x + y =~= x);
    }
}

/// A name without separators, joined onto a folder, has that folder as its
/// parent and itself as its basename.
pub proof fn lemma_join_parent_basename(dir: Seq<char>, name: Seq<char>)
    requires
        name.len() > 0,
        forall|j: int| 0 <= j < name.len() ==> name[j] != '/' && name[j] != '\\',
    ensures
        parent_of(join_of(dir, name)) == dir,
        basename_of(join_of(dir, name)) == name,
{
    if dir.len() == 0 {
        lemma_last_of2_append(Seq::empty(), name, '/', '/');
        lemma_last_of2_append(Seq::empty(), name, '/', '\\');
        assert(Seq::<char>::empty() + name =~= name);
    } else {
        let head = dir + seq!['/'];
        assert(join_of(dir, name) =~= head + name);
        lemma_last_of2_append(head, name, '/', '/');
        lemma_last_of2_append(head, name, '/', '\\');
        assert(head.drop_last() =~= dir);
        assert(last_of2(head, '/', '/') == Some(dir.len() as int));
        assert(last_of2(head, '/', '\\') == Some(dir.len() as int));
        assert((head + name).subrange(0, dir.len() as int) =~= dir);
        assert((head + name).subrange(dir.len() as int + 1, (head + name).len() as int) =~= name);
    }
}

/// No separator follows the last separator of `p`, and without a separator
/// none occurs at all.
pub proof fn lemma_last_of2_is_last(p: Seq<char>, a: char, b: char)
    ensures
        match last_of2(p, a, b) {
            Some(i) => 0 <= i < p.len() && (p[i] == a || p[i] == b) && forall|j: int|
                i < j < p.len() ==> p[j] != a && p[j] != b,
            None => forall|j: int| 0 <= j < p.len() ==> p[j] != a && p[j] != b,
        },
    decreases p.len(),
{
    if p.len() > 0 && !(p.last() == a || p.last() == b) {
        lemma_last_of2_is_last(p.drop_last(), a, b);
        assert(forall|j: int| 0 <= j < p.len() - 1 ==> p.drop_last()[j] == p[j]);
    }
}

/// The basename of a path that does not end in a separator is non-empty and
/// holds no separator.
pub proof fn lemma_basename_plain(p: Seq<char>)
    requires
        p.len() > 0,
        p.last() != '/' && p.last() != '\\',
    ensures
        basename_of(p).len() > 0,
        forall|j: int| 0 <= j < basename_of(p).len() ==> basename_of(p)[j] != '/' && basename_of(p)[j] != '\\',
{
    lemma_last_of2_is_last(p, '/', '\\');
    match last_of2(p, '/', '\\') {
        Some(i) => {
            assert(i < p.len() - 1);
            let seg = p.subrange(i + 1, p.len() as int);
            assert forall|j: int| 0 <= j < seg.len() implies seg[j] != '/' && seg[j] != '\\' by {
                assert(seg[j] == p[i + 1 + j]);
            }
        },
        None => {},
    }
}

/// Moving an item into folder `dst` puts it directly inside `dst` under its
/// own basename (for an item path that does not end in a separator).
pub proof fn lemma_move_lands_in_dst(src: Seq<char>, dst: Seq<char>)
    requires
        src.len() > 0,
        src.last() != '/' && src.last() != '\\',
    ensures
        after_move_of(src, src, dst) == Some(join_of(dst, basename_of(src))),
        parent_of(join_of(dst, basename_of(src))) == dst,
        basename_of(join_of(dst, basename_of(src))) == basename_of(src),
{
    lemma_basename_plain(src);
    lemma_join_parent_basename(dst, basename_of(src));
}

/// Renaming an item keeps it in its folder, under the new basename (for a
/// new basename without separators).
pub proof fn lemma_rename_stays_in_folder(src: Seq<char>, new_base: Seq<char>)
    requires
        new_base.len() > 0,
        forall|j: int| 0 <= j < new_base.len() ==> new_base[j] != '/' && new_base[j] != '\\',
    ensures
        after_rename_of(src, src, new_base) == Some(join_of(parent_of(src), new_base)),
        parent_of(join_of(parent_of(src), new_base)) == parent_of(src),
        basename_of(join_of(parent_of(src), new_base)) == new_base,
{
    lemma_join_parent_basename(parent_of(src), new_base);
}

/// Renaming keeps a file's extension as the text after the last `.` of its
/// old basename: a folder, or a new name that has a `.` after its first
/// character, is taken as it is; otherwise the new name is followed either
/// by nothing, when the old basename has no `.` after its first character,
/// or by the old basename from its last `.` on, a suffix whose only `.` is
/// its first character.
pub proof fn lemma_rename_keeps_last_extension(src_path: Seq<char>, new_name: Seq<char>, is_file: bool)
    ensures
        !is_file ==> resolved_rename_of(src_path, new_name, is_file) == new_name,
        (exists|j: int| 0 < j < new_name.len() && new_name[j] == '.') ==> resolved_rename_of(
            src_path,
            new_name,
            is_file,
        ) == new_name,
        is_file && (forall|j: int| 0 < j < new_name.len() ==> new_name[j] != '.') ==> {
            let b = basename_of(src_path);
            ||| (forall|j: int| 0 < j < b.len() ==> b[j] != '.') && resolved_rename_of(
                src_path,
                new_name,
                is_file,
            ) == new_name
            ||| exists|i: int|
                0 < i < b.len() && b[i] == '.' && (forall|j: int| i < j < b.len() ==> b[j] != '.')
                    && resolved_rename_of(src_path, new_name, is_file) == new_name + b.subrange(
                    i,
                    b.len() as int,
                )
        },
{
    let b = basename_of(src_path);
    lemma_last_of2_is_last(b, '.', '.');
    lemma_last_of2_is_last(new_name, '.', '.');
    if exists|j: int| 0 < j < new_name.len() && new_name[j] == '.' {
        let j = choose|j: int| 0 < j < new_name.len() && new_name[j] == '.';
        assert(has_ext(new_name));
    }
    if is_file && (forall|j: int| 0 < j < new_name.len() ==> new_name[j] != '.') {
        assert(!has_ext(new_name));
        match last_of(b, '.') {
            Some(i) => {
                if i > 0 {
                    assert(b.subrange(i, b.len() as int).len() > 0);
                } else {
                    assert forall|j: int| 0 < j < b.len() implies b[j] != '.' by {}
                }
            },
            None => {},
        }
    }
}

} // verus!
