//! The editor's data: an entry is a title block naming the note path, optional
//! YAML front matter, and a markdown body. Also how a markdown file is split
//! into front matter and body, how an entry is written back to markdown, and
//! how front matter is read as a key/value table.

use vstd::prelude::*;
use crate::file_tree_backend::FileTreeBackend;
use crate::text::{
    chars_of, find, first_of, first_of_exec, find_exec, is_prefix, is_suffix, lemma_find_from,
    lines, lines_exec, occurs_at, push_all, push_str, replace_all, replace_all_exec, slice_of,
    starts_with, ends_with, string_of, trim, trim_exec, has_char, is_ws, trim_start,
    lemma_trim_ends, lemma_trim_end_props, lemma_trim_fixed,
};

verus! {

/// Holds the raw YAML front matter (without `---` delimiters) for a note.
pub struct FrontMatterBlock {
    pub raw: String,
    pub focused: bool,
}

/// A title block that displays the file path of the associated markdown content.
/// `collapsed` hides the entry's front matter and markdown when true.
pub struct TitleBlock {
    pub id: u64,
    pub path: String,
    pub focused: bool,
    pub collapsed: bool,
}

/// A single editing unit in the document: raw markdown, its cached HTML, and focus.
pub struct MarkdownBlock {
    pub text: String,
    pub html: String,
    pub focused: bool,
}

/// A unified editor entry: a title block, optional front matter, and markdown content.
pub struct EditorEntry {
    pub title: TitleBlock,
    pub front_matter: Option<FrontMatterBlock>,
    pub content: MarkdownBlock,
    pub backend: FileTreeBackend,
}

// ---------------------------------------------------------------------------
// Specifications
// ---------------------------------------------------------------------------

/// The opening delimiter `---\n`.
pub open spec fn fence_open() -> Seq<char> {
    seq!['-', '-', '-', '\n']
}

/// The closing delimiter `\n---\n` between front matter and body.
pub open spec fn fence_close() -> Seq<char> {
    seq!['\n', '-', '-', '-', '\n']
}

/// A closing delimiter `\n---` at the very end of a file.
pub open spec fn fence_close_eof() -> Seq<char> {
    seq!['\n', '-', '-', '-']
}

/// `text` with `\r\n` turned into `\n`.
pub open spec fn crlf_normalized(text: Seq<char>) -> Seq<char> {
    replace_all(text, seq!['\r', '\n'], seq!['\n'])
}

/// Front matter and body of a markdown file: YAML between an opening `---`
/// line and a closing `---` line (or a closing `---` at end of file), the rest
/// as body; without such delimiters, no front matter and the text unchanged.
pub open spec fn split_of(text: Seq<char>) -> (Option<Seq<char>>, Seq<char>) {
    let norm = crlf_normalized(text);
    if !is_prefix(fence_open(), norm) {
        (None, text)
    } else {
        let body = norm.subrange(4, norm.len() as int);
        match find(body, fence_close()) {
            Some(c) => (Some(body.subrange(0, c)), body.subrange(c + 5, body.len() as int)),
            None => if is_suffix(fence_close_eof(), body) {
                (Some(body.subrange(0, body.len() - 4)), Seq::empty())
            } else {
                (None, text)
            },
        }
    }
}

/// The markdown file of a note: non-empty front matter wrapped in `---` lines,
/// then the body.
pub open spec fn markdown_of(front_matter: Option<Seq<char>>, body: Seq<char>) -> Seq<char> {
    match front_matter {
        Some(raw) => if raw.len() == 0 {
            body
        } else {
            fence_open() + raw + fence_close() + body
        },
        None => body,
    }
}

/// The raw front matter of an entry, if any.
pub open spec fn front_matter_raw(e: EditorEntry) -> Option<Seq<char>> {
    match e.front_matter {
        Some(fm) => Some(fm.raw@),
        None => None,
    }
}

/// The markdown file an entry is written as.
pub open spec fn entry_markdown_text(e: EditorEntry) -> Seq<char> {
    markdown_of(front_matter_raw(e), e.content.text@)
}

/// The `(key, value)` row of one front-matter line: the trimmed text before
/// the first `:` and after it; no row for an empty key or a list item.
pub open spec fn field_of(line: Seq<char>) -> Option<(Seq<char>, Seq<char>)> {
    let (k, v) = match first_of(line, ':') {
        Some(i) => (line.subrange(0, i), line.subrange(i + 1, line.len() as int)),
        None => (line, Seq::empty()),
    };
    let key = trim(k);
    if key.len() == 0 || key[0] == '-' || key[0] == ' ' {
        None
    } else {
        Some((key, trim(v)))
    }
}

/// The rows of a sequence of front-matter lines, in order.
pub open spec fn fields_of(ls: Seq<Seq<char>>) -> Seq<(Seq<char>, Seq<char>)>
    decreases ls.len(),
{
    if ls.len() == 0 {
        Seq::empty()
    } else {
        let rest = fields_of(ls.drop_last());
        match field_of(ls.last()) {
            Some(f) => rest.push(f),
            None => rest,
        }
    }
}

/// The character sequences of a list of string pairs.
pub open spec fn pair_texts(v: Seq<(String, String)>) -> Seq<(Seq<char>, Seq<char>)> {
    Seq::new(v.len(), |i: int| (v[i].0@, v[i].1@))
}

// ---------------------------------------------------------------------------
// Constructors
// ---------------------------------------------------------------------------

impl FrontMatterBlock {
    /// Create a front-matter block from raw YAML.
    pub fn new(raw: &str) -> (r: Self)
        ensures
            r.raw@ == raw@,
            !r.focused,
    {
        FrontMatterBlock { raw: string_of(&chars_of(raw)), focused: false }
    }

    /// Parse raw YAML into `(key, value)` pairs for the view-mode table.
    pub fn parse_fields(raw: &str) -> (r: Vec<(String, String)>)
        ensures
            pair_texts(r@) == fields_of(lines(raw@)),
    {
        let ls = lines_exec(&chars_of(raw));
        let mut out: Vec<(String, String)> = Vec::new();
        let mut i: usize = 0;
        assert(crate::text::texts(ls@).subrange(0, 0) =~= Seq::<Seq<char>>::empty());
        assert(pair_texts(out@) =~= Seq::<(Seq<char>, Seq<char>)>::empty());
        while i < ls.len()
            invariant
                i <= ls@.len(),
                crate::text::texts(ls@) == lines(raw@),
                pair_texts(out@) == fields_of(crate::text::texts(ls@).subrange(0, i as int)),
            decreases ls@.len() - i,
        {
            let ghost prev = crate::text::texts(ls@).subrange(0, i as int);
            let ghost next = crate::text::texts(ls@).subrange(0, i + 1);
            assert(next.drop_last() =~= prev);
            assert(next.last() == ls@[i as int]@);
            let ghost before = pair_texts(out@);
            match field_exec(&ls[i]) {
                Some((k, v)) => {
                    out.push((string_of(&k), string_of(&v)));
                    assert(pair_texts(out@) =~= before.push((k@, v@)));
                },
                None => {},
            }
            i = i + 1;
        }
        assert(crate::text::texts(ls@).subrange(0, ls@.len() as int) =~= crate::text::texts(
            ls@,
        ));
        out
    }
}

/// The row of one front-matter line.
fn field_exec(line: &Vec<char>) -> (r: Option<(Vec<char>, Vec<char>)>)
    ensures
        match r {
            Some((k, v)) => field_of(line@) == Some((k@, v@)),
            None => field_of(line@) is None,
        },
{
    let n = line.len();
    let (k, v) = match first_of_exec(line, ':') {
        Some(i) => (slice_of(line, 0, i), slice_of(line, i + 1, n)),
        None => (slice_of(line, 0, line.len()), Vec::new()),
    };
    assert(line@.subrange(0, line@.len() as int) == line@);
    let key = trim_exec(&k);
    if key.len() == 0 || key[0] == '-' || key[0] == ' ' {
        None
    } else {
        Some((key, trim_exec(&v)))
    }
}

impl TitleBlock {
    /// Create a title block with identifier `id` for a note path.
    pub fn new(id: u64, path: &str) -> (r: Self)
        ensures
            r.id == id,
            r.path@ == path@,
            !r.focused,
            !r.collapsed,
    {
        TitleBlock { id, path: string_of(&chars_of(path)), focused: false, collapsed: false }
    }
}

impl MarkdownBlock {
    /// Create a markdown block; HTML starts empty until the editor renders it.
    pub fn new(raw: &str) -> (r: Self)
        ensures
            r.text@ == raw@,
            r.html@ == Seq::<char>::empty(),
            !r.focused,
    {
        MarkdownBlock {
            text: string_of(&chars_of(raw)),
            html: string_of(&Vec::new()),
            focused: false,
        }
    }
}

impl EditorEntry {
    /// Create a note entry with title identifier `id` from a path and markdown body.
    pub fn new(id: u64, path: &str, raw: &str) -> (r: Self)
        ensures
            r.title.id == id,
            r.title.path@ == path@,
            !r.title.focused,
            !r.title.collapsed,
            r.front_matter is None,
            r.content.text@ == raw@,
            r.content.html@ == Seq::<char>::empty(),
            !r.content.focused,
            r.backend == FileTreeBackend::Notes,
    {
        EditorEntry {
            title: TitleBlock::new(id, path),
            front_matter: None,
            content: MarkdownBlock::new(raw),
            backend: FileTreeBackend::Notes,
        }
    }

    /// Create an empty note entry for a path.
    pub fn empty(id: u64, path: &str) -> (r: Self)
        ensures
            r.title.id == id,
            r.title.path@ == path@,
            !r.title.focused,
            !r.title.collapsed,
            r.front_matter is None,
            r.content.text@ == Seq::<char>::empty(),
            r.content.html@ == Seq::<char>::empty(),
            !r.content.focused,
            r.backend == FileTreeBackend::Notes,
    {
        proof {
            reveal_strlit("");
        }
        Self::new(id, path, "")
    }
}

// ---------------------------------------------------------------------------
// Markdown files
// ---------------------------------------------------------------------------

/// Characters `---\n`.
fn fence_open_exec() -> (r: Vec<char>)
    ensures
        r@ == fence_open(),
{
    let r = chars_of("---\n");
    proof {
        reveal_strlit("---\n");
    }
    assert(r@ =~= fence_open());
    r
}

/// Characters `\n---\n`.
fn fence_close_exec() -> (r: Vec<char>)
    ensures
        r@ == fence_close(),
{
    let r = chars_of("\n---\n");
    proof {
        reveal_strlit("\n---\n");
    }
    assert(r@ =~= fence_close());
    r
}

/// Characters `\n---`.
fn fence_close_eof_exec() -> (r: Vec<char>)
    ensures
        r@ == fence_close_eof(),
{
    let r = chars_of("\n---");
    proof {
        reveal_strlit("\n---");
    }
    assert(r@ =~= fence_close_eof());
    r
}

/// Split `text` into optional YAML front matter and the remaining markdown body.
pub fn split_front_matter(text: &str) -> (r: (Option<String>, String))
    ensures
        split_of(text@) == (match r.0 {
            Some(f) => Some(f@),
            None => None::<Seq<char>>,
        }, r.1@),
{
    let source = chars_of(text);
    let mut crlf: Vec<char> = Vec::new();
    crlf.push('\r');
    crlf.push('\n');
    let mut lf: Vec<char> = Vec::new();
    lf.push('\n');
    assert(crlf@ =~= seq!['\r', '\n']);
    assert(lf@ =~= seq!['\n']);
    let norm = replace_all_exec(&source, &crlf, &lf);
    if !starts_with(&norm, &fence_open_exec()) {
        return (None, string_of(&source));
    }
    let body = slice_of(&norm, 4, norm.len());
    match find_exec(&body, &fence_close_exec()) {
        Some(c) => {
            let fm = slice_of(&body, 0, c);
            let content = slice_of(&body, c + 5, body.len());
            (Some(string_of(&fm)), string_of(&content))
        },
        None => {
            if ends_with(&body, &fence_close_eof_exec()) {
                let fm = slice_of(&body, 0, body.len() - 4);
                (Some(string_of(&fm)), string_of(&Vec::new()))
            } else {
                (None, string_of(&source))
            }
        },
    }
}

/// Characters of the markdown file for front matter `front_matter` and body `body`.
pub fn markdown_chars(front_matter: Option<&String>, body: &String) -> (r: Vec<char>)
    ensures
        r@ == markdown_of(
            match front_matter {
                Some(f) => Some(f@),
                None => None::<Seq<char>>,
            },
            body@,
        ),
{
    let body_chars = chars_of(body.as_str());
    match front_matter {
        Some(raw) => {
            let raw_chars = chars_of(raw.as_str());
            if raw_chars.len() == 0 {
                body_chars
            } else {
                let mut out = fence_open_exec();
                push_all(&mut out, &raw_chars);
                push_all(&mut out, &fence_close_exec());
                push_all(&mut out, &body_chars);
                out
            }
        },
        None => body_chars,
    }
}

/// Serialize an editor entry to markdown, including front matter when present.
pub fn entry_to_markdown(entry: &EditorEntry) -> (r: String)
    ensures
        r@ == entry_markdown_text(*entry),
{
    let fm = match &entry.front_matter {
        Some(block) => Some(&block.raw),
        None => None,
    };
    let out = markdown_chars(fm, &entry.content.text);
    string_of(&out)
}

// ---------------------------------------------------------------------------
// Laws
// ---------------------------------------------------------------------------

/// Text without `\r\n` is unchanged by line-ending normalisation.
pub proof fn lemma_no_crlf(s: Seq<char>)
    requires
        forall|i: int| !occurs_at(s, seq!['\r', '\n'], i),
    ensures
        crlf_normalized(s) == s,
{
    lemma_find_from(s, seq!['\r', '\n'], 0);
}

/// The first occurrence of a pattern is kept when text is appended after it.
pub proof fn lemma_find_extend(s: Seq<char>, t: Seq<char>, p: Seq<char>)
    requires
        find(s, p) is Some,
    ensures
        find(s + t, p) == find(s, p),
{
    lemma_find_from(s, p, 0);
    lemma_find_from(s + t, p, 0);
    let i = find(s, p)->0;
    assert(occurs_at(s + t, p, i)) by {
        assert((s + t).subrange(i, i + p.len()) =~= s.subrange(i, i + p.len()));
    }
    assert forall|j: int| 0 <= j < i implies !occurs_at(s + t, p, j) by {
        if occurs_at(s + t, p, j) {
            assert((s + t).subrange(j, j + p.len()) =~= s.subrange(j, j + p.len()));
            assert(occurs_at(s, p, j));
        }
    }
    match find(s + t, p) {
        Some(k) => {
            if k > i {
                assert(!occurs_at(s + t, p, i));
            }
        },
        None => {
            assert(!occurs_at(s + t, p, i));
        },
    }
}

/// A note written with non-empty front matter reads back as the same front
/// matter and body, when the text has no `\r\n` and the front matter does not
/// itself close the fence early.
pub proof fn lemma_split_markdown_round_trip(raw: Seq<char>, body: Seq<char>)
    requires
        raw.len() > 0,
        find(raw + fence_close(), fence_close()) == Some(raw.len() as int),
        forall|i: int| !occurs_at(markdown_of(Some(raw), body), seq!['\r', '\n'], i),
    ensures
        split_of(markdown_of(Some(raw), body)) == (Some(raw), body),
{
    let text = markdown_of(Some(raw), body);
    lemma_no_crlf(text);
    assert(text.subrange(0, 4) =~= fence_open());
    let rest = text.subrange(4, text.len() as int);
    assert(rest =~= (raw + fence_close()) + body);
    lemma_find_extend(raw + fence_close(), body, fence_close());
    assert(rest.subrange(0, raw.len() as int) =~= raw);
    assert(rest.subrange(raw.len() as int + 5, rest.len() as int) =~= body);
}

/// An empty file has no front matter and an empty body.
pub proof fn lemma_empty_split(text: Seq<char>)
    requires
        text.len() == 0,
    ensures
        split_of(text) == (None::<Seq<char>>, Seq::<char>::empty()),
{
    crate::text::lemma_find_from(text, seq!['\r', '\n'], 0);
    assert(text =~= Seq::<char>::empty());
}

/// A body that does not open with `---` reads back as a body without front
/// matter, unchanged.
pub proof fn lemma_split_plain_body(body: Seq<char>)
    requires
        !is_prefix(fence_open(), crlf_normalized(body)),
    ensures
        split_of(markdown_of(None, body)) == (None::<Seq<char>>, body),
{
}

/// What splitting gives: without front matter the text itself as body; with
/// front matter `f`, either the normalised text is `---\n{f}\n---\n{body}`
/// with that closing line the first one after `f`, or the body is empty and
/// the normalised text is `---\n{f}\n---` with no closing line inside.
pub proof fn lemma_split_shape(text: Seq<char>)
    ensures
        split_of(text).0 is None ==> split_of(text).1 == text,
        split_of(text).0 matches Some(f) ==> ({
            let norm = crlf_normalized(text);
            let body = split_of(text).1;
            ||| (norm == fence_open() + f + fence_close() + body && find(f + fence_close(), fence_close())
                == Some(f.len() as int))
            ||| (body.len() == 0 && norm == fence_open() + f + fence_close_eof() && forall|j: int|
                !occurs_at(norm.subrange(4, norm.len() as int), fence_close(), j))
        }),
{
    let norm = crlf_normalized(text);
    if is_prefix(fence_open(), norm) {
        let b = norm.subrange(4, norm.len() as int);
        assert(norm =~= fence_open() + b);
        lemma_find_from(b, fence_close(), 0);
        match find(b, fence_close()) {
            Some(c) => {
                let f = b.subrange(0, c);
                let body = b.subrange(c + 5, b.len() as int);
                assert(b.subrange(c, c + 5) == fence_close());
                assert(b =~= f + fence_close() + body);
                let b0 = f + fence_close();
                assert(b =~= b0 + body);
                lemma_find_from(b0, fence_close(), 0);
                assert(occurs_at(b0, fence_close(), c)) by {
                    assert(b0.subrange(c, c + 5) =~= fence_close());
                }
                lemma_find_extend(b0, body, fence_close());
                assert(norm =~= fence_open() + f + fence_close() + body);
            },
            None => {
                if is_suffix(fence_close_eof(), b) {
                    let f = b.subrange(0, b.len() - 4);
                    assert(b =~= f + fence_close_eof());
                    assert(norm =~= fence_open() + f + fence_close_eof());
                }
            },
        }
    }
}

/// A row of the front-matter table as `parse_fields` gives it: a non-empty
/// key that does not start with `-` and holds no `:`, and a key and a value
/// with no whitespace at either end.
pub open spec fn well_formed_row(row: (Seq<char>, Seq<char>)) -> bool {
    &&& row.0.len() > 0
    &&& row.0[0] != '-'
    &&& !has_char(row.0, ':')
    &&& trim(row.0) == row.0
    &&& trim(row.1) == row.1
}

/// `trim_start` keeps a suffix.
proof fn lemma_trim_start_suffix(s: Seq<char>)
    ensures
        trim_start(s).len() <= s.len(),
        trim_start(s) == s.subrange(s.len() - trim_start(s).len(), s.len() as int),
    decreases s.len(),
{
    if s.len() > 0 && is_ws(s[0]) {
        lemma_trim_start_suffix(s.drop_first());
        assert(s.drop_first().subrange(
            s.drop_first().len() - trim_start(s).len(),
            s.drop_first().len() as int,
        ) =~= s.subrange(s.len() - trim_start(s).len(), s.len() as int));
    } else {
        assert(s.subrange(0, s.len() as int) =~= s);
    }
}

/// Trimming removes characters and adds none.
proof fn lemma_trim_keeps_chars(s: Seq<char>, c: char)
    requires
        has_char(trim(s), c),
    ensures
        has_char(s, c),
{
    let t = trim_start(s);
    lemma_trim_start_suffix(s);
    lemma_trim_end_props(t);
    let j = choose|j: int| 0 <= j < trim(s).len() && trim(s)[j] == c;
    assert(trim(s)[j] == t[j]);
    assert(t[j] == s[s.len() - t.len() + j]);
}

/// Trimming twice is trimming once.
proof fn lemma_trim_idempotent(s: Seq<char>)
    ensures
        trim(trim(s)) == trim(s),
{
    lemma_trim_ends(s);
    lemma_trim_fixed(trim(s));
}

/// A line gives a well-formed row, when it gives one.
proof fn lemma_field_row(line: Seq<char>)
    ensures
        field_of(line) matches Some(row) ==> well_formed_row(row),
{
    lemma_find_from(line, seq![':'], 0);
    let k = match first_of(line, ':') {
        Some(i) => line.subrange(0, i),
        None => line,
    };
    let v = match first_of(line, ':') {
        Some(i) => line.subrange(i + 1, line.len() as int),
        None => Seq::<char>::empty(),
    };
    assert(!has_char(k, ':')) by {
        if has_char(k, ':') {
            let j = choose|j: int| 0 <= j < k.len() && k[j] == ':';
            assert(line.subrange(j, j + 1) =~= seq![':']);
            assert(occurs_at(line, seq![':'], j));
        }
    }
    if has_char(trim(k), ':') {
        lemma_trim_keeps_chars(k, ':');
    }
    lemma_trim_idempotent(k);
    lemma_trim_idempotent(v);
}

/// Every row of the front-matter table is well formed: its key is
/// non-empty, does not start with `-`, holds no `:`, and neither the key nor
/// the value has whitespace at either end.
pub proof fn lemma_field_rows(ls: Seq<Seq<char>>)
    ensures
        forall|i: int| 0 <= i < fields_of(ls).len() ==> #[trigger] well_formed_row(fields_of(ls)[i]),
    decreases ls.len(),
{
    if ls.len() > 0 {
        let rest = fields_of(ls.drop_last());
        lemma_field_rows(ls.drop_last());
        lemma_field_row(ls.last());
        assert forall|i: int| 0 <= i < fields_of(ls).len() implies #[trigger] well_formed_row(
            fields_of(ls)[i],
        ) by {
            if i < rest.len() {
                assert(fields_of(ls)[i] == rest[i]);
                assert(well_formed_row(rest[i]));
            }
        }
    }
}

} // verus!
