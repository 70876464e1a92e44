//! How note paths and bodies are normalised before they reach the backend,
//! and how backend paths are shown in the editor.

use vstd::prelude::*;
use crate::block::EditorEntry;
use crate::text::{
    chars_of, has_char, is_prefix, is_ws, lemma_replace_char, lemma_trim_ends, lemma_trim_fixed, map_char,
    replace_all, replace_all_exec, slice_of, starts_with, string_of, strip_prefix, trim,
    trimmed_chars,
};

verus! {

/// `s` with the prefix `p` removed when present, otherwise `s`.
pub open spec fn drop_prefix(s: Seq<char>, p: Seq<char>) -> Seq<char> {
    match strip_prefix(s, p) {
        Some(r) => r,
        None => s,
    }
}

/// The backend path for an editor path: trimmed, a leading `./` or `.\`
/// removed, and every `\` turned into `/`.
pub open spec fn normalized_path(p: Seq<char>) -> Seq<char> {
    let t = trim(p);
    let s = if is_prefix(seq!['.', '/'], t) {
        drop_prefix(t, seq!['.', '/'])
    } else {
        drop_prefix(t, seq!['.', '\\'])
    };
    replace_all(s, seq!['\\'], seq!['/'])
}

/// The editor path for a relative path: trimmed, `\` turned into `/`, and a
/// single `./` in front.
pub open spec fn displayed_path(r: Seq<char>) -> Seq<char> {
    let t = replace_all(trim(r), seq!['\\'], seq!['/']);
    seq!['.', '/'] + drop_prefix(t, seq!['.', '/'])
}

/// `text` with every `\r\n` turned into `\n`.
pub open spec fn normalized_body(text: Seq<char>) -> Seq<char> {
    replace_all(text, seq!['\r', '\n'], seq!['\n'])
}

/// `v` without its prefix `p` when present.
fn drop_prefix_exec(v: Vec<char>, p: &Vec<char>) -> (r: Vec<char>)
    ensures
        r@ == drop_prefix(v@, p@),
{
    if starts_with(&v, p) {
        slice_of(&v, p.len(), v.len())
    } else {
        v
    }
}

/// The two characters `a`, `b`.
fn pair(a: char, b: char) -> (r: Vec<char>)
    ensures
        r@ == seq![a, b],
{
    let mut v: Vec<char> = Vec::new();
    v.push(a);
    v.push(b);
    v
}

/// The single character `a`.
fn single(a: char) -> (r: Vec<char>)
    ensures
        r@ == seq![a],
{
    let mut v: Vec<char> = Vec::new();
    v.push(a);
    v
}

/// Characters of the backend path for `path`.
pub fn normalized_chars(path: &Vec<char>) -> (r: Vec<char>)
    ensures
        r@ == normalized_path(path@),
{
    let t = crate::text::trim_exec(path);
    let dot_slash = pair('.', '/');
    let s = if starts_with(&t, &dot_slash) {
        drop_prefix_exec(t, &dot_slash)
    } else {
        drop_prefix_exec(t, &pair('.', '\\'))
    };
    replace_all_exec(&s, &single('\\'), &single('/'))
}

/// Strip a leading `./` and normalise slashes for the backend note path.
pub fn normalize_note_path(path: &str) -> (r: String)
    ensures
        r@ == normalized_path(path@),
{
    let out = normalized_chars(&chars_of(path));
    string_of(&out)
}

/// Characters of the editor path for `relative`.
pub fn displayed_chars(relative: &Vec<char>) -> (r: Vec<char>)
    ensures
        r@ == displayed_path(relative@),
{
    let t = replace_all_exec(&crate::text::trim_exec(relative), &single('\\'), &single('/'));
    let s = drop_prefix_exec(t, &pair('.', '/'));
    let mut out = pair('.', '/');
    crate::text::push_all(&mut out, &s);
    out
}

/// Format a relative note path for display in the editor title block.
pub fn display_note_path(relative: &str) -> (r: String)
    ensures
        r@ == displayed_path(relative@),
{
    let out = displayed_chars(&chars_of(relative));
    string_of(&out)
}

/// Normalize markdown line endings to `\n`.
pub fn normalize_markdown_body(text: &str) -> (r: String)
    ensures
        r@ == normalized_body(text@),
{
    let out = replace_all_exec(&chars_of(text), &pair('\r', '\n'), &single('\n'));
    string_of(&out)
}

/// What `serde_yaml` reads from the YAML text `raw`, as serde_json writes the
/// value it reads (`Ok`), or the parser's error message (`Err`).
pub uninterp spec fn yaml_as_json(raw: Seq<char>) -> Result<Seq<char>, Seq<char>>;

/// `serde_yaml::from_str::<serde_json::Value>` followed by `to_string` of the
/// value: the front matter as JSON text, or the parse error's message.
#[verifier::external_body]
fn parse_yaml_as_json(raw: &str) -> (r: Result<String, String>)
    ensures
        match r {
            Ok(j) => yaml_as_json(raw@) == Ok::<Seq<char>, Seq<char>>(j@),
            Err(e) => yaml_as_json(raw@) == Err::<Seq<char>, Seq<char>>(e@),
        },
{
    match serde_yaml::from_str::<serde_json::Value>(raw) {
        Ok(v) => Ok(v.to_string()),
        Err(e) => Err(e.to_string()),
    }
}

/// The `fields` of an `upsert_note` call for front matter `raw`: `{}` for
/// blank front matter or front matter that does not parse.
pub open spec fn fields_text(raw: Seq<char>) -> Seq<char> {
    if trim(raw).len() == 0 {
        "{}"@
    } else {
        match yaml_as_json(raw) {
            Ok(j) => j,
            Err(_) => "{}"@,
        }
    }
}

/// The console warning when front matter does not parse, if it does not.
pub open spec fn fields_warning(raw: Seq<char>) -> Option<Seq<char>> {
    if trim(raw).len() == 0 {
        None
    } else {
        match yaml_as_json(raw) {
            Ok(_) => None,
            Err(e) => Some("YAML parse failed, saving without front matter fields: "@ + e),
        }
    }
}

/// Parse YAML front matter into the JSON object text for `upsert_note`, with
/// the warning to log when it does not parse.
pub fn yaml_to_fields(raw: &str) -> (r: (String, Option<String>))
    ensures
        r.0@ == fields_text(raw@),
        match r.1 {
            Some(w) => fields_warning(raw@) == Some(w@),
            None => fields_warning(raw@) is None,
        },
{
    if trimmed_chars(raw).len() == 0 {
        return (string_of(&chars_of("{}")), None);
    }
    match parse_yaml_as_json(raw) {
        Ok(j) => (j, None),
        Err(e) => {
            let mut w = chars_of("YAML parse failed, saving without front matter fields: ");
            let ec = chars_of(e.as_str());
            crate::text::push_all(&mut w, &ec);
            (string_of(&chars_of("{}")), Some(string_of(&w)))
        },
    }
}

/// What saving an entry sends: the backend path, the body with `\n` line
/// endings, the front-matter fields as JSON, and a warning to log if the
/// front matter did not parse.
pub struct SaveParams {
    pub path: String,
    pub contents: String,
    pub fields: String,
    pub warning: Option<String>,
}

/// Whether `r` is what saving `entry` sends: its normalised path and body,
/// and the JSON fields (with the parse warning) of its front matter, or `{}`.
pub open spec fn sends_entry(entry: EditorEntry, r: SaveParams) -> bool {
    &&& r.path@ == normalized_path(entry.title.path@)
    &&& r.contents@ == normalized_body(entry.content.text@)
    &&& match entry.front_matter {
        Some(fm) => r.fields@ == fields_text(fm.raw@) && match r.warning {
            Some(w) => fields_warning(fm.raw@) == Some(w@),
            None => fields_warning(fm.raw@) is None,
        },
        None => r.fields@ == "{}"@ && r.warning is None,
    }
}

/// Return the path, markdown body, and front-matter fields for `upsert_note`.
pub fn entry_save_params(entry: &EditorEntry) -> (r: SaveParams)
    ensures
        sends_entry(*entry, r),
{
    let path = normalize_note_path(entry.title.path.as_str());
    let contents = normalize_markdown_body(entry.content.text.as_str());
    let (fields, warning) = match &entry.front_matter {
        Some(fm) => yaml_to_fields(fm.raw.as_str()),
        None => (string_of(&chars_of("{}")), None),
    };
    SaveParams { path, contents, fields, warning }
}

/// What a displayed path is made of: `./` followed by its backend path,
/// which holds no `\`; it has no whitespace at either end.
proof fn lemma_display_parts(r: Seq<char>)
    ensures
        displayed_path(r) == seq!['.', '/'] + drop_prefix(map_char(trim(r), '\\', '/'), seq!['.', '/']),
        normalized_path(displayed_path(r)) == drop_prefix(map_char(trim(r), '\\', '/'), seq!['.', '/']),
        !has_char(normalized_path(displayed_path(r)), '\\'),
        trim(displayed_path(r)) == displayed_path(r),
{
    let t = trim(r);
    let m = map_char(t, '\\', '/');
    lemma_replace_char(t, '\\', '/');
    lemma_trim_ends(r);
    let s = drop_prefix(m, seq!['.', '/']);
    let d = seq!['.', '/'] + s;
    assert(displayed_path(r) == d);
    // `s` is a suffix of `m`, so it holds no backslash and ends as `m` ends.
    assert(s.len() <= m.len());
    assert(s == m.subrange(m.len() - s.len(), m.len() as int));
    assert forall|i: int| 0 <= i < s.len() implies s[i] != '\\' by {
        assert(s[i] == m[m.len() - s.len() + i]);
    }
    if s.len() > 0 {
        assert(d.last() == m.last());
        assert(m.last() == (if t.last() == '\\' { '/' } else { t.last() }));
    }
    assert(d[0] == '.');
    lemma_trim_fixed(d);
    assert(is_prefix(seq!['.', '/'], d)) by {
        assert(d.subrange(0, 2) =~= seq!['.', '/']);
    }
    assert(drop_prefix(d, seq!['.', '/']) =~= s);
    lemma_replace_char(s, '\\', '/');
    assert(map_char(s, '\\', '/') =~= s);
    assert(normalized_path(d) == s);
}

/// A displayed path is `./` followed by its backend path, and that backend
/// path holds no `\`: normalising removes exactly the `./` that displaying
/// adds.
pub proof fn lemma_display_then_normalize(r: Seq<char>)
    ensures
        seq!['.', '/'] + normalized_path(displayed_path(r)) == displayed_path(r),
        !has_char(normalized_path(displayed_path(r)), '\\'),
{
    lemma_display_parts(r);
}

/// Displaying a displayed path changes nothing: it starts with `./`, holds
/// no `\`, and shows as itself.
pub proof fn lemma_display_idempotent(r: Seq<char>)
    ensures
        is_prefix(seq!['.', '/'], displayed_path(r)),
        !has_char(displayed_path(r), '\\'),
        displayed_path(displayed_path(r)) == displayed_path(r),
{
    lemma_display_parts(r);
    let d = displayed_path(r);
    let s = normalized_path(d);
    assert(d.subrange(0, 2) =~= seq!['.', '/']);
    assert(!has_char(d, '\\')) by {
        if has_char(d, '\\') {
            let j = choose|j: int| 0 <= j < d.len() && d[j] == '\\';
            assert(j >= 2);
            assert(s[j - 2] == d[j]);
        }
    }
    lemma_replace_char(d, '\\', '/');
    assert(map_char(d, '\\', '/') =~= d) by {
        assert forall|j: int| 0 <= j < d.len() implies map_char(d, '\\', '/')[j] == d[j] by {
            if d[j] == '\\' {
                assert(has_char(d, '\\'));
            }
        }
    }
    assert(drop_prefix(d, seq!['.', '/']) =~= s);
}

/// Showing a path in the editor and normalising it again gives the backend
/// path it started from: the editor and the backend agree on which note an
/// editor path names.
pub proof fn lemma_normalize_display(r: Seq<char>)
    ensures
        normalized_path(displayed_path(r)) == normalized_path(r),
{
    let t = trim(r);
    let m = map_char(t, '\\', '/');
    lemma_replace_char(t, '\\', '/');
    lemma_trim_ends(r);
    let s = drop_prefix(m, seq!['.', '/']);
    lemma_display_parts(r);
    // The starting path, by the shape of its trimmed text.
    if is_prefix(seq!['.', '/'], t) {
        let u = t.subrange(2, t.len() as int);
        lemma_replace_char(u, '\\', '/');
        assert(m.subrange(0, 2) =~= seq!['.', '/']);
        assert(s =~= map_char(u, '\\', '/'));
    } else if is_prefix(seq!['.', '\\'], t) {
        let u = t.subrange(2, t.len() as int);
        lemma_replace_char(u, '\\', '/');
        assert(m.subrange(0, 2) =~= seq!['.', '/']);
        assert(s =~= map_char(u, '\\', '/'));
    } else {
        if is_prefix(seq!['.', '/'], m) {
            assert(m.subrange(0, 2)[0] == '.' && m.subrange(0, 2)[1] == '/');
            assert(t[0] == '.');
            assert(t[1] == '/' || t[1] == '\\');
            if t[1] == '/' {
                assert(t.subrange(0, 2) =~= seq!['.', '/']);
            } else {
                assert(t.subrange(0, 2) =~= seq!['.', '\\']);
            }
        }
        assert(s == m);
    }
}

} // verus!
