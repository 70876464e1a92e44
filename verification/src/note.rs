//! Notes as the backend returns them, and directory listings.

use vstd::prelude::*;
use crate::import::{distinct_keys, meta_model, JsonValue};
use crate::text::{chars_of, last_of2, last_of2_exec, push_all, slice_of, string_of};

verus! {

/// Minimal note payload returned by the note and search tools: the note path,
/// its body, and its metadata map (each key once).
pub struct NoteFile {
    pub filename: String,
    pub text: String,
    pub metadata: Vec<(String, JsonValue)>,
}

/// Directory listing returned by the directory tools.
pub struct DirectoryContents {
    pub folders: Vec<String>,
    pub files: Vec<String>,
}

/// The name shown for an unnamed note.
pub const UNKNOWN_FILE_NAME: &'static str = "unknown.md";

/// The horizontal ellipsis that ends a shortened preview.
pub const ELLIPSIS: char = '\u{2026}';

/// The last `/`- or `\`-separated segment of `path`, or `unknown.md` when it is empty.
pub open spec fn file_name_of(path: Seq<char>) -> Seq<char> {
    let seg = match last_of2(path, '/', '\\') {
        Some(i) => path.subrange(i + 1, path.len() as int),
        None => path,
    };
    if seg.len() == 0 {
        UNKNOWN_FILE_NAME@
    } else {
        seg
    }
}

/// The first `n` characters of `text`, followed by an ellipsis when more follow.
pub open spec fn snippet_of(text: Seq<char>, n: nat) -> Seq<char> {
    if text.len() > n {
        text.take(n as int).push(ELLIPSIS)
    } else {
        text
    }
}

impl NoteFile {
    /// A note's metadata holds each key once, as the map it was read from did.
    pub open spec fn wf(&self) -> bool {
        distinct_keys(meta_model(self.metadata@))
    }

    /// Whether the metadata holds each key once.
    pub fn has_distinct_keys(&self) -> (r: bool)
        ensures
            r == self.wf(),
    {
        let n = self.metadata.len();
        let ghost m = meta_model(self.metadata@);
        let mut j: usize = 0;
        while j < n
            invariant
                n == self.metadata@.len(),
                m == meta_model(self.metadata@),
                j <= n,
                forall|a: int, b: int| 0 <= a < b < j ==> m[a].0 != m[b].0,
            decreases n - j,
        {
            let kj = chars_of(self.metadata[j].0.as_str());
            let mut i: usize = 0;
            while i < j
                invariant
                    n == self.metadata@.len(),
                    m == meta_model(self.metadata@),
                    i <= j < n,
                    kj@ == m[j as int].0,
                    forall|a: int| 0 <= a < i ==> m[a].0 != m[j as int].0,
                decreases j - i,
            {
                let ki = chars_of(self.metadata[i].0.as_str());
                if crate::path::chars_eq(&ki, &kj) {
                    assert(m[i as int].0 == m[j as int].0);
                    assert(!distinct_keys(m));
                    return false;
                }
                i = i + 1;
            }
            j = j + 1;
        }
        true
    }

    /// Return the basename of the note path.
    pub fn file_name(&self) -> (r: String)
        ensures
            r@ == file_name_of(self.filename@),
    {
        let v = chars_of(self.filename.as_str());
        let len = v.len();
        let start = match last_of2_exec(&v, '/', '\\') {
            Some(i) => i + 1,
            None => 0,
        };
        let seg = slice_of(&v, start, len);
        assert(v@.subrange(0, v@.len() as int) == v@);
        if seg.len() == 0 {
            UNKNOWN_FILE_NAME.to_string()
        } else {
            string_of(&seg)
        }
    }

    /// Return the first `n` characters of note body text for list previews.
    pub fn snippet_text(text: &str, n: usize) -> (r: String)
        ensures
            r@ == snippet_of(text@, n as nat),
    {
        let v = chars_of(text);
        if v.len() > n {
            let mut out = slice_of(&v, 0, n);
            out.push(ELLIPSIS);
            string_of(&out)
        } else {
            string_of(&v)
        }
    }
}

} // verus!
