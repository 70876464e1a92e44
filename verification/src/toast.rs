//! The toast messages: what copying an error toast reports, and how backend
//! warnings are shown.

use vstd::prelude::*;
use crate::info_messages::{CLIPBOARD_COPY_FAILED_TOAST, ERROR_COPIED_TOAST};
use crate::text::{chars_of, join, join_exec, string_of, texts};

verus! {

/// Return the status-toast text after copying an error toast.
pub fn error_toast_copy_feedback(succeeded: bool) -> (r: &'static str)
    ensures
        r@ == (if succeeded {
            ERROR_COPIED_TOAST@
        } else {
            CLIPBOARD_COPY_FAILED_TOAST@
        }),
{
    if succeeded {
        ERROR_COPIED_TOAST
    } else {
        CLIPBOARD_COPY_FAILED_TOAST
    }
}

/// The non-empty warnings of `w`, in order.
pub open spec fn non_empty(w: Seq<String>) -> Seq<Seq<char>>
    decreases w.len(),
{
    if w.len() == 0 {
        Seq::empty()
    } else {
        let rest = non_empty(w.drop_last());
        if w.last()@.len() > 0 {
            rest.push(w.last()@)
        } else {
            rest
        }
    }
}

/// The warning toast for backend warnings: the non-empty ones, one per line;
/// none when there is nothing to show.
pub open spec fn warning_message(w: Seq<String>) -> Option<Seq<char>> {
    let m = join(non_empty(w), seq!['\n']);
    if m.len() == 0 {
        None
    } else {
        Some(m)
    }
}

/// Return the warning toast for backend warnings, if any is non-empty.
pub fn mcp_warning_message(warnings: &Vec<String>) -> (r: Option<String>)
    ensures
        match r {
            Some(t) => warning_message(warnings@) == Some(t@),
            None => warning_message(warnings@) is None,
        },
{
    let mut parts: Vec<Vec<char>> = Vec::new();
    let n = warnings.len();
    let mut i: usize = 0;
    assert(texts(parts@) =~= non_empty(warnings@.take(0)));
    while i < n
        invariant
            n == warnings@.len(),
            i <= n,
            texts(parts@) == non_empty(warnings@.take(i as int)),
        decreases n - i,
    {
        assert(warnings@.take(i + 1).drop_last() == warnings@.take(i as int));
        assert(warnings@.take(i + 1).last() == warnings@[i as int]);
        if !warnings[i].as_str().is_empty() {
            let ghost before = texts(parts@);
            parts.push(chars_of(warnings[i].as_str()));
            assert(texts(parts@) =~= before.push(warnings@[i as int]@));
        }
        i = i + 1;
    }
    assert(warnings@.take(n as int) == warnings@);
    let mut sep: Vec<char> = Vec::new();
    sep.push('\n');
    assert(sep@ =~= seq!['\n']);
    let message = join_exec(&parts, &sep);
    if message.len() == 0 {
        None
    } else {
        Some(string_of(&message))
    }
}

} // verus!
