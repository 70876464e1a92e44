//! The search panel: when a search runs and how its pages advance.

use vstd::prelude::*;
use crate::text::{trim, trimmed_chars};

verus! {

/// What starts a search.
#[derive(Clone, Copy, PartialEq, Eq, Debug, Structural)]
pub enum SearchAction {
    /// The Go button: from the first page.
    Go,
    /// Enter in the query input: from the first page.
    Enter,
    /// The previous page.
    Prev,
    /// The next page.
    Next,
}

/// The result offset after `action`, with pages of `limit` results.
pub open spec fn offset_after(offset: usize, limit: usize, action: SearchAction) -> usize {
    match action {
        SearchAction::Go | SearchAction::Enter => 0,
        SearchAction::Prev => if offset >= limit {
            (offset - limit) as usize
        } else {
            0
        },
        SearchAction::Next => if offset + limit <= usize::MAX {
            (offset + limit) as usize
        } else {
            usize::MAX
        },
    }
}

/// Return the result offset after `action` (saturating at both ends).
pub fn page_offset(offset: usize, limit: usize, action: SearchAction) -> (r: usize)
    ensures
        r == offset_after(offset, limit, action),
{
    match action {
        SearchAction::Go | SearchAction::Enter => 0,
        SearchAction::Prev => offset.saturating_sub(limit),
        SearchAction::Next => offset.saturating_add(limit),
    }
}

/// Whether a search for `query` is made: the query is not blank.
pub fn search_query_ready(query: &str) -> (r: bool)
    ensures
        r == (trim(query@).len() > 0),
{
    trimmed_chars(query).len() > 0
}

/// Whether a missing backend session is reported: not for Enter in the input.
pub fn warns_without_session(action: SearchAction) -> (r: bool)
    ensures
        r == (action != SearchAction::Enter),
{
    match action {
        SearchAction::Enter => false,
        _ => true,
    }
}

/// Whether there is a previous page.
pub fn can_prev(offset: usize) -> (r: bool)
    ensures
        r == (offset > 0),
{
    offset > 0
}

/// Whether there may be a next page: the last page came back full.
pub fn can_next(result_count: usize, limit: usize) -> (r: bool)
    ensures
        r == (result_count == limit),
{
    result_count == limit
}

/// Going forward a page and back again returns to the same offset, as long as
/// the offset does not run past the largest one.
pub proof fn lemma_next_then_prev(offset: usize, limit: usize)
    requires
        offset + limit <= usize::MAX,
    ensures
        offset_after(offset_after(offset, limit, SearchAction::Next), limit, SearchAction::Prev)
            == offset,
{
}

} // verus!
