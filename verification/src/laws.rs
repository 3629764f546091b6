//! Laws of selection navigation over the visible list.

use crate::filter::lemma_increasing_position_unique;
use crate::filter::strictly_increasing;
use crate::state::next_selection;
use crate::state::prev_selection;
use vstd::prelude::*;

verus! {

proof fn lemma_index_of_found(s: Seq<usize>, x: usize)
    requires
        s.contains(x),
    ensures
        0 <= s.index_of(x) < s.len(),
        s[s.index_of(x)] == x,
{
}

/// Moving the selection up and then down again from any selection that is not
/// at the top of the visible list returns to the original selection.
pub proof fn lemma_navigate_up_then_down(filtered: Seq<usize>, cur: usize)
    requires
        strictly_increasing(filtered),
        filtered.contains(cur),
        filtered.index_of(cur) > 0,
    ensures
        next_selection(filtered, prev_selection(filtered, Some(cur))) == Some(cur),
{
    lemma_index_of_found(filtered, cur);
    let p = filtered.index_of(cur);
    let prev = filtered[p - 1];
    assert(filtered.contains(prev)) by {
        assert(filtered[p - 1] == prev);
    }
    assert(prev_selection(filtered, Some(cur)) == Some(prev));
    lemma_index_of_found(filtered, prev);
    let q = filtered.index_of(prev);
    lemma_increasing_position_unique(filtered, q, p - 1);
    assert(next_selection(filtered, Some(prev)) == Some(filtered[q + 1]));
    assert(filtered[q + 1] == cur);
}

/// Moving the selection down and then up again from any selection that is not
/// at the bottom of the visible list returns to the original selection.
pub proof fn lemma_navigate_down_then_up(filtered: Seq<usize>, cur: usize)
    requires
        strictly_increasing(filtered),
        filtered.contains(cur),
        filtered.index_of(cur) < filtered.len() - 1,
    ensures
        prev_selection(filtered, next_selection(filtered, Some(cur))) == Some(cur),
{
    lemma_index_of_found(filtered, cur);
    let p = filtered.index_of(cur);
    let nxt = filtered[p + 1];
    assert(filtered.contains(nxt)) by {
        assert(filtered[p + 1] == nxt);
    }
    assert(next_selection(filtered, Some(cur)) == Some(nxt));
    lemma_index_of_found(filtered, nxt);
    let q = filtered.index_of(nxt);
    lemma_increasing_position_unique(filtered, q, p + 1);
    assert(prev_selection(filtered, Some(nxt)) == Some(filtered[q - 1]));
    assert(filtered[q - 1] == cur);
}

/// At the topmost visible entry, moving the selection up changes nothing.
pub proof fn lemma_navigate_up_at_top(filtered: Seq<usize>, cur: usize)
    requires
        filtered.contains(cur),
        filtered.index_of(cur) == 0,
    ensures
        prev_selection(filtered, Some(cur)) == Some(cur),
{
    lemma_index_of_found(filtered, cur);
}

/// At the bottommost visible entry, moving the selection down changes
/// nothing.
pub proof fn lemma_navigate_down_at_bottom(filtered: Seq<usize>, cur: usize)
    requires
        filtered.contains(cur),
        filtered.index_of(cur) == filtered.len() - 1,
    ensures
        next_selection(filtered, Some(cur)) == Some(cur),
{
    lemma_index_of_found(filtered, cur);
}

} // verus!
