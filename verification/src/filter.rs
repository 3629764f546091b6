//! Case-insensitive substring filtering of the command list.

use vstd::prelude::*;

verus! {

/// The sequence of characters that `str::to_lowercase` produces for `s`.
/// It depends on the characters of `s` alone, so it gets a name here and is
/// otherwise left unspecified.
pub uninterp spec fn lower_of(s: Seq<char>) -> Seq<char>;

/// `needle` occurs as a contiguous run inside `hay`.
pub open spec fn is_substring(needle: Seq<char>, hay: Seq<char>) -> bool {
    exists|i: int|
        0 <= i <= hay.len() - needle.len() && #[trigger] hay.subrange(i, i + needle.len())
            == needle
}

/// A command stays visible under a filter when the lowercased filter text
/// occurs inside the lowercased command text; an empty filter keeps every
/// command visible.
pub open spec fn filter_matches(cmd: Seq<char>, filt: Seq<char>) -> bool {
    filt.len() == 0 || is_substring(lower_of(filt), lower_of(cmd))
}

/// Relies on `str::to_lowercase`: the result depends on the characters of the
/// input alone, and an empty string stays empty.
#[verifier::external_body]
fn to_lowercase_string(s: &String) -> (r: String)
    ensures
        r@ == lower_of(s@),
        s@.len() == 0 ==> r@.len() == 0,
{
    s.to_lowercase()
}

/// Relies on `str::contains`: true exactly when the pattern occurs as a
/// substring of the receiver.
#[verifier::external_body]
fn str_contains(hay: &String, needle: &String) -> (r: bool)
    ensures
        r == is_substring(needle@, hay@),
{
    hay.contains(needle.as_str())
}

/// Relies on `Iterator::collect` for `String`: collecting characters builds
/// the string of exactly those characters, in order.
#[verifier::external_body]
pub fn chars_to_string(v: &Vec<char>) -> (r: String)
    ensures
        r@ == v@,
{
    v.iter().collect()
}

/// Relies on `str::chars`: the characters of a string, in order.
#[verifier::external_body]
pub fn string_chars(s: &String) -> (r: Vec<char>)
    ensures
        r@ == s@,
{
    s.chars().collect()
}

/// Whether `cmd` stays visible under the filter text `filt`.
pub fn matches_filter(cmd: &String, filt: &Vec<char>) -> (r: bool)
    ensures
        r == filter_matches(cmd@, filt@),
{
    let filt_string = chars_to_string(filt);
    let cmd_lower = to_lowercase_string(cmd);
    let filt_lower = to_lowercase_string(&filt_string);
    let res = str_contains(&cmd_lower, &filt_lower);
    proof {
        if filt@.len() == 0 {
            assert(cmd_lower@.subrange(0, 0 + filt_lower@.len() as int) =~= filt_lower@);
            assert(is_substring(filt_lower@, cmd_lower@));
        }
    }
    res
}

/// The indices, in order, of the commands among the first `n` of `cmds`
/// whose text matches the filter `filt`.
pub open spec fn spec_filter_indices(cmds: Seq<String>, filt: Seq<char>, n: int) -> Seq<usize>
    decreases n,
{
    if n <= 0 {
        Seq::empty()
    } else if filter_matches(cmds[n - 1]@, filt) {
        spec_filter_indices(cmds, filt, n - 1).push((n - 1) as usize)
    } else {
        spec_filter_indices(cmds, filt, n - 1)
    }
}

/// `s` is strictly increasing.
pub open spec fn strictly_increasing(s: Seq<usize>) -> bool {
    forall|k1: int, k2: int| 0 <= k1 < k2 < s.len() ==> s[k1] < s[k2]
}

/// In a strictly increasing sequence a value appears at only one position.
pub proof fn lemma_increasing_position_unique(s: Seq<usize>, i: int, j: int)
    requires
        strictly_increasing(s),
        0 <= i < s.len(),
        0 <= j < s.len(),
        s[i] == s[j],
    ensures
        i == j,
{
    if i < j {
        assert(s[i] < s[j]);
    } else if j < i {
        assert(s[j] < s[i]);
    }
}

/// `r` lists exactly the indices of the commands of `cmds` whose text matches
/// `filt`: every listed index is in range and matches, the indices keep the
/// original order, and every matching index is listed.
pub open spec fn is_filter_index(r: Seq<usize>, cmds: Seq<String>, filt: Seq<char>) -> bool {
    &&& forall|k: int|
        0 <= k < r.len() ==> (#[trigger] r[k]) < cmds.len() && filter_matches(
            cmds[r[k] as int]@,
            filt,
        )
    &&& strictly_increasing(r)
    &&& forall|i: int|
        0 <= i < cmds.len() && filter_matches(cmds[i]@, filt) ==> #[trigger] r.contains(i as usize)
}

proof fn lemma_filter_indices_props(cmds: Seq<String>, filt: Seq<char>, n: int)
    requires
        0 <= n <= cmds.len(),
        n <= usize::MAX,
    ensures
        ({
            let r = spec_filter_indices(cmds, filt, n);
            &&& forall|k: int|
                0 <= k < r.len() ==> (#[trigger] r[k]) < n && filter_matches(
                    cmds[r[k] as int]@,
                    filt,
                )
            &&& strictly_increasing(r)
            &&& forall|i: int|
                0 <= i < n && filter_matches(cmds[i]@, filt) ==> #[trigger] r.contains(i as usize)
        }),
    decreases n,
{
    if n > 0 {
        lemma_filter_indices_props(cmds, filt, n - 1);
        let prev = spec_filter_indices(cmds, filt, n - 1);
        let r = spec_filter_indices(cmds, filt, n);
        assert forall|k: int|
            0 <= k < r.len() implies (#[trigger] r[k]) < n && filter_matches(
            cmds[r[k] as int]@,
            filt,
        ) by {
            if filter_matches(cmds[n - 1]@, filt) {
                if k < r.len() - 1 {
                    assert(r[k] == prev[k]);
                } else {
                    assert(r[k] == (n - 1) as usize);
                }
            } else {
                assert(r[k] == prev[k]);
            }
        }
        assert forall|k1: int, k2: int| 0 <= k1 < k2 < r.len() implies r[k1] < r[k2] by {
            if filter_matches(cmds[n - 1]@, filt) {
                assert(r[k1] == prev[k1]);
                if k2 < r.len() - 1 {
                    assert(r[k2] == prev[k2]);
                } else {
                    assert(prev[k1] < (n - 1) as usize);
                    assert(r[k2] == (n - 1) as usize);
                }
            } else {
                assert(r[k1] == prev[k1]);
                assert(r[k2] == prev[k2]);
            }
        }
        if filter_matches(cmds[n - 1]@, filt) {
            assert forall|i: int|
                0 <= i < n && filter_matches(cmds[i]@, filt) implies #[trigger] r.contains(
                i as usize,
            ) by {
                if i < n - 1 {
                    assert(prev.contains(i as usize));
                    let j = choose|j: int| 0 <= j < prev.len() && prev[j] == (i as usize);
                    assert(prev[j] == i as usize);
                    assert(r[j] == i as usize);
                } else {
                    assert(r[r.len() - 1] == (n - 1) as usize);
                }
            }
        } else {
            assert forall|i: int|
                0 <= i < n && filter_matches(cmds[i]@, filt) implies #[trigger] r.contains(
                i as usize,
            ) by {
                assert(i != n - 1);
                assert(prev.contains(i as usize));
            }
        }
    }
}

/// For every command list and every filter string, the recomputed visible
/// list contains exactly the indices of the commands whose text contains the
/// filter as a case-insensitive substring, in original list order.
pub proof fn lemma_filter_indices_correct(cmds: Seq<String>, filt: Seq<char>)
    requires
        cmds.len() <= usize::MAX,
    ensures
        is_filter_index(spec_filter_indices(cmds, filt, cmds.len() as int), cmds, filt),
{
    lemma_filter_indices_props(cmds, filt, cmds.len() as int);
}

proof fn lemma_empty_filter_prefix(cmds: Seq<String>, n: int)
    requires
        0 <= n <= cmds.len(),
        n <= usize::MAX,
    ensures
        spec_filter_indices(cmds, Seq::<char>::empty(), n) == Seq::new(
            n as nat,
            |i: int| i as usize,
        ),
    decreases n,
{
    if n > 0 {
        lemma_empty_filter_prefix(cmds, n - 1);
        assert(spec_filter_indices(cmds, Seq::<char>::empty(), n) =~= Seq::new(
            n as nat,
            |i: int| i as usize,
        ));
    } else {
        assert(spec_filter_indices(cmds, Seq::<char>::empty(), 0) =~= Seq::new(
            0nat,
            |i: int| i as usize,
        ));
    }
}

/// Clearing the filter restores the full command list in original order:
/// under an empty filter the visible indices are `0, 1, ..., len - 1`.
pub proof fn lemma_empty_filter_selects_all(cmds: Seq<String>)
    requires
        cmds.len() <= usize::MAX,
    ensures
        spec_filter_indices(cmds, Seq::<char>::empty(), cmds.len() as int) == Seq::new(
            cmds.len(),
            |i: int| i as usize,
        ),
{
    lemma_empty_filter_prefix(cmds, cmds.len() as int);
}

/// The linear scan that rebuilds the visible list for a filter.
pub fn filter_indices(cmds: &Vec<String>, filt: &Vec<char>) -> (r: Vec<usize>)
    ensures
        r@ == spec_filter_indices(cmds@, filt@, cmds@.len() as int),
        is_filter_index(r@, cmds@, filt@),
{
    let mut r: Vec<usize> = Vec::new();
    let mut i: usize = 0;
    while i < cmds.len()
        invariant
            i <= cmds@.len(),
            r@ == spec_filter_indices(cmds@, filt@, i as int),
        decreases cmds@.len() - i,
    {
        if matches_filter(&cmds[i], filt) {
            r.push(i);
        }
        i += 1;
    }
    proof {
        lemma_filter_indices_props(cmds@, filt@, cmds@.len() as int);
    }
    r
}

} // verus!
