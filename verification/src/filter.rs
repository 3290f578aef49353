//! The search/filter engine: literal, case-sensitive substring matching
//! over the rendered row texts, the ordered set of matching row indices,
//! and the stable "pointed-at match" that survives recomputation.
//!
//! The empty filter string matches nothing by design: an empty filter
//! yields an empty match set, not "match everything".

use vstd::prelude::*;
use vstd::string::StrSliceExecFns;

verus! {

/// Whether `pat` occurs in `row` starting at position `i`.
pub open spec fn occurs_at(row: Seq<char>, pat: Seq<char>, i: int) -> bool {
    &&& 0 <= i
    &&& i + pat.len() <= row.len()
    &&& row.subrange(i, i + pat.len()) == pat
}

/// Whether the row matches the filter: a non-empty filter string that
/// occurs somewhere in the row.
pub open spec fn row_matches(row: Seq<char>, pat: Seq<char>) -> bool {
    pat.len() > 0 && exists|i: int| occurs_at(row, pat, i)
}

/// The match set: the indices of the matching rows, in increasing order.
pub open spec fn match_set(rows: Seq<Seq<char>>, pat: Seq<char>) -> Seq<int>
    decreases rows.len(),
{
    if rows.len() == 0 {
        Seq::empty()
    } else {
        let prefix = match_set(rows.drop_last(), pat);
        if row_matches(rows.last(), pat) {
            prefix.push(rows.len() - 1)
        } else {
            prefix
        }
    }
}

/// The sequence of `usize` indices a vector holds, as mathematical
/// integers.
pub open spec fn as_ints(s: Seq<usize>) -> Seq<int> {
    s.map_values(|u: usize| u as int)
}

/// The match set holds exactly the indices of the matching rows, each in
/// range, in strictly increasing order.
pub proof fn lemma_match_set_props(rows: Seq<Seq<char>>, pat: Seq<char>)
    ensures
        forall|k: int|
            0 <= k < match_set(rows, pat).len() ==> {
                let i = #[trigger] match_set(rows, pat)[k];
                0 <= i < rows.len() && row_matches(rows[i], pat)
            },
        forall|k1: int, k2: int|
            0 <= k1 < k2 < match_set(rows, pat).len() ==> #[trigger] match_set(rows, pat)[k1]
                < #[trigger] match_set(rows, pat)[k2],
        forall|i: int|
            0 <= i < rows.len() && row_matches(rows[i], pat) ==> match_set(rows, pat).contains(i),
    decreases rows.len(),
{
    if rows.len() > 0 {
        let sub = rows.drop_last();
        lemma_match_set_props(sub, pat);
        assert forall|i: int|
            0 <= i < rows.len() && row_matches(rows[i], pat) implies match_set(
            rows,
            pat,
        ).contains(i) by {
            if i < rows.len() - 1 {
                assert(sub[i] == rows[i]);
                assert(match_set(sub, pat).contains(i));
                let k = choose|k: int|
                    0 <= k < match_set(sub, pat).len() && match_set(sub, pat)[k] == i;
                assert(match_set(rows, pat)[k] == i);
            } else {
                let ms = match_set(rows, pat);
                assert(ms[ms.len() - 1] == i);
            }
        }
    }
}

/// Law: the empty filter string yields an empty match set on every
/// registry.
pub proof fn lemma_empty_filter(rows: Seq<Seq<char>>, pat: Seq<char>)
    requires
        pat.len() == 0,
    ensures
        match_set(rows, pat) == Seq::<int>::empty(),
    decreases rows.len(),
{
    if rows.len() > 0 {
        lemma_empty_filter(rows.drop_last(), pat);
    }
}

/// The pointed-at-match continuity rule: keep the previous pointer while
/// it is still a member of the match set; point at nothing when the set is
/// empty; otherwise point at the first match.
pub open spec fn choose_pointer(prev: Option<int>, ms: Seq<int>) -> Option<int> {
    let keep = match prev {
        Some(p) => ms.contains(p),
        None => false,
    };
    if keep {
        prev
    } else if ms.len() == 0 {
        None
    } else {
        Some(ms[0])
    }
}

/// Law: recomputing an unchanged filter over an unchanged registry leaves
/// the match set (a pure function of both) and the pointed-at match as
/// they were.
pub proof fn lemma_filter_idempotent(rows: Seq<Seq<char>>, pat: Seq<char>, prev: Option<int>)
    ensures
        choose_pointer(choose_pointer(prev, match_set(rows, pat)), match_set(rows, pat))
            == choose_pointer(prev, match_set(rows, pat)),
{
    let ms = match_set(rows, pat);
    if ms.len() > 0 {
        assert(ms.contains(ms[0]));
    }
}

/// Where the pointer lands when stepped: to the neighbouring element of
/// the match set, clamped at the ends; unchanged if the pointer is not a
/// member at all.
pub open spec fn stepped_pointer(ms: Seq<int>, p: int, forward: bool) -> int {
    match find_int_from(ms, p, 0) {
        None => p,
        Some(k) => if forward {
            if k + 1 < ms.len() {
                ms[k + 1]
            } else {
                ms[k]
            }
        } else {
            if k > 0 {
                ms[k - 1]
            } else {
                ms[0]
            }
        },
    }
}

/// Least index at or after `i` where `ms` holds `p`, if any.
pub open spec fn find_int_from(ms: Seq<int>, p: int, i: int) -> Option<int>
    decreases ms.len() - i,
{
    if i < 0 || i >= ms.len() {
        None
    } else if ms[i] == p {
        Some(i)
    } else {
        find_int_from(ms, p, i + 1)
    }
}

/// Whether `pat` occurs in `row` at position `i`, checked character by
/// character.
fn matches_at(row: &String, pat: &String, i: usize) -> (b: bool)
    requires
        i + pat@.len() <= row@.len(),
    ensures
        b == occurs_at(row@, pat@, i as int),
{
    let m = pat.as_str().unicode_len();
    let n = row.as_str().unicode_len();
    let mut j: usize = 0;
    while j < m
        invariant
            0 <= j <= m,
            m == pat@.len(),
            n == row@.len(),
            i + m <= n,
            forall|k: int| 0 <= k < j ==> row@[i + k] == pat@[k],
        decreases m - j,
    {
        if row.as_str().get_char(i + j) != pat.as_str().get_char(j) {
            proof {
                if occurs_at(row@, pat@, i as int) {
                    assert(row@.subrange(i as int, i + m as int)[j as int] == pat@[j as int]);
                }
            }
            return false;
        }
        j = j + 1;
    }
    proof {
        assert(row@.subrange(i as int, i + m as int) =~= pat@);
    }
    true
}

/// Whether the row matches the filter string.
pub fn row_has_match(row: &String, pat: &String) -> (b: bool)
    ensures
        b == row_matches(row@, pat@),
{
    let m = pat.as_str().unicode_len();
    let n = row.as_str().unicode_len();
    if m == 0 || m > n {
        return false;
    }
    let mut i: usize = 0;
    while i <= n - m
        invariant
            0 <= i <= n - m + 1,
            m == pat@.len(),
            n == row@.len(),
            0 < m <= n,
            forall|k: int| 0 <= k < i ==> !occurs_at(row@, pat@, k),
        decreases n - i,
    {
        if matches_at(row, pat, i) {
            return true;
        }
        i = i + 1;
    }
    proof {
        assert forall|k: int| !occurs_at(row@, pat@, k) by {
            if occurs_at(row@, pat@, k) {
                assert(k + m <= n);
                assert(k < i);
            }
        }
    }
    false
}

/// The first position at or after `i` where `pat` occurs in `row`, if
/// any.
pub open spec fn occurrence_from(row: Seq<char>, pat: Seq<char>, i: int) -> Option<int>
    decreases row.len() - i,
{
    if pat.len() == 0 || i < 0 || i + pat.len() > row.len() {
        None
    } else if row.subrange(i, i + pat.len()) == pat {
        Some(i)
    } else {
        occurrence_from(row, pat, i + 1)
    }
}

/// The first occurrence found by the scan lies at or after its start, and
/// fits inside the row.
pub proof fn lemma_occurrence_from_bounds(row: Seq<char>, pat: Seq<char>, i: int)
    ensures
        match occurrence_from(row, pat, i) {
            Some(p) => i <= p && p + pat.len() <= row.len() && occurs_at(row, pat, p),
            None => true,
        },
    decreases row.len() - i,
{
    if !(pat.len() == 0 || i < 0 || i + pat.len() > row.len()) {
        if row.subrange(i, i + pat.len()) != pat {
            lemma_occurrence_from_bounds(row, pat, i + 1);
        }
    }
}

/// The greedy left-to-right, non-overlapping occurrence positions,
/// starting the scan at `i`.
pub open spec fn occurrences_from(row: Seq<char>, pat: Seq<char>, i: int) -> Seq<int>
    decreases row.len() + pat.len() - i,
    via occurrences_from_dec
{
    if pat.len() == 0 || i < 0 {
        Seq::empty()
    } else {
        match occurrence_from(row, pat, i) {
            None => Seq::empty(),
            Some(p) => seq![p] + occurrences_from(row, pat, p + pat.len()),
        }
    }
}

#[via_fn]
proof fn occurrences_from_dec(row: Seq<char>, pat: Seq<char>, i: int) {
    lemma_occurrence_from_bounds(row, pat, i);
}

/// The start positions of the non-overlapping occurrences of `pat` in
/// `row`, leftmost-greedy, for an interface that highlights each one.
pub fn match_positions(row: &String, pat: &String) -> (r: Vec<usize>)
    ensures
        as_ints(r@) == occurrences_from(row@, pat@, 0),
{
    let mut r: Vec<usize> = Vec::new();
    let m = pat.as_str().unicode_len();
    let n = row.as_str().unicode_len();
    proof {
        assert(as_ints(r@) =~= Seq::<int>::empty());
    }
    if m == 0 {
        return r;
    }
    if m > n {
        return r;
    }
    let mut i: usize = 0;
    while i <= n - m
        invariant
            0 <= i <= n,
            m == pat@.len(),
            n == row@.len(),
            0 < m <= n,
            as_ints(r@) + occurrences_from(row@, pat@, i as int) == occurrences_from(
                row@,
                pat@,
                0,
            ),
        decreases n - i,
    {
        if matches_at(row, pat, i) {
            r.push(i);
            proof {
                assert(occurrence_from(row@, pat@, i as int) == Some(i as int));
                assert(as_ints(r@) =~= as_ints(r@.drop_last()).push(i as int));
                assert(as_ints(r@) + occurrences_from(row@, pat@, i + m as int)
                    =~= as_ints(r@.drop_last()) + occurrences_from(row@, pat@, i as int));
            }
            i = i + m;
        } else {
            proof {
                assert(occurrence_from(row@, pat@, i as int) == occurrence_from(
                    row@,
                    pat@,
                    i + 1,
                ));
            }
            i = i + 1;
        }
    }
    proof {
        assert(occurrence_from(row@, pat@, i as int) is None);
        assert(as_ints(r@) + occurrences_from(row@, pat@, i as int) =~= as_ints(r@));
    }
    r
}

/// The indices of the rows that match the filter string, in increasing
/// order.
pub fn compute_matches(rows: &Vec<String>, pat: &String) -> (r: Vec<usize>)
    ensures
        as_ints(r@) == match_set(rows.deep_view(), pat@),
        forall|k: int| 0 <= k < r@.len() ==> r@[k] < rows@.len(),
{
    let ghost rowsv = rows.deep_view();
    let mut r: Vec<usize> = Vec::new();
    let mut i: usize = 0;
    while i < rows.len()
        invariant
            0 <= i <= rows@.len(),
            rowsv == rows.deep_view(),
            rowsv.len() == rows@.len(),
            as_ints(r@) == match_set(rowsv.subrange(0, i as int), pat@),
            forall|k: int| 0 <= k < r@.len() ==> r@[k] < i,
        decreases rows@.len() - i,
    {
        let b = row_has_match(&rows[i], pat);
        proof {
            let pre = rowsv.subrange(0, i as int);
            let ext = rowsv.subrange(0, i + 1);
            assert(ext.drop_last() =~= pre);
            assert(ext.last() == rowsv[i as int]);
            assert(rowsv[i as int] == rows@[i as int]@);
        }
        if b {
            r.push(i);
            proof {
                assert(as_ints(r@) =~= match_set(rowsv.subrange(0, i + 1), pat@));
            }
        } else {
            proof {
                assert(as_ints(r@) =~= match_set(rowsv.subrange(0, i + 1), pat@));
            }
        }
        i = i + 1;
    }
    proof {
        assert(rowsv.subrange(0, rowsv.len() as int) =~= rowsv);
    }
    r
}

/// Step the pointed-at match to its neighbour in the match set, clamped at
/// the ends; a pointer that is no member of the set is left where it is.
pub fn step_match_pointer(ms: &Vec<usize>, p: usize, forward: bool) -> (r: usize)
    ensures
        r as int == stepped_pointer(as_ints(ms@), p as int, forward),
        as_ints(ms@).contains(p as int) ==> as_ints(ms@).contains(r as int),
{
    let ghost msv = as_ints(ms@);
    let mut i: usize = 0;
    while i < ms.len()
        invariant
            0 <= i <= ms@.len(),
            msv == as_ints(ms@),
            find_int_from(msv, p as int, 0) == find_int_from(msv, p as int, i as int),
        decreases ms@.len() - i,
    {
        if ms[i] == p {
            proof {
                assert(find_int_from(msv, p as int, i as int) == Some(i as int));
            }
            let r = if forward {
                if i + 1 < ms.len() {
                    ms[i + 1]
                } else {
                    ms[i]
                }
            } else {
                if i > 0 {
                    ms[i - 1]
                } else {
                    ms[0]
                }
            };
            proof {
                if forward {
                    if i + 1 < ms@.len() {
                        assert(msv[i + 1] == r as int);
                    } else {
                        assert(msv[i as int] == r as int);
                    }
                } else {
                    if i > 0 {
                        assert(msv[i - 1] == r as int);
                    } else {
                        assert(msv[0] == r as int);
                    }
                }
            }
            return r;
        }
        proof {
            assert(find_int_from(msv, p as int, i as int) == find_int_from(msv, p as int, i + 1));
        }
        i = i + 1;
    }
    proof {
        assert(find_int_from(msv, p as int, i as int) is None);
        if msv.contains(p as int) {
            let k = choose|k: int| 0 <= k < msv.len() && msv[k] == p as int;
            lemma_find_int_from_finds(msv, p as int, 0, k);
        }
    }
    p
}

/// Whether the match set vector holds the row index `p`.
pub fn contains_index(v: &Vec<usize>, p: usize) -> (b: bool)
    ensures
        b == as_ints(v@).contains(p as int),
{
    let mut i: usize = 0;
    while i < v.len()
        invariant
            0 <= i <= v@.len(),
            forall|j: int| 0 <= j < i ==> as_ints(v@)[j] != p as int,
        decreases v@.len() - i,
    {
        if v[i] == p {
            proof {
                assert(as_ints(v@)[i as int] == p as int);
            }
            return true;
        }
        proof {
            assert(as_ints(v@)[i as int] != p as int);
        }
        i = i + 1;
    }
    false
}

/// If `ms[k] == p` then the scan from any position at or before `k` finds
/// an occurrence.
proof fn lemma_find_int_from_finds(ms: Seq<int>, p: int, i: int, k: int)
    requires
        0 <= i <= k < ms.len(),
        ms[k] == p,
    ensures
        find_int_from(ms, p, i) is Some,
    decreases k - i,
{
    if ms[i] != p {
        lemma_find_int_from_finds(ms, p, i + 1, k);
    }
}

} // verus!
