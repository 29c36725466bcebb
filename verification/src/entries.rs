//! Ordered key/value lists (`Vec<(String, String)>`) and their stable sort by key.

use vstd::prelude::*;

use crate::text::{text_le, text_le_exec, text_lt};

verus! {

/// A key/value pair as plain text.
pub open spec fn entry_view(p: (String, String)) -> (Seq<char>, Seq<char>) {
    (p.0@, p.1@)
}

/// The pairs of `v` as plain text.
pub open spec fn entries_view(v: Seq<(String, String)>) -> Seq<(Seq<char>, Seq<char>)> {
    v.map_values(|p: (String, String)| entry_view(p))
}

/// `e` inserted into `s` after every trailing entry whose key is not greater
/// than `e`'s: one step of a stable insertion sort.
pub open spec fn insert_by_key(s: Seq<(Seq<char>, Seq<char>)>, e: (Seq<char>, Seq<char>)) -> Seq<
    (Seq<char>, Seq<char>),
>
    decreases s.len(),
{
    if s.len() == 0 {
        seq![e]
    } else if text_le(s.last().0, e.0) {
        s.push(e)
    } else {
        insert_by_key(s.drop_last(), e).push(s.last())
    }
}

/// Stable sort of `s` by key (what `sort_by(|a, b| a.0.cmp(&b.0))` yields).
pub open spec fn sort_by_key(s: Seq<(Seq<char>, Seq<char>)>) -> Seq<(Seq<char>, Seq<char>)>
    decreases s.len(),
{
    if s.len() == 0 {
        s
    } else {
        insert_by_key(sort_by_key(s.drop_last()), s.last())
    }
}

/// Keys are in non-decreasing order.
pub open spec fn sorted_by_key(s: Seq<(Seq<char>, Seq<char>)>) -> bool {
    forall|i: int, j: int| 0 <= i < j < s.len() ==> text_le(s[i].0, s[j].0)
}

/// Keys are in strictly increasing order (so no key occurs twice).
pub open spec fn strictly_sorted_by_key(s: Seq<(Seq<char>, Seq<char>)>) -> bool {
    forall|i: int, j: int| 0 <= i < j < s.len() ==> text_lt(s[i].0, s[j].0)
}

/// Some entry of `s` has key `k`.
pub open spec fn has_key(s: Seq<(Seq<char>, Seq<char>)>, k: Seq<char>) -> bool {
    exists|i: int| 0 <= i < s.len() && (#[trigger] s[i]).0 == k
}

proof fn lemma_insert_at(s: Seq<(Seq<char>, Seq<char>)>, e: (Seq<char>, Seq<char>), j: int)
    requires
        0 <= j <= s.len(),
        j == 0 || text_le(s[j - 1].0, e.0),
        forall|k: int| j <= k < s.len() ==> !text_le(#[trigger] s[k].0, e.0),
    ensures
        insert_by_key(s, e) == s.take(j) + seq![e] + s.skip(j),
    decreases s.len(),
{
    if s.len() == 0 {
        assert(s.take(j) + seq![e] + s.skip(j) =~= seq![e]);
    } else if j == s.len() {
        assert(s.take(j) + seq![e] + s.skip(j) =~= s.push(e));
    } else {
        assert(!text_le(s[s.len() - 1].0, e.0));
        let t = s.drop_last();
        assert forall|k: int| j <= k < t.len() implies !text_le(#[trigger] t[k].0, e.0) by {
            assert(t[k] == s[k]);
        }
        if j > 0 {
            assert(t[j - 1] == s[j - 1]);
        }
        lemma_insert_at(t, e, j);
        assert(t.take(j) + seq![e] + t.skip(j) + seq![s.last()] =~= s.take(j) + seq![e]
            + s.skip(j));
    }
}

/// Insert `e` into `v` as one step of a stable insertion sort by key.
pub fn insert_entry_by_key(v: &mut Vec<(String, String)>, e: (String, String))
    ensures
        entries_view(final(v)@) == insert_by_key(entries_view(old(v)@), entry_view(e)),
{
    let ghost s = entries_view(v@);
    let mut j = v.len();
    while j > 0 && !text_le_exec(v[j - 1].0.as_str(), e.0.as_str())
        invariant
            j <= v.len(),
            s == entries_view(v@),
            forall|k: int| j <= k < v.len() ==> !text_le(#[trigger] s[k].0, e.0@),
        decreases j,
    {
        j = j - 1;
    }
    proof {
        lemma_insert_at(s, entry_view(e), j as int);
    }
    v.insert(j, e);
    assert(entries_view(v@) =~= s.take(j as int) + seq![entry_view(e)] + s.skip(j as int));
}

/// A copy of `p`.
pub fn clone_entry(p: &(String, String)) -> (r: (String, String))
    ensures
        entry_view(r) == entry_view(*p),
{
    (p.0.clone(), p.1.clone())
}

/// The pairs of `v`, stably sorted by key.
pub fn sorted_entries(v: &Vec<(String, String)>) -> (r: Vec<(String, String)>)
    ensures
        entries_view(r@) == sort_by_key(entries_view(v@)),
{
    let mut r: Vec<(String, String)> = Vec::new();
    let mut i: usize = 0;
    while i < v.len()
        invariant
            i <= v.len(),
            entries_view(r@) == sort_by_key(entries_view(v@).take(i as int)),
        decreases v.len() - i,
    {
        let e = clone_entry(&v[i]);
        proof {
            let s = entries_view(v@);
            assert(s.take(i + 1).drop_last() =~= s.take(i as int));
            assert(s.take(i + 1).last() == entry_view(v@[i as int]));
        }
        insert_entry_by_key(&mut r, e);
        i = i + 1;
    }
    assert(entries_view(v@).take(v.len() as int) =~= entries_view(v@));
    r
}

} // verus!
