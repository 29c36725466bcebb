//! Laws of the settings editor: what a reload gives back of a save.

use vstd::prelude::*;

use crate::entries::{entries_view, strictly_sorted_by_key};
use crate::settings_editor::{
    extra_entries, extras_error, is_known_key, key_discovery_server, key_port_end,
    key_port_start, keys_to_remove, port_value, SettingsEditor, StoredSettings,
};
use crate::text::{
    decimal, lemma_text_le_antisym, lemma_text_le_trans, text_le, text_lt, trim, xml_name,
};

verus! {

/// A pair a settings store holds after saving `e` according to its
/// [`crate::settings_editor::SavePlan`]: the three dedicated keys with the
/// trimmed URL and the port numbers as decimal text, and every extra pair.
pub open spec fn saved_pair(e: SettingsEditor, p: (Seq<char>, Seq<char>)) -> bool {
    ||| p == (key_discovery_server(), trim(e.discovery_server@))
    ||| p == (key_port_start(), decimal(port_value(e.port_start@).unwrap() as nat))
    ||| p == (key_port_end(), decimal(port_value(e.port_end@).unwrap() as nat))
    ||| entries_view(e.extras@).contains(p)
}

proof fn lemma_extras_clean(s: Seq<(Seq<char>, Seq<char>)>)
    requires
        extras_error(s) is None,
    ensures
        forall|i: int| 0 <= i < s.len() ==> xml_name(#[trigger] s[i].0) && !is_known_key(s[i].0),
    decreases s.len(),
{
    if s.len() > 0 {
        lemma_extras_clean(s.drop_first());
        assert forall|i: int| 0 <= i < s.len() implies xml_name(#[trigger] s[i].0)
            && !is_known_key(s[i].0) by {
            if i > 0 {
                assert(s[i] == s.drop_first()[i - 1]);
            }
        }
    }
}

proof fn lemma_extra_entries(s: Seq<(Seq<char>, Seq<char>)>)
    requires
        strictly_sorted_by_key(s),
    ensures
        strictly_sorted_by_key(extra_entries(s)),
        forall|p: (Seq<char>, Seq<char>)| #[trigger]
            extra_entries(s).contains(p) <==> (s.contains(p) && !is_known_key(p.0)),
        forall|i: int| 0 <= i < extra_entries(s).len() ==> exists|j: int|
            0 <= j < s.len() && #[trigger] extra_entries(s)[i] == s[j],
    decreases s.len(),
{
    if s.len() > 0 {
        let t = s.drop_last();
        assert(strictly_sorted_by_key(t)) by {
            assert forall|i: int, j: int| 0 <= i < j < t.len() implies text_lt(
                t[i].0,
                t[j].0,
            ) by {
                assert(t[i] == s[i] && t[j] == s[j]);
            }
        }
        lemma_extra_entries(t);
        let ft = extra_entries(t);
        assert forall|i: int| 0 <= i < ft.len() implies text_lt(
            #[trigger] ft[i].0,
            s.last().0,
        ) by {
            let j = choose|j: int| 0 <= j < t.len() && ft[i] == t[j];
            assert(t[j] == s[j]);
        }
        if !is_known_key(s.last().0) {
            let f = ft.push(s.last());
            assert(f == extra_entries(s));
            assert forall|i: int, j: int| 0 <= i < j < f.len() implies text_lt(
                f[i].0,
                f[j].0,
            ) by {
                if j == f.len() - 1 {
                    assert(f[i] == ft[i]);
                } else {
                    assert(f[i] == ft[i] && f[j] == ft[j]);
                }
            }
            assert forall|p: (Seq<char>, Seq<char>)| #[trigger]
                f.contains(p) <==> (s.contains(p) && !is_known_key(p.0)) by {
                if f.contains(p) {
                    let k = choose|k: int| 0 <= k < f.len() && f[k] == p;
                    if k < ft.len() {
                        assert(ft[k] == p);
                        assert(ft.contains(p));
                        let j = choose|j: int| 0 <= j < t.len() && t[j] == p;
                        assert(s[j] == p);
                    } else {
                        assert(s[s.len() - 1] == p);
                    }
                }
                if s.contains(p) && !is_known_key(p.0) {
                    let k = choose|k: int| 0 <= k < s.len() && s[k] == p;
                    if k < s.len() - 1 {
                        assert(t[k] == p);
                        assert(t.contains(p));
                        assert(ft.contains(p));
                        let m = choose|m: int| 0 <= m < ft.len() && ft[m] == p;
                        assert(f[m] == p);
                    } else {
                        assert(f[f.len() - 1] == p);
                    }
                }
            }
            assert forall|i: int| 0 <= i < f.len() implies exists|j: int|
                0 <= j < s.len() && #[trigger] f[i] == s[j] by {
                if i < ft.len() {
                    let j = choose|j: int| 0 <= j < t.len() && ft[i] == t[j];
                    assert(f[i] == s[j]);
                } else {
                    assert(f[i] == s[s.len() - 1]);
                }
            }
        } else {
            assert(ft == extra_entries(s));
            assert forall|p: (Seq<char>, Seq<char>)| #[trigger]
                ft.contains(p) <==> (s.contains(p) && !is_known_key(p.0)) by {
                if ft.contains(p) {
                    let j = choose|j: int| 0 <= j < t.len() && t[j] == p;
                    assert(s[j] == p);
                }
                if s.contains(p) && !is_known_key(p.0) {
                    let k = choose|k: int| 0 <= k < s.len() && s[k] == p;
                    assert(k < s.len() - 1);
                    assert(t[k] == p);
                }
            }
            assert forall|i: int| 0 <= i < ft.len() implies exists|j: int|
                0 <= j < s.len() && #[trigger] ft[i] == s[j] by {
                let j = choose|j: int| 0 <= j < t.len() && ft[i] == t[j];
                assert(ft[i] == s[j]);
            }
        }
    }
}

/// Two lists of pairs, each strictly sorted by key, that hold the same pairs
/// are the same list.
pub proof fn lemma_sorted_same_pairs(a: Seq<(Seq<char>, Seq<char>)>, b: Seq<(Seq<char>, Seq<char>)>)
    requires
        strictly_sorted_by_key(a),
        strictly_sorted_by_key(b),
        forall|p: (Seq<char>, Seq<char>)| a.contains(p) <==> b.contains(p),
    ensures
        a == b,
    decreases a.len(),
{
    if a.len() == 0 {
        if b.len() > 0 {
            assert(b.contains(b[0]));
        }
        assert(a =~= b);
    } else {
        assert(b.len() > 0) by {
            assert(a.contains(a[0]));
        }
        let la = a.last();
        let lb = b.last();
        assert(a.contains(la));
        assert(b.contains(lb));
        let ib = choose|i: int| 0 <= i < b.len() && b[i] == la;
        let ia = choose|i: int| 0 <= i < a.len() && a[i] == lb;
        // la's key is at most lb's key and conversely
        assert(text_le(la.0, lb.0)) by {
            if ib < b.len() - 1 {
                assert(text_lt(b[ib].0, b[b.len() - 1].0));
            } else {
                crate::text::lemma_text_le_refl(la.0);
            }
        }
        assert(text_le(lb.0, la.0)) by {
            if ia < a.len() - 1 {
                assert(text_lt(a[ia].0, a[a.len() - 1].0));
            } else {
                crate::text::lemma_text_le_refl(lb.0);
            }
        }
        lemma_text_le_antisym(la.0, lb.0);
        // unique keys: lb sits at the last index of a
        assert(ia == a.len() - 1) by {
            if ia < a.len() - 1 {
                assert(text_lt(a[ia].0, a[a.len() - 1].0));
            }
        }
        assert(la == lb);
        let ta = a.drop_last();
        let tb = b.drop_last();
        assert(strictly_sorted_by_key(ta)) by {
            assert forall|i: int, j: int| 0 <= i < j < ta.len() implies text_lt(
                ta[i].0,
                ta[j].0,
            ) by {
                assert(ta[i] == a[i] && ta[j] == a[j]);
            }
        }
        assert(strictly_sorted_by_key(tb)) by {
            assert forall|i: int, j: int| 0 <= i < j < tb.len() implies text_lt(
                tb[i].0,
                tb[j].0,
            ) by {
                assert(tb[i] == b[i] && tb[j] == b[j]);
            }
        }
        assert forall|p: (Seq<char>, Seq<char>)| ta.contains(p) <==> tb.contains(p) by {
            if ta.contains(p) {
                let k = choose|k: int| 0 <= k < ta.len() && ta[k] == p;
                assert(a[k] == p);
                assert(a.contains(p));
                assert(text_lt(a[k].0, a[a.len() - 1].0));
                let m = choose|m: int| 0 <= m < b.len() && b[m] == p;
                assert(m != b.len() - 1);
                assert(tb[m] == p);
            }
            if tb.contains(p) {
                let k = choose|k: int| 0 <= k < tb.len() && tb[k] == p;
                assert(b[k] == p);
                assert(b.contains(p));
                assert(text_lt(b[k].0, b[b.len() - 1].0));
                let m = choose|m: int| 0 <= m < a.len() && a[m] == p;
                assert(m != a.len() - 1);
                assert(ta[m] == p);
            }
        }
        lemma_sorted_same_pairs(ta, tb);
        assert(a =~= ta.push(la));
        assert(b =~= tb.push(lb));
    }
}

/// What a reload gives back of a save: if the store holds exactly the pairs
/// that saving a valid editor `e` writes (listed in key order, as a store
/// lists them) and reports the saved discovery URL and port range, then the
/// fields [`SettingsEditor::reload`] fills in are those of `e`, with the URL
/// trimmed and the ports in canonical decimal form.
pub proof fn law_reload_after_save(e: SettingsEditor, stored: StoredSettings)
    requires
        e.validation_error() is None,
        strictly_sorted_by_key(entries_view(e.extras@)),
        stored.discovery_server@ == trim(e.discovery_server@),
        Some(stored.port_start) == port_value(e.port_start@),
        Some(stored.port_end) == port_value(e.port_end@),
        strictly_sorted_by_key(entries_view(stored.entries@)),
        forall|p: (Seq<char>, Seq<char>)| #[trigger]
            entries_view(stored.entries@).contains(p) <==> saved_pair(e, p),
    ensures
        stored.discovery_server@ == trim(e.discovery_server@),
        decimal(stored.port_start as nat) == decimal(port_value(e.port_start@).unwrap() as nat),
        decimal(stored.port_end as nat) == decimal(port_value(e.port_end@).unwrap() as nat),
        extra_entries(entries_view(stored.entries@)) == entries_view(e.extras@),
{
    let x = entries_view(e.extras@);
    let st = entries_view(stored.entries@);
    assert(extras_error(x) is None);
    lemma_extras_clean(x);
    lemma_extra_entries(st);
    let f = extra_entries(st);
    assert forall|p: (Seq<char>, Seq<char>)| f.contains(p) <==> x.contains(p) by {
        if x.contains(p) {
            let i = choose|i: int| 0 <= i < x.len() && x[i] == p;
            assert(!is_known_key(x[i].0));
            assert(saved_pair(e, p));
            assert(st.contains(p));
        }
        if f.contains(p) {
            assert(st.contains(p) && !is_known_key(p.0));
            assert(saved_pair(e, p));
        }
    }
    lemma_sorted_same_pairs(f, x);
}

/// A key that saving keeps in the store: one of the three dedicated keys or
/// a key of one of the editor's extra pairs.
pub open spec fn kept_on_save(k: Seq<char>, extras: Seq<(Seq<char>, Seq<char>)>) -> bool {
    ||| k == "DiscoveryServer"@
    ||| k == "NetworkPortStart"@
    ||| k == "NetworkPortEnd"@
    ||| exists|j: int| 0 <= j < extras.len() && (#[trigger] extras[j]).0 == k
}

/// Saving removes exactly the stale keys: a key is in the plan's remove
/// list if and only if the store holds it and it is neither a dedicated
/// key nor an extra key of the editor; the list keeps the store's order
/// (each removed key comes from a position of the store, in increasing
/// order) and is no longer than the store's key list.
pub proof fn law_stale_keys_are_removed(keys: Seq<Seq<char>>, extras: Seq<(Seq<char>, Seq<char>)>)
    ensures
        forall|k: Seq<char>| #[trigger]
            keys_to_remove(keys, extras).contains(k) <==> (keys.contains(k) && !kept_on_save(
                k,
                extras,
            )),
        keys_to_remove(keys, extras).len() <= keys.len(),
        forall|k: Seq<char>|
            keys.contains(k) && !kept_on_save(k, extras) && keys.last() == k && keys.len() > 0
                ==> #[trigger] keys_to_remove(keys, extras).last() == k,
    decreases keys.len(),
{
    assert(forall|k: Seq<char>| #[trigger] is_known_key(k) <==> (k == "DiscoveryServer"@ || k
        == "NetworkPortStart"@ || k == "NetworkPortEnd"@));
    if keys.len() > 0 {
        let d = keys.drop_last();
        law_stale_keys_are_removed(d, extras);
        let r = keys_to_remove(keys, extras);
        let rd = keys_to_remove(d, extras);
        assert forall|k: Seq<char>| #[trigger] r.contains(k) <==> (keys.contains(k) && !kept_on_save(
            k,
            extras,
        )) by {
            if keys.contains(k) {
                let i = choose|i: int| 0 <= i < keys.len() && keys[i] == k;
                if i < keys.len() - 1 {
                    assert(d[i] == k);
                }
            }
            if d.contains(k) {
                let i = choose|i: int| 0 <= i < d.len() && d[i] == k;
                assert(keys[i] == k);
            }
            if crate::entries::has_key(extras, k) {
                let j = choose|j: int| 0 <= j < extras.len() && (#[trigger] extras[j]).0 == k;
                assert(extras[j].0 == k);
            }
            if kept_on_save(k, extras) && !is_known_key(k) {
                let j = choose|j: int| 0 <= j < extras.len() && (#[trigger] extras[j]).0 == k;
                assert(crate::entries::has_key(extras, k));
            }
            if r.contains(k) && !rd.contains(k) {
                assert(r == rd.push(keys.last()));
                let m = choose|m: int| 0 <= m < r.len() && r[m] == k;
                assert(m == rd.len());
            }
            if rd.contains(k) && !is_known_key(keys.last()) && !crate::entries::has_key(
                extras,
                keys.last(),
            ) {
                let m = choose|m: int| 0 <= m < rd.len() && rd[m] == k;
                assert(r[m] == k);
            }
            if k == keys.last() && !kept_on_save(k, extras) {
                assert(!crate::entries::has_key(extras, k)) by {
                    if crate::entries::has_key(extras, k) {
                        let j = choose|j: int| 0 <= j < extras.len() && (#[trigger] extras[j]).0
                            == k;
                        assert(kept_on_save(k, extras));
                    }
                }
                assert(r[r.len() - 1] == k);
            }
        }
        if !is_known_key(keys.last()) && crate::entries::has_key(extras, keys.last()) == false {
        } else {
            if crate::entries::has_key(extras, keys.last()) {
                let j = choose|j: int| 0 <= j < extras.len() && (#[trigger] extras[j]).0
                    == keys.last();
                assert(kept_on_save(keys.last(), extras));
            }
        }
    }
}

} // verus!

verus! {

proof fn lemma_sort_of_sorted(s: Seq<(Seq<char>, Seq<char>)>)
    requires
        crate::entries::sorted_by_key(s),
    ensures
        crate::entries::sort_by_key(s) == s,
    decreases s.len(),
{
    if s.len() > 0 {
        let t = s.drop_last();
        assert(crate::entries::sorted_by_key(t)) by {
            assert forall|i: int, j: int| 0 <= i < j < t.len() implies text_le(t[i].0, t[j].0) by {
                assert(t[i] == s[i] && t[j] == s[j]);
            }
        }
        lemma_sort_of_sorted(t);
        if t.len() == 0 {
            assert(s =~= seq![s.last()]);
        } else {
            assert(t.last() == s[s.len() - 2]);
            assert(text_le(t.last().0, s.last().0));
            assert(t.push(s.last()) =~= s);
        }
    }
}

proof fn lemma_insert_strict(s: Seq<(Seq<char>, Seq<char>)>, e: (Seq<char>, Seq<char>))
    requires
        strictly_sorted_by_key(s),
        forall|i: int| 0 <= i < s.len() ==> (#[trigger] s[i]).0 != e.0,
    ensures
        strictly_sorted_by_key(crate::entries::insert_by_key(s, e)),
        crate::entries::insert_by_key(s, e).len() == s.len() + 1,
        forall|x: (Seq<char>, Seq<char>)| #[trigger]
            crate::entries::insert_by_key(s, e).contains(x) <==> (s.contains(x) || x == e),
    decreases s.len(),
{
    let r = crate::entries::insert_by_key(s, e);
    if s.len() == 0 {
        assert(r == seq![e]);
        assert forall|x: (Seq<char>, Seq<char>)| #[trigger] r.contains(x) <==> (s.contains(x)
            || x == e) by {
            if r.contains(x) {
                assert(r[0] == e);
            }
            if x == e {
                assert(r[0] == e);
            }
        }
    } else if text_le(s.last().0, e.0) {
        assert(r == s.push(e));
        assert forall|i: int, j: int| 0 <= i < j < r.len() implies text_lt(r[i].0, r[j].0) by {
            if j == r.len() - 1 {
                assert(r[i] == s[i]);
                if i < s.len() - 1 {
                    assert(text_lt(s[i].0, s[s.len() - 1].0));
                    lemma_text_le_trans(s[i].0, s[s.len() - 1].0, e.0);
                }
            } else {
                assert(r[i] == s[i] && r[j] == s[j]);
            }
        }
        assert forall|x: (Seq<char>, Seq<char>)| #[trigger] r.contains(x) <==> (s.contains(x)
            || x == e) by {
            if r.contains(x) {
                let k = choose|k: int| 0 <= k < r.len() && r[k] == x;
                if k < s.len() {
                    assert(s[k] == x);
                }
            }
            if s.contains(x) {
                let k = choose|k: int| 0 <= k < s.len() && s[k] == x;
                assert(r[k] == x);
            }
            if x == e {
                assert(r[r.len() - 1] == e);
            }
        }
    } else {
        let t = s.drop_last();
        let l = s.last();
        assert(strictly_sorted_by_key(t)) by {
            assert forall|i: int, j: int| 0 <= i < j < t.len() implies text_lt(t[i].0, t[j].0) by {
                assert(t[i] == s[i] && t[j] == s[j]);
            }
        }
        assert forall|i: int| 0 <= i < t.len() implies (#[trigger] t[i]).0 != e.0 by {
            assert(t[i] == s[i]);
        }
        lemma_insert_strict(t, e);
        let it = crate::entries::insert_by_key(t, e);
        assert(r == it.push(l));
        crate::text::lemma_text_le_total(l.0, e.0);
        assert(text_lt(e.0, l.0));
        assert forall|i: int| 0 <= i < it.len() implies text_lt(#[trigger] it[i].0, l.0) by {
            assert(it.contains(it[i]));
            if it[i] != e {
                assert(t.contains(it[i]));
                let k = choose|k: int| 0 <= k < t.len() && t[k] == it[i];
                assert(s[k] == it[i]);
            }
        }
        assert forall|i: int, j: int| 0 <= i < j < r.len() implies text_lt(r[i].0, r[j].0) by {
            if j == r.len() - 1 {
                assert(r[i] == it[i]);
            } else {
                assert(r[i] == it[i] && r[j] == it[j]);
            }
        }
        assert forall|x: (Seq<char>, Seq<char>)| #[trigger] r.contains(x) <==> (s.contains(x)
            || x == e) by {
            if r.contains(x) {
                let k = choose|k: int| 0 <= k < r.len() && r[k] == x;
                if k < it.len() {
                    assert(it[k] == x);
                    assert(it.contains(x));
                    if x != e {
                        let m = choose|m: int| 0 <= m < t.len() && t[m] == x;
                        assert(s[m] == x);
                    }
                } else {
                    assert(s[s.len() - 1] == x);
                }
            }
            if s.contains(x) {
                let k = choose|k: int| 0 <= k < s.len() && s[k] == x;
                if k < s.len() - 1 {
                    assert(t[k] == x);
                    assert(t.contains(x));
                    assert(it.contains(x));
                    let m = choose|m: int| 0 <= m < it.len() && it[m] == x;
                    assert(r[m] == x);
                } else {
                    assert(r[r.len() - 1] == x);
                }
            }
            if x == e {
                assert(it.contains(e));
                let m = choose|m: int| 0 <= m < it.len() && it[m] == e;
                assert(r[m] == e);
            }
        }
    }
}

/// Adding a pair whose key is new to extras that are strictly sorted by key
/// keeps them strictly sorted, adds exactly that pair and drops nothing.
pub proof fn law_add_extra_keeps_keys_sorted(
    s: Seq<(Seq<char>, Seq<char>)>,
    e: (Seq<char>, Seq<char>),
)
    requires
        strictly_sorted_by_key(s),
        !crate::entries::has_key(s, e.0),
    ensures
        strictly_sorted_by_key(crate::entries::sort_by_key(s.push(e))),
        crate::entries::sort_by_key(s.push(e)).len() == s.len() + 1,
        forall|x: (Seq<char>, Seq<char>)| #[trigger]
            crate::entries::sort_by_key(s.push(e)).contains(x) <==> (s.contains(x) || x == e),
{
    assert(crate::entries::sorted_by_key(s)) by {
        assert forall|a: int, b: int| 0 <= a < b < s.len() implies text_le(s[a].0, s[b].0) by {
            assert(text_lt(s[a].0, s[b].0));
        }
    }
    lemma_sort_of_sorted(s);
    assert(s.push(e).drop_last() =~= s);
    assert forall|i: int| 0 <= i < s.len() implies (#[trigger] s[i]).0 != e.0 by {
        if s[i].0 == e.0 {
            assert(crate::entries::has_key(s, e.0));
        }
    }
    lemma_insert_strict(s, e);
}

/// Removing the extra pair at `i` from extras strictly sorted by key keeps
/// them strictly sorted and leaves no pair with that key.
pub proof fn law_remove_extra_drops_key(s: Seq<(Seq<char>, Seq<char>)>, i: int)
    requires
        strictly_sorted_by_key(s),
        0 <= i < s.len(),
    ensures
        strictly_sorted_by_key(s.remove(i)),
        !crate::entries::has_key(s.remove(i), s[i].0),
        s.remove(i).len() == s.len() - 1,
{
    let r = s.remove(i);
    assert forall|a: int, b: int| 0 <= a < b < r.len() implies text_lt(r[a].0, r[b].0) by {
        let sa = if a < i { a } else { a + 1 };
        let sb = if b < i { b } else { b + 1 };
        assert(r[a] == s[sa] && r[b] == s[sb]);
    }
    if crate::entries::has_key(r, s[i].0) {
        let k = choose|k: int| 0 <= k < r.len() && (#[trigger] r[k]).0 == s[i].0;
        let sk = if k < i { k } else { k + 1 };
        assert(r[k] == s[sk]);
        if sk < i {
            assert(text_lt(s[sk].0, s[i].0));
        } else {
            assert(text_lt(s[i].0, s[sk].0));
        }
    }
}

/// An empty `DiscoveryServer` is always accepted: it means DNS-SD.
pub proof fn law_empty_discovery_is_dns_sd()
    ensures
        crate::settings_editor::discovery_url_error(Seq::<char>::empty()) is None,
        trim(Seq::<char>::empty()) == Seq::<char>::empty(),
{
    assert(crate::text::leading_ws(Seq::<char>::empty()) == 0);
}

} // verus!
