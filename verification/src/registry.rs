//! Lists of keyed entries in which no key occurs twice, seen as maps.
//!
//! A map keeps at most one value per key; here such a map is a list of
//! entries, searched from the front. The lemmas relate updating, appending
//! and removing entries to inserting and removing keys of the map.
use vstd::prelude::*;

verus! {

/// Index of the first entry at or after `from` with the given id, or -1.
pub open spec fn entry_index_from<K, T>(s: Seq<(K, T)>, id: K, from: int) -> int
    decreases s.len() - from,
{
    if from < 0 || from >= s.len() {
        -1
    } else if s[from].0 == id {
        from
    } else {
        entry_index_from(s, id, from + 1)
    }
}

/// Index of the entry with the given id, or -1.
pub open spec fn entry_index<K, T>(s: Seq<(K, T)>, id: K) -> int {
    entry_index_from(s, id, 0)
}

/// No id occurs twice.
pub open spec fn ids_unique<K, T>(s: Seq<(K, T)>) -> bool {
    forall|i: int, j: int| 0 <= i < j < s.len() ==> s[i].0 != s[j].0
}

/// The map that a list of entries with distinct ids stands for.
pub open spec fn entries_map<K, T>(s: Seq<(K, T)>) -> Map<K, T> {
    Map::new(|k: K| entry_index(s, k) >= 0, |k: K| s[entry_index(s, k)].1)
}

/// The value under a key of a map, if there is one.
pub open spec fn map_get<K, T>(m: Map<K, T>, k: K) -> Option<T> {
    if m.contains_key(k) {
        Some(m[k])
    } else {
        None
    }
}

/// The index found for a key lies in the list and holds that key; -1 means
/// no entry from `from` on holds it.
pub proof fn lemma_entry_index_bounds<K, T>(s: Seq<(K, T)>, id: K, from: int)
    requires
        0 <= from,
    ensures
        -1 <= entry_index_from(s, id, from) < s.len(),
        entry_index_from(s, id, from) >= 0 ==> from <= entry_index_from(s, id, from) && s[entry_index_from(s, id, from)].0 == id,
        entry_index_from(s, id, from) < 0 ==> forall|i: int| from <= i < s.len() ==> s[i].0 != id,
    decreases s.len() - from,
{
    if from < s.len() && s[from].0 != id {
        lemma_entry_index_bounds(s, id, from + 1);
    }
}

/// The first entry from `from` on that holds a key is the one found.
pub proof fn lemma_entry_index_found<K, T>(s: Seq<(K, T)>, id: K, from: int, k: int)
    requires
        0 <= from <= k < s.len(),
        s[k].0 == id,
        forall|i: int| from <= i < k ==> s[i].0 != id,
    ensures
        entry_index_from(s, id, from) == k,
    decreases k - from,
{
    if from < k {
        lemma_entry_index_found(s, id, from + 1, k);
    }
}

/// With distinct ids, the entry at `k` is the one found for its id.
pub proof fn lemma_entry_index_unique<K, T>(s: Seq<(K, T)>, k: int)
    requires
        ids_unique(s),
        0 <= k < s.len(),
    ensures
        entry_index(s, s[k].0) == k,
{
    lemma_entry_index_found(s, s[k].0, 0, k);
}

/// An id found in a list of distinct ids is found at its entry; one not
/// found is at no entry.
pub proof fn lemma_entry_index_spec<K, T>(s: Seq<(K, T)>, id: K)
    requires
        ids_unique(s),
    ensures
        entry_index(s, id) >= 0 ==> s[entry_index(s, id)].0 == id && entry_index(s, id) < s.len(),
        entry_index(s, id) < 0 <==> forall|i: int| 0 <= i < s.len() ==> s[i].0 != id,
{
    lemma_entry_index_bounds(s, id, 0);
    if exists|i: int| 0 <= i < s.len() && s[i].0 == id {
        let i = choose|i: int| 0 <= i < s.len() && s[i].0 == id;
        lemma_entry_index_unique(s, i);
    }
}

/// The index found for an id depends on the ids of the entries alone.
pub proof fn lemma_entry_index_same_ids<K, T>(s: Seq<(K, T)>, s2: Seq<(K, T)>, id: K, from: int)
    requires
        s.len() == s2.len(),
        forall|j: int| 0 <= j < s.len() ==> s[j].0 == s2[j].0,
    ensures
        entry_index_from(s, id, from) == entry_index_from(s2, id, from),
    decreases s.len() - from,
{
    if 0 <= from < s.len() && s[from].0 != id {
        lemma_entry_index_same_ids(s, s2, id, from + 1);
    }
}

/// Appending an entry with another id does not change where an id is found.
pub proof fn lemma_entry_index_push<K, T>(s: Seq<(K, T)>, e: (K, T), id: K, from: int)
    requires
        0 <= from,
        e.0 != id,
    ensures
        entry_index_from(s.push(e), id, from) == entry_index_from(s, id, from),
    decreases s.len() + 1 - from,
{
    let s2 = s.push(e);
    if from < s.len() {
        assert(s2[from] == s[from]);
        if s[from].0 != id {
            lemma_entry_index_push(s, e, id, from + 1);
        }
    } else if from == s.len() {
        assert(s2[from] == e);
        assert(entry_index_from(s2, id, from + 1) == -1);
    }
}

/// Replacing the value of an entry changes that key only.
pub proof fn lemma_entries_map_update<K, T>(s: Seq<(K, T)>, i: int, v: T)
    requires
        ids_unique(s),
        0 <= i < s.len(),
    ensures
        ids_unique(s.update(i, (s[i].0, v))),
        entries_map(s.update(i, (s[i].0, v))) =~= entries_map(s).insert(s[i].0, v),
{
    let s2 = s.update(i, (s[i].0, v));
    assert forall|j: int| 0 <= j < s.len() implies s[j].0 == s2[j].0 by {
        if j != i {
            assert(s2[j] == s[j]);
        }
    }
    assert forall|k: K| #![trigger entry_index(s2, k)] true implies entry_index(s2, k) == entry_index(s, k) by {
        lemma_entry_index_same_ids(s, s2, k, 0);
    }
    lemma_entry_index_unique(s, i);
    assert forall|k: K| #![trigger entry_index(s, k)] entry_index(s, k) >= 0 && k != s[i].0 implies s2[entry_index(s, k)] == s[entry_index(s, k)] by {
        lemma_entry_index_spec(s, k);
    }
}

/// Adding an entry with a new id adds that key.
pub proof fn lemma_entries_map_push<K, T>(s: Seq<(K, T)>, id: K, v: T)
    requires
        ids_unique(s),
        entry_index(s, id) < 0,
    ensures
        ids_unique(s.push((id, v))),
        entries_map(s.push((id, v))) =~= entries_map(s).insert(id, v),
{
    let s2 = s.push((id, v));
    lemma_entry_index_spec(s, id);
    assert forall|a: int, b: int| 0 <= a < b < s2.len() implies s2[a].0 != s2[b].0 by {
        assert(s2[a] == s[a]);
        if b < s.len() {
            assert(s2[b] == s[b]);
        }
    }
    assert forall|k: K| #![trigger entry_index(s2, k)] k != id implies entry_index(s2, k) == entry_index(s, k) by {
        lemma_entry_index_push(s, (id, v), k, 0);
    }
    lemma_entry_index_unique(s2, s.len() as int);
    assert forall|k: K| #![trigger entry_index(s, k)] entry_index(s, k) >= 0 && k != id implies s2[entry_index(s, k)] == s[entry_index(s, k)] by {
        lemma_entry_index_spec(s, k);
    }
}

/// Removing the entry of an id removes that key.
pub proof fn lemma_entries_map_remove<K, T>(s: Seq<(K, T)>, i: int)
    requires
        ids_unique(s),
        0 <= i < s.len(),
    ensures
        ids_unique(s.remove(i)),
        entries_map(s.remove(i)) =~= entries_map(s).remove(s[i].0),
{
    let s2 = s.remove(i);
    assert forall|a: int, b: int| 0 <= a < b < s2.len() implies s2[a].0 != s2[b].0 by {
        let a1 = if a < i { a } else { a + 1 };
        let b1 = if b < i { b } else { b + 1 };
        assert(s2[a] == s[a1]);
        assert(s2[b] == s[b1]);
    }
    lemma_entry_index_unique(s, i);
    assert forall|k: K| #![trigger entry_index(s2, k)] true implies (if k == s[i].0 {
        entry_index(s2, k) < 0
    } else {
        entry_index(s2, k) >= 0 <==> entry_index(s, k) >= 0
    }) && (entry_index(s2, k) >= 0 ==> s2[entry_index(s2, k)].1 == s[entry_index(s, k)].1) by {
        lemma_entry_index_spec(s, k);
        lemma_entry_index_spec(s2, k);
        if entry_index(s, k) >= 0 {
            let j = entry_index(s, k);
            if j != i {
                let j2 = if j < i { j } else { j - 1 };
                assert(s2[j2] == s[j]);
                lemma_entry_index_unique(s2, j2);
            }
        }
        if entry_index(s2, k) >= 0 {
            let j2 = entry_index(s2, k);
            let j = if j2 < i { j2 } else { j2 + 1 };
            assert(s2[j2] == s[j]);
            lemma_entry_index_unique(s, j);
        }
    }
}

/// The map of a list of distinct ids has as many keys as the list has entries.
pub proof fn lemma_entries_map_len<K, T>(s: Seq<(K, T)>)
    requires
        ids_unique(s),
    ensures
        entries_map(s).dom().finite(),
        entries_map(s).dom().len() == s.len(),
    decreases s.len(),
{
    if s.len() == 0 {
        assert(entries_map(s).dom() =~= Set::<K>::empty());
    } else {
        let last = s.len() - 1;
        let s0 = s.drop_last();
        assert(s0.push(s[last]) =~= s);
        assert(ids_unique(s0));
        lemma_entry_index_spec(s0, s[last].0);
        lemma_entries_map_push(s0, s[last].0, s[last].1);
        lemma_entries_map_len(s0);
        lemma_entry_index_spec(s0, s[last].0);
        assert(!entries_map(s0).dom().contains(s[last].0));
        assert(entries_map(s).dom() =~= entries_map(s0).dom().insert(s[last].0));
    }
}

} // verus!
