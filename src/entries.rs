use vstd::prelude::*;

verus! {

/// The value stored under `key`, in a sequence of entries whose keys are
/// unique.
pub open spec fn find<V>(entries: Seq<(Seq<char>, V)>, key: Seq<char>) -> Option<V> {
    if exists|i: int| 0 <= i < entries.len() && entries[i].0 == key {
        Some(entries[choose|i: int| 0 <= i < entries.len() && entries[i].0 == key].1)
    } else {
        None
    }
}

/// `key` set to `value`: an entry already under `key` keeps its place and
/// takes the new value; otherwise the entry is appended.
pub open spec fn upsert<V>(entries: Seq<(Seq<char>, V)>, key: Seq<char>, value: V) -> Seq<(Seq<char>, V)> {
    if exists|i: int| 0 <= i < entries.len() && entries[i].0 == key {
        entries.update(choose|i: int| 0 <= i < entries.len() && entries[i].0 == key, (key, value))
    } else {
        entries.push((key, value))
    }
}

/// No two entries share a key.
pub open spec fn keys_unique<V>(entries: Seq<(Seq<char>, V)>) -> bool {
    forall|i: int, j: int|
        0 <= i < entries.len() && 0 <= j < entries.len() && i != j ==> entries[i].0 != entries[j].0
}

/// Setting a key keeps the keys unique, yields the new value under that key
/// and leaves every other key as it was.
pub proof fn lemma_upsert<V>(entries: Seq<(Seq<char>, V)>, key: Seq<char>, value: V)
    requires
        keys_unique(entries),
    ensures
        keys_unique(upsert(entries, key, value)),
        find(upsert(entries, key, value), key) == Some(value),
        forall|k: Seq<char>| k != key ==> #[trigger] find(upsert(entries, key, value), k) == find(entries, k),
{
    let u = upsert(entries, key, value);
    if exists|i: int| 0 <= i < entries.len() && entries[i].0 == key {
        let p = choose|i: int| 0 <= i < entries.len() && entries[i].0 == key;
        assert(u[p].0 == key);
        assert forall|k: Seq<char>| k != key implies #[trigger] find(u, k) == find(entries, k) by {
            if exists|i: int| 0 <= i < entries.len() && entries[i].0 == k {
                let q = choose|i: int| 0 <= i < entries.len() && entries[i].0 == k;
                assert(u[q].0 == k);
                let q2 = choose|i: int| 0 <= i < u.len() && u[i].0 == k;
                assert(q2 == q);
            } else {
                assert forall|i: int| 0 <= i < u.len() implies u[i].0 != k by {
                    if i != p {
                        assert(u[i] == entries[i]);
                    }
                }
            }
        }
    } else {
        assert(u[entries.len() as int].0 == key);
        assert forall|k: Seq<char>| k != key implies #[trigger] find(u, k) == find(entries, k) by {
            if exists|i: int| 0 <= i < entries.len() && entries[i].0 == k {
                let q = choose|i: int| 0 <= i < entries.len() && entries[i].0 == k;
                assert(u[q].0 == k);
                let q2 = choose|i: int| 0 <= i < u.len() && u[i].0 == k;
                assert(q2 == q);
            } else {
                assert forall|i: int| 0 <= i < u.len() implies u[i].0 != k by {
                    if i < entries.len() {
                        assert(u[i] == entries[i]);
                    }
                }
            }
        }
    }
}

/// The index of the entry under `key`, if there is one.
pub fn position_of<V>(entries: &Vec<(String, V)>, key: &String) -> (r: Option<usize>)
    ensures
        match r {
            Some(i) => i < entries@.len() && entries@[i as int].0@ == key@ && forall|j: int|
                0 <= j < i ==> entries@[j].0@ != key@,
            None => forall|j: int| 0 <= j < entries@.len() ==> entries@[j].0@ != key@,
        },
{
    let mut i: usize = 0;
    while i < entries.len()
        invariant
            i <= entries@.len(),
            forall|j: int| 0 <= j < i ==> entries@[j].0@ != key@,
        decreases entries@.len() - i,
    {
        if entries[i].0 == *key {
            return Some(i);
        }
        i = i + 1;
    }
    None
}

} // verus!
