use vstd::prelude::*;
use crate::entries::{find, keys_unique, lemma_upsert, position_of, upsert};

verus! {

/// A string-keyed mapping that carries trace context across a process
/// boundary, such as the headers of a request. Keys are unique and keep the
/// order in which they were first set.
pub struct Carrier {
    entries: Vec<(String, String)>,
}

impl View for Carrier {
    type V = Seq<(Seq<char>, Seq<char>)>;

    closed spec fn view(&self) -> Self::V {
        self.entries@.map_values(|e: (String, String)| (e.0@, e.1@))
    }
}

impl Carrier {
    /// The keys are unique.
    pub open spec fn wf(&self) -> bool {
        keys_unique(self@)
    }

    /// The value under `key`.
    pub open spec fn lookup(&self, key: Seq<char>) -> Option<Seq<char>> {
        find(self@, key)
    }

    pub fn new() -> (r: Carrier)
        ensures
            r.wf(),
            r@ == Seq::<(Seq<char>, Seq<char>)>::empty(),
    {
        let r = Carrier { entries: Vec::new() };
        assert(r@ =~= Seq::<(Seq<char>, Seq<char>)>::empty());
        r
    }

    pub fn len(&self) -> (r: usize)
        ensures
            r == self@.len(),
    {
        self.entries.len()
    }

    /// The value under `key`, if the carrier holds one.
    pub fn get(&self, key: &String) -> (r: Option<String>)
        requires
            self.wf(),
        ensures
            r.is_some() == self.lookup(key@).is_some(),
            r.is_some() ==> self.lookup(key@) == Some(r.unwrap()@),
    {
        match position_of(&self.entries, key) {
            Some(i) => {
                assert(self@[i as int].0 == key@);
                let ghost c = choose|j: int| 0 <= j < self@.len() && self@[j].0 == key@;
                assert(c == i as int);
                Some(self.entries[i].1.clone())
            },
            None => {
                assert(forall|j: int| 0 <= j < self@.len() ==> self@[j].0 != key@);
                None
            },
        }
    }

    /// Sets `key` to `value`, in place where the key is present, appended
    /// otherwise; every other entry stays as it was.
    pub fn set(&mut self, key: String, value: String)
        requires
            old(self).wf(),
        ensures
            final(self).wf(),
            final(self)@ == upsert(old(self)@, key@, value@),
            final(self).lookup(key@) == Some(value@),
            forall|k: Seq<char>| k != key@ ==> #[trigger] final(self).lookup(k) == old(self).lookup(k),
    {
        proof {
            lemma_upsert(self@, key@, value@);
        }
        let ghost before = self@;
        match position_of(&self.entries, &key) {
            Some(i) => {
                assert(before[i as int].0 == key@);
                let ghost c = choose|j: int| 0 <= j < before.len() && before[j].0 == key@;
                assert(c == i as int);
                self.entries.set(i, (key, value));
                assert(self@ =~= upsert(before, key@, value@));
            },
            None => {
                assert(forall|j: int| 0 <= j < before.len() ==> before[j].0 != key@);
                self.entries.push((key, value));
                assert(self@ =~= upsert(before, key@, value@));
            },
        }
    }
}

} // verus!
