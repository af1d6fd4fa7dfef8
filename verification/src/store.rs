//! A small map from text keys to text values, kept as a list in which no key
//! stands twice.
use vstd::prelude::*;

verus! {

/// A map from text to text.
#[derive(Debug)]
pub struct TextMap {
    entries: Vec<(String, String)>,
}

impl TextMap {
    #[verifier::type_invariant]
    spec fn distinct_keys(self) -> bool {
        forall|i: int, j: int|
            0 <= i < j < self.entries@.len() ==> self.entries@[i].0@ != self.entries@[j].0@
    }

    spec fn has_key_at(self, key: Seq<char>, i: int) -> bool {
        0 <= i < self.entries@.len() && self.entries@[i].0@ == key
    }

    /// The map that the entries stand for.
    pub closed spec fn view(&self) -> Map<Seq<char>, Seq<char>> {
        Map::new(
            |k: Seq<char>| exists|i: int| self.has_key_at(k, i),
            |k: Seq<char>| self.entries@[choose|i: int| self.has_key_at(k, i)].1@,
        )
    }

    /// A map without entries.
    pub fn new() -> (r: TextMap)
        ensures
            r@ == Map::<Seq<char>, Seq<char>>::empty(),
    {
        let r = TextMap { entries: Vec::new() };
        assert(r@ =~= Map::<Seq<char>, Seq<char>>::empty());
        r
    }

    fn position(&self, key: &str) -> (r: Option<usize>)
        ensures
            match r {
                Some(i) => self.has_key_at(key@, i as int) && self@.dom().contains(key@) && self@[key@]
                    == self.entries@[i as int].1@,
                None => !self@.dom().contains(key@) && forall|k: int|
                    0 <= k < self.entries@.len() ==> self.entries@[k].0@ != key@,
            },
    {
        proof {
            use_type_invariant(self);
        }
        let wanted = key.to_owned();
        let mut i: usize = 0;
        while i < self.entries.len()
            invariant
                wanted@ == key@,
                self.distinct_keys(),
                i <= self.entries@.len(),
                forall|k: int| 0 <= k < i ==> self.entries@[k].0@ != key@,
            decreases self.entries.len() - i,
        {
            if self.entries[i].0 == wanted {
                proof {
                    assert(self.has_key_at(key@, i as int));
                    let c = choose|c: int| self.has_key_at(key@, c);
                    if c < i {
                        assert(self.entries@[c].0@ != self.entries@[i as int].0@);
                    } else if i < c {
                        assert(self.entries@[i as int].0@ != self.entries@[c].0@);
                    }
                }
                return Some(i);
            }
            i = i + 1;
        }
        None
    }

    /// The value stored under `key`, if there is one.
    pub fn get(&self, key: &str) -> (r: Option<String>)
        ensures
            match r {
                Some(v) => self@.dom().contains(key@) && self@[key@] == v@,
                None => !self@.dom().contains(key@),
            },
    {
        match self.position(key) {
            Some(i) => Some(self.entries[i].1.clone()),
            None => None,
        }
    }

    /// Stores `value` under `key`, in place of what stood there.
    pub fn insert(&mut self, key: &str, value: String)
        ensures
            final(self)@ == old(self)@.insert(key@, value@),
    {
        proof {
            use_type_invariant(&*self);
        }
        let found = self.position(key);
        let ghost before = self.entries@;
        let mut taken = TextMap::new();
        core::mem::swap(self, &mut taken);
        let mut entries = taken.entries;
        let ghost at: int;
        match found {
            Some(i) => {
                entries.set(i, (key.to_owned(), value));
                proof {
                    at = i as int;
                }
            },
            None => {
                entries.push((key.to_owned(), value));
                proof {
                    at = before.len() as int;
                }
            },
        }
        assert(entries@[at].0@ == key@ && entries@[at].1@ == value@);
        assert(forall|k: int| 0 <= k < before.len() && k != at ==> entries@[k] == before[k]);
        assert forall|k: int| 0 <= k < before.len() && k != at implies before[k].0@ != key@ by {
            if found is Some {
                if k < at {
                    assert(before[k].0@ != before[at].0@);
                } else {
                    assert(before[at].0@ != before[k].0@);
                }
            }
        }
        *self = TextMap { entries };
        assert forall|k: Seq<char>| #[trigger]
            self@.dom().contains(k) <==> old(self)@.insert(key@, value@).dom().contains(k) by {
            if exists|i: int| self.has_key_at(k, i) {
                let i = choose|i: int| self.has_key_at(k, i);
                if i != at {
                    assert(old(self).has_key_at(k, i));
                }
            }
            if exists|i: int| old(self).has_key_at(k, i) {
                let i = choose|i: int| old(self).has_key_at(k, i);
                if i != at {
                    assert(self.has_key_at(k, i));
                } else {
                    assert(self.has_key_at(k, at));
                }
            }
            if k == key@ {
                assert(self.has_key_at(k, at));
            }
        }
        assert forall|k: Seq<char>| #[trigger] self@.dom().contains(k) implies self@[k] == old(
            self,
        )@.insert(key@, value@)[k] by {
            let i = choose|i: int| self.has_key_at(k, i);
            if k == key@ {
                assert(self.has_key_at(k, at));
                assert(i == at);
            } else {
                assert(i != at);
                assert(old(self).has_key_at(k, i));
                let j = choose|j: int| old(self).has_key_at(k, j);
                assert(i == j);
            }
        }
        assert(self@ =~= old(self)@.insert(key@, value@));
    }
}

} // verus!
