//! A small map keyed by strings, kept in insertion order.

use crate::text::owned;
use vstd::prelude::*;

verus! {

/// Values that can be copied so that the copy holds what the value itself
/// holds.
pub trait Duplicate: View + Sized {
    /// A copy of `self`.
    fn duplicate(&self) -> (r: Self)
        ensures
            r@ == self@,
    ;
}

impl Duplicate for String {
    fn duplicate(&self) -> (r: Self) {
        self.clone()
    }
}

/// A finite map from string keys to values.
///
/// The entries are kept in the order in which their keys first arrived, and
/// no key occurs twice.
pub struct StringMap<V> {
    entries: Vec<(String, V)>,
}

impl<V: View> View for StringMap<V> {
    type V = Map<Seq<char>, V::V>;

    closed spec fn view(&self) -> Map<Seq<char>, V::V> {
        Map::new(
            |k: Seq<char>| self.keys().contains(k),
            |k: Seq<char>| self.entries@[self.keys().index_of(k)].1@,
        )
    }
}

impl<V> StringMap<V> {
    /// The keys in entry order.
    pub closed spec fn keys(&self) -> Seq<Seq<char>> {
        Seq::new(self.entries@.len(), |i: int| self.entries@[i].0@)
    }

    #[verifier::type_invariant]
    spec fn distinct_keys(self) -> bool {
        self.keys().no_duplicates()
    }
}

impl<V: View> StringMap<V> {
    /// The position of `key` among the entries, if it is there.
    fn position(&self, key: &str) -> (r: Option<usize>)
        ensures
            match r {
                Some(i) => i < self.entries@.len() && self.keys()[i as int] == key@,
                None => !self.keys().contains(key@),
            },
    {
        let wanted = owned(key);
        let mut i: usize = 0;
        while i < self.entries.len()
            invariant
                i <= self.entries@.len(),
                wanted@ == key@,
                forall|j: int| 0 <= j < i ==> self.keys()[j] != key@,
            decreases self.entries@.len() - i,
        {
            if self.entries[i].0 == wanted {
                return Some(i);
            }
            i += 1;
        }
        None
    }

    /// The empty map.
    pub fn new() -> (r: Self)
        ensures
            r@ == Map::<Seq<char>, V::V>::empty(),
    {
        let r = StringMap { entries: Vec::new() };
        assert(r@ =~= Map::<Seq<char>, V::V>::empty());
        r
    }

    /// The number of keys.
    pub fn len(&self) -> (r: usize)
        ensures
            self@.dom().finite(),
            r == self@.dom().len(),
            r == self.keys().len(),
            self.keys().no_duplicates(),
            forall|k: Seq<char>| self@.contains_key(k) <==> self.keys().contains(k),
    {
        proof {
            use_type_invariant(self);
            self.keys().unique_seq_to_set();
            assert(self@.dom() =~= self.keys().to_set());
        }
        self.entries.len()
    }

    /// The key of the entry at `index`, counted in insertion order.
    pub fn key_at(&self, index: usize) -> (r: &String)
        requires
            index < self.keys().len(),
        ensures
            r@ == self.keys()[index as int],
            self@.contains_key(r@),
            self.keys().no_duplicates(),
            forall|k: Seq<char>| self@.contains_key(k) <==> self.keys().contains(k),
    {
        proof {
            use_type_invariant(self);
            let k = self.keys()[index as int];
            assert(self.keys().contains(k));
        }
        &self.entries[index].0
    }

    /// The value of the entry at `index`, counted in insertion order.
    pub fn value_at(&self, index: usize) -> (r: &V)
        requires
            index < self.keys().len(),
        ensures
            r@ == self@[self.keys()[index as int]],
    {
        proof {
            use_type_invariant(self);
            assert(self.keys().index_of(self.keys()[index as int]) == index as int);
        }
        &self.entries[index].1
    }

    /// Tells whether `key` has a value.
    pub fn contains_key(&self, key: &str) -> (r: bool)
        ensures
            r == self@.contains_key(key@),
    {
        self.position(key).is_some()
    }

    /// The value stored under `key`, if there is one.
    pub fn get(&self, key: &str) -> (r: Option<&V>)
        ensures
            match r {
                Some(v) => self@.contains_key(key@) && self@[key@] == v@,
                None => !self@.contains_key(key@),
            },
    {
        proof {
            use_type_invariant(self);
        }
        match self.position(key) {
            Some(i) => {
                assert(self.keys().index_of(key@) == i as int);
                Some(&self.entries[i].1)
            },
            None => None,
        }
    }

    /// Stores `value` under `key`, replacing what was stored there before.
    pub fn insert(&mut self, key: String, value: V)
        ensures
            final(self)@ == old(self)@.insert(key@, value@),
    {
        proof {
            use_type_invariant(&*self);
        }
        let ghost before = *self;
        let found = self.position(key.as_str());
        let mut entries: Vec<(String, V)> = Vec::new();
        std::mem::swap(&mut entries, &mut self.entries);
        match found {
            Some(i) => {
                entries.set(i, (key, value));
            },
            None => {
                entries.push((key, value));
            },
        }
        let ghost after = StringMap { entries };
        proof {
            match found {
                Some(i) => {
                    assert(after.keys() =~= before.keys());
                    assert forall|k: Seq<char>| after@.contains_key(k) implies #[trigger] after@[k]
                        == before@.insert(key@, value@)[k] by {
                        let j = after.keys().index_of(k);
                        if k != key@ {
                            assert(j != i as int);
                        } else {
                            assert(j == i as int);
                        }
                    }
                },
                None => {
                    assert(after.keys() =~= before.keys().push(key@));
                    assert forall|k: Seq<char>| after@.contains_key(k) <==> before@.insert(
                        key@,
                        value@,
                    ).contains_key(k) by {
                        if before.keys().contains(k) {
                            let j = before.keys().index_of(k);
                            assert(after.keys()[j] == k);
                        }
                        if k == key@ {
                            assert(after.keys()[before.keys().len() as int] == k);
                        }
                    }
                    assert forall|k: Seq<char>| after@.contains_key(k) implies #[trigger] after@[k]
                        == before@.insert(key@, value@)[k] by {
                        let j = after.keys().index_of(k);
                        if k != key@ {
                            assert(before.keys()[j] == k);
                            assert(before.keys().index_of(k) == j);
                        } else {
                            assert(j == before.keys().len());
                        }
                    }
                },
            }
            assert(after@ =~= before@.insert(key@, value@));
        }
        self.entries = entries;
    }
}

impl<V: Duplicate> Clone for StringMap<V> {
    fn clone(&self) -> (r: Self)
        ensures
            r@ == self@,
    {
        let mut r: StringMap<V> = StringMap::new();
        let n = self.len();
        let mut i: usize = 0;
        while i < n
            invariant
                i <= n,
                n == self.keys().len(),
                forall|k: Seq<char>| #[trigger]
                    self@.contains_key(k) <==> self.keys().contains(k),
                forall|k: Seq<char>| #[trigger]
                    r@.contains_key(k) <==> exists|j: int| 0 <= j < i && self.keys()[j] == k,
                forall|k: Seq<char>| #[trigger]
                    r@.contains_key(k) ==> self@.contains_key(k) && r@[k] == self@[k],
            decreases n - i,
        {
            let key = self.key_at(i).clone();
            let value = self.value_at(i).duplicate();
            let ghost before = r@;
            r.insert(key, value);
            proof {
                assert(key@ == self.keys()[i as int]);
                assert(self@.contains_key(key@));
                assert(value@ == self@[key@]);
                assert(r@ == before.insert(key@, value@));
                assert forall|k: Seq<char>| r@.contains_key(k) implies self@.contains_key(k)
                    && r@[k] == self@[k] by {
                    if k != key@ {
                        assert(before.contains_key(k));
                    }
                }
                assert forall|k: Seq<char>| r@.contains_key(k) implies exists|j: int|
                    0 <= j < i + 1 && self.keys()[j] == k by {
                    if k == key@ {
                        assert(self.keys()[i as int] == k);
                    } else {
                        let j = choose|j: int| 0 <= j < i && self.keys()[j] == k;
                        assert(0 <= j < i + 1 && self.keys()[j] == k);
                    }
                }
            }
            i += 1;
        }
        assert(r@ =~= self@) by {
            assert forall|k: Seq<char>| self@.contains_key(k) implies r@.contains_key(k) by {
                assert(self.keys().contains(k));
                let j = choose|j: int| 0 <= j < self.keys().len() && self.keys()[j] == k;
                assert(0 <= j < i && self.keys()[j] == k);
            }

        }
        r
    }
}

} // verus!
