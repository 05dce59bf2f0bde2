//! A small map keyed by strings, kept as an ordered list of entries whose
//! keys never repeat.

use vstd::prelude::*;
use crate::text::str_eq;

verus! {

/// A map from string keys to values. Entries keep the order in which their
/// keys were first inserted; a key occurs at most once.
#[derive(Debug)]
pub struct StrMap<V> {
    entries: Vec<(String, V)>,
}

impl<V> StrMap<V> {
    /// The keys, in entry order.
    pub closed spec fn key_seq(&self) -> Seq<Seq<char>> {
        Seq::new(self.entries@.len(), |i: int| self.entries@[i].0@)
    }

    /// The values, in entry order.
    pub closed spec fn value_seq(&self) -> Seq<V> {
        Seq::new(self.entries@.len(), |i: int| self.entries@[i].1)
    }

    #[verifier::type_invariant]
    spec fn keys_distinct(&self) -> bool {
        self.key_seq().no_duplicates()
    }

    /// The position of key `k` among the entries.
    closed spec fn pos(&self, k: Seq<char>) -> int {
        choose|i: int| 0 <= i < self.entries@.len() && self.entries@[i].0@ == k
    }

    /// The map that the entries describe.
    pub closed spec fn view(&self) -> Map<Seq<char>, V> {
        Map::new(|k: Seq<char>| self.key_seq().contains(k), |k: Seq<char>| self.entries@[self.pos(k)].1)
    }

    proof fn lemma_pos(&self, i: int)
        requires
            0 <= i < self.entries@.len(),
            self.key_seq().no_duplicates(),
        ensures
            self.pos(self.entries@[i].0@) == i,
            self.view().contains_key(self.entries@[i].0@),
            self.view()[self.entries@[i].0@] == self.entries@[i].1,
    {
        let k = self.entries@[i].0@;
        assert(self.key_seq()[i] == k);
        let j = self.pos(k);
        assert(0 <= j < self.entries@.len() && self.entries@[j].0@ == k);
        assert(self.key_seq()[j] == k);
    }

    proof fn lemma_contains(&self, kk: Seq<char>) -> (p: int)
        requires
            self.key_seq().no_duplicates(),
            self@.contains_key(kk),
        ensures
            0 <= p < self.entries@.len(),
            self.key_seq()[p] == kk,
            self.entries@[p].0@ == kk,
            self@[kk] == self.entries@[p].1,
    {
        let p = choose|p: int| 0 <= p < self.key_seq().len() && self.key_seq()[p] == kk;
        self.lemma_pos(p);
        p
    }

    /// An empty map.
    pub fn new() -> (m: Self)
        ensures
            m@ == Map::<Seq<char>, V>::empty(),
            m.key_seq() == Seq::<Seq<char>>::empty(),
    {
        let m = StrMap { entries: Vec::new() };
        assert(m.key_seq() =~= Seq::<Seq<char>>::empty());
        assert(m@ =~= Map::<Seq<char>, V>::empty());
        m
    }

    /// The number of entries.
    pub fn len(&self) -> (n: usize)
        ensures
            n == self.key_seq().len(),
            n == self.value_seq().len(),
            n == self@.dom().len(),
    {
        proof {
            use_type_invariant(self);
            self.lemma_dom();
        }
        self.entries.len()
    }

    proof fn lemma_dom(&self)
        requires
            self.key_seq().no_duplicates(),
        ensures
            self@.dom() == self.key_seq().to_set(),
            self@.dom().len() == self.key_seq().len(),
            self@.dom().finite(),
    {
        assert(self@.dom() =~= self.key_seq().to_set());
        self.key_seq().unique_seq_to_set();
    }

    /// The position of key `k`, if present.
    fn find(&self, k: &str) -> (r: Option<usize>)
        ensures
            match r {
                Some(i) => i < self.entries@.len() && self.entries@[i as int].0@ == k@,
                None => !self.key_seq().contains(k@),
            },
    {
        let mut i: usize = 0;
        while i < self.entries.len()
            invariant
                i <= self.entries@.len(),
                forall|j: int| 0 <= j < i ==> self.entries@[j].0@ != k@,
            decreases self.entries@.len() - i,
        {
            if str_eq(self.entries[i].0.as_str(), k) {
                return Some(i);
            }
            i = i + 1;
        }
        assert forall|j: int| 0 <= j < self.key_seq().len() implies self.key_seq()[j] != k@ by {}
        None
    }

    /// Whether the map holds key `k`.
    pub fn contains_key(&self, k: &str) -> (r: bool)
        ensures
            r == self@.contains_key(k@),
    {
        let r = self.find(k);
        proof {
            if let Some(i) = r {
                assert(self.key_seq()[i as int] == k@);
            }
        }
        r.is_some()
    }

    /// The value under key `k`, if present.
    pub fn get(&self, k: &str) -> (r: Option<&V>)
        ensures
            r == (if self@.contains_key(k@) { Some(&self@[k@]) } else { None::<&V> }),
    {
        proof {
            use_type_invariant(self);
        }
        match self.find(k) {
            Some(i) => {
                proof {
                    self.lemma_pos(i as int);
                }
                Some(&self.entries[i].1)
            },
            None => None,
        }
    }

    /// What the entries say of the map: keys do not repeat, and the value
    /// under each key is the value of its entry.
    pub fn entry_facts(&self)
        ensures
            self.key_seq().no_duplicates(),
            self.key_seq().len() == self.value_seq().len(),
            forall|j: int| 0 <= j < self.key_seq().len() ==> #[trigger] self@.contains_key(self.key_seq()[j])
                && self@[self.key_seq()[j]] == self.value_seq()[j],
            forall|k: Seq<char>| #[trigger] self@.contains_key(k) ==> self.key_seq().contains(k),
    {
        proof {
            use_type_invariant(self);
            assert forall|j: int| 0 <= j < self.key_seq().len() implies #[trigger] self@.contains_key(self.key_seq()[j])
                && self@[self.key_seq()[j]] == self.value_seq()[j] by {
                self.lemma_pos(j);
            }
        }
    }

    /// The key and value of the entry at position `i`.
    pub fn entry_at(&self, i: usize) -> (r: (&String, &V))
        requires
            i < self.key_seq().len() || i < self.value_seq().len(),
        ensures
            r.0@ == self.key_seq()[i as int],
            r.1 == self.value_seq()[i as int],
            self@.contains_key(r.0@),
            self@[r.0@] == *r.1,
    {
        proof {
            use_type_invariant(self);
            self.lemma_pos(i as int);
        }
        (&self.entries[i].0, &self.entries[i].1)
    }

    /// Sets key `k` to `v`, returning the value it replaced. A new key goes
    /// after all present keys; a present key keeps its position.
    pub fn insert(&mut self, k: String, v: V) -> (r: Option<V>)
        ensures
            final(self)@ == old(self)@.insert(k@, v),
            r == (if old(self)@.contains_key(k@) { Some(old(self)@[k@]) } else { None::<V> }),
            old(self)@.contains_key(k@) ==> final(self).key_seq() == old(self).key_seq(),
            !old(self)@.contains_key(k@) ==> final(self).key_seq() == old(self).key_seq().push(k@),
    {
        proof {
            use_type_invariant(&*self);
        }
        let ghost old_self = *self;
        match self.find(k.as_str()) {
            Some(i) => {
                proof {
                    old_self.lemma_pos(i as int);
                }
                let mut es: Vec<(String, V)> = Vec::new();
                std::mem::swap(&mut es, &mut self.entries);
                let (_, oldv) = es.remove(i);
                es.insert(i, (k, v));
                proof {
                    let ghost tmp = StrMap { entries: es };
                    assert(tmp.key_seq() =~= old_self.key_seq());
                }
                self.entries = es;
                proof {
                    assert(self.key_seq() =~= old_self.key_seq());
                    assert forall|kk: Seq<char>| #[trigger] self@.contains_key(kk) implies
                        self@[kk] == old_self@.insert(k@, v)[kk] by {
                        let p = self.lemma_contains(kk);
                        if kk != k@ {
                            assert(p != i);
                            assert(old_self.key_seq()[p] == kk);
                            old_self.lemma_pos(p);
                        } else {
                            self.lemma_pos(i as int);
                        }
                    }
                    assert(self@ =~= old_self@.insert(k@, v));
                }
                Some(oldv)
            },
            None => {
                let mut es: Vec<(String, V)> = Vec::new();
                std::mem::swap(&mut es, &mut self.entries);
                es.push((k, v));
                proof {
                    let ghost tmp = StrMap { entries: es };
                    assert(tmp.key_seq() =~= old_self.key_seq().push(k@));
                }
                self.entries = es;
                proof {
                    assert(self.key_seq() =~= old_self.key_seq().push(k@));
                    let n = old_self.entries@.len() as int;
                    self.lemma_pos(n);
                    assert forall|kk: Seq<char>| #[trigger] self@.contains_key(kk) implies
                        self@[kk] == old_self@.insert(k@, v)[kk] by {
                        let p = self.lemma_contains(kk);
                        if kk != k@ {
                            assert(p != n);
                            assert(old_self.key_seq()[p] == kk);
                            old_self.lemma_pos(p);
                        }
                    }
                    assert forall|kk: Seq<char>| #[trigger] old_self@.insert(k@, v).contains_key(kk) implies
                        self@.contains_key(kk) by {
                        if kk == k@ {
                            assert(self.key_seq()[n] == kk);
                        } else {
                            let p = old_self.lemma_contains(kk);
                            assert(self.key_seq()[p] == kk);
                        }
                    }
                    assert(self@ =~= old_self@.insert(k@, v));
                }
                None
            },
        }
    }

    /// Removes key `k`, returning its value if it was present. The other
    /// entries keep their order.
    pub fn remove(&mut self, k: &str) -> (r: Option<V>)
        ensures
            final(self)@ == old(self)@.remove(k@),
            r == (if old(self)@.contains_key(k@) { Some(old(self)@[k@]) } else { None::<V> }),
    {
        proof {
            use_type_invariant(&*self);
        }
        let ghost old_self = *self;
        match self.find(k) {
            Some(i) => {
                proof {
                    old_self.lemma_pos(i as int);
                }
                let mut es: Vec<(String, V)> = Vec::new();
                std::mem::swap(&mut es, &mut self.entries);
                let (_, oldv) = es.remove(i);
                proof {
                    let ghost tmp = StrMap { entries: es };
                    assert(tmp.key_seq() =~= old_self.key_seq().remove(i as int));
                    assert(tmp.key_seq().no_duplicates());
                }
                self.entries = es;
                proof {
                    assert(self.key_seq() =~= old_self.key_seq().remove(i as int));
                    assert forall|kk: Seq<char>| #[trigger] self@.contains_key(kk) implies
                        old_self@.remove(k@).contains_key(kk) && self@[kk] == old_self@[kk] by {
                        let p = self.lemma_contains(kk);
                        if p < i {
                            assert(old_self.key_seq()[p] == kk);
                            old_self.lemma_pos(p);
                        } else {
                            assert(old_self.key_seq()[p + 1] == kk);
                            old_self.lemma_pos(p + 1);
                        }
                        if kk == k@ {
                            old_self.lemma_pos(i as int);
                        }
                    }
                    assert forall|kk: Seq<char>| #[trigger] old_self@.remove(k@).contains_key(kk) implies
                        self@.contains_key(kk) by {
                        let p = old_self.lemma_contains(kk);
                        assert(p != i);
                        if p < i {
                            assert(self.key_seq()[p] == kk);
                        } else {
                            assert(self.key_seq()[p - 1] == kk);
                        }
                    }
                    assert(self@ =~= old_self@.remove(k@));
                }
                Some(oldv)
            },
            None => {
                proof {
                    assert(self@ =~= old_self@.remove(k@));
                }
                None
            },
        }
    }

    /// The keys, in entry order.
    pub fn keys(&self) -> (r: Vec<String>)
        ensures
            r@.len() == self.key_seq().len(),
            forall|i: int| 0 <= i < r@.len() ==> r@[i]@ == self.key_seq()[i],
    {
        let mut r: Vec<String> = Vec::new();
        let mut i: usize = 0;
        while i < self.entries.len()
            invariant
                i <= self.entries@.len(),
                r@.len() == i,
                forall|j: int| 0 <= j < i ==> r@[j]@ == self.entries@[j].0@,
            decreases self.entries@.len() - i,
        {
            r.push(self.entries[i].0.clone());
            i = i + 1;
        }
        r
    }
}

impl<V: Clone> Clone for StrMap<V> {
    /// A copy with the same keys in the same order; each value is cloned.
    fn clone(&self) -> (r: Self)
        ensures
            r.key_seq() == self.key_seq(),
    {
        proof {
            use_type_invariant(self);
        }
        let mut es: Vec<(String, V)> = Vec::new();
        let mut i: usize = 0;
        while i < self.entries.len()
            invariant
                i <= self.entries@.len(),
                es@.len() == i,
                forall|j: int| 0 <= j < i ==> es@[j].0@ == self.entries@[j].0@,
            decreases self.entries@.len() - i,
        {
            let k = self.entries[i].0.clone();
            let v = self.entries[i].1.clone();
            es.push((k, v));
            i = i + 1;
        }
        proof {
            let ghost tmp = StrMap { entries: es };
            assert(tmp.key_seq() =~= self.key_seq());
        }
        StrMap { entries: es }
    }
}

} // verus!
