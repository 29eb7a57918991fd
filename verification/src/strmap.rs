//! A map keyed by strings, backed by a vector of entries with distinct
//! keys. Its view is a `Map<Seq<char>, V>`, and entries keep their
//! insertion order, which the callers that render results rely on.

use vstd::prelude::*;
use crate::strutil::str_eq;

verus! {

pub struct StrMap<V> {
    entries: Vec<(String, V)>,
}

impl<V> StrMap<V> {
    /// The entries as a sequence, in insertion order.
    pub closed spec fn entries_seq(self) -> Seq<(String, V)> {
        self.entries@
    }

    /// The map that a sequence of entries denotes; a later entry for the
    /// same key would win, though the invariant keeps keys distinct.
    pub open spec fn seq_to_map(s: Seq<(String, V)>) -> Map<Seq<char>, V>
        decreases s.len(),
    {
        if s.len() == 0 {
            Map::<Seq<char>, V>::empty()
        } else {
            Self::seq_to_map(s.drop_last()).insert(s.last().0@, s.last().1)
        }
    }

    pub closed spec fn view(self) -> Map<Seq<char>, V> {
        Self::seq_to_map(self.entries@)
    }

    /// The view is exactly the map the entry sequence denotes.
    pub proof fn lemma_view_is_entries_map(self)
        ensures
            self@ == Self::seq_to_map(self.entries_seq()),
    {
    }

    #[verifier::type_invariant]
    spec fn wf(self) -> bool {
        forall|i: int, j: int|
            0 <= i < j < self.entries@.len() ==> self.entries@[i].0@ != self.entries@[j].0@
    }

    proof fn lemma_seq_to_map_contains(s: Seq<(String, V)>, k: Seq<char>)
        ensures
            Self::seq_to_map(s).dom().contains(k) <==> exists|i: int|
                0 <= i < s.len() && s[i].0@ == k,
        decreases s.len(),
    {
        if s.len() > 0 {
            Self::lemma_seq_to_map_contains(s.drop_last(), k);
            if s.last().0@ == k {
                assert(s[s.len() - 1].0@ == k);
            } else if Self::seq_to_map(s).dom().contains(k) {
                let i = choose|i: int| 0 <= i < s.drop_last().len() && s.drop_last()[i].0@ == k;
                assert(s[i].0@ == k);
            } else {
                assert(forall|i: int|
                    0 <= i < s.drop_last().len() ==> s.drop_last()[i].0@ == s[i].0@);
            }
        }
    }

    proof fn lemma_seq_to_map_get(s: Seq<(String, V)>, i: int)
        requires
            0 <= i < s.len(),
            forall|x: int, y: int| 0 <= x < y < s.len() ==> s[x].0@ != s[y].0@,
        ensures
            Self::seq_to_map(s).dom().contains(s[i].0@),
            Self::seq_to_map(s)[s[i].0@] == s[i].1,
        decreases s.len(),
    {
        Self::lemma_seq_to_map_contains(s, s[i].0@);
        if i < s.len() - 1 {
            assert(s[i].0@ != s.last().0@);
            assert(s.drop_last()[i] == s[i]);
            Self::lemma_seq_to_map_get(s.drop_last(), i);
        }
    }

    proof fn lemma_seq_to_map_len(s: Seq<(String, V)>)
        requires
            forall|x: int, y: int| 0 <= x < y < s.len() ==> s[x].0@ != s[y].0@,
        ensures
            Self::seq_to_map(s).dom().finite(),
            Self::seq_to_map(s).dom().len() == s.len(),
        decreases s.len(),
    {
        if s.len() > 0 {
            Self::lemma_seq_to_map_len(s.drop_last());
            Self::lemma_seq_to_map_contains(s.drop_last(), s.last().0@);
            assert(forall|i: int|
                0 <= i < s.drop_last().len() ==> s.drop_last()[i] == s[i]);
            assert(!Self::seq_to_map(s.drop_last()).dom().contains(s.last().0@));
        }
    }

    pub fn new() -> (r: Self)
        ensures
            r@ == Map::<Seq<char>, V>::empty(),
            r.entries_seq().len() == 0,
    {
        StrMap { entries: Vec::new() }
    }

    /// The position of `key` among the entries, if it is there.
    fn position_of(&self, key: &str) -> (r: Option<usize>)
        ensures
            match r {
                Some(i) => i < self.entries@.len() && self.entries@[i as int].0@ == key@,
                None => forall|i: int|
                    0 <= i < self.entries@.len() ==> self.entries@[i].0@ != key@,
            },
    {
        let n = self.entries.len();
        let mut i: usize = 0;
        while i < n
            invariant
                n == self.entries@.len(),
                i <= n,
                forall|j: int| 0 <= j < i ==> self.entries@[j].0@ != key@,
            decreases n - i,
        {
            if str_eq(self.entries[i].0.as_str(), key) {
                return Some(i);
            }
            i = i + 1;
        }
        None
    }

    pub fn contains_key(&self, key: &str) -> (r: bool)
        ensures
            r == self@.dom().contains(key@),
    {
        proof {
            use_type_invariant(self);
            Self::lemma_seq_to_map_contains(self.entries@, key@);
        }
        match self.position_of(key) {
            Some(i) => {
                proof {
                    assert(self.entries@[i as int].0@ == key@);
                }
                true
            },
            None => {
                proof {
                    assert(forall|i: int|
                        0 <= i < self.entries@.len() ==> self.entries@[i].0@ != key@);
                }
                false
            },
        }
    }

    pub fn get(&self, key: &str) -> (r: Option<&V>)
        ensures
            match r {
                Some(v) => self@.dom().contains(key@) && *v == self@[key@],
                None => !self@.dom().contains(key@),
            },
    {
        proof {
            use_type_invariant(self);
            Self::lemma_seq_to_map_contains(self.entries@, key@);
        }
        match self.position_of(key) {
            Some(i) => {
                proof {
                    Self::lemma_seq_to_map_get(self.entries@, i as int);
                }
                Some(&self.entries[i].1)
            },
            None => {
                proof {
                    assert(forall|i: int|
                        0 <= i < self.entries@.len() ==> self.entries@[i].0@ != key@);
                }
                None
            },
        }
    }

    pub fn insert(&mut self, key: String, value: V)
        ensures
            final(self)@ == old(self)@.insert(key@, value),
            old(self)@.dom().contains(key@) ==> final(self).entries_seq().len() == old(
                self,
            ).entries_seq().len(),
            !old(self)@.dom().contains(key@) ==> final(self).entries_seq().len() == old(
                self,
            ).entries_seq().len() + 1,
    {
        proof {
            use_type_invariant(&*self);
            Self::lemma_seq_to_map_contains(self.entries@, key@);
        }
        match self.position_of(key.as_str()) {
            Some(i) => {
                let mut es: Vec<(String, V)> = Vec::new();
                core::mem::swap(&mut es, &mut self.entries);
                let ghost es0 = es@;
                es[i] = (key, value);
                proof {
                    Self::lemma_update_entry(es0, es@, i as int);
                    assert(forall|x: int, y: int|
                        0 <= x < y < es@.len() ==> es@[x].0@ != es@[y].0@);
                }
                self.entries = es;
            },
            None => {
                let mut es: Vec<(String, V)> = Vec::new();
                core::mem::swap(&mut es, &mut self.entries);
                es.push((key, value));
                proof {
                    assert(es@.drop_last() =~= old(self).entries@);
                    assert(forall|x: int, y: int|
                        0 <= x < y < es@.len() ==> es@[x].0@ != es@[y].0@);
                }
                self.entries = es;
            },
        }
    }

    proof fn lemma_update_entry(s0: Seq<(String, V)>, s1: Seq<(String, V)>, i: int)
        requires
            0 <= i < s0.len(),
            s1.len() == s0.len(),
            forall|j: int| 0 <= j < s0.len() && j != i ==> s1[j] == s0[j],
            s1[i].0@ == s0[i].0@,
            forall|x: int, y: int| 0 <= x < y < s0.len() ==> s0[x].0@ != s0[y].0@,
        ensures
            Self::seq_to_map(s1) == Self::seq_to_map(s0).insert(s1[i].0@, s1[i].1),
        decreases s0.len(),
    {
        if i == s0.len() - 1 {
            assert(s1.drop_last() =~= s0.drop_last());
            assert(Self::seq_to_map(s1) =~= Self::seq_to_map(s0).insert(s1[i].0@, s1[i].1));
        } else {
            Self::lemma_update_entry(s0.drop_last(), s1.drop_last(), i);
            assert(s1.drop_last()[i] == s1[i]);
            assert(s1.last() == s0.last());
            assert(s0[i].0@ != s0.last().0@);
            assert(Self::seq_to_map(s1) =~= Self::seq_to_map(s0).insert(s1[i].0@, s1[i].1));
        }
    }

    pub fn remove(&mut self, key: &str) -> (r: Option<V>)
        ensures
            final(self)@ == old(self)@.remove(key@),
            r is Some <==> old(self)@.dom().contains(key@),
    {
        proof {
            use_type_invariant(&*self);
            Self::lemma_seq_to_map_contains(self.entries@, key@);
        }
        match self.position_of(key) {
            Some(i) => {
                proof {
                    Self::lemma_seq_to_map_get(self.entries@, i as int);
                }
                let mut es: Vec<(String, V)> = Vec::new();
                core::mem::swap(&mut es, &mut self.entries);
                let (_, v) = es.remove(i);
                proof {
                    Self::lemma_remove_entry(old(self).entries@, i as int);
                    assert(es@ =~= old(self).entries@.remove(i as int));
                }
                self.entries = es;
                Some(v)
            },
            None => {
                proof {
                    assert(forall|i: int|
                        0 <= i < self.entries@.len() ==> self.entries@[i].0@ != key@);
                    assert(!self@.dom().contains(key@));
                    assert(self@ =~= self@.remove(key@));
                }
                None
            },
        }
    }

    proof fn lemma_remove_entry(s: Seq<(String, V)>, i: int)
        requires
            0 <= i < s.len(),
            forall|x: int, y: int| 0 <= x < y < s.len() ==> s[x].0@ != s[y].0@,
        ensures
            Self::seq_to_map(s.remove(i)) == Self::seq_to_map(s).remove(s[i].0@),
        decreases s.len(),
    {
        if i == s.len() - 1 {
            Self::lemma_seq_to_map_contains(s.drop_last(), s.last().0@);
            assert(s.remove(i) =~= s.drop_last());
            assert(!Self::seq_to_map(s.drop_last()).dom().contains(s.last().0@));
            assert(Self::seq_to_map(s.remove(i)) =~= Self::seq_to_map(s).remove(s[i].0@));
        } else {
            Self::lemma_remove_entry(s.drop_last(), i);
            assert(s.drop_last()[i] == s[i]);
            assert(s.remove(i).drop_last() =~= s.drop_last().remove(i));
            assert(s.remove(i).last() == s.last());
            assert(s[i].0@ != s.last().0@);
            assert(Self::seq_to_map(s.remove(i)) =~= Self::seq_to_map(s).remove(s[i].0@));
        }
    }

    pub fn len(&self) -> (r: usize)
        ensures
            self@.dom().finite(),
            r == self@.dom().len(),
            r == self.entries_seq().len(),
    {
        proof {
            use_type_invariant(self);
            Self::lemma_seq_to_map_len(self.entries@);
        }
        self.entries.len()
    }

    pub fn is_empty(&self) -> (r: bool)
        ensures
            self@.dom().finite(),
            r == (self@.dom().len() == 0),
    {
        self.len() == 0
    }

    /// The entry at one position, for walking the map in insertion order.
    pub fn entry_at(&self, i: usize) -> (r: (&String, &V))
        requires
            i < self.entries_seq().len(),
        ensures
            *r.0 == self.entries_seq()[i as int].0,
            *r.1 == self.entries_seq()[i as int].1,
            self@.dom().contains(r.0@),
            self@[r.0@] == *r.1,
    {
        proof {
            use_type_invariant(self);
            Self::lemma_seq_to_map_get(self.entries@, i as int);
        }
        let e = &self.entries[i];
        (&e.0, &e.1)
    }

    pub fn entry_count(&self) -> (r: usize)
        ensures
            r == self.entries_seq().len(),
    {
        self.entries.len()
    }

    /// Every key, in insertion order.
    pub fn keys(&self) -> (r: Vec<String>)
        ensures
            r.deep_view() == Seq::new(
                self.entries_seq().len() as nat,
                |i: int| self.entries_seq()[i].0@,
            ),
    {
        let n = self.entries.len();
        let mut r: Vec<String> = Vec::new();
        let mut i: usize = 0;
        while i < n
            invariant
                n == self.entries@.len(),
                i <= n,
                r@.len() == i,
                forall|j: int| 0 <= j < i ==> r@[j]@ == self.entries@[j].0@,
            decreases n - i,
        {
            r.push(self.entries[i].0.clone());
            i = i + 1;
        }
        proof {
            assert(r.deep_view() =~= Seq::new(
                self.entries@.len() as nat,
                |j: int| self.entries@[j].0@,
            ));
        }
        r
    }

    /// Whether some key longer than `prefix` starts with `prefix`.
    pub fn has_key_with_prefix(&self, prefix: &str) -> (r: bool)
        ensures
            r == exists|k: Seq<char>|
                self@.dom().contains(k) && k.len() > prefix@.len() && k.take(
                    prefix@.len() as int,
                ) == prefix@,
    {
        proof {
            use_type_invariant(self);
        }
        let pl = prefix.unicode_len();
        let n = self.entries.len();
        let mut i: usize = 0;
        while i < n
            invariant
                n == self.entries@.len(),
                pl == prefix@.len(),
                i <= n,
                forall|i: int, j: int|
                    0 <= i < j < self.entries@.len() ==> self.entries@[i].0@
                        != self.entries@[j].0@,
                forall|j: int|
                    0 <= j < i ==> !(self.entries@[j].0@.len() > prefix@.len()
                        && self.entries@[j].0@.take(prefix@.len() as int) == prefix@),
            decreases n - i,
        {
            let key = self.entries[i].0.as_str();
            if key.unicode_len() > pl && crate::strutil::starts_with(key, prefix) {
                proof {
                    Self::lemma_seq_to_map_get(self.entries@, i as int);
                    assert(self@.dom().contains(self.entries@[i as int].0@));
                }
                return true;
            }
            i = i + 1;
        }
        proof {
            assert forall|k: Seq<char>|
                self@.dom().contains(k) implies !(k.len() > prefix@.len() && k.take(
                prefix@.len() as int,
            ) == prefix@) by {
                Self::lemma_seq_to_map_contains(self.entries@, k);
            }
        }
        false
    }
}

} // verus!
