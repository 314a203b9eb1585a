//! Small keyed tables (association lists with distinct keys) and their
//! map views.

use vstd::prelude::*;

verus! {

/// Keys that can be compared by their views.
pub trait TableKey: View + Sized {
    fn same_key(&self, other: &Self) -> (b: bool)
        ensures
            b == (self@ == other@);
}

impl TableKey for String {
    fn same_key(&self, other: &Self) -> (b: bool) {
        *self == *other
    }
}

impl TableKey for u64 {
    fn same_key(&self, other: &Self) -> (b: bool) {
        *self == *other
    }
}

/// Map of an association list (later entries win).
pub open spec fn to_map<A, V>(s: Seq<(A, V)>) -> Map<A, V>
    decreases s.len(),
{
    if s.len() == 0 {
        Map::empty()
    } else {
        to_map(s.drop_last()).insert(s.last().0, s.last().1)
    }
}

/// All keys of an association list are distinct.
pub open spec fn keys_unique<A, V>(s: Seq<(A, V)>) -> bool {
    forall|i: int, j: int| 0 <= i < s.len() && 0 <= j < s.len() && i != j ==> s[i].0 != s[j].0
}

pub proof fn lemma_to_map_domain<A, V>(s: Seq<(A, V)>, k: A)
    ensures
        to_map(s).contains_key(k) <==> exists|i: int| 0 <= i < s.len() && (#[trigger] s[i]).0 == k,
    decreases s.len(),
{
    if s.len() > 0 {
        lemma_to_map_domain(s.drop_last(), k);
        if to_map(s).contains_key(k) {
            if k != s.last().0 {
                let i = choose|i: int| 0 <= i < s.drop_last().len() && (#[trigger] s.drop_last()[i]).0 == k;
                assert(s[i] == s.drop_last()[i]);
            } else {
                assert(s[s.len() - 1].0 == k);
            }
        }
        if exists|i: int| 0 <= i < s.len() && (#[trigger] s[i]).0 == k {
            let i = choose|i: int| 0 <= i < s.len() && (#[trigger] s[i]).0 == k;
            if i < s.len() - 1 {
                assert(s.drop_last()[i] == s[i]);
            }
        }
    }
}

pub proof fn lemma_to_map_value<A, V>(s: Seq<(A, V)>, i: int)
    requires
        keys_unique(s),
        0 <= i < s.len(),
    ensures
        to_map(s).contains_key(s[i].0),
        to_map(s)[s[i].0] == s[i].1,
    decreases s.len(),
{
    if i < s.len() - 1 {
        assert(s.drop_last()[i] == s[i]);
        assert(keys_unique(s.drop_last()));
        lemma_to_map_value(s.drop_last(), i);
    }
}

pub proof fn lemma_to_map_remove<A, V>(s: Seq<(A, V)>, i: int)
    requires
        keys_unique(s),
        0 <= i < s.len(),
    ensures
        to_map(s.remove(i)) == to_map(s).remove(s[i].0),
        keys_unique(s.remove(i)),
    decreases s.len(),
{
    let k = s[i].0;
    if i == s.len() - 1 {
        assert(s.remove(i) =~= s.drop_last());
        assert(!to_map(s.drop_last()).contains_key(k)) by {
            lemma_to_map_domain(s.drop_last(), k);
        }
        assert(to_map(s.remove(i)) =~= to_map(s).remove(k));
    } else {
        let d = s.drop_last();
        assert(keys_unique(d));
        lemma_to_map_remove(d, i);
        assert(s.remove(i) =~= d.remove(i).push(s.last()));
        assert(s.remove(i).drop_last() =~= d.remove(i));
        assert(s.last().0 != k);
        assert(to_map(s.remove(i)) =~= to_map(s).remove(k));
    }
}

/// A keyed table with distinct keys.
pub struct Table<K: TableKey, V> {
    entries: Vec<(K, V)>,
}

impl<K: TableKey, V> Table<K, V> {
    /// The entries with keys taken by their views.
    pub closed spec fn entry_views(&self) -> Seq<(K::V, V)> {
        self.entries@.map_values(|e: (K, V)| (e.0@, e.1))
    }

    /// The table as a map.
    pub closed spec fn view(&self) -> Map<K::V, V> {
        to_map(self.entry_views())
    }

    #[verifier::type_invariant]
    closed spec fn distinct(&self) -> bool {
        keys_unique(self.entry_views())
    }

    pub fn new() -> (t: Self)
        ensures
            t.view() == Map::<K::V, V>::empty(),
    {
        let t = Table { entries: Vec::new() };
        assert(t.entry_views() =~= Seq::empty());
        t
    }

    fn position(&self, k: &K) -> (r: Option<usize>)
        ensures
            match r {
                Some(i) => i < self.entries@.len() && self.entry_views()[i as int].0 == k@,
                None => forall|i: int| 0 <= i < self.entries@.len() ==> (#[trigger] self.entry_views()[i]).0 != k@,
            },
    {
        let mut i: usize = 0;
        while i < self.entries.len()
            invariant
                i <= self.entries@.len(),
                forall|j: int| 0 <= j < i ==> (#[trigger] self.entry_views()[j]).0 != k@,
            decreases self.entries@.len() - i,
        {
            if self.entries[i].0.same_key(k) {
                return Some(i);
            }
            i = i + 1;
        }
        None
    }

    /// Whether `k` has an entry.
    pub fn contains(&self, k: &K) -> (b: bool)
        ensures
            b == self.view().contains_key(k@),
    {
        proof {
            lemma_to_map_domain(self.entry_views(), k@);
        }
        self.position(k).is_some()
    }

    /// The entry of `k`.
    pub fn get(&self, k: &K) -> (r: Option<&V>)
        ensures
            match r {
                Some(v) => self.view().contains_key(k@) && *v == self.view()[k@],
                None => !self.view().contains_key(k@),
            },
    {
        proof {
            use_type_invariant(self);
            lemma_to_map_domain(self.entry_views(), k@);
        }
        match self.position(k) {
            Some(i) => {
                proof {
                    lemma_to_map_value(self.entry_views(), i as int);
                }
                Some(&self.entries[i].1)
            },
            None => None,
        }
    }

    /// Remove and return the entry of `k`.
    pub fn remove(&mut self, k: &K) -> (r: Option<V>)
        ensures
            final(self).view() == old(self).view().remove(k@),
            match r {
                Some(v) => old(self).view().contains_key(k@) && v == old(self).view()[k@],
                None => !old(self).view().contains_key(k@),
            },
    {
        proof {
            use_type_invariant(&*self);
            lemma_to_map_domain(self.entry_views(), k@);
        }
        match self.position(k) {
            Some(i) => {
                proof {
                    lemma_to_map_value(self.entry_views(), i as int);
                    lemma_to_map_remove(self.entry_views(), i as int);
                }
                let ghost ev = self.entry_views();
                let mut entries: Vec<(K, V)> = Vec::new();
                std::mem::swap(&mut entries, &mut self.entries);
                let e = entries.remove(i);
                assert(entries@.map_values(|e: (K, V)| (e.0@, e.1)) =~= ev.remove(i as int));
                self.entries = entries;
                Some(e.1)
            },
            None => {
                assert(self.view() =~= self.view().remove(k@));
                None
            },
        }
    }

    /// Set the entry of `k` to `v`.
    pub fn insert(&mut self, k: K, v: V)
        ensures
            final(self).view() == old(self).view().insert(k@, v),
    {
        let _ = self.remove(&k);
        let ghost ev = self.entry_views();
        proof {
            use_type_invariant(&*self);
            lemma_to_map_domain(ev, k@);
        }
        let ghost kv = k@;
        let mut entries: Vec<(K, V)> = Vec::new();
        std::mem::swap(&mut entries, &mut self.entries);
        entries.push((k, v));
        assert(entries@.map_values(|e: (K, V)| (e.0@, e.1)) =~= ev.push((kv, v)));
        self.entries = entries;
        assert(self.entry_views() =~= ev.push((kv, v)));
        assert(self.entry_views().drop_last() =~= ev);
        assert(self.view() =~= old(self).view().insert(kv, v));
    }

    /// Whether the table has no entries.
    pub fn is_empty(&self) -> (b: bool)
        ensures
            b <==> self.view().dom() == Set::<K::V>::empty(),
    {
        if self.entries.len() == 0 {
            assert(self.entry_views() =~= Seq::empty());
            assert(self.view().dom() =~= Set::<K::V>::empty());
            true
        } else {
            let ghost k = self.entry_views()[0].0;
            proof {
                lemma_to_map_domain(self.entry_views(), k);
                assert(self.view().dom().contains(k));
            }
            false
        }
    }

    /// Some key with an entry, if the table is not empty.
    pub fn any_key(&self) -> (r: Option<&K>)
        ensures
            match r {
                Some(k) => self.view().contains_key(k@),
                None => self.view().dom() == Set::<K::V>::empty(),
            },
    {
        if self.entries.len() == 0 {
            assert(self.entry_views() =~= Seq::empty());
            assert(self.view().dom() =~= Set::<K::V>::empty());
            None
        } else {
            proof {
                lemma_to_map_domain(self.entry_views(), self.entry_views()[0].0);
            }
            Some(&self.entries[0].0)
        }
    }
}

} // verus!
