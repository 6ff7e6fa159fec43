//! A small map from keys to values, kept as a vector of entries in which no
//! key occurs twice. Keys are compared by their views.
use vstd::prelude::*;

verus! {

/// Keys that can be compared in executable code by their views.
pub trait MapKey: View + Sized {
    fn same_key(&self, other: &Self) -> (r: bool)
        ensures
            r == (self@ == other@),
    ;
}

impl MapKey for String {
    fn same_key(&self, other: &Self) -> (r: bool) {
        *self == *other
    }
}

/// No key occurs twice among the entries.
pub open spec fn keys_unique<K: View, V>(s: Seq<(K, V)>) -> bool {
    forall|i: int, j: int| 0 <= i < j < s.len() ==> s[i].0@ != s[j].0@
}

/// The map that a sequence of entries stands for: a later entry wins.
pub open spec fn map_of<K: View, V>(s: Seq<(K, V)>) -> Map<K::V, V>
    decreases s.len(),
{
    if s.len() == 0 {
        Map::empty()
    } else {
        map_of(s.drop_last()).insert(s.last().0@, s.last().1)
    }
}

proof fn lemma_map_of_dom<K: View, V>(s: Seq<(K, V)>, k: K::V)
    ensures
        map_of(s).dom().contains(k) <==> exists|i: int| 0 <= i < s.len() && s[i].0@ == k,
    decreases s.len(),
{
    if s.len() > 0 {
        lemma_map_of_dom(s.drop_last(), k);
        if map_of(s).dom().contains(k) && s.last().0@ != k {
            let i = choose|i: int| 0 <= i < s.drop_last().len() && s.drop_last()[i].0@ == k;
            assert(s[i].0@ == k);
        }
        if exists|i: int| 0 <= i < s.len() && s[i].0@ == k {
            let i = choose|i: int| 0 <= i < s.len() && s[i].0@ == k;
            if i < s.len() - 1 {
                assert(s.drop_last()[i].0@ == k);
            }
        }
    }
}

proof fn lemma_map_of_value<K: View, V>(s: Seq<(K, V)>, i: int)
    requires
        keys_unique(s),
        0 <= i < s.len(),
    ensures
        map_of(s).dom().contains(s[i].0@),
        map_of(s)[s[i].0@] == s[i].1,
    decreases s.len(),
{
    if i < s.len() - 1 {
        assert(s.drop_last()[i] == s[i]);
        lemma_map_of_value(s.drop_last(), i);
    }
}

proof fn lemma_map_of_finite<K: View, V>(s: Seq<(K, V)>)
    requires
        keys_unique(s),
    ensures
        map_of(s).dom().finite(),
        map_of(s).len() == s.len(),
    decreases s.len(),
{
    if s.len() > 0 {
        lemma_map_of_finite(s.drop_last());
        lemma_map_of_dom(s.drop_last(), s.last().0@);
        assert(!map_of(s.drop_last()).dom().contains(s.last().0@)) by {
            if map_of(s.drop_last()).dom().contains(s.last().0@) {
                let i = choose|i: int|
                    0 <= i < s.drop_last().len() && s.drop_last()[i].0@ == s.last().0@;
                assert(s[i].0@ == s[s.len() - 1].0@);
            }
        }
    }
}

proof fn lemma_map_of_remove<K: View, V>(s: Seq<(K, V)>, i: int)
    requires
        keys_unique(s),
        0 <= i < s.len(),
    ensures
        keys_unique(s.remove(i)),
        map_of(s.remove(i)) =~= map_of(s).remove(s[i].0@),
{
    let t = s.remove(i);
    let k = s[i].0@;
    assert(keys_unique(t)) by {
        assert forall|a: int, b: int| 0 <= a < b < t.len() implies t[a].0@ != t[b].0@ by {
            let a2 = if a < i { a } else { a + 1 };
            let b2 = if b < i { b } else { b + 1 };
            assert(t[a] == s[a2]);
            assert(t[b] == s[b2]);
        }
    }
    assert forall|x: K::V| map_of(t).dom().contains(x) <==> map_of(s).remove(k).dom().contains(x) by {
        lemma_map_of_dom(t, x);
        lemma_map_of_dom(s, x);
        if map_of(t).dom().contains(x) {
            let j = choose|j: int| 0 <= j < t.len() && t[j].0@ == x;
            let j2 = if j < i { j } else { j + 1 };
            assert(t[j] == s[j2]);
        }
        if map_of(s).remove(k).dom().contains(x) {
            let j = choose|j: int| 0 <= j < s.len() && s[j].0@ == x;
            assert(j != i);
            let j2 = if j < i { j } else { j - 1 };
            assert(t[j2] == s[j]);
        }
    }
    assert forall|x: K::V| #[trigger] map_of(t).dom().contains(x) implies map_of(t)[x] == map_of(s)[x] by {
        lemma_map_of_dom(t, x);
        let j = choose|j: int| 0 <= j < t.len() && t[j].0@ == x;
        let j2 = if j < i { j } else { j + 1 };
        assert(t[j] == s[j2]);
        lemma_map_of_value(t, j);
        lemma_map_of_value(s, j2);
    }
}

/// A map held as a vector of entries whose keys are all distinct.
pub struct KeyMap<K: View, V> {
    entries: Vec<(K, V)>,
}

impl<K: View, V> KeyMap<K, V> {
    #[verifier::type_invariant]
    spec fn inv(self) -> bool {
        keys_unique(self.entries@)
    }

    /// The entries, in the order in which they are held.
    pub closed spec fn entry_seq(self) -> Seq<(K, V)> {
        self.entries@
    }
}

impl<K: View, V> View for KeyMap<K, V> {
    type V = Map<K::V, V>;

    closed spec fn view(&self) -> Map<K::V, V> {
        map_of(self.entries@)
    }
}

impl<K: MapKey, V> KeyMap<K, V> {
    pub fn new() -> (r: Self)
        ensures
            r@ == Map::<K::V, V>::empty(),
    {
        KeyMap { entries: Vec::new() }
    }

    fn find(&self, k: &K) -> (r: Option<usize>)
        ensures
            r matches Some(i) ==> i < self.entries@.len() && self.entries@[i as int].0@ == k@,
            r is None ==> forall|i: int| 0 <= i < self.entries@.len() ==> self.entries@[i].0@ != k@,
    {
        let mut i: usize = 0;
        while i < self.entries.len()
            invariant
                i <= self.entries@.len(),
                forall|j: int| 0 <= j < i ==> self.entries@[j].0@ != k@,
            decreases self.entries@.len() - i,
        {
            if self.entries[i].0.same_key(k) {
                return Some(i);
            }
            i = i + 1;
        }
        None
    }

    /// The number of keys; the held entries are exactly the map's entries,
    /// each key once.
    pub fn len(&self) -> (r: usize)
        ensures
            r == self@.len(),
            r == self.entry_seq().len(),
            self@.dom().finite(),
            keys_unique(self.entry_seq()),
            forall|k: K::V|
                #[trigger] self@.dom().contains(k) ==> exists|i: int|
                    0 <= i < self.entry_seq().len() && self.entry_seq()[i].0@ == k,
    {
        proof {
            use_type_invariant(self);
            lemma_map_of_finite(self.entries@);
            assert forall|k: K::V| #[trigger] self@.dom().contains(k) implies exists|i: int|
                0 <= i < self.entry_seq().len() && self.entry_seq()[i].0@ == k by {
                lemma_map_of_dom(self.entries@, k);
                let i = choose|i: int| 0 <= i < self.entries@.len() && self.entries@[i].0@ == k;
                assert(self.entry_seq()[i].0@ == k);
            }
        }
        self.entries.len()
    }

    /// The entry at position `i` of `entry_seq`.
    pub fn entry_at(&self, i: usize) -> (r: &(K, V))
        requires
            i < self.entry_seq().len(),
        ensures
            *r == self.entry_seq()[i as int],
            self@.dom().contains(r.0@),
            self@[r.0@] == r.1,
    {
        proof {
            use_type_invariant(self);
            lemma_map_of_value(self.entries@, i as int);
        }
        &self.entries[i]
    }

    /// The value stored under `k`, if any.
    pub fn get(&self, k: &K) -> (r: Option<&V>)
        ensures
            r is Some <==> self@.dom().contains(k@),
            r matches Some(v) ==> *v == self@[k@],
    {
        proof {
            use_type_invariant(self);
            lemma_map_of_dom(self.entries@, k@);
        }
        match self.find(k) {
            Some(i) => {
                proof {
                    lemma_map_of_value(self.entries@, i as int);
                }
                Some(&self.entries[i].1)
            },
            None => None,
        }
    }

    /// Stores `v` under `k`, and hands back the value it replaces, if any.
    pub fn insert(&mut self, k: K, v: V) -> (r: Option<V>)
        ensures
            final(self)@ == old(self)@.insert(k@, v),
            r is Some <==> old(self)@.dom().contains(k@),
            r matches Some(w) ==> w == old(self)@[k@],
    {
        proof {
            use_type_invariant(&*self);
            lemma_map_of_dom(self.entries@, k@);
        }
        let ghost s0 = self.entries@;
        let found = self.find(&k);
        let mut entries: Vec<(K, V)> = Vec::new();
        std::mem::swap(&mut entries, &mut self.entries);
        let old_value = match found {
            Some(i) => {
                proof {
                    lemma_map_of_value(s0, i as int);
                    lemma_map_of_remove(s0, i as int);
                }
                let (_, w) = entries.remove(i);
                Some(w)
            },
            None => None,
        };
        let ghost s1 = entries@;
        assert(forall|j: int| 0 <= j < s1.len() ==> s1[j].0@ != k@) by {
            if found is Some {
                let i = found->Some_0 as int;
                assert forall|j: int| 0 <= j < s1.len() implies s1[j].0@ != k@ by {
                    let j2 = if j < i { j } else { j + 1 };
                    assert(s1[j] == s0[j2]);
                }
            }
        }
        assert(map_of(s1) =~= map_of(s0).remove(k@)) by {
            if found is None {
                lemma_map_of_dom(s0, k@);
            }
        }
        let ghost kv = k@;
        entries.push((k, v));
        assert(entries@.drop_last() =~= s1);
        assert(keys_unique(entries@));
        assert(map_of(entries@) =~= map_of(s0).insert(kv, v));
        self.entries = entries;
        old_value
    }

    /// Removes the entry of `k`, and hands back its value, if any.
    pub fn remove(&mut self, k: &K) -> (r: Option<V>)
        ensures
            final(self)@ == old(self)@.remove(k@),
            r is Some <==> old(self)@.dom().contains(k@),
            r matches Some(w) ==> w == old(self)@[k@],
    {
        proof {
            use_type_invariant(&*self);
            lemma_map_of_dom(self.entries@, k@);
        }
        let ghost s0 = self.entries@;
        match self.find(k) {
            Some(i) => {
                proof {
                    lemma_map_of_value(s0, i as int);
                    lemma_map_of_remove(s0, i as int);
                }
                let mut entries: Vec<(K, V)> = Vec::new();
                std::mem::swap(&mut entries, &mut self.entries);
                let (_, w) = entries.remove(i);
                self.entries = entries;
                Some(w)
            },
            None => {
                assert(map_of(s0) =~= map_of(s0).remove(k@));
                None
            },
        }
    }
}

} // verus!
