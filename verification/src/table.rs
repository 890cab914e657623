//! An insertion-ordered map from names to values.
//!
//! Programs keep their variables and their functions in tables keyed by name.
//! A table is viewed as a sequence of `(name, value)` pairs in which no name
//! occurs twice; inserting a name that is already present replaces its value in
//! place, inserting a new name appends it.

use vstd::prelude::*;

verus! {

/// A key of a [`Table`]: a value that is identified by a sequence of characters.
pub trait TableKey: Sized {
    spec fn key_view(&self) -> Seq<char>;

    fn same_key(&self, other: &Self) -> (b: bool)
        ensures
            b == (self.key_view() == other.key_view()),
    ;

    fn copy_key(&self) -> (r: Self)
        ensures
            r.key_view() == self.key_view(),
    ;
}

impl TableKey for String {
    open spec fn key_view(&self) -> Seq<char> {
        self@
    }

    fn same_key(&self, other: &Self) -> (b: bool) {
        *self == *other
    }

    fn copy_key(&self) -> (r: Self) {
        self.clone()
    }
}

/// The value that `s` associates with `k`, if any.
pub open spec fn seq_lookup<V>(s: Seq<(Seq<char>, V)>, k: Seq<char>) -> Option<V>
    decreases s.len(),
{
    if s.len() == 0 {
        None
    } else if s.last().0 == k {
        Some(s.last().1)
    } else {
        seq_lookup(s.drop_last(), k)
    }
}

/// The keys of `s`, in order.
pub open spec fn seq_keys<V>(s: Seq<(Seq<char>, V)>) -> Seq<Seq<char>> {
    s.map_values(|e: (Seq<char>, V)| e.0)
}

/// No key occurs twice in `s`.
pub open spec fn keys_unique<V>(s: Seq<(Seq<char>, V)>) -> bool {
    forall|i: int, j: int| 0 <= i < j < s.len() ==> s[i].0 != s[j].0
}

/// `s` with `k` bound to `v`: the value of an existing binding of `k` is
/// replaced in place, otherwise the binding is appended.
pub open spec fn seq_insert<V>(s: Seq<(Seq<char>, V)>, k: Seq<char>, v: V) -> Seq<(Seq<char>, V)> {
    if exists|i: int| 0 <= i < s.len() && s[i].0 == k {
        let i = choose|i: int| 0 <= i < s.len() && s[i].0 == k;
        s.update(i, (k, v))
    } else {
        s.push((k, v))
    }
}

/// Inserting each pair of `pairs` in order into `s`.
pub open spec fn seq_insert_all<V>(s: Seq<(Seq<char>, V)>, pairs: Seq<(Seq<char>, V)>) -> Seq<(Seq<char>, V)>
    decreases pairs.len(),
{
    if pairs.len() == 0 {
        s
    } else {
        seq_insert(seq_insert_all(s, pairs.drop_last()), pairs.last().0, pairs.last().1)
    }
}

/// In a sequence without duplicate keys, the binding of `k` is the one at the
/// index where `k` occurs.
pub proof fn lemma_lookup_at<V>(s: Seq<(Seq<char>, V)>, i: int)
    requires
        keys_unique(s),
        0 <= i < s.len(),
    ensures
        seq_lookup(s, s[i].0) == Some(s[i].1),
    decreases s.len(),
{
    if i != s.len() - 1 {
        assert(s.last().0 != s[i].0);
        lemma_lookup_at(s.drop_last(), i);
    }
}

/// A key that occurs nowhere in `s` has no binding.
pub proof fn lemma_lookup_absent<V>(s: Seq<(Seq<char>, V)>, k: Seq<char>)
    requires
        forall|i: int| 0 <= i < s.len() ==> s[i].0 != k,
    ensures
        seq_lookup(s, k) is None,
    decreases s.len(),
{
    if s.len() > 0 {
        assert(s.last().0 == s[s.len() - 1].0);
        lemma_lookup_absent(s.drop_last(), k);
    }
}

/// A key has a binding exactly when it occurs in the sequence.
pub proof fn lemma_lookup_some<V>(s: Seq<(Seq<char>, V)>, k: Seq<char>)
    ensures
        seq_lookup(s, k) is Some <==> exists|i: int| 0 <= i < s.len() && s[i].0 == k,
    decreases s.len(),
{
    if s.len() > 0 {
        lemma_lookup_some(s.drop_last(), k);
        if seq_lookup(s.drop_last(), k) is Some {
            let i = choose|i: int| 0 <= i < s.drop_last().len() && s.drop_last()[i].0 == k;
            assert(s[i].0 == k);
        }
        if exists|i: int| 0 <= i < s.len() && s[i].0 == k {
            let i = choose|i: int| 0 <= i < s.len() && s[i].0 == k;
            if i < s.len() - 1 {
                assert(s.drop_last()[i].0 == k);
            }
        }
    }
}

/// Looking a key up after an insertion: the inserted key has the new value,
/// every other key keeps its binding, and no key occurs twice.
pub proof fn lemma_insert<V>(s: Seq<(Seq<char>, V)>, k: Seq<char>, v: V)
    requires
        keys_unique(s),
    ensures
        keys_unique(seq_insert(s, k, v)),
        forall|k2: Seq<char>| #[trigger]
            seq_lookup(seq_insert(s, k, v), k2) == if k2 == k {
                Some(v)
            } else {
                seq_lookup(s, k2)
            },
{
    let r = seq_insert(s, k, v);
    if exists|i: int| 0 <= i < s.len() && s[i].0 == k {
        let i = choose|i: int| 0 <= i < s.len() && s[i].0 == k;
        assert(r == s.update(i, (k, v)));
        assert(keys_unique(r));
        assert forall|k2: Seq<char>| #[trigger]
            seq_lookup(r, k2) == if k2 == k {
                Some(v)
            } else {
                seq_lookup(s, k2)
            } by {
            if k2 == k {
                lemma_lookup_at(r, i);
            } else {
                lemma_lookup_some(s, k2);
                lemma_lookup_some(r, k2);
                if exists|j: int| 0 <= j < s.len() && s[j].0 == k2 {
                    let j = choose|j: int| 0 <= j < s.len() && s[j].0 == k2;
                    lemma_lookup_at(s, j);
                    lemma_lookup_at(r, j);
                }
            }
        }
    } else {
        assert(r == s.push((k, v)));
        assert(r.drop_last() =~= s);
    }
}

/// `s` with each value taken by `f`.
pub open spec fn map_entries<V, W>(s: Seq<(Seq<char>, V)>, f: spec_fn(V) -> W) -> Seq<(Seq<char>, W)> {
    s.map_values(|e: (Seq<char>, V)| (e.0, f(e.1)))
}

/// Inserting commutes with taking the values by a function.
pub proof fn lemma_insert_map<V, W>(s: Seq<(Seq<char>, V)>, k: Seq<char>, v: V, f: spec_fn(V) -> W)
    requires
        keys_unique(s),
    ensures
        map_entries(seq_insert(s, k, v), f) == seq_insert(map_entries(s, f), k, f(v)),
        keys_unique(seq_insert(s, k, v)),
{
    let m = map_entries(s, f);
    lemma_insert(s, k, v);
    if exists|i: int| 0 <= i < s.len() && s[i].0 == k {
        let i = choose|i: int| 0 <= i < s.len() && s[i].0 == k;
        assert(m[i].0 == k);
        let j = choose|j: int| 0 <= j < m.len() && m[j].0 == k;
        assert(i == j) by {
            if i < j {
                assert(s[i].0 != s[j].0);
            } else if j < i {
                assert(s[j].0 != s[i].0);
            }
        }
        assert(map_entries(s.update(i, (k, v)), f) =~= m.update(i, (k, f(v))));
    } else {
        assert(!(exists|j: int| 0 <= j < m.len() && m[j].0 == k)) by {
            if exists|j: int| 0 <= j < m.len() && m[j].0 == k {
                let j = choose|j: int| 0 <= j < m.len() && m[j].0 == k;
                assert(s[j].0 == k);
            }
        }
        assert(map_entries(s.push((k, v)), f) =~= m.push((k, f(v))));
    }
}

/// Inserting many pairs commutes with taking the values by a function.
pub proof fn lemma_insert_all_map<V, W>(s: Seq<(Seq<char>, V)>, ps: Seq<(Seq<char>, V)>, f: spec_fn(V) -> W)
    requires
        keys_unique(s),
    ensures
        map_entries(seq_insert_all(s, ps), f) == seq_insert_all(map_entries(s, f), map_entries(ps, f)),
        keys_unique(seq_insert_all(s, ps)),
    decreases ps.len(),
{
    if ps.len() > 0 {
        lemma_insert_all_map(s, ps.drop_last(), f);
        assert(map_entries(ps, f).drop_last() =~= map_entries(ps.drop_last(), f));
        lemma_insert_map(seq_insert_all(s, ps.drop_last()), ps.last().0, ps.last().1, f);
    }
}

/// Inserting many pairs in order, the last pair with a key wins: a key is
/// bound to the value of the last pair that has it, and a key that no pair has
/// keeps its binding.
pub proof fn law_last_insert_wins<V>(s: Seq<(Seq<char>, V)>, pairs: Seq<(Seq<char>, V)>, k: Seq<char>)
    requires
        keys_unique(s),
    ensures
        keys_unique(seq_insert_all(s, pairs)),
        forall|j: int|
            0 <= j < pairs.len() && pairs[j].0 == k && (forall|m: int| j < m < pairs.len() ==> pairs[m].0 != k)
                ==> seq_lookup(seq_insert_all(s, pairs), k) == Some(#[trigger] pairs[j].1),
        (forall|j: int| 0 <= j < pairs.len() ==> pairs[j].0 != k) ==> seq_lookup(seq_insert_all(s, pairs), k)
            == seq_lookup(s, k),
    decreases pairs.len(),
{
    if pairs.len() > 0 {
        let rest = pairs.drop_last();
        law_last_insert_wins(s, rest, k);
        let before = seq_insert_all(s, rest);
        lemma_insert(before, pairs.last().0, pairs.last().1);
        assert forall|j: int|
            0 <= j < pairs.len() && pairs[j].0 == k && (forall|m: int| j < m < pairs.len() ==> pairs[m].0 != k)
                implies seq_lookup(seq_insert_all(s, pairs), k) == Some(#[trigger] pairs[j].1) by {
            if j < pairs.len() - 1 {
                assert(pairs[pairs.len() - 1].0 != k);
                assert(rest[j] == pairs[j]);
                assert forall|m: int| j < m < rest.len() implies rest[m].0 != k by {
                    assert(rest[m] == pairs[m]);
                }
            }
        }
        if forall|j: int| 0 <= j < pairs.len() ==> pairs[j].0 != k {
            assert(pairs[pairs.len() - 1].0 != k);
            assert forall|j: int| 0 <= j < rest.len() implies rest[j].0 != k by {
                assert(rest[j] == pairs[j]);
            }
        }
    }
}

/// A table: a sequence of `(key, value)` pairs in which no key occurs twice.
#[derive(Debug, PartialEq)]
pub struct Table<K: TableKey, V> {
    entries: Vec<(K, V)>,
}

impl<K: TableKey, V> View for Table<K, V> {
    type V = Seq<(Seq<char>, V)>;

    closed spec fn view(&self) -> Seq<(Seq<char>, V)> {
        self.entries@.map_values(|e: (K, V)| (e.0.key_view(), e.1))
    }
}

impl<K: TableKey, V> Table<K, V> {
    #[verifier::type_invariant]
    closed spec fn keys_are_unique(&self) -> bool {
        keys_unique(self@)
    }

    /// The value bound to `k`, if any.
    pub open spec fn lookup(&self, k: Seq<char>) -> Option<V> {
        seq_lookup(self@, k)
    }

    /// An empty table.
    pub fn new() -> (t: Self)
        ensures
            t@ == Seq::<(Seq<char>, V)>::empty(),
    {
        let t = Table { entries: Vec::new() };
        assert(t@ =~= Seq::<(Seq<char>, V)>::empty());
        t
    }

    /// The number of bindings.
    pub fn len(&self) -> (n: usize)
        ensures
            n == self@.len(),
    {
        self.entries.len()
    }

    /// The binding at position `i`, in insertion order.
    pub fn entry_at(&self, i: usize) -> (e: (&K, &V))
        requires
            i < self@.len(),
        ensures
            e.0.key_view() == self@[i as int].0,
            *e.1 == self@[i as int].1,
    {
        let (k, v) = &self.entries[i];
        (k, v)
    }

    /// The position of `k`, if it is bound.
    fn position(&self, k: &K) -> (r: Option<usize>)
        ensures
            match r {
                Some(i) => i < self@.len() && self@[i as int].0 == k.key_view(),
                None => forall|i: int| 0 <= i < self@.len() ==> self@[i].0 != k.key_view(),
            },
    {
        let mut i: usize = 0;
        while i < self.entries.len()
            invariant
                i <= self@.len(),
                self@.len() == self.entries@.len(),
                forall|j: int| 0 <= j < i ==> self@[j].0 != k.key_view(),
            decreases self@.len() - i,
        {
            if self.entries[i].0.same_key(k) {
                return Some(i);
            }
            i += 1;
        }
        None
    }

    /// Whether `k` is bound.
    pub fn contains_key(&self, k: &K) -> (b: bool)
        ensures
            b == (self.lookup(k.key_view()) is Some),
    {
        proof {
            lemma_lookup_some(self@, k.key_view());
        }
        self.position(k).is_some()
    }

    /// The value bound to `k`, if any.
    pub fn get(&self, k: &K) -> (r: Option<&V>)
        ensures
            match r {
                Some(v) => self.lookup(k.key_view()) == Some(*v),
                None => self.lookup(k.key_view()) is None,
            },
    {
        proof {
            use_type_invariant(self);
        }
        match self.position(k) {
            Some(i) => {
                proof {
                    lemma_lookup_at(self@, i as int);
                }
                Some(&self.entries[i].1)
            },
            None => {
                proof {
                    lemma_lookup_absent(self@, k.key_view());
                }
                None
            },
        }
    }

    /// Binds `k` to `v`, replacing the value of an existing binding of `k`.
    pub fn insert(&mut self, k: K, v: V)
        ensures
            final(self)@ == seq_insert(old(self)@, k.key_view(), v),
            forall|k2: Seq<char>| #[trigger]
                final(self).lookup(k2) == if k2 == k.key_view() {
                    Some(v)
                } else {
                    old(self).lookup(k2)
                },
    {
        proof {
            use_type_invariant(&*self);
        }
        let ghost kv = k.key_view();
        let ghost s = self@;
        match self.position(&k) {
            Some(i) => {
                proof {
                    assert(exists|j: int| 0 <= j < s.len() && s[j].0 == kv);
                    let c = choose|j: int| 0 <= j < s.len() && s[j].0 == kv;
                    assert(c == i as int) by {
                        if c != i {
                            if c < i {
                                assert(s[c].0 != s[i as int].0);
                            } else {
                                assert(s[i as int].0 != s[c].0);
                            }
                        }
                    }
                    lemma_insert(s, kv, v);
                }
                let mut entries = Vec::new();
                std::mem::swap(&mut entries, &mut self.entries);
                entries.set(i, (k, v));
                assert(entries@.map_values(|e: (K, V)| (e.0.key_view(), e.1)) =~= s.update(i as int, (kv, v)));
                self.entries = entries;
            },
            None => {
                proof {
                    lemma_insert(s, kv, v);
                }
                let mut entries = Vec::new();
                std::mem::swap(&mut entries, &mut self.entries);
                entries.push((k, v));
                assert(entries@.map_values(|e: (K, V)| (e.0.key_view(), e.1)) =~= s.push((kv, v)));
                self.entries = entries;
            },
        }
    }

    /// The table that binds each key of `pairs`, later pairs replacing earlier
    /// ones with the same key.
    pub fn from_pairs(pairs: Vec<(K, V)>) -> (t: Self)
        ensures
            t@ == seq_insert_all(
                Seq::<(Seq<char>, V)>::empty(),
                pairs@.map_values(|e: (K, V)| (e.0.key_view(), e.1)),
            ),
    {
        let ghost ps = pairs@.map_values(|e: (K, V)| (e.0.key_view(), e.1));
        let total = pairs.len();
        let mut t = Table::new();
        let mut pairs = pairs;
        let mut rest: Vec<(K, V)> = Vec::new();
        // reverse the pairs so they can be popped in order
        while pairs.len() > 0
            invariant
                pairs@.len() + rest@.len() == ps.len(),
                forall|i: int| 0 <= i < pairs@.len() ==> (#[trigger] pairs@[i]).0.key_view() == ps[i].0 && pairs@[i].1 == ps[i].1,
                forall|i: int| 0 <= i < rest@.len() ==> (#[trigger] rest@[i]).0.key_view() == ps[ps.len() - 1 - i].0 && rest@[i].1 == ps[ps.len() - 1 - i].1,
            decreases pairs@.len(),
        {
            let e = pairs.pop().unwrap();
            rest.push(e);
        }
        let mut n: usize = 0;
        while rest.len() > 0
            invariant
                n + rest@.len() == ps.len(),
                ps.len() == total,
                t@ == seq_insert_all(Seq::<(Seq<char>, V)>::empty(), ps.take(n as int)),
                forall|i: int| 0 <= i < rest@.len() ==> (#[trigger] rest@[i]).0.key_view() == ps[ps.len() - 1 - i].0 && rest@[i].1 == ps[ps.len() - 1 - i].1,
            decreases rest@.len(),
        {
            let (k, v) = rest.pop().unwrap();
            assert(ps.take(n + 1).drop_last() =~= ps.take(n as int));
            t.insert(k, v);
            n += 1;
        }
        assert(ps.take(n as int) =~= ps);
        t
    }

    /// The keys, in insertion order.
    pub fn keys(&self) -> (ks: Vec<K>)
        ensures
            ks@.map_values(|k: K| k.key_view()) == seq_keys(self@),
    {
        let mut ks: Vec<K> = Vec::new();
        let mut i: usize = 0;
        while i < self.entries.len()
            invariant
                i <= self@.len(),
                self@.len() == self.entries@.len(),
                ks@.len() == i,
                forall|j: int| 0 <= j < i ==> (#[trigger] ks@[j]).key_view() == self@[j].0,
            decreases self@.len() - i,
        {
            ks.push(self.entries[i].0.copy_key());
            i += 1;
        }
        assert(ks@.map_values(|k: K| k.key_view()) =~= seq_keys(self@));
        ks
    }
}

impl<K: TableKey, V: Copy> Table<K, V> {
    /// A copy of the table.
    pub fn copy(&self) -> (t: Self)
        ensures
            t@ == self@,
    {
        proof {
            use_type_invariant(self);
        }
        let mut entries: Vec<(K, V)> = Vec::new();
        let mut i: usize = 0;
        while i < self.entries.len()
            invariant
                i <= self@.len(),
                self@.len() == self.entries@.len(),
                entries@.len() == i,
                keys_unique(self@),
                forall|j: int| 0 <= j < i ==> (#[trigger] entries@[j]).0.key_view() == self@[j].0 && entries@[j].1 == self@[j].1,
            decreases self@.len() - i,
        {
            let (k, v) = &self.entries[i];
            entries.push((k.copy_key(), *v));
            i += 1;
        }
        let t = Table { entries };
        assert(t@ =~= self@);
        t
    }
}

} // verus!
