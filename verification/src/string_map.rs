//! A small map keyed by strings, kept as an association list.
//!
//! The terminal keeps strategy parameters, selected tickers and share
//! counts in string-keyed maps; this type gives them a checked model.

use vstd::prelude::*;

verus! {

/// The map that a list of entries denotes: later entries are stacked on
/// earlier ones (with distinct keys the order does not matter).
pub open spec fn entries_map<V>(s: Seq<(String, V)>) -> Map<Seq<char>, V>
    decreases s.len(),
{
    if s.len() == 0 {
        Map::empty()
    } else {
        entries_map(s.drop_last()).insert(s.last().0@, s.last().1)
    }
}

/// No two entries share a key.
pub open spec fn distinct_keys<V>(s: Seq<(String, V)>) -> bool {
    forall|i: int, j: int| 0 <= i < j < s.len() ==> #[trigger] s[i].0@ != #[trigger] s[j].0@
}

/// A key is present exactly when some entry carries it.
pub proof fn lemma_entries_map_dom<V>(s: Seq<(String, V)>, k: Seq<char>)
    ensures
        entries_map(s).contains_key(k) <==> exists|j: int| 0 <= j < s.len() && #[trigger] s[j].0@ == k,
    decreases s.len(),
{
    if s.len() > 0 {
        lemma_entries_map_dom(s.drop_last(), k);
        if entries_map(s).contains_key(k) {
            if s.last().0@ == k {
                assert(s[s.len() - 1].0@ == k);
            } else {
                let j = choose|j: int| 0 <= j < s.drop_last().len() && #[trigger] s.drop_last()[j].0@ == k;
                assert(s[j].0@ == k);
            }
        }
        if exists|j: int| 0 <= j < s.len() && #[trigger] s[j].0@ == k {
            let j = choose|j: int| 0 <= j < s.len() && #[trigger] s[j].0@ == k;
            if j < s.len() - 1 {
                assert(s.drop_last()[j].0@ == k);
            }
        }
    }
}

/// With distinct keys, the value stored under an entry's key is that entry's value.
pub proof fn lemma_entries_map_value<V>(s: Seq<(String, V)>, j: int)
    requires
        distinct_keys(s),
        0 <= j < s.len(),
    ensures
        entries_map(s).contains_key(s[j].0@),
        entries_map(s)[s[j].0@] == s[j].1,
    decreases s.len(),
{
    if j < s.len() - 1 {
        assert(distinct_keys(s.drop_last()));
        lemma_entries_map_value(s.drop_last(), j);
        assert(s.drop_last()[j] == s[j]);
        assert(s[j].0@ != s[s.len() - 1].0@);
    }
}

/// With distinct keys, the map has as many keys as there are entries.
pub proof fn lemma_entries_map_len<V>(s: Seq<(String, V)>)
    requires
        distinct_keys(s),
    ensures
        entries_map(s).dom().finite(),
        entries_map(s).dom().len() == s.len(),
    decreases s.len(),
{
    if s.len() > 0 {
        assert(distinct_keys(s.drop_last()));
        lemma_entries_map_len(s.drop_last());
        lemma_entries_map_dom(s.drop_last(), s.last().0@);
        if entries_map(s.drop_last()).contains_key(s.last().0@) {
            let j = choose|j: int| 0 <= j < s.drop_last().len() && #[trigger] s.drop_last()[j].0@ == s.last().0@;
            assert(s[j].0@ == s[s.len() - 1].0@);
        }
    }
}

/// Two entry lists with the same keys and values at every key denote the same map.
proof fn lemma_entries_map_ext<V>(s: Seq<(String, V)>, t: Seq<(String, V)>, m: Map<Seq<char>, V>)
    requires
        distinct_keys(t),
        forall|k: Seq<char>| #![trigger m.contains_key(k)]
            m.contains_key(k) <==> exists|j: int| 0 <= j < t.len() && #[trigger] t[j].0@ == k,
        forall|j: int| 0 <= j < t.len() ==> m.contains_key(#[trigger] t[j].0@) && m[t[j].0@] == t[j].1,
    ensures
        entries_map(t) == m,
{
    assert forall|k: Seq<char>| #[trigger] entries_map(t).contains_key(k) <==> m.contains_key(k) by {
        lemma_entries_map_dom(t, k);
    }
    assert forall|k: Seq<char>| #[trigger] entries_map(t).contains_key(k) implies entries_map(t)[k] == m[k] by {
        lemma_entries_map_dom(t, k);
        let j = choose|j: int| 0 <= j < t.len() && #[trigger] t[j].0@ == k;
        lemma_entries_map_value(t, j);
    }
    assert(entries_map(t) =~= m);
}

/// A map from strings to values.
pub struct StrMap<V> {
    entries: Vec<(String, V)>,
}

impl<V> View for StrMap<V> {
    type V = Map<Seq<char>, V>;

    closed spec fn view(&self) -> Map<Seq<char>, V> {
        entries_map(self.entries@)
    }
}

impl<V> StrMap<V> {
    #[verifier::type_invariant]
    closed spec fn keys_distinct(&self) -> bool {
        distinct_keys(self.entries@)
    }

    /// The keys in the order in which `key_at` hands them out.
    pub closed spec fn key_seq(&self) -> Seq<Seq<char>> {
        self.entries@.map_values(|e: (String, V)| e.0@)
    }

    /// An empty map.
    pub fn new() -> (m: Self)
        ensures
            m@ == Map::<Seq<char>, V>::empty(),
    {
        StrMap { entries: Vec::new() }
    }

    fn find(&self, key: &str) -> (r: Option<usize>)
        ensures
            match r {
                Some(j) => j < self.entries@.len() && self.entries@[j as int].0@ == key@,
                None => forall|j: int| 0 <= j < self.entries@.len() ==> #[trigger] self.entries@[j].0@ != key@,
            },
    {
        let k = key.to_owned();
        let mut i: usize = 0;
        while i < self.entries.len()
            invariant
                k@ == key@,
                i <= self.entries@.len(),
                forall|j: int| 0 <= j < i ==> #[trigger] self.entries@[j].0@ != key@,
            decreases self.entries@.len() - i,
        {
            if self.entries[i].0 == k {
                return Some(i);
            }
            i = i + 1;
        }
        None
    }

    /// The number of keys.
    pub fn len(&self) -> (n: usize)
        ensures
            self@.dom().finite(),
            n == self@.dom().len(),
    {
        proof {
            use_type_invariant(self);
            lemma_entries_map_len(self.entries@);
        }
        self.entries.len()
    }

    /// Whether the map has no key.
    pub fn is_empty(&self) -> (b: bool)
        ensures
            b <==> self@.dom() == Set::<Seq<char>>::empty(),
    {
        proof {
            use_type_invariant(self);
            lemma_entries_map_len(self.entries@);
            if self.entries@.len() > 0 {
                lemma_entries_map_value(self.entries@, 0);
                assert(self@.dom().contains(self.entries@[0].0@));
            }
        }
        self.entries.len() == 0
    }

    /// Whether `key` is present.
    pub fn contains_key(&self, key: &str) -> (b: bool)
        ensures
            b == self@.contains_key(key@),
    {
        proof {
            lemma_entries_map_dom(self.entries@, key@);
        }
        self.find(key).is_some()
    }

    /// The value stored under `key`, if any.
    pub fn get(&self, key: &str) -> (r: Option<&V>)
        ensures
            match r {
                Some(v) => self@.contains_key(key@) && *v == self@[key@],
                None => !self@.contains_key(key@),
            },
    {
        proof {
            use_type_invariant(self);
            lemma_entries_map_dom(self.entries@, key@);
        }
        match self.find(key) {
            Some(j) => {
                proof {
                    lemma_entries_map_value(self.entries@, j as int);
                }
                Some(&self.entries[j].1)
            },
            None => None,
        }
    }

    /// Stores `value` under `key`, replacing what was there.
    pub fn insert(&mut self, key: String, value: V)
        ensures
            final(self)@ == old(self)@.insert(key@, value),
    {
        proof {
            use_type_invariant(&*self);
        }
        let ghost old_entries = self.entries@;
        let ghost m = old(self)@.insert(key@, value);
        let ghost kv = key@;
        match self.find(key.as_str()) {
            Some(j) => {
                let mut entries: Vec<(String, V)> = Vec::new();
                std::mem::swap(&mut entries, &mut self.entries);
                entries.set(j, (key, value));
                proof {
                    let t = entries@;
                    assert(t == old_entries.update(j as int, t[j as int]));
                    assert(distinct_keys(t)) by {
                        assert forall|a: int, b: int| 0 <= a < b < t.len() implies #[trigger] t[a].0@ != #[trigger] t[b].0@ by {
                            assert(old_entries[a].0@ != old_entries[b].0@);
                        }
                    }
                    assert forall|k: Seq<char>| #![trigger m.contains_key(k)]
                        m.contains_key(k) <==> exists|i: int| 0 <= i < t.len() && #[trigger] t[i].0@ == k by {
                        lemma_entries_map_dom(old_entries, k);
                        if m.contains_key(k) && k != kv {
                            let i = choose|i: int| 0 <= i < old_entries.len() && #[trigger] old_entries[i].0@ == k;
                            assert(t[i].0@ == k);
                        }
                        if k == kv {
                            assert(t[j as int].0@ == k);
                        }
                        if exists|i: int| 0 <= i < t.len() && #[trigger] t[i].0@ == k {
                            let i = choose|i: int| 0 <= i < t.len() && #[trigger] t[i].0@ == k;
                            if i != j {
                                assert(old_entries[i].0@ == k);
                            }
                        }
                    }
                    assert forall|i: int| 0 <= i < t.len() implies m.contains_key(#[trigger] t[i].0@) && m[t[i].0@] == t[i].1 by {
                        if i != j {
                            lemma_entries_map_value(old_entries, i);
                            assert(old_entries[i].0@ != old_entries[j as int].0@);
                        }
                    }
                    lemma_entries_map_ext(old_entries, t, m);
                }
                self.entries = entries;
            },
            None => {
                let mut entries: Vec<(String, V)> = Vec::new();
                std::mem::swap(&mut entries, &mut self.entries);
                entries.push((key, value));
                proof {
                    let t = entries@;
                    assert(t.drop_last() == old_entries);
                }
                self.entries = entries;
            },
        }
    }

    /// Removes `key`, returning the value it held.
    pub fn remove(&mut self, key: &str) -> (r: Option<V>)
        ensures
            final(self)@ == old(self)@.remove(key@),
            match r {
                Some(v) => old(self)@.contains_key(key@) && v == old(self)@[key@],
                None => !old(self)@.contains_key(key@),
            },
    {
        proof {
            use_type_invariant(&*self);
            lemma_entries_map_dom(self.entries@, key@);
        }
        let ghost old_entries = self.entries@;
        let ghost m = old(self)@.remove(key@);
        match self.find(key) {
            Some(j) => {
                proof {
                    lemma_entries_map_value(old_entries, j as int);
                }
                let mut entries: Vec<(String, V)> = Vec::new();
                std::mem::swap(&mut entries, &mut self.entries);
                let (_, v) = entries.remove(j);
                proof {
                    let t = entries@;
                    assert(t == old_entries.remove(j as int));
                    assert(distinct_keys(t)) by {
                        assert forall|a: int, b: int| 0 <= a < b < t.len() implies #[trigger] t[a].0@ != #[trigger] t[b].0@ by {
                            let a0 = if a < j { a } else { a + 1 };
                            let b0 = if b < j { b } else { b + 1 };
                            assert(t[a] == old_entries[a0]);
                            assert(t[b] == old_entries[b0]);
                            assert(old_entries[a0].0@ != old_entries[b0].0@);
                        }
                    }
                    assert forall|k: Seq<char>| #![trigger m.contains_key(k)]
                        m.contains_key(k) <==> exists|i: int| 0 <= i < t.len() && #[trigger] t[i].0@ == k by {
                        lemma_entries_map_dom(old_entries, k);
                        if m.contains_key(k) {
                            let i = choose|i: int| 0 <= i < old_entries.len() && #[trigger] old_entries[i].0@ == k;
                            assert(i != j);
                            let i2 = if i < j { i } else { i - 1 };
                            assert(t[i2] == old_entries[i]);
                        }
                        if exists|i: int| 0 <= i < t.len() && #[trigger] t[i].0@ == k {
                            let i = choose|i: int| 0 <= i < t.len() && #[trigger] t[i].0@ == k;
                            let i0 = if i < j { i } else { i + 1 };
                            assert(t[i] == old_entries[i0]);
                            assert(i0 != j);
                            assert(old_entries[i0].0@ != old_entries[j as int].0@);
                        }
                    }
                    assert forall|i: int| 0 <= i < t.len() implies m.contains_key(#[trigger] t[i].0@) && m[t[i].0@] == t[i].1 by {
                        let i0 = if i < j { i } else { i + 1 };
                        assert(t[i] == old_entries[i0]);
                        lemma_entries_map_value(old_entries, i0);
                        assert(old_entries[i0].0@ != old_entries[j as int].0@);
                    }
                    lemma_entries_map_ext(old_entries, t, m);
                }
                self.entries = entries;
                Some(v)
            },
            None => {
                proof {
                    assert(m =~= old(self)@);
                }
                None
            },
        }
    }

    /// Removes every key.
    pub fn clear(&mut self)
        ensures
            final(self)@ == Map::<Seq<char>, V>::empty(),
    {
        self.entries = Vec::new();
    }

    /// The key of the `i`-th entry, in storage order.
    pub fn key_at(&self, i: usize) -> (k: &String)
        requires
            i < self@.dom().len(),
        ensures
            k@ == self.key_seq()[i as int],
            self@.contains_key(k@),
    {
        proof {
            use_type_invariant(self);
            lemma_entries_map_len(self.entries@);
            lemma_entries_map_value(self.entries@, i as int);
        }
        &self.entries[i].0
    }

    /// The value of the `i`-th entry, in storage order.
    pub fn value_at(&self, i: usize) -> (v: &V)
        requires
            i < self@.dom().len(),
        ensures
            *v == self@[self.key_seq()[i as int]],
    {
        proof {
            use_type_invariant(self);
            lemma_entries_map_len(self.entries@);
            lemma_entries_map_value(self.entries@, i as int);
        }
        &self.entries[i].1
    }
}

impl<V: Copy> StrMap<V> {
    /// A copy of the map.
    pub fn copied(&self) -> (m: Self)
        ensures
            m@ == self@,
    {
        proof {
            use_type_invariant(self);
        }
        let mut entries: Vec<(String, V)> = Vec::new();
        let mut i: usize = 0;
        while i < self.entries.len()
            invariant
                i <= self.entries@.len(),
                entries@ == self.entries@.take(i as int),
            decreases self.entries@.len() - i,
        {
            let k = self.entries[i].0.clone();
            let v = self.entries[i].1;
            entries.push((k, v));
            assert(self.entries@.take(i + 1) == self.entries@.take(i as int).push(self.entries@[i as int]));
            i = i + 1;
        }
        assert(self.entries@.take(i as int) == self.entries@);
        StrMap { entries }
    }
}

impl StrMap<String> {
    /// A copy of a map of texts.
    pub fn cloned(&self) -> (m: Self)
        ensures
            m@ == self@,
    {
        proof {
            use_type_invariant(self);
        }
        let mut entries: Vec<(String, String)> = Vec::new();
        let mut i: usize = 0;
        while i < self.entries.len()
            invariant
                i <= self.entries@.len(),
                entries@ == self.entries@.take(i as int),
            decreases self.entries@.len() - i,
        {
            let k = self.entries[i].0.clone();
            let v = self.entries[i].1.clone();
            entries.push((k, v));
            assert(self.entries@.take(i + 1) == self.entries@.take(i as int).push(self.entries@[i as int]));
            i = i + 1;
        }
        assert(self.entries@.take(i as int) == self.entries@);
        StrMap { entries }
    }
}

} // verus!
