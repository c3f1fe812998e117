//! A small map from topic URI to a count or a score, kept as a list of
//! `(key, value)` pairs whose keys are pairwise different.

use vstd::prelude::*;

verus! {

/// The map that a list of `(key, value)` pairs builds when each pair is
/// inserted in turn: a later pair with the same key replaces an earlier one.
pub open spec fn pairs_map(s: Seq<(Seq<char>, u64)>) -> Map<Seq<char>, u64>
    decreases s.len(),
{
    if s.len() == 0 {
        Map::empty()
    } else {
        pairs_map(s.drop_last()).insert(s.last().0, s.last().1)
    }
}

/// No key occurs twice in the list.
pub open spec fn keys_distinct(s: Seq<(Seq<char>, u64)>) -> bool {
    forall|i: int, j: int| 0 <= i < j < s.len() ==> s[i].0 != s[j].0
}

/// The pairs of a list of owned pairs, each key taken by its text.
pub open spec fn pairs_view(v: Seq<(String, u64)>) -> Seq<(Seq<char>, u64)> {
    v.map_values(|e: (String, u64)| (e.0@, e.1))
}

/// A key is in the built map exactly when some pair carries it.
pub proof fn lemma_pairs_map_dom(s: Seq<(Seq<char>, u64)>, k: Seq<char>)
    ensures
        pairs_map(s).contains_key(k) <==> exists|i: int| 0 <= i < s.len() && s[i].0 == k,
    decreases s.len(),
{
    if s.len() > 0 {
        let t = s.drop_last();
        lemma_pairs_map_dom(t, k);
        if pairs_map(s).contains_key(k) {
            if k == s.last().0 {
                assert(s[s.len() - 1].0 == k);
            } else {
                let i = choose|i: int| 0 <= i < t.len() && t[i].0 == k;
                assert(s[i].0 == k);
            }
        }
        if exists|i: int| 0 <= i < s.len() && s[i].0 == k {
            let i = choose|i: int| 0 <= i < s.len() && s[i].0 == k;
            if i < s.len() - 1 {
                assert(t[i].0 == k);
            }
        }
    }
}

/// With distinct keys, the built map gives each key the value of its pair.
pub proof fn lemma_pairs_map_value(s: Seq<(Seq<char>, u64)>, i: int)
    requires
        keys_distinct(s),
        0 <= i < s.len(),
    ensures
        pairs_map(s).contains_key(s[i].0),
        pairs_map(s)[s[i].0] == s[i].1,
    decreases s.len(),
{
    let t = s.drop_last();
    if i < s.len() - 1 {
        assert(t[i] == s[i]);
        lemma_pairs_map_value(t, i);
        assert(s[i].0 != s[s.len() - 1].0);
    }
}

/// Law: building from pairs, a later pair for a key replaces an earlier
/// one, and keys of other pairs keep their values.
pub proof fn lemma_pairs_map_later_wins(s: Seq<(Seq<char>, u64)>, k: Seq<char>, v: u64, x: Seq<char>)
    ensures
        pairs_map(s.push((k, v))).contains_key(k),
        pairs_map(s.push((k, v)))[k] == v,
        x != k ==> (pairs_map(s.push((k, v))).contains_key(x) == pairs_map(s).contains_key(x)),
        x != k && pairs_map(s).contains_key(x) ==> pairs_map(s.push((k, v)))[x] == pairs_map(s)[x],
{
    assert(s.push((k, v)).drop_last() =~= s);
}

/// A map from key text to a `u64`, held as a list of pairs with distinct keys.
pub struct ScoreTable {
    entries: Vec<(String, u64)>,
}

impl View for ScoreTable {
    type V = Map<Seq<char>, u64>;

    open spec fn view(&self) -> Map<Seq<char>, u64> {
        pairs_map(self.pairs())
    }
}

impl ScoreTable {
    /// The pairs of the table, in the order in which their keys were first inserted.
    pub closed spec fn pairs(&self) -> Seq<(Seq<char>, u64)> {
        pairs_view(self.entries@)
    }

    /// The table's invariant: no key is held twice.
    pub open spec fn wf(&self) -> bool {
        keys_distinct(self.pairs())
    }

    /// The value stored under `k`, or 0 where there is none.
    pub open spec fn count_of(&self, k: Seq<char>) -> u64 {
        if self@.contains_key(k) {
            self@[k]
        } else {
            0
        }
    }

    /// An empty table.
    pub fn new() -> (t: ScoreTable)
        ensures
            t.wf(),
            t@ == Map::<Seq<char>, u64>::empty(),
            t.pairs() == Seq::<(Seq<char>, u64)>::empty(),
    {
        let t = ScoreTable { entries: Vec::new() };
        assert(t.pairs() =~= Seq::<(Seq<char>, u64)>::empty());
        t
    }

    /// Number of keys held.
    pub fn len(&self) -> (n: usize)
        requires
            self.wf(),
        ensures
            n == self@.len(),
            n == self.pairs().len(),
    {
        proof {
            self.lemma_dom_is_keys();
        }
        self.entries.len()
    }

    /// The domain of the view is the set of keys of the pairs, and it has
    /// as many elements as there are pairs.
    pub proof fn lemma_dom_is_keys(&self)
        requires
            self.wf(),
        ensures
            self@.dom() == self.pairs().map_values(|p: (Seq<char>, u64)| p.0).to_set(),
            self@.dom().len() == self.pairs().len(),
            self@.len() == self.pairs().len(),
    {
        let s = self.pairs();
        let ks = s.map_values(|p: (Seq<char>, u64)| p.0);
        assert forall|k: Seq<char>| self@.dom().contains(k) <==> ks.to_set().contains(k) by {
            lemma_pairs_map_dom(s, k);
            if self@.dom().contains(k) {
                let i = choose|i: int| 0 <= i < s.len() && s[i].0 == k;
                assert(ks[i] == k);
            }
            if ks.to_set().contains(k) {
                let i = choose|i: int| 0 <= i < ks.len() && ks[i] == k;
                assert(s[i].0 == k);
            }
        }
        assert(self@.dom() =~= ks.to_set());
        assert(ks.no_duplicates()) by {
            assert forall|i: int, j: int| 0 <= i < ks.len() && 0 <= j < ks.len() && i != j
                implies ks[i] != ks[j] by {
                if i < j {
                    assert(s[i].0 != s[j].0);
                } else {
                    assert(s[j].0 != s[i].0);
                }
            }
        }
        ks.unique_seq_to_set();
    }

    /// Index of the pair whose key is `key`, if any.
    fn find(&self, key: &String) -> (r: Option<usize>)
        requires
            self.wf(),
        ensures
            match r {
                Some(i) => i < self.pairs().len() && self.pairs()[i as int].0 == key@,
                None => forall|i: int| 0 <= i < self.pairs().len() ==> self.pairs()[i].0 != key@,
            },
    {
        let n = self.entries.len();
        let mut i: usize = 0;
        while i < n
            invariant
                n == self.entries@.len(),
                self.pairs().len() == n,
                i <= n,
                forall|j: int| 0 <= j < i ==> self.pairs()[j].0 != key@,
            decreases n - i,
        {
            assert(self.pairs()[i as int].0 == self.entries@[i as int].0@);
            if self.entries[i].0 == *key {
                return Some(i);
            }
            i = i + 1;
        }
        None
    }

    /// The value held under `key`, if there is one.
    pub fn get(&self, key: &str) -> (r: Option<u64>)
        requires
            self.wf(),
        ensures
            r == (if self@.contains_key(key@) {
                Some(self@[key@])
            } else {
                None
            }),
    {
        let k = key.to_owned();
        match self.find(&k) {
            Some(i) => {
                proof {
                    lemma_pairs_map_value(self.pairs(), i as int);
                }
                assert(self.pairs()[i as int].1 == self.entries@[i as int].1);
                Some(self.entries[i].1)
            },
            None => {
                proof {
                    lemma_pairs_map_dom(self.pairs(), key@);
                }
                None
            },
        }
    }

    /// Whether `key` is held.
    pub fn contains_key(&self, key: &str) -> (b: bool)
        requires
            self.wf(),
        ensures
            b == self@.contains_key(key@),
    {
        self.get(key).is_some()
    }

    /// Stores `value` under `key`, replacing what was there.
    pub fn insert(&mut self, key: String, value: u64)
        requires
            old(self).wf(),
        ensures
            final(self).wf(),
            final(self)@ == old(self)@.insert(key@, value),
            old(self)@.contains_key(key@) ==> final(self).pairs().len() == old(self).pairs().len(),
            !old(self)@.contains_key(key@) ==> final(self).pairs() == old(self).pairs().push(
                (key@, value),
            ),
    {
        let ghost s = self.pairs();
        let ghost k = key@;
        match self.find(&key) {
            Some(i) => {
                self.entries.set(i, (key, value));
                let ghost t = self.pairs();
                assert(t =~= s.update(i as int, (k, value)));
                assert(keys_distinct(t)) by {
                    assert forall|a: int, b: int| 0 <= a < b < t.len() implies t[a].0 != t[b].0 by {
                        assert(s[a].0 != s[b].0);
                    }
                }
                assert forall|x: Seq<char>|
                    #![trigger pairs_map(t).contains_key(x)]
                    pairs_map(t).contains_key(x) == pairs_map(s).insert(k, value).contains_key(x)
                    && (pairs_map(t).contains_key(x) ==> pairs_map(t)[x] == pairs_map(s).insert(
                        k,
                        value,
                    )[x]) by {
                    lemma_pairs_map_dom(t, x);
                    lemma_pairs_map_dom(s, x);
                    lemma_pairs_map_value(s, i as int);
                    if pairs_map(t).contains_key(x) {
                        let j = choose|j: int| 0 <= j < t.len() && t[j].0 == x;
                        lemma_pairs_map_value(t, j);
                        if j != i {
                            lemma_pairs_map_value(s, j);
                        }
                    }
                    if pairs_map(s).contains_key(x) {
                        let j = choose|j: int| 0 <= j < s.len() && s[j].0 == x;
                        assert(t[j].0 == x);
                    }
                }
                assert(pairs_map(t) =~= pairs_map(s).insert(k, value));
                proof {
                    lemma_pairs_map_value(s, i as int);
                }
            },
            None => {
                self.entries.push((key, value));
                let ghost t = self.pairs();
                assert(t =~= s.push((k, value)));
                assert(t.drop_last() =~= s);
                proof {
                    lemma_pairs_map_dom(s, k);
                }
            },
        }
    }

    /// Adds one to the value held under `key`, which starts from 0 where
    /// there is none.
    pub fn increment(&mut self, key: &str)
        requires
            old(self).wf(),
            old(self).count_of(key@) < u64::MAX,
        ensures
            final(self).wf(),
            final(self)@ == old(self)@.insert(key@, (old(self).count_of(key@) + 1) as u64),
    {
        let current = match self.get(key) {
            Some(c) => c,
            None => 0,
        };
        self.insert(key.to_owned(), current + 1);
    }

    /// Removes every key.
    pub fn clear(&mut self)
        ensures
            final(self).wf(),
            final(self)@ == Map::<Seq<char>, u64>::empty(),
    {
        self.entries.clear();
        assert(self.pairs() =~= Seq::<(Seq<char>, u64)>::empty());
    }

    /// A table with the same keys and values.
    pub fn copy(&self) -> (t: ScoreTable)
        requires
            self.wf(),
        ensures
            t.wf(),
            t@ == self@,
            t.pairs() == self.pairs(),
    {
        let n = self.entries.len();
        let mut entries: Vec<(String, u64)> = Vec::new();
        let mut i: usize = 0;
        while i < n
            invariant
                n == self.entries@.len(),
                i <= n,
                entries@.len() == i,
                pairs_view(entries@) =~= self.pairs().take(i as int),
            decreases n - i,
        {
            let k = self.entries[i].0.clone();
            let v = self.entries[i].1;
            entries.push((k, v));
            i = i + 1;
        }
        assert(self.pairs().take(n as int) =~= self.pairs());
        ScoreTable { entries }
    }

    /// The table that inserting each pair of `pairs` in turn builds.
    pub fn from_pairs(pairs: Vec<(String, u64)>) -> (t: ScoreTable)
        ensures
            t.wf(),
            t@ == pairs_map(pairs_view(pairs@)),
    {
        let ghost ps = pairs_view(pairs@);
        let mut t = ScoreTable::new();
        let n = pairs.len();
        let mut i: usize = 0;
        while i < n
            invariant
                n == pairs@.len(),
                ps == pairs_view(pairs@),
                i <= n,
                t.wf(),
                t@ == pairs_map(ps.take(i as int)),
            decreases n - i,
        {
            let k = pairs[i].0.clone();
            let v = pairs[i].1;
            t.insert(k, v);
            assert(ps.take(i + 1).drop_last() =~= ps.take(i as int));
            i = i + 1;
        }
        assert(ps.take(n as int) =~= ps);
        t
    }

    /// The pairs, keys distinct, in insertion order.
    pub fn to_pairs(&self) -> (v: Vec<(String, u64)>)
        requires
            self.wf(),
        ensures
            pairs_view(v@) == self.pairs(),
    {
        let t = self.copy();
        t.entries
    }
}

} // verus!
