//! A string-keyed key/value table: the in-memory form of a storage
//! collection addressed by a single string primary key.
//!
//! The table is a vector of entries with pairwise-distinct keys; its view
//! is the finite map from key character sequences to the deep views of
//! the stored values.

use vstd::prelude::*;

verus! {

/// The key of entry `i`, as a character sequence.
pub open spec fn key_at<T>(s: Seq<(String, T)>, i: int) -> Seq<char> {
    s[i].0@
}

/// No two entries share a key.
pub open spec fn keys_distinct<T>(s: Seq<(String, T)>) -> bool {
    forall|i: int, j: int| 0 <= i < j < s.len() ==> key_at(s, i) != key_at(s, j)
}

/// The mapping described by a sequence of entries; a later entry for a
/// key shadows an earlier one.
pub open spec fn entries_map<T: DeepView>(s: Seq<(String, T)>) -> Map<Seq<char>, T::V>
    decreases s.len(),
{
    if s.len() == 0 {
        Map::empty()
    } else {
        entries_map(s.drop_last()).insert(s.last().0@, s.last().1.deep_view())
    }
}

proof fn lemma_entries_map_contains<T: DeepView>(s: Seq<(String, T)>, k: Seq<char>)
    ensures
        entries_map(s).contains_key(k) <==> exists|i: int| 0 <= i < s.len() && key_at(s, i) == k,
    decreases s.len(),
{
    if s.len() > 0 {
        lemma_entries_map_contains(s.drop_last(), k);
        if s.last().0@ == k {
            assert(key_at(s, s.len() - 1) == k);
        } else {
            if exists|i: int| 0 <= i < s.len() && key_at(s, i) == k {
                let i = choose|i: int| 0 <= i < s.len() && key_at(s, i) == k;
                assert(i < s.len() - 1);
                assert(key_at(s.drop_last(), i) == k);
            }
            if exists|i: int| 0 <= i < s.drop_last().len() && key_at(s.drop_last(), i) == k {
                let i = choose|i: int| 0 <= i < s.drop_last().len() && key_at(s.drop_last(), i) == k;
                assert(key_at(s, i) == k);
            }
        }
    }
}

proof fn lemma_keys_distinct_drop_last<T>(s: Seq<(String, T)>)
    requires
        keys_distinct(s),
        s.len() > 0,
    ensures
        keys_distinct(s.drop_last()),
{
    assert forall|i: int, j: int| 0 <= i < j < s.drop_last().len() implies key_at(
        s.drop_last(),
        i,
    ) != key_at(s.drop_last(), j) by {
        assert(key_at(s.drop_last(), i) == key_at(s, i));
        assert(key_at(s.drop_last(), j) == key_at(s, j));
    }
}

proof fn lemma_entries_map_index<T: DeepView>(s: Seq<(String, T)>, i: int)
    requires
        keys_distinct(s),
        0 <= i < s.len(),
    ensures
        entries_map(s).contains_key(key_at(s, i)),
        entries_map(s)[key_at(s, i)] == s[i].1.deep_view(),
    decreases s.len(),
{
    lemma_keys_distinct_drop_last(s);
    if i < s.len() - 1 {
        lemma_entries_map_index(s.drop_last(), i);
        assert(key_at(s.drop_last(), i) == key_at(s, i));
        assert(key_at(s, i) != key_at(s, s.len() - 1));
    }
}

proof fn lemma_entries_map_update<T: DeepView>(s: Seq<(String, T)>, i: int, p: (String, T))
    requires
        keys_distinct(s),
        0 <= i < s.len(),
        s[i].0@ == p.0@,
    ensures
        entries_map(s.update(i, p)) =~= entries_map(s).insert(p.0@, p.1.deep_view()),
        keys_distinct(s.update(i, p)),
    decreases s.len(),
{
    let su = s.update(i, p);
    assert forall|a: int, b: int| 0 <= a < b < su.len() implies key_at(su, a) != key_at(
        su,
        b,
    ) by {
        assert(key_at(su, a) == key_at(s, a));
        assert(key_at(su, b) == key_at(s, b));
    }
    lemma_keys_distinct_drop_last(s);
    if i == s.len() - 1 {
        assert(su.drop_last() =~= s.drop_last());
    } else {
        lemma_entries_map_update(s.drop_last(), i, p);
        assert(su.drop_last() =~= s.drop_last().update(i, p));
        assert(su.last() == s.last());
        assert(key_at(s, i) != key_at(s, s.len() - 1));
    }
}

proof fn lemma_entries_map_remove<T: DeepView>(s: Seq<(String, T)>, i: int)
    requires
        keys_distinct(s),
        0 <= i < s.len(),
    ensures
        entries_map(s.remove(i)) =~= entries_map(s).remove(key_at(s, i)),
        keys_distinct(s.remove(i)),
    decreases s.len(),
{
    let sr = s.remove(i);
    assert forall|a: int, b: int| 0 <= a < b < sr.len() implies key_at(sr, a) != key_at(
        sr,
        b,
    ) by {
        let a0 = if a < i { a } else { a + 1 };
        let b0 = if b < i { b } else { b + 1 };
        assert(key_at(sr, a) == key_at(s, a0));
        assert(key_at(sr, b) == key_at(s, b0));
    }
    lemma_keys_distinct_drop_last(s);
    if i == s.len() - 1 {
        assert(sr =~= s.drop_last());
        lemma_entries_map_contains(s.drop_last(), s.last().0@);
        assert(!entries_map(s.drop_last()).contains_key(s.last().0@)) by {
            if exists|j: int| 0 <= j < s.drop_last().len() && key_at(s.drop_last(), j)
                == s.last().0@ {
                let j = choose|j: int|
                    0 <= j < s.drop_last().len() && key_at(s.drop_last(), j) == s.last().0@;
                assert(key_at(s, j) == key_at(s, s.len() - 1));
            }
        }
    } else {
        lemma_entries_map_remove(s.drop_last(), i);
        assert(sr.drop_last() =~= s.drop_last().remove(i));
        assert(sr.last() == s.last());
        assert(key_at(s, i) != key_at(s, s.len() - 1));
    }
}

proof fn lemma_entries_map_len<T: DeepView>(s: Seq<(String, T)>)
    requires
        keys_distinct(s),
    ensures
        entries_map(s).dom().finite(),
        entries_map(s).dom().len() == s.len(),
    decreases s.len(),
{
    if s.len() > 0 {
        lemma_keys_distinct_drop_last(s);
        lemma_entries_map_len(s.drop_last());
        lemma_entries_map_contains(s.drop_last(), s.last().0@);
        assert(!entries_map(s.drop_last()).contains_key(s.last().0@)) by {
            if exists|j: int| 0 <= j < s.drop_last().len() && key_at(s.drop_last(), j)
                == s.last().0@ {
                let j = choose|j: int|
                    0 <= j < s.drop_last().len() && key_at(s.drop_last(), j) == s.last().0@;
                assert(key_at(s, j) == key_at(s, s.len() - 1));
            }
        }
    }
}

/// A collection keyed by a single string attribute.
pub struct Table<T> {
    entries: Vec<(String, T)>,
}

impl<T: DeepView> View for Table<T> {
    type V = Map<Seq<char>, T::V>;

    closed spec fn view(&self) -> Map<Seq<char>, T::V> {
        entries_map(self.entries@)
    }
}

impl<T: DeepView> Table<T> {
    /// Well-formed: no key occurs twice.
    pub closed spec fn wf(&self) -> bool {
        keys_distinct(self.entries@)
    }

    /// An empty table.
    pub fn new() -> (t: Table<T>)
        ensures
            t.wf(),
            t@ == Map::<Seq<char>, T::V>::empty(),
    {
        Table { entries: Vec::new() }
    }

    /// The number of records.
    pub fn len(&self) -> (n: usize)
        requires
            self.wf(),
        ensures
            n == self@.len(),
    {
        proof {
            lemma_entries_map_len(self.entries@);
        }
        self.entries.len()
    }

    /// Whether the table has no records.
    pub fn is_empty(&self) -> (b: bool)
        requires
            self.wf(),
        ensures
            b <==> self@ == Map::<Seq<char>, T::V>::empty(),
    {
        proof {
            lemma_entries_map_len(self.entries@);
            if self.entries@.len() == 0 {
                assert(self@ =~= Map::<Seq<char>, T::V>::empty());
            } else {
                assert(self@.dom().len() != 0);
                assert(Map::<Seq<char>, T::V>::empty().dom().len() == 0);
            }
        }
        self.entries.is_empty()
    }

    /// The position of the entry with this key, if any.
    fn index_of(&self, key: &str) -> (r: Option<usize>)
        requires
            self.wf(),
        ensures
            match r {
                Some(i) => i < self.entries@.len() && key_at(self.entries@, i as int) == key@
                    && self@.contains_key(key@) && self@[key@] == self.entries@[i as int
                ].1.deep_view(),
                None => !self@.contains_key(key@),
            },
    {
        let k: String = key.to_owned();
        let n = self.entries.len();
        let mut i: usize = 0;
        while i < n
            invariant
                n == self.entries.len(),
                i <= n,
                self.wf(),
                k@ == key@,
                forall|j: int| 0 <= j < i ==> key_at(self.entries@, j) != key@,
            decreases n - i,
        {
            if self.entries[i].0 == k {
                proof {
                    lemma_entries_map_index(self.entries@, i as int);
                }
                return Some(i);
            }
            i += 1;
        }
        proof {
            lemma_entries_map_contains(self.entries@, key@);
        }
        None
    }

    /// Look a record up by key.
    pub fn get<'a>(&'a self, key: &str) -> (r: Option<&'a T>)
        requires
            self.wf(),
        ensures
            match r {
                Some(v) => self@.contains_key(key@) && v.deep_view() == self@[key@],
                None => !self@.contains_key(key@),
            },
    {
        match self.index_of(key) {
            Some(i) => Some(&self.entries[i].1),
            None => None,
        }
    }

    /// Whether a record with this key exists.
    pub fn contains_key(&self, key: &str) -> (b: bool)
        requires
            self.wf(),
        ensures
            b == self@.contains_key(key@),
    {
        self.get(key).is_some()
    }

    /// Insert a record, overwriting any record with the same key.
    pub fn insert(&mut self, key: String, value: T)
        requires
            old(self).wf(),
        ensures
            final(self).wf(),
            final(self)@ == old(self)@.insert(key@, value.deep_view()),
    {
        let ghost kv = key@;
        let ghost vv = value.deep_view();
        match self.index_of(key.as_str()) {
            Some(i) => {
                self.entries[i] = (key, value);
                proof {
                    lemma_entries_map_update(old(self).entries@, i as int, self.entries@[i as int]);
                    assert(final(self)@ =~= old(self)@.insert(kv, vv));
                }
            },
            None => {
                self.entries.push((key, value));
                proof {
                    lemma_entries_map_contains(old(self).entries@, kv);
                    assert(self.entries@.drop_last() =~= old(self).entries@);
                    assert forall|a: int, b: int|
                        0 <= a < b < self.entries@.len() implies key_at(self.entries@, a)
                        != key_at(self.entries@, b) by {
                        if b < self.entries@.len() - 1 {
                            assert(key_at(self.entries@, a) == key_at(old(self).entries@, a));
                            assert(key_at(self.entries@, b) == key_at(old(self).entries@, b));
                        } else {
                            assert(key_at(self.entries@, a) == key_at(old(self).entries@, a));
                            assert(key_at(self.entries@, b) == kv);
                        }
                    }
                    assert(final(self)@ =~= old(self)@.insert(kv, vv));
                }
            },
        }
    }

    /// Remove the record with this key, if any, and return its value.
    pub fn remove(&mut self, key: &str) -> (r: Option<T>)
        requires
            old(self).wf(),
        ensures
            final(self).wf(),
            final(self)@ == old(self)@.remove(key@),
            match r {
                Some(v) => old(self)@.contains_key(key@) && v.deep_view() == old(self)@[key@],
                None => !old(self)@.contains_key(key@),
            },
    {
        match self.index_of(key) {
            Some(i) => {
                proof {
                    lemma_entries_map_remove(self.entries@, i as int);
                }
                let pair = self.entries.remove(i);
                Some(pair.1)
            },
            None => {
                proof {
                    assert(old(self)@.remove(key@) =~= old(self)@);
                }
                None
            },
        }
    }

    /// The entry at a position, for walking the records one by one.
    pub fn entry_at<'a>(&'a self, i: usize) -> (r: (&'a String, &'a T))
        requires
            self.wf(),
            i < self@.len(),
        ensures
            self@.contains_key(r.0@),
            r.1.deep_view() == self@[r.0@],
    {
        proof {
            lemma_entries_map_len(self.entries@);
            lemma_entries_map_index(self.entries@, i as int);
        }
        (&self.entries[i].0, &self.entries[i].1)
    }

    /// Remove every record.
    pub fn clear(&mut self)
        ensures
            final(self).wf(),
            final(self)@ == Map::<Seq<char>, T::V>::empty(),
    {
        self.entries.clear();
        proof {
            assert(final(self)@ =~= Map::<Seq<char>, T::V>::empty());
        }
    }
}

} // verus!
