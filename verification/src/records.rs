//! Records keyed by text, each key at most once: a small map whose contents
//! are seen as a `Map` from key texts to the records' views.
use vstd::prelude::*;

use crate::text::str_eq;

verus! {

/// Records keyed by text; no key occurs twice.
#[derive(Debug)]
pub struct KeyedRecords<V> {
    entries: Vec<(String, V)>,
}

/// No key occurs twice in `entries`.
pub open spec fn distinct_record_keys<V>(entries: Seq<(String, V)>) -> bool {
    forall|i: int, j: int|
        0 <= i < entries.len() && 0 <= j < entries.len() && i != j ==> (#[trigger] entries[i]).0@
            != (#[trigger] entries[j]).0@
}

/// The map of key texts to record views that `entries` holds.
pub open spec fn records_map<V: View>(entries: Seq<(String, V)>) -> Map<Seq<char>, V::V>
    decreases entries.len(),
{
    if entries.len() == 0 {
        Map::empty()
    } else {
        records_map(entries.drop_last()).insert(entries.last().0@, entries.last().1@)
    }
}

proof fn lemma_records_lookup<V: View>(entries: Seq<(String, V)>, i: int)
    requires
        distinct_record_keys(entries),
        0 <= i < entries.len(),
    ensures
        records_map(entries).contains_key(entries[i].0@),
        records_map(entries)[entries[i].0@] == entries[i].1@,
    decreases entries.len(),
{
    if i < entries.len() - 1 {
        let rest = entries.drop_last();
        assert(distinct_record_keys(rest)) by {
            assert forall|a: int, b: int|
                0 <= a < rest.len() && 0 <= b < rest.len() && a != b implies (#[trigger] rest[a]).0@
                != (#[trigger] rest[b]).0@ by {
                assert(rest[a] == entries[a]);
                assert(rest[b] == entries[b]);
            }
        }
        assert(rest[i] == entries[i]);
        lemma_records_lookup(rest, i);
        assert(entries[entries.len() - 1].0@ != entries[i].0@);
    }
}

proof fn lemma_records_absent<V: View>(entries: Seq<(String, V)>, k: Seq<char>)
    requires
        forall|i: int| 0 <= i < entries.len() ==> (#[trigger] entries[i]).0@ != k,
    ensures
        !records_map(entries).contains_key(k),
    decreases entries.len(),
{
    if entries.len() > 0 {
        let rest = entries.drop_last();
        assert forall|i: int| 0 <= i < rest.len() implies (#[trigger] rest[i]).0@ != k by {
            assert(rest[i] == entries[i]);
        }
        lemma_records_absent(rest, k);
    }
}

proof fn lemma_records_dom<V: View>(entries: Seq<(String, V)>, k: Seq<char>)
    requires
        records_map(entries).contains_key(k),
    ensures
        exists|i: int| 0 <= i < entries.len() && (#[trigger] entries[i]).0@ == k,
    decreases entries.len(),
{
    if entries.len() > 0 {
        if entries.last().0@ != k {
            let rest = entries.drop_last();
            lemma_records_dom(rest, k);
            let i = choose|i: int| 0 <= i < rest.len() && (#[trigger] rest[i]).0@ == k;
            assert(entries[i] == rest[i]);
        }
    }
}

impl<V: View> View for KeyedRecords<V> {
    type V = Map<Seq<char>, V::V>;

    closed spec fn view(&self) -> Map<Seq<char>, V::V> {
        records_map(self.entries@)
    }
}

impl<V: View> KeyedRecords<V> {
    /// Keys are distinct.
    pub closed spec fn wf(&self) -> bool {
        distinct_record_keys(self.entries@)
    }

    /// The records, with their keys.
    pub closed spec fn entries_view(&self) -> Seq<(String, V)> {
        self.entries@
    }

    /// No records.
    pub fn new() -> (r: Self)
        ensures
            r.wf(),
            r@ == Map::<Seq<char>, V::V>::empty(),
    {
        KeyedRecords { entries: Vec::new() }
    }

    fn position(&self, key: &str) -> (r: Option<usize>)
        ensures
            r matches Some(i) ==> i < self.entries@.len() && self.entries@[i as int].0@ == key@,
            r is None ==> forall|i: int|
                0 <= i < self.entries@.len() ==> (#[trigger] self.entries@[i]).0@ != key@,
    {
        let mut i: usize = 0;
        while i < self.entries.len()
            invariant
                i <= self.entries@.len(),
                forall|j: int| 0 <= j < i ==> (#[trigger] self.entries@[j]).0@ != key@,
            decreases self.entries.len() - i,
        {
            if str_eq(self.entries[i].0.as_str(), key) {
                return Some(i);
            }
            i += 1;
        }
        None
    }

    /// The record of `key`, if there is one.
    pub fn get(&self, key: &str) -> (r: Option<&V>)
        requires
            self.wf(),
        ensures
            r matches Some(v) ==> self@.contains_key(key@) && self@[key@] == v@,
            r is None ==> !self@.contains_key(key@),
    {
        match self.position(key) {
            Some(i) => {
                proof {
                    lemma_records_lookup(self.entries@, i as int);
                }
                Some(&self.entries[i].1)
            },
            None => {
                proof {
                    lemma_records_absent(self.entries@, key@);
                }
                None
            },
        }
    }

    /// There is a record of `key`.
    pub fn contains_key(&self, key: &str) -> (b: bool)
        requires
            self.wf(),
        ensures
            b == self@.contains_key(key@),
    {
        self.get(key).is_some()
    }

    /// Adds the record of a key that has none yet.
    pub fn insert_new(&mut self, key: String, value: V)
        requires
            old(self).wf(),
            !old(self)@.contains_key(key@),
        ensures
            final(self).wf(),
            final(self)@ == old(self)@.insert(key@, value@),
    {
        let ghost before = self.entries@;
        proof {
            assert forall|i: int| 0 <= i < before.len() implies (#[trigger] before[i]).0@ != key@ by {
                lemma_records_lookup(before, i);
            }
        }
        self.entries.push((key, value));
        proof {
            let after = self.entries@;
            assert(after.drop_last() =~= before);
            assert(distinct_record_keys(after)) by {
                assert forall|a: int, b: int|
                    0 <= a < after.len() && 0 <= b < after.len() && a != b implies (
                    #[trigger] after[a]).0@ != (#[trigger] after[b]).0@ by {
                    if a < before.len() && b < before.len() {
                        assert(after[a] == before[a]);
                        assert(after[b] == before[b]);
                    } else if a < before.len() {
                        assert(after[a] == before[a]);
                    } else {
                        assert(after[b] == before[b]);
                    }
                }
            }
        }
    }

    /// Replaces the record of a key that has one.
    pub fn replace(&mut self, key: &str, value: V)
        requires
            old(self).wf(),
            old(self)@.contains_key(key@),
        ensures
            final(self).wf(),
            final(self)@ == old(self)@.insert(key@, value@),
    {
        let ghost value_view = value@;
        let i = match self.position(key) {
            Some(i) => i,
            None => {
                proof {
                    lemma_records_absent(self.entries@, key@);
                }
                return;
            },
        };
        let ghost before = self.entries@;
        let stored_key = self.entries[i].0.clone();
        self.entries.set(i, (stored_key, value));
        proof {
            let after = self.entries@;
            assert(after[i as int].0@ == key@);
            assert(distinct_record_keys(after)) by {
                assert forall|a: int, b: int|
                    0 <= a < after.len() && 0 <= b < after.len() && a != b implies (
                    #[trigger] after[a]).0@ != (#[trigger] after[b]).0@ by {
                    if a != i && b != i {
                        assert(after[a] == before[a]);
                        assert(after[b] == before[b]);
                    } else if a == i {
                        assert(after[b] == before[b]);
                    } else {
                        assert(after[a] == before[a]);
                    }
                }
            }
            lemma_records_lookup(after, i as int);
            assert forall|k: Seq<char>| #[trigger]
                records_map(after).contains_key(k) <==> records_map(before).insert(
                    key@,
                    value_view,
                ).contains_key(k) by {
                if records_map(after).contains_key(k) {
                    lemma_records_dom(after, k);
                    let j = choose|j: int| 0 <= j < after.len() && (#[trigger] after[j]).0@ == k;
                    if j != i {
                        assert(after[j] == before[j]);
                        lemma_records_lookup(before, j);
                    }
                }
                if records_map(before).insert(key@, value_view).contains_key(k) && k != key@ {
                    lemma_records_dom(before, k);
                    let j = choose|j: int| 0 <= j < before.len() && (#[trigger] before[j]).0@ == k;
                    assert(j != i);
                    assert(after[j] == before[j]);
                    lemma_records_lookup(after, j);
                }
            }
            assert forall|k: Seq<char>| #[trigger]
                records_map(after).contains_key(k) implies records_map(after)[k] == records_map(
                before,
            ).insert(key@, value_view)[k] by {
                lemma_records_dom(after, k);
                let j = choose|j: int| 0 <= j < after.len() && (#[trigger] after[j]).0@ == k;
                lemma_records_lookup(after, j);
                if j != i {
                    assert(after[j] == before[j]);
                    lemma_records_lookup(before, j);
                }
            }
            assert(records_map(after) =~= records_map(before).insert(key@, value_view));
        }
    }

    /// The records with their keys, in the order they were added.
    pub fn entries(&self) -> (r: &Vec<(String, V)>)
        ensures
            r@ == self.entries_view(),
            self.wf() ==> records_map(r@) == self@ && distinct_record_keys(r@),
    {
        &self.entries
    }

    /// The records with their keys, given up.
    pub fn into_entries(self) -> (r: Vec<(String, V)>)
        ensures
            self.wf() ==> records_map(r@) == self@ && distinct_record_keys(r@),
    {
        self.entries
    }

    /// Records from keyed pairs; `None` where a key repeats.
    pub fn from_entries(entries: Vec<(String, V)>) -> (r: Option<Self>)
        ensures
            match r {
                Some(records) => records.wf() && records@ == records_map(entries@)
                    && records.entries_view() == entries@,
                None => !distinct_record_keys(entries@),
            },
    {
        let mut i: usize = 0;
        while i < entries.len()
            invariant
                i <= entries.len(),
                forall|a: int, b: int|
                    0 <= a < i && 0 <= b < entries.len() && a != b ==> (#[trigger] entries@[a]).0@
                        != (#[trigger] entries@[b]).0@,
            decreases entries.len() - i,
        {
            let mut j: usize = 0;
            while j < entries.len()
                invariant
                    i < entries.len(),
                    j <= entries.len(),
                    forall|b: int|
                        0 <= b < j && b != i ==> entries@[i as int].0@ != (#[trigger] entries@[b]).0@,
                decreases entries.len() - j,
            {
                if j != i && str_eq(entries[i].0.as_str(), entries[j].0.as_str()) {
                    return None;
                }
                j += 1;
            }
            i += 1;
        }
        Some(KeyedRecords { entries })
    }
}

} // verus!
