//! A string-keyed map of environment variables, with distinct keys.
use vstd::prelude::*;

use crate::text::{chars_of, is_blank, str_eq};

verus! {

/// Environment variables: each key occurs once.
#[derive(Clone, Debug)]
pub struct EnvVars {
    entries: Vec<(String, String)>,
}

/// No key occurs twice.
pub open spec fn distinct_keys(entries: Seq<(String, String)>) -> bool {
    forall|i: int, j: int|
        0 <= i < entries.len() && 0 <= j < entries.len() && i != j ==> (#[trigger] entries[i]).0@
            != (#[trigger] entries[j]).0@
}

/// The map of keys to values that `entries` holds.
pub open spec fn entries_map(entries: Seq<(String, String)>) -> Map<Seq<char>, Seq<char>>
    decreases entries.len(),
{
    if entries.len() == 0 {
        Map::empty()
    } else {
        entries_map(entries.drop_last()).insert(entries.last().0@, entries.last().1@)
    }
}

proof fn lemma_entries_map_lookup(entries: Seq<(String, String)>, i: int)
    requires
        distinct_keys(entries),
        0 <= i < entries.len(),
    ensures
        entries_map(entries).contains_key(entries[i].0@),
        entries_map(entries)[entries[i].0@] == entries[i].1@,
    decreases entries.len(),
{
    if i < entries.len() - 1 {
        let rest = entries.drop_last();
        assert(distinct_keys(rest)) by {
            assert forall|a: int, b: int|
                0 <= a < rest.len() && 0 <= b < rest.len() && a != b implies (#[trigger] rest[a]).0@
                != (#[trigger] rest[b]).0@ by {
                assert(rest[a] == entries[a]);
                assert(rest[b] == entries[b]);
            }
        }
        assert(rest[i] == entries[i]);
        lemma_entries_map_lookup(rest, i);
        assert(entries[entries.len() - 1].0@ != entries[i].0@);
    }
}

proof fn lemma_entries_map_absent(entries: Seq<(String, String)>, k: Seq<char>)
    requires
        forall|i: int| 0 <= i < entries.len() ==> (#[trigger] entries[i]).0@ != k,
    ensures
        !entries_map(entries).contains_key(k),
    decreases entries.len(),
{
    if entries.len() > 0 {
        let rest = entries.drop_last();
        assert forall|i: int| 0 <= i < rest.len() implies (#[trigger] rest[i]).0@ != k by {
            assert(rest[i] == entries[i]);
        }
        lemma_entries_map_absent(rest, k);
    }
}

proof fn lemma_entries_map_dom(entries: Seq<(String, String)>, k: Seq<char>)
    requires
        entries_map(entries).contains_key(k),
    ensures
        exists|i: int| 0 <= i < entries.len() && (#[trigger] entries[i]).0@ == k,
    decreases entries.len(),
{
    if entries.len() > 0 {
        if entries.last().0@ != k {
            let rest = entries.drop_last();
            lemma_entries_map_dom(rest, k);
            let i = choose|i: int| 0 <= i < rest.len() && (#[trigger] rest[i]).0@ == k;
            assert(entries[i] == rest[i]);
        }
    }
}

impl View for EnvVars {
    type V = Map<Seq<char>, Seq<char>>;

    closed spec fn view(&self) -> Map<Seq<char>, Seq<char>> {
        entries_map(self.entries@)
    }
}

impl EnvVars {
    /// Keys are distinct.
    pub closed spec fn wf(&self) -> bool {
        distinct_keys(self.entries@)
    }

    /// An empty environment.
    pub fn new() -> (e: Self)
        ensures
            e.wf(),
            e@ == Map::<Seq<char>, Seq<char>>::empty(),
    {
        EnvVars { entries: Vec::new() }
    }

    fn position(&self, key: &str) -> (r: Option<usize>)
        ensures
            r matches Some(i) ==> i < self.entries@.len() && self.entries@[i as int].0@ == key@,
            r is None ==> forall|i: int|
                0 <= i < self.entries@.len() ==> (#[trigger] self.entries@[i]).0@ != key@,
    {
        let mut i: usize = 0;
        while i < self.entries.len()
            invariant
                i <= self.entries@.len(),
                forall|j: int| 0 <= j < i ==> (#[trigger] self.entries@[j]).0@ != key@,
            decreases self.entries.len() - i,
        {
            if str_eq(self.entries[i].0.as_str(), key) {
                return Some(i);
            }
            i += 1;
        }
        None
    }

    /// The variables as pairs of name and value.
    pub fn to_pairs(&self) -> (r: &Vec<(String, String)>)
        requires
            self.wf(),
        ensures
            distinct_keys(r@),
            entries_map(r@) == self@,
    {
        &self.entries
    }

    /// The value of `key`, if set.
    pub fn get(&self, key: &str) -> (r: Option<&String>)
        requires
            self.wf(),
        ensures
            r matches Some(v) ==> self@.contains_key(key@) && self@[key@] == v@,
            r is None ==> !self@.contains_key(key@),
    {
        match self.position(key) {
            Some(i) => {
                proof {
                    lemma_entries_map_lookup(self.entries@, i as int);
                }
                Some(&self.entries[i].1)
            },
            None => {
                proof {
                    lemma_entries_map_absent(self.entries@, key@);
                }
                None
            },
        }
    }

    /// `key` is set.
    pub fn contains_key(&self, key: &str) -> (b: bool)
        requires
            self.wf(),
        ensures
            b == self@.contains_key(key@),
    {
        self.get(key).is_some()
    }

    /// Sets `key` to `value`, replacing an earlier value.
    pub fn insert(&mut self, key: String, value: String)
        requires
            old(self).wf(),
        ensures
            final(self).wf(),
            final(self)@ == old(self)@.insert(key@, value@),
    {
        let ghost key_view = key@;
        let ghost value_view = value@;
        match self.position(key.as_str()) {
            Some(i) => {
                let ghost before = self.entries@;
                self.entries.set(i, (key, value));
                proof {
                    let after = self.entries@;
                    assert(distinct_keys(after)) by {
                        assert forall|a: int, b: int|
                            0 <= a < after.len() && 0 <= b < after.len() && a != b implies (
                            #[trigger] after[a]).0@ != (#[trigger] after[b]).0@ by {
                            if a != i && b != i {
                                assert(after[a] == before[a]);
                                assert(after[b] == before[b]);
                            } else if a == i {
                                assert(after[b] == before[b]);
                            } else {
                                assert(after[a] == before[a]);
                            }
                        }
                    }
                    lemma_entries_map_lookup(after, i as int);
                    assert forall|k: Seq<char>| #[trigger]
                        entries_map(after).contains_key(k) <==> entries_map(
                            before,
                        ).insert(key_view, value_view).contains_key(k) by {
                        if entries_map(after).contains_key(k) {
                            lemma_entries_map_dom(after, k);
                            let j = choose|j: int|
                                0 <= j < after.len() && (#[trigger] after[j]).0@ == k;
                            if j != i {
                                assert(after[j] == before[j]);
                                lemma_entries_map_lookup(before, j);
                            }
                        }
                        if entries_map(before).insert(key_view, value_view).contains_key(k) && k
                            != key_view {
                            lemma_entries_map_dom(before, k);
                            let j = choose|j: int|
                                0 <= j < before.len() && (#[trigger] before[j]).0@ == k;
                            assert(j != i);
                            assert(after[j] == before[j]);
                            lemma_entries_map_lookup(after, j);
                        }
                    }
                    assert forall|k: Seq<char>| #[trigger]
                        entries_map(after).contains_key(k) implies entries_map(after)[k]
                        == entries_map(before).insert(key_view, value_view)[k] by {
                        lemma_entries_map_dom(after, k);
                        let j = choose|j: int|
                            0 <= j < after.len() && (#[trigger] after[j]).0@ == k;
                        lemma_entries_map_lookup(after, j);
                        if j != i {
                            assert(after[j] == before[j]);
                            lemma_entries_map_lookup(before, j);
                        }
                    }
                    assert(entries_map(after) =~= entries_map(before).insert(key_view, value_view));
                }
            },
            None => {
                let ghost before = self.entries@;
                self.entries.push((key, value));
                proof {
                    let after = self.entries@;
                    assert(after.drop_last() =~= before);
                    assert(distinct_keys(after)) by {
                        assert forall|a: int, b: int|
                            0 <= a < after.len() && 0 <= b < after.len() && a != b implies (
                            #[trigger] after[a]).0@ != (#[trigger] after[b]).0@ by {
                            if a < before.len() && b < before.len() {
                                assert(after[a] == before[a]);
                                assert(after[b] == before[b]);
                            } else if a < before.len() {
                                assert(after[a] == before[a]);
                            } else {
                                assert(after[b] == before[b]);
                            }
                        }
                    }
                }
            },
        }
    }

    /// Builds an environment from pairs; a later pair for the same key wins.
    pub fn from_pairs(pairs: Vec<(String, String)>) -> (e: Self)
        ensures
            e.wf(),
            e@ == entries_map(pairs@),
    {
        let mut e = EnvVars::new();
        let mut i: usize = 0;
        while i < pairs.len()
            invariant
                i <= pairs@.len(),
                e.wf(),
                e@ == entries_map(pairs@.take(i as int)),
            decreases pairs.len() - i,
        {
            let k = pairs[i].0.clone();
            let v = pairs[i].1.clone();
            e.insert(k, v);
            assert(pairs@.take(i + 1).drop_last() =~= pairs@.take(i as int));
            i += 1;
        }
        assert(pairs@.take(pairs@.len() as int) =~= pairs@);
        e
    }

    /// The value of `key`, trimmed, when it is not blank.
    pub fn non_blank(&self, key: &str) -> (r: Option<String>)
        requires
            self.wf(),
        ensures
            r matches Some(v) ==> self@.contains_key(key@) && !is_blank(self@[key@]) && v@
                == self@[key@],
            r is None ==> !self@.contains_key(key@) || is_blank(self@[key@]),
    {
        match self.get(key) {
            Some(value) => {
                if crate::text::blank_str(value.as_str()) {
                    None
                } else {
                    Some(value.clone())
                }
            },
            None => None,
        }
    }

    /// Removes every variable whose name starts with `prefix`.
    pub fn remove_prefixed(&mut self, prefix: &str)
        requires
            old(self).wf(),
        ensures
            final(self).wf(),
            forall|k: Seq<char>| #[trigger]
                final(self)@.contains_key(k) <==> old(self)@.contains_key(k)
                    && !crate::text::starts_with(k, prefix@),
            forall|k: Seq<char>| #[trigger] final(self)@.contains_key(k) ==> final(self)@[k] == old(
                self,
            )@[k],
    {
        let p = chars_of(prefix);
        let ghost before = self.entries@;
        let ghost mut idx: Seq<int> = Seq::empty();
        let mut kept: Vec<(String, String)> = Vec::new();
        let mut i: usize = 0;
        while i < self.entries.len()
            invariant
                i <= self.entries@.len(),
                self.entries@ == before,
                distinct_keys(before),
                p@ == prefix@,
                idx.len() == kept@.len(),
                forall|a: int|
                    0 <= a < kept@.len() ==> 0 <= #[trigger] idx[a] < i && kept@[a] == before[idx[a]]
                        && !crate::text::starts_with(before[idx[a]].0@, prefix@),
                forall|b: int|
                    0 <= b < i && !crate::text::starts_with(#[trigger] before[b].0@, prefix@)
                        ==> exists|a: int| 0 <= a < kept@.len() && kept@[a] == before[b],
                distinct_keys(kept@),
                forall|a: int, b: int|
                    0 <= a < kept@.len() && i <= b < before.len() ==> (#[trigger] kept@[a]).0@
                        != (#[trigger] before[b]).0@,
            decreases self.entries.len() - i,
        {
            let name = chars_of(self.entries[i].0.as_str());
            if !crate::text::starts_with_chars(&name, &p) {
                let ghost kept_before = kept@;
                kept.push((self.entries[i].0.clone(), self.entries[i].1.clone()));
                proof {
                    idx = idx.push(i as int);
                    assert(kept@[kept@.len() - 1] == before[i as int]);
                    assert forall|a: int|
                        0 <= a < kept@.len() implies 0 <= #[trigger] idx[a] < i + 1 && kept@[a]
                        == before[idx[a]] && !crate::text::starts_with(
                        before[idx[a]].0@,
                        prefix@,
                    ) by {
                        if a < kept_before.len() {
                            assert(kept@[a] == kept_before[a]);
                        }
                    }
                    assert forall|b: int|
                        0 <= b < i + 1 && !crate::text::starts_with(
                            #[trigger] before[b].0@,
                            prefix@,
                        ) implies exists|a: int| 0 <= a < kept@.len() && kept@[a] == before[b] by {
                        if b < i {
                            let a = choose|a: int|
                                0 <= a < kept_before.len() && kept_before[a] == before[b];
                            assert(kept@[a] == kept_before[a]);
                        } else {
                            assert(kept@[kept@.len() - 1] == before[b]);
                        }
                    }
                    assert forall|a: int, b: int|
                        0 <= a < kept@.len() && 0 <= b < kept@.len() && a != b implies (
                        #[trigger] kept@[a]).0@ != (#[trigger] kept@[b]).0@ by {
                        if a < kept_before.len() && b < kept_before.len() {
                            assert(kept@[a] == kept_before[a]);
                            assert(kept@[b] == kept_before[b]);
                        } else if a < kept_before.len() {
                            assert(kept@[a] == kept_before[a]);
                        } else {
                            assert(kept@[b] == kept_before[b]);
                        }
                    }
                    assert forall|a: int, b: int|
                        0 <= a < kept@.len() && i + 1 <= b < before.len() implies (
                        #[trigger] kept@[a]).0@ != (#[trigger] before[b]).0@ by {
                        if a < kept_before.len() {
                            assert(kept@[a] == kept_before[a]);
                        } else {
                            assert(kept@[a] == before[i as int]);
                        }
                    }
                }
            }
            i += 1;
        }
        self.entries = kept;
        proof {
            let after = self.entries@;
            assert forall|k: Seq<char>| #[trigger]
                entries_map(after).contains_key(k) <==> entries_map(before).contains_key(k)
                    && !crate::text::starts_with(k, prefix@) by {
                if entries_map(after).contains_key(k) {
                    lemma_entries_map_dom(after, k);
                    let a = choose|a: int| 0 <= a < after.len() && (#[trigger] after[a]).0@ == k;
                    lemma_entries_map_lookup(before, idx[a]);
                }
                if entries_map(before).contains_key(k) && !crate::text::starts_with(k, prefix@) {
                    lemma_entries_map_dom(before, k);
                    let b = choose|b: int| 0 <= b < before.len() && (#[trigger] before[b]).0@ == k;
                    let a = choose|a: int| 0 <= a < after.len() && after[a] == before[b];
                    lemma_entries_map_lookup(after, a);
                }
            }
            assert forall|k: Seq<char>| #[trigger]
                entries_map(after).contains_key(k) implies entries_map(after)[k] == entries_map(
                before,
            )[k] by {
                lemma_entries_map_dom(after, k);
                let a = choose|a: int| 0 <= a < after.len() && (#[trigger] after[a]).0@ == k;
                lemma_entries_map_lookup(after, a);
                lemma_entries_map_lookup(before, idx[a]);
            }
        }
    }
}

} // verus!
