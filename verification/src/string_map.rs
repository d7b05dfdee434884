//! A string-keyed mapping with unique keys, kept in insertion order.
//!
//! This is the key-ordered mapping that the map merge strategies operate
//! on; insertion order is preserved but carries no meaning.

use vstd::prelude::*;

use crate::deep_merge::DeepMerge;
use crate::strategies::map::{assoc_find, granular_merged, lemma_assoc_find};

verus! {

/// Whether an entry sequence holds each key at most once.
pub open spec fn unique_keys<X>(entries: Seq<(Seq<char>, X)>) -> bool {
    forall|i: int, j: int|
        0 <= i < j < entries.len() ==> (#[trigger] entries[i]).0 != (#[trigger] entries[j]).0
}

/// A mapping from strings to values, with unique keys, in insertion order.
#[derive(Debug, PartialEq)]
pub struct StringMap<V: DeepView> {
    entries: Vec<(String, V)>,
}

impl<V: DeepView> DeepView for StringMap<V> {
    type V = Seq<(Seq<char>, V::V)>;

    closed spec fn deep_view(&self) -> Seq<(Seq<char>, V::V)> {
        self.entries.deep_view()
    }
}

/// The index of the first entry of `entries` whose key equals `k`, or
/// `entries.len()` when no entry has that key.
fn find_key<V: DeepView>(entries: &Vec<(String, V)>, k: &String) -> (j: usize)
    ensures
        j <= entries@.len(),
        j < entries@.len() ==> entries@[j as int].0@ == k@,
        forall|i: int| 0 <= i < j ==> entries@[i].0@ != k@,
{
    let mut j: usize = 0;
    while j < entries.len()
        invariant
            j <= entries@.len(),
            forall|i: int| 0 <= i < j ==> entries@[i].0@ != k@,
        decreases entries@.len() - j,
    {
        if entries[j].0 == *k {
            return j;
        }
        j += 1;
    }
    j
}

/// Relates an executable key search over `entries` to `assoc_find` over the
/// deep view.
proof fn lemma_find_key_view<V: DeepView>(entries: Vec<(String, V)>, k: Seq<char>, j: int)
    requires
        0 <= j <= entries@.len(),
        j < entries@.len() ==> entries@[j].0@ == k,
        forall|i: int| 0 <= i < j ==> entries@[i].0@ != k,
    ensures
        j < entries@.len() ==> assoc_find(entries.deep_view(), k) == j,
        j == entries@.len() ==> assoc_find(entries.deep_view(), k) == -1,
{
    let dv = entries.deep_view();
    lemma_assoc_find(dv, k);
    let jf = assoc_find(dv, k);
    if j < entries@.len() {
        assert(dv[j].0 == k);
        assert(jf != -1);
        assert(!(jf < j)) by {
            if 0 <= jf < j {
                assert(dv[jf].0 != k);
            }
        }
        assert(jf == j);
    } else {
        assert(jf == -1) by {
            if jf != -1 {
                assert(dv[jf].0 == k);
            }
        }
    }
}

impl<V: DeepView> StringMap<V> {
    #[verifier::type_invariant]
    spec fn inv(self) -> bool {
        unique_keys(self.entries.deep_view())
    }

    /// An empty mapping.
    pub fn new() -> (m: Self)
        ensures
            m.deep_view() == Seq::<(Seq<char>, V::V)>::empty(),
    {
        let m = StringMap { entries: Vec::new() };
        proof {
            assert(m.deep_view() =~= Seq::<(Seq<char>, V::V)>::empty());
        }
        m
    }

    /// The number of entries.
    pub fn len(&self) -> (n: usize)
        ensures
            n == self.deep_view().len(),
    {
        self.entries.len()
    }

    /// Map `key` to `value`: an existing entry keyed `key` is replaced in
    /// place, and a new key is appended.
    pub fn insert(&mut self, key: String, value: V)
        ensures
            ({
                let pre = (*old(self)).deep_view();
                let j = assoc_find(pre, key@);
                (*final(self)).deep_view() == if j < 0 {
                    pre.push((key@, value.deep_view()))
                } else {
                    pre.update(j, (key@, value.deep_view()))
                }
            }),
    {
        proof {
            use_type_invariant(&*self);
        }
        let ghost pre = self.entries.deep_view();
        let mut entries: Vec<(String, V)> = Vec::new();
        core::mem::swap(&mut entries, &mut self.entries);
        let j = find_key(&entries, &key);
        proof {
            lemma_find_key_view(entries, key@, j as int);
        }
        if j < entries.len() {
            entries.remove(j);
            entries.insert(j, (key, value));
            proof {
                assert(entries.deep_view() =~= pre.update(
                    j as int,
                    (key@, value.deep_view()),
                ));
            }
        } else {
            entries.push((key, value));
            proof {
                assert(entries.deep_view() =~= pre.push((key@, value.deep_view())));
            }
        }
        proof {
            lemma_assoc_find(pre, key@);
        }
        self.entries = entries;
    }

    /// The value mapped to `key`, if any.
    pub fn get(&self, key: &String) -> (r: Option<&V>)
        ensures
            ({
                let dv = self.deep_view();
                let j = assoc_find(dv, key@);
                match r {
                    Some(v) => j >= 0 && v.deep_view() == dv[j].1,
                    None => j < 0,
                }
            }),
    {
        let j = find_key(&self.entries, key);
        proof {
            lemma_find_key_view(self.entries, key@, j as int);
        }
        if j < self.entries.len() {
            Some(&self.entries[j].1)
        } else {
            None
        }
    }

    /// The entries, consumed, in insertion order.
    pub fn into_entries(self) -> (v: Vec<(String, V)>)
        ensures
            v.deep_view() == self.deep_view(),
    {
        self.entries
    }
}

impl<V: DeepMerge> StringMap<V> {
    /// The granular merge of `source` into `self`: source values whose key
    /// is already present are deep-merged into the existing value, and new
    /// keys are appended in encounter order.
    pub(crate) fn merge_granular(&mut self, source: StringMap<V>)
        ensures
            (*final(self)).deep_view() == granular_merged::<V>(
                (*old(self)).deep_view(),
                source.deep_view(),
            ),
    {
        proof {
            use_type_invariant(&*self);
        }
        let ghost goal = granular_merged::<V>(self.deep_view(), source.deep_view());
        let mut entries: Vec<(String, V)> = Vec::new();
        core::mem::swap(&mut entries, &mut self.entries);
        let mut src = source.into_entries();
        let ghost src0 = src;
        while src.len() > 0
            invariant
                granular_merged::<V>(entries.deep_view(), src.deep_view()) == goal,
                unique_keys(entries.deep_view()),
                src@.len() <= src0@.len(),
                src@ =~= src0@.subrange(src0@.len() - src@.len(), src0@.len() as int),
            decreases src@.len(),
        {
            let ghost t_pre = entries.deep_view();
            let ghost s_pre = src.deep_view();
            let (k, v) = src.remove(0);
            let j = find_key(&entries, &k);
            proof {
                lemma_find_key_view(entries, k@, j as int);
            }
            if j < entries.len() {
                let (k_found, mut v_found) = entries.remove(j);
                v_found.merge_from(v);
                entries.insert(j, (k_found, v_found));
                proof {
                    assert(entries.deep_view() =~= t_pre.update(
                        j as int,
                        (k@, V::merged_view(t_pre[j as int].1, s_pre[0].1)),
                    ));
                }
            } else {
                entries.push((k, v));
                proof {
                    assert(entries.deep_view() =~= t_pre.push((k@, s_pre[0].1)));
                }
            }
            proof {
                assert(src.deep_view() =~= s_pre.subrange(1, s_pre.len() as int));
            }
        }
        self.entries = entries;
    }
}

} // verus!
