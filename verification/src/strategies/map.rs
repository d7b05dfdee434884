//! Strategies for merging string-keyed mappings.
//!
//! - [`granular`]: each source value is merged into the target value under
//!   the same key, and new keys are inserted verbatim.
//! - [`atomic`]: the whole mapping is one scalar value; a present source
//!   replaces the target.

use vstd::prelude::*;

use crate::deep_merge::DeepMerge;
use crate::strategies::atomic_merged;
use crate::string_map::StringMap;

verus! {

/// The index of the first entry of `entries` whose key is `k`, or `-1`
/// when no entry has that key.
pub open spec fn assoc_find<X>(entries: Seq<(Seq<char>, X)>, k: Seq<char>) -> int
    decreases entries.len(),
{
    if entries.len() == 0 {
        -1
    } else if entries[0].0 == k {
        0
    } else {
        let r = assoc_find(entries.subrange(1, entries.len() as int), k);
        if r < 0 {
            -1
        } else {
            r + 1
        }
    }
}

/// `assoc_find` returns the first index whose key is `k`, and `-1` exactly
/// when no entry has that key.
pub proof fn lemma_assoc_find<X>(entries: Seq<(Seq<char>, X)>, k: Seq<char>)
    ensures
        assoc_find(entries, k) == -1 ==> forall|i: int|
            0 <= i < entries.len() ==> (#[trigger] entries[i]).0 != k,
        assoc_find(entries, k) != -1 ==> {
            let j = assoc_find(entries, k);
            &&& 0 <= j < entries.len()
            &&& entries[j].0 == k
            &&& forall|i: int| 0 <= i < j ==> (#[trigger] entries[i]).0 != k
        },
    decreases entries.len(),
{
    if entries.len() > 0 && entries[0].0 != k {
        let rest = entries.subrange(1, entries.len() as int);
        lemma_assoc_find(rest, k);
        let r = assoc_find(rest, k);
        if r < 0 {
            assert forall|i: int| 0 <= i < entries.len() implies (#[trigger] entries[i]).0
                != k by {
                if i >= 1 {
                    assert(entries[i] == rest[i - 1]);
                }
            }
        } else {
            assert(entries[r + 1] == rest[r]);
            assert forall|i: int| 0 <= i < r + 1 implies (#[trigger] entries[i]).0 != k by {
                if i >= 1 {
                    assert(entries[i] == rest[i - 1]);
                }
            }
        }
    }
}

/// The granular map strategy over entry views: each source entry in turn
/// is merged into the first target entry with the same key, or appended.
pub open spec fn granular_merged<V: DeepMerge>(
    pre: Seq<(Seq<char>, V::V)>,
    src: Seq<(Seq<char>, V::V)>,
) -> Seq<(Seq<char>, V::V)>
    decreases src.len(),
{
    if src.len() == 0 {
        pre
    } else {
        let k = src[0].0;
        let v = src[0].1;
        let j = assoc_find(pre, k);
        let t1 = if j < 0 {
            pre.push((k, v))
        } else {
            pre.update(j, (k, V::merged_view(pre[j].1, v)))
        };
        granular_merged::<V>(t1, src.subrange(1, src.len() as int))
    }
}

/// Merging a suffix of a mapping's own entries back into the mapping under
/// the granular strategy leaves it unchanged, when keys are unique and
/// every value is unchanged by self-merge.
proof fn lemma_granular_self_suffix<V: DeepMerge>(s: Seq<(Seq<char>, V::V)>, k: int)
    requires
        0 <= k <= s.len(),
        crate::string_map::unique_keys(s),
        forall|i: int|
            0 <= i < s.len() ==> V::merged_view((#[trigger] s[i]).1, s[i].1) == s[i].1,
    ensures
        granular_merged::<V>(s, s.subrange(k, s.len() as int)) == s,
    decreases s.len() - k,
{
    let src = s.subrange(k, s.len() as int);
    if k == s.len() {
        assert(src =~= Seq::<(Seq<char>, V::V)>::empty());
    } else {
        assert(src[0] == s[k]);
        lemma_assoc_find(s, s[k].0);
        let j = assoc_find(s, s[k].0);
        assert(j != -1);
        assert(j == k) by {
            if j != k {
                assert(s[j].0 == s[k].0);
            }
        }
        assert(s.update(k, (s[k].0, V::merged_view(s[k].1, s[k].1))) =~= s);
        lemma_granular_self_suffix::<V>(s, k + 1);
        assert(src.subrange(1, src.len() as int) =~= s.subrange(k + 1, s.len() as int));
    }
}

/// Idempotence of self-merge for the granular map strategy: merging a
/// mapping into an identical copy of itself yields that same mapping,
/// provided keys are unique and every value is unchanged by self-merge.
pub proof fn lemma_granular_self_merge<V: DeepMerge>(s: Seq<(Seq<char>, V::V)>)
    requires
        crate::string_map::unique_keys(s),
        forall|i: int|
            0 <= i < s.len() ==> V::merged_view((#[trigger] s[i]).1, s[i].1) == s[i].1,
    ensures
        granular_merged::<V>(s, s) == s,
{
    lemma_granular_self_suffix::<V>(s, 0);
    assert(s.subrange(0, s.len() as int) =~= s);
}

/// A mapping carrier that may be optional: either a bare [`StringMap`]
/// (always present) or an `Option<StringMap>` (possibly absent).
pub trait AsOptMap: Sized {
    type Value: DeepView;

    /// The carried entries, as deep views in insertion order, or `None`
    /// when the carrier is absent.
    spec fn opt_map_view(&self) -> Option<Seq<(Seq<char>, <Self::Value as DeepView>::V)>>;

    /// Replace the carrier with `new`, when `new` is present.
    fn set(&mut self, new: Self)
        ensures
            (*final(self)).opt_map_view() == atomic_merged(
                (*old(self)).opt_map_view(),
                new.opt_map_view(),
            ),
    ;

    /// Whether the carrier is present.
    fn is_present(&self) -> (b: bool)
        ensures
            b == ((*self).opt_map_view() is Some),
    ;

    /// Move the carried mapping out of a present carrier.
    fn take_map(&mut self) -> (m: StringMap<Self::Value>)
        requires
            (*old(self)).opt_map_view() is Some,
        ensures
            m.deep_view() == (*old(self)).opt_map_view().unwrap(),
    ;

    /// Store `m` as the carried mapping; the carrier becomes present.
    fn put_map(&mut self, m: StringMap<Self::Value>)
        ensures
            (*final(self)).opt_map_view() == Some(m.deep_view()),
    ;

    /// The carried mapping of a consumed carrier, when present.
    fn into_opt(self) -> (r: Option<StringMap<Self::Value>>)
        ensures
            (match r {
                Some(m) => self.opt_map_view() == Some(m.deep_view()),
                None => self.opt_map_view() is None,
            }),
    ;
}

impl<V: DeepView> AsOptMap for StringMap<V> {
    type Value = V;

    open spec fn opt_map_view(&self) -> Option<Seq<(Seq<char>, V::V)>> {
        Some(self.deep_view())
    }

    fn set(&mut self, new: Self) {
        *self = new;
    }

    fn is_present(&self) -> (b: bool) {
        true
    }

    fn take_map(&mut self) -> (m: StringMap<V>) {
        let mut m = StringMap::new();
        core::mem::swap(self, &mut m);
        m
    }

    fn put_map(&mut self, m: StringMap<V>) {
        *self = m;
    }

    fn into_opt(self) -> (r: Option<StringMap<V>>) {
        Some(self)
    }
}

impl<V: DeepView> AsOptMap for Option<StringMap<V>> {
    type Value = V;

    open spec fn opt_map_view(&self) -> Option<Seq<(Seq<char>, V::V)>> {
        match self {
            Some(m) => Some(m.deep_view()),
            None => None,
        }
    }

    fn set(&mut self, new: Self) {
        if new.is_some() {
            *self = new;
        }
    }

    fn is_present(&self) -> (b: bool) {
        self.is_some()
    }

    fn take_map(&mut self) -> (m: StringMap<V>) {
        self.take().unwrap()
    }

    fn put_map(&mut self, m: StringMap<V>) {
        *self = Some(m);
    }

    fn into_opt(self) -> (r: Option<StringMap<V>>) {
        self
    }
}

/// Each value is merged separately.
///
/// Source values whose key is already present are deep-merged into the
/// existing value; new keys are inserted verbatim.
pub fn granular<M: AsOptMap>(target: &mut M, source: M) where M::Value: DeepMerge
    ensures
        (*final(target)).opt_map_view() == (match (
            (*old(target)).opt_map_view(),
            source.opt_map_view(),
        ) {
            (Some(t), Some(s)) => Some(granular_merged::<M::Value>(t, s)),
            (Some(t), None) => Some(t),
            (None, s) => s,
        }),
{
    if target.is_present() {
        match source.into_opt() {
            Some(src_map) => {
                let mut m = target.take_map();
                m.merge_granular(src_map);
                target.put_map(m);
            }
            None => {}
        }
    } else {
        target.set(source);
    }
}

/// The whole mapping is treated as one scalar value, and is replaced by a
/// present source.
pub fn atomic<M: AsOptMap>(target: &mut M, source: M)
    ensures
        (*final(target)).opt_map_view() == atomic_merged(
            (*old(target)).opt_map_view(),
            source.opt_map_view(),
        ),
{
    target.set(source);
}

} // verus!
