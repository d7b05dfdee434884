//! Strategies for merging sequences.
//!
//! - [`atomic`]: the whole sequence is one scalar value; a present source
//!   replaces the target.
//! - [`map`]: the sequence is treated as a map; source items whose identity
//!   keys match an existing target item are deep-merged into it, and the
//!   rest are appended in encounter order.
//! - [`set`]: the sequence is treated as a set; source items are appended
//!   unless an equal item is already present.

use vstd::prelude::*;

use crate::deep_merge::DeepMerge;
use crate::strategies::atomic_merged;

verus! {

/// A sequence carrier that may be optional: either a bare `Vec` (always
/// present) or an `Option<Vec>` (possibly absent).
pub trait AsOptVec: Sized {
    type Item: DeepView;

    /// The carried elements, as deep views, or `None` when the carrier is
    /// absent.
    spec fn opt_view(&self) -> Option<Seq<<Self::Item as DeepView>::V>>;

    /// Replace the carrier with `new`, when `new` is present.
    fn set(&mut self, new: Self)
        ensures
            (*final(self)).opt_view() == atomic_merged((*old(self)).opt_view(), new.opt_view()),
    ;

    /// Whether the carrier is present.
    fn is_present(&self) -> (b: bool)
        ensures
            b == ((*self).opt_view() is Some),
    ;

    /// Move the carried elements out of a present carrier.
    fn take_items(&mut self) -> (v: Vec<Self::Item>)
        requires
            (*old(self)).opt_view() is Some,
        ensures
            v.deep_view() == (*old(self)).opt_view().unwrap(),
    ;

    /// Store `v` as the carried elements; the carrier becomes present.
    fn put_items(&mut self, v: Vec<Self::Item>)
        ensures
            (*final(self)).opt_view() == Some(v.deep_view()),
    ;

    /// The carried elements of a consumed carrier, when present.
    fn into_opt(self) -> (r: Option<Vec<Self::Item>>)
        ensures
            (match r {
                Some(v) => self.opt_view() == Some(v.deep_view()),
                None => self.opt_view() is None,
            }),
    ;
}

impl<T: DeepView> AsOptVec for Vec<T> {
    type Item = T;

    open spec fn opt_view(&self) -> Option<Seq<T::V>> {
        Some(self.deep_view())
    }

    fn set(&mut self, new: Self) {
        *self = new;
    }

    fn is_present(&self) -> (b: bool) {
        true
    }

    fn take_items(&mut self) -> (v: Vec<T>) {
        let mut v: Vec<T> = Vec::new();
        core::mem::swap(self, &mut v);
        v
    }

    fn put_items(&mut self, v: Vec<T>) {
        *self = v;
    }

    fn into_opt(self) -> (r: Option<Vec<T>>) {
        Some(self)
    }
}

impl<T: DeepView> AsOptVec for Option<Vec<T>> {
    type Item = T;

    open spec fn opt_view(&self) -> Option<Seq<T::V>> {
        match self {
            Some(v) => Some(v.deep_view()),
            None => None,
        }
    }

    fn set(&mut self, new: Self) {
        if new.is_some() {
            *self = new;
        }
    }

    fn is_present(&self) -> (b: bool) {
        self.is_some()
    }

    fn take_items(&mut self) -> (v: Vec<T>) {
        self.take().unwrap()
    }

    fn put_items(&mut self, v: Vec<T>) {
        *self = Some(v);
    }

    fn into_opt(self) -> (r: Option<Vec<T>>) {
        self
    }
}

/// The whole sequence is treated as one scalar value, and is replaced by a
/// present source.
pub fn atomic<V: AsOptVec>(target: &mut V, source: V)
    ensures
        (*final(target)).opt_view() == atomic_merged((*old(target)).opt_view(), source.opt_view()),
{
    target.set(source);
}

/// An identity test on items, used by the [`map`] strategy to decide which
/// target item a source item describes.  A caller supplies one comparator
/// per key component; composite keys use several, and all must agree.
pub trait KeyComparator<T: DeepView>: Sized {
    /// Whether the two items carry the same identity key, as a function of
    /// their deep views.
    spec fn key_eq(&self, new_item: T::V, old_item: T::V) -> bool;

    /// Test whether `new_item` and `old_item` carry the same identity key.
    fn key_matches(&self, new_item: &T, old_item: &T) -> (r: bool)
        ensures
            r == self.key_eq(new_item.deep_view(), old_item.deep_view()),
    ;
}

/// Whether every comparator in `cs` finds the same key on `new_item` and
/// `old_item`.
pub open spec fn keys_match<T: DeepView, C: KeyComparator<T>>(
    cs: Seq<C>,
    new_item: T::V,
    old_item: T::V,
) -> bool {
    forall|i: int| 0 <= i < cs.len() ==> #[trigger] cs[i].key_eq(new_item, old_item)
}

/// The index of the first item of `items` whose keys match `item`, or `-1`
/// when no item matches.
pub open spec fn match_find<T: DeepView, C: KeyComparator<T>>(
    items: Seq<T::V>,
    cs: Seq<C>,
    item: T::V,
) -> int
    decreases items.len(),
{
    if items.len() == 0 {
        -1
    } else if keys_match::<T, C>(cs, item, items[0]) {
        0
    } else {
        let r = match_find::<T, C>(items.subrange(1, items.len() as int), cs, item);
        if r < 0 {
            -1
        } else {
            r + 1
        }
    }
}

/// `match_find` returns the first matching index, and `-1` exactly when no
/// item matches.
pub proof fn lemma_match_find<T: DeepView, C: KeyComparator<T>>(
    items: Seq<T::V>,
    cs: Seq<C>,
    item: T::V,
)
    ensures
        match_find::<T, C>(items, cs, item) == -1 ==> forall|i: int|
            0 <= i < items.len() ==> !keys_match::<T, C>(cs, item, items[i]),
        match_find::<T, C>(items, cs, item) != -1 ==> {
            let j = match_find::<T, C>(items, cs, item);
            &&& 0 <= j < items.len()
            &&& keys_match::<T, C>(cs, item, items[j])
            &&& forall|i: int| 0 <= i < j ==> !keys_match::<T, C>(cs, item, items[i])
        },
    decreases items.len(),
{
    if items.len() > 0 && !keys_match::<T, C>(cs, item, items[0]) {
        let rest = items.subrange(1, items.len() as int);
        lemma_match_find::<T, C>(rest, cs, item);
        let r = match_find::<T, C>(rest, cs, item);
        if r < 0 {
            assert forall|i: int| 0 <= i < items.len() implies !keys_match::<T, C>(
                cs,
                item,
                items[i],
            ) by {
                if i >= 1 {
                    assert(items[i] == rest[i - 1]);
                }
            }
        } else {
            assert(items[r + 1] == rest[r]);
            assert forall|i: int| 0 <= i < r + 1 implies !keys_match::<T, C>(
                cs,
                item,
                items[i],
            ) by {
                if i >= 1 {
                    assert(items[i] == rest[i - 1]);
                }
            }
        }
    }
}

/// One step of the list/map strategy: merge `item` into the first matching
/// target item, or append it when nothing matches.
pub open spec fn list_map_step<T: DeepMerge, C: KeyComparator<T>>(
    pre: Seq<T::V>,
    cs: Seq<C>,
    item: T::V,
) -> Seq<T::V> {
    let j = match_find::<T, C>(pre, cs, item);
    if j < 0 {
        pre.push(item)
    } else {
        pre.update(j, T::merged_view(pre[j], item))
    }
}

/// The list/map strategy over element views: each source item in turn is
/// merged into the first target item whose keys match, or appended.
pub open spec fn list_map_merged<T: DeepMerge, C: KeyComparator<T>>(
    pre: Seq<T::V>,
    cs: Seq<C>,
    src: Seq<T::V>,
) -> Seq<T::V>
    decreases src.len(),
{
    if src.len() == 0 {
        pre
    } else {
        list_map_merged::<T, C>(
            list_map_step::<T, C>(pre, cs, src[0]),
            cs,
            src.subrange(1, src.len() as int),
        )
    }
}

/// Merging a suffix of a sequence's own items back into the sequence under
/// the list/map strategy leaves it unchanged, when the comparators find
/// each item's key on itself and on no other item, and every item is
/// unchanged by self-merge.
proof fn lemma_list_map_self_suffix<T: DeepMerge, C: KeyComparator<T>>(
    s: Seq<T::V>,
    cs: Seq<C>,
    k: int,
)
    requires
        0 <= k <= s.len(),
        forall|i: int| 0 <= i < s.len() ==> keys_match::<T, C>(cs, s[i], #[trigger] s[i]),
        forall|i: int, j: int|
            0 <= i < s.len() && 0 <= j < s.len() && i != j ==> !keys_match::<T, C>(
                cs,
                #[trigger] s[i],
                #[trigger] s[j],
            ),
        forall|i: int| 0 <= i < s.len() ==> T::merged_view(s[i], #[trigger] s[i]) == s[i],
    ensures
        list_map_merged::<T, C>(s, cs, s.subrange(k, s.len() as int)) == s,
    decreases s.len() - k,
{
    let src = s.subrange(k, s.len() as int);
    if k == s.len() {
        assert(src =~= Seq::<T::V>::empty());
    } else {
        assert(src[0] == s[k]);
        lemma_match_find::<T, C>(s, cs, s[k]);
        let j = match_find::<T, C>(s, cs, s[k]);
        assert(j != -1);
        assert(j == k) by {
            if j != k {
                assert(keys_match::<T, C>(cs, s[k], s[j]));
            }
        }
        assert(list_map_step::<T, C>(s, cs, s[k]) =~= s);
        lemma_list_map_self_suffix::<T, C>(s, cs, k + 1);
        assert(src.subrange(1, src.len() as int) =~= s.subrange(k + 1, s.len() as int));
    }
}

/// Idempotence of self-merge for the list/map strategy: merging a sequence
/// into an identical copy of itself yields that same sequence, provided
/// the comparators find each item's key on itself and on no other item,
/// and every item is unchanged by self-merge.  When two items share a key,
/// the first silently absorbs the second and the result can differ.
pub proof fn lemma_list_map_self_merge<T: DeepMerge, C: KeyComparator<T>>(
    s: Seq<T::V>,
    cs: Seq<C>,
)
    requires
        forall|i: int| 0 <= i < s.len() ==> keys_match::<T, C>(cs, s[i], #[trigger] s[i]),
        forall|i: int, j: int|
            0 <= i < s.len() && 0 <= j < s.len() && i != j ==> !keys_match::<T, C>(
                cs,
                #[trigger] s[i],
                #[trigger] s[j],
            ),
        forall|i: int| 0 <= i < s.len() ==> T::merged_view(s[i], #[trigger] s[i]) == s[i],
    ensures
        list_map_merged::<T, C>(s, cs, s) == s,
{
    lemma_list_map_self_suffix::<T, C>(s, cs, 0);
    assert(s.subrange(0, s.len() as int) =~= s);
}

/// Whether every comparator in `cs` matches the keys of `new_item` against
/// `old_item`.
fn all_match<T: DeepView, C: KeyComparator<T>>(cs: &[C], new_item: &T, old_item: &T) -> (r: bool)
    ensures
        r == keys_match::<T, C>(cs@, new_item.deep_view(), old_item.deep_view()),
{
    let mut ci: usize = 0;
    while ci < cs.len()
        invariant
            ci <= cs@.len(),
            forall|i: int|
                0 <= i < ci ==> #[trigger] cs@[i].key_eq(
                    new_item.deep_view(),
                    old_item.deep_view(),
                ),
        decreases cs@.len() - ci,
    {
        if !cs[ci].key_matches(new_item, old_item) {
            return false;
        }
        ci += 1;
    }
    true
}

/// The index of the first item of `items` matching `item` under every
/// comparator, or `items.len()` when none matches.
fn find_match<T: DeepView, C: KeyComparator<T>>(items: &Vec<T>, cs: &[C], item: &T) -> (j: usize)
    ensures
        j <= items@.len(),
        j < items@.len() ==> keys_match::<T, C>(
            cs@,
            item.deep_view(),
            items@[j as int].deep_view(),
        ),
        forall|i: int|
            0 <= i < j ==> !keys_match::<T, C>(cs@, item.deep_view(), items@[i].deep_view()),
{
    let mut j: usize = 0;
    while j < items.len()
        invariant
            j <= items@.len(),
            forall|i: int|
                0 <= i < j ==> !keys_match::<T, C>(cs@, item.deep_view(), items@[i].deep_view()),
        decreases items@.len() - j,
    {
        if all_match(cs, item, &items[j]) {
            return j;
        }
        j += 1;
    }
    j
}

/// The sequence is treated as a map.
///
/// Each source item is deep-merged into the first target item on which all
/// the supplied key comparators agree; source items that match no target
/// item are appended in encounter order.  When several target items carry
/// the same key, the first one silently receives the merge.
#[verifier::loop_isolation(false)]
pub fn map<V: AsOptVec, C: KeyComparator<V::Item>>(
    target: &mut V,
    source: V,
    key_comparators: &[C],
) where V::Item: DeepMerge
    ensures
        (*final(target)).opt_view() == (match ((*old(target)).opt_view(), source.opt_view()) {
            (Some(t), Some(s)) => Some(
                list_map_merged::<V::Item, C>(t, key_comparators@, s),
            ),
            (Some(t), None) => Some(t),
            (None, s) => s,
        }),
{
    if target.is_present() {
        match source.into_opt() {
            Some(src_vec) => {
                let mut items = target.take_items();
                let ghost goal = list_map_merged::<V::Item, C>(
                    items.deep_view(),
                    key_comparators@,
                    src_vec.deep_view(),
                );
                let ghost src0 = src_vec;
                let mut src_vec = src_vec;
                while src_vec.len() > 0
                    invariant
                        list_map_merged::<V::Item, C>(
                            items.deep_view(),
                            key_comparators@,
                            src_vec.deep_view(),
                        ) == goal,
                        src_vec@.len() <= src0@.len(),
                        src_vec@ =~= src0@.subrange(
                            src0@.len() - src_vec@.len(),
                            src0@.len() as int,
                        ),
                    decreases src_vec@.len(),
                {
                    let ghost items_pre = items.deep_view();
                    let ghost src_pre = src_vec.deep_view();
                    let item = src_vec.remove(0);
                    let j = find_match(&items, key_comparators, &item);
                    proof {
                        lemma_match_find::<V::Item, C>(
                            items_pre,
                            key_comparators@,
                            item.deep_view(),
                        );
                    }
                    if j < items.len() {
                        let mut found = items.remove(j);
                        found.merge_from(item);
                        items.insert(j, found);
                        proof {
                            assert(items.deep_view() =~= items_pre.update(
                                j as int,
                                <V::Item as DeepMerge>::merged_view(
                                    items_pre[j as int],
                                    src_pre[0],
                                ),
                            ));
                        }
                    } else {
                        items.push(item);
                        proof {
                            assert(items.deep_view() =~= items_pre.push(src_pre[0]));
                        }
                    }
                    proof {
                        assert(src_vec.deep_view() =~= src_pre.subrange(
                            1,
                            src_pre.len() as int,
                        ));
                    }
                }
                target.put_items(items);
            }
            None => {}
        }
    } else {
        target.set(source);
    }
}

/// An item of a list merged with set semantics: the strategy must be able
/// to test two items for equality, stated over their deep views.
pub trait SetItem: DeepView + Sized {
    /// Test whether `self` and `other` are the same value.
    fn same_as(&self, other: &Self) -> (r: bool)
        ensures
            r == (self.deep_view() == other.deep_view()),
    ;
}

impl SetItem for bool {
    fn same_as(&self, other: &Self) -> (r: bool) {
        *self == *other
    }
}

impl SetItem for i32 {
    fn same_as(&self, other: &Self) -> (r: bool) {
        *self == *other
    }
}

impl SetItem for i64 {
    fn same_as(&self, other: &Self) -> (r: bool) {
        *self == *other
    }
}

impl SetItem for String {
    fn same_as(&self, other: &Self) -> (r: bool) {
        *self == *other
    }
}

/// The list/set strategy over element views: each source item in turn is
/// appended unless an equal item is already present.
pub open spec fn list_set_merged<X>(pre: Seq<X>, src: Seq<X>) -> Seq<X>
    decreases src.len(),
{
    if src.len() == 0 {
        pre
    } else {
        let t1 = if pre.contains(src[0]) {
            pre
        } else {
            pre.push(src[0])
        };
        list_set_merged(t1, src.subrange(1, src.len() as int))
    }
}

/// Merging a suffix of a sequence's own items back into the sequence under
/// the list/set strategy leaves it unchanged: every item is already
/// present, so nothing is appended.
proof fn lemma_list_set_self_suffix<X>(s: Seq<X>, k: int)
    requires
        0 <= k <= s.len(),
    ensures
        list_set_merged(s, s.subrange(k, s.len() as int)) == s,
    decreases s.len() - k,
{
    let src = s.subrange(k, s.len() as int);
    if k == s.len() {
        assert(src =~= Seq::<X>::empty());
    } else {
        assert(src[0] == s[k]);
        assert(s.contains(s[k]));
        lemma_list_set_self_suffix(s, k + 1);
        assert(src.subrange(1, src.len() as int) =~= s.subrange(k + 1, s.len() as int));
    }
}

/// Idempotence of self-merge for the list/set strategy: merging a sequence
/// into an identical copy of itself yields that same sequence.
pub proof fn lemma_list_set_self_merge<X>(s: Seq<X>)
    ensures
        list_set_merged(s, s) == s,
{
    lemma_list_set_self_suffix(s, 0);
    assert(s.subrange(0, s.len() as int) =~= s);
}

/// Whether `items` holds an item whose deep view equals that of `item`.
fn contains_item<T: SetItem>(items: &Vec<T>, item: &T) -> (r: bool)
    ensures
        r == items.deep_view().contains(item.deep_view()),
{
    let mut j: usize = 0;
    while j < items.len()
        invariant
            j <= items@.len(),
            forall|i: int| 0 <= i < j ==> items.deep_view()[i] != item.deep_view(),
        decreases items@.len() - j,
    {
        if items[j].same_as(item) {
            proof {
                assert(items.deep_view()[j as int] == item.deep_view());
            }
            return true;
        }
        j += 1;
    }
    false
}

/// The sequence is treated as a set.
///
/// Source items are appended to the target unless the target already holds
/// an equal item; equal means equal as a whole, not merely sharing a key.
#[verifier::loop_isolation(false)]
pub fn set<V: AsOptVec>(target: &mut V, source: V) where V::Item: SetItem
    ensures
        (*final(target)).opt_view() == (match ((*old(target)).opt_view(), source.opt_view()) {
            (Some(t), Some(s)) => Some(list_set_merged(t, s)),
            (Some(t), None) => Some(t),
            (None, s) => s,
        }),
{
    if target.is_present() {
        match source.into_opt() {
            Some(src_vec) => {
                let mut items = target.take_items();
                let ghost goal = list_set_merged(items.deep_view(), src_vec.deep_view());
                let ghost src0 = src_vec;
                let mut src_vec = src_vec;
                while src_vec.len() > 0
                    invariant
                        list_set_merged(items.deep_view(), src_vec.deep_view()) == goal,
                        src_vec@.len() <= src0@.len(),
                        src_vec@ =~= src0@.subrange(
                            src0@.len() - src_vec@.len(),
                            src0@.len() as int,
                        ),
                    decreases src_vec@.len(),
                {
                    let ghost items_pre = items.deep_view();
                    let ghost src_pre = src_vec.deep_view();
                    let item = src_vec.remove(0);
                    if !contains_item(&items, &item) {
                        items.push(item);
                        proof {
                            assert(items.deep_view() =~= items_pre.push(src_pre[0]));
                        }
                    }
                    proof {
                        assert(src_vec.deep_view() =~= src_pre.subrange(
                            1,
                            src_pre.len() as int,
                        ));
                    }
                }
                target.put_items(items);
            }
            None => {}
        }
    } else {
        target.set(source);
    }
}

} // verus!
