//! The deep-merge contract, and its implementations for scalar and
//! container types.

use vstd::prelude::*;

verus! {

/// A type that supports deep merging.
///
/// `a.merge_from(b)` folds the data of the source `b` into the target `a`,
/// in place; `b` is consumed.  What the merged value is, stated over deep
/// views, is given by the type's `merged_view` function:
///
/// - scalars are overwritten by the source;
/// - optional values keep the target where the source is absent, take the
///   source where the target is absent, and merge inner values where both
///   are present;
/// - an owned indirection merges the pointed-to values in place;
/// - structural types merge field by field.
pub trait DeepMerge: DeepView + Sized {
    /// The merged value, as a function of the deep views of the target
    /// (`pre`) and the source (`other`).
    spec fn merged_view(pre: Self::V, other: Self::V) -> Self::V;

    /// Merge `other` into `self`.
    fn merge_from(&mut self, other: Self)
        ensures
            (*final(self)).deep_view() == Self::merged_view(
                (*old(self)).deep_view(),
                other.deep_view(),
            ),
    ;
}

impl DeepMerge for bool {
    open spec fn merged_view(pre: bool, other: bool) -> bool {
        other
    }

    fn merge_from(&mut self, other: Self) {
        *self = other;
    }
}

impl DeepMerge for i32 {
    open spec fn merged_view(pre: i32, other: i32) -> i32 {
        other
    }

    fn merge_from(&mut self, other: Self) {
        *self = other;
    }
}

impl DeepMerge for i64 {
    open spec fn merged_view(pre: i64, other: i64) -> i64 {
        other
    }

    fn merge_from(&mut self, other: Self) {
        *self = other;
    }
}

impl DeepMerge for String {
    open spec fn merged_view(pre: Seq<char>, other: Seq<char>) -> Seq<char> {
        other
    }

    fn merge_from(&mut self, other: Self) {
        *self = other;
    }
}

impl<T: DeepMerge> DeepMerge for Box<T> {
    open spec fn merged_view(pre: T::V, other: T::V) -> T::V {
        T::merged_view(pre, other)
    }

    fn merge_from(&mut self, other: Self) {
        (**self).merge_from(*other);
    }
}

impl<T: DeepMerge> DeepMerge for Option<T> {
    open spec fn merged_view(pre: Option<T::V>, other: Option<T::V>) -> Option<T::V> {
        match other {
            Option::None => pre,
            Option::Some(o) => match pre {
                Option::None => Option::Some(o),
                Option::Some(p) => Option::Some(T::merged_view(p, o)),
            },
        }
    }

    fn merge_from(&mut self, other: Self) {
        if let Some(o) = other {
            match self {
                Some(s) => {
                    s.merge_from(o);
                }
                None => {
                    *self = Some(o);
                }
            }
        }
    }
}

/// Optional absorption: an absent source leaves the target alone, a
/// present source fills an absent target, and two present values merge
/// their contents.
pub proof fn lemma_option_absorption<T: DeepMerge>(xv: T::V, yv: T::V)
    ensures
        <Option<T> as DeepMerge>::merged_view(None, None) == Option::<T::V>::None,
        <Option<T> as DeepMerge>::merged_view(Some(xv), None) == Some(xv),
        <Option<T> as DeepMerge>::merged_view(None, Some(yv)) == Some(yv),
        <Option<T> as DeepMerge>::merged_view(Some(xv), Some(yv)) == Some(
            T::merged_view(xv, yv),
        ),
{
}

/// Idempotence of self-merge for optional values: whenever merging an
/// inner value into a copy of itself yields that value, the same holds one
/// optional layer up.
pub proof fn lemma_option_self_merge<T: DeepMerge>(xv: Option<T::V>)
    requires
        xv matches Some(x) ==> T::merged_view(x, x) == x,
    ensures
        <Option<T> as DeepMerge>::merged_view(xv, xv) == xv,
{
}

/// Idempotence of self-merge for scalar values: overwriting a value with
/// an identical copy of itself yields that same value.
pub proof fn lemma_scalar_self_merge(b: bool, n: i32, m: i64, s: Seq<char>)
    ensures
        <bool as DeepMerge>::merged_view(b, b) == b,
        <i32 as DeepMerge>::merged_view(n, n) == n,
        <i64 as DeepMerge>::merged_view(m, m) == m,
        <String as DeepMerge>::merged_view(s, s) == s,
{
}

} // verus!
