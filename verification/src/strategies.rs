//! Strategies for merging collections.
//!
//! A structural type picks one strategy per collection field: sequences are
//! replaced wholesale, reconciled by identity key, or extended as a set;
//! string-keyed maps are replaced wholesale or merged key by key.  Every
//! strategy works on a possibly-optional carrier, so the same function
//! applies whether a field holds a bare collection or an optional one; an
//! absent target can only be assigned to, never merged into.

pub mod list;
pub mod map;

use vstd::prelude::*;

verus! {

/// The merged carrier of an atomic strategy: the source when it is present,
/// the target otherwise.
pub open spec fn atomic_merged<X>(pre: Option<X>, other: Option<X>) -> Option<X> {
    if other is Some {
        other
    } else {
        pre
    }
}

/// An atomic strategy ignores the target entirely: whenever the source is
/// present, the result is the source, whatever the target held.
pub proof fn lemma_atomic_ignores_target<X>(pre: Option<X>, s: X)
    ensures
        atomic_merged(pre, Some(s)) == Some(s),
{
}

/// Idempotence of self-merge for atomic strategies: replacing a carrier
/// with an identical copy of itself yields that same carrier.
pub proof fn lemma_atomic_self_merge<X>(x: Option<X>)
    ensures
        atomic_merged(x, x) == x,
{
}

} // verus!
