//! Scalar wrapper types that merge by overwrite: byte blobs and timestamps.

use vstd::prelude::*;

use crate::deep_merge::DeepMerge;

verus! {

/// An opaque blob of bytes.
#[derive(Debug, Clone, PartialEq)]
pub struct ByteString(pub Vec<u8>);

impl DeepView for ByteString {
    type V = Seq<u8>;

    open spec fn deep_view(&self) -> Seq<u8> {
        self.0.deep_view()
    }
}

impl DeepMerge for ByteString {
    open spec fn merged_view(pre: Seq<u8>, other: Seq<u8>) -> Seq<u8> {
        other
    }

    fn merge_from(&mut self, other: Self) {
        *self = other;
    }
}

/// A point in time, as seconds and nanoseconds since the Unix epoch.
#[derive(Debug, Clone, Copy, PartialEq, Eq, Structural)]
pub struct Time {
    pub epoch_seconds: i64,
    pub nanoseconds: u32,
}

impl DeepView for Time {
    type V = Time;

    open spec fn deep_view(&self) -> Time {
        *self
    }
}

impl DeepMerge for Time {
    open spec fn merged_view(pre: Time, other: Time) -> Time {
        other
    }

    fn merge_from(&mut self, other: Self) {
        *self = other;
    }
}

} // verus!
