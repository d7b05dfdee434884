//! A Quobyte volume mount description.

use vstd::prelude::*;

use crate::deep_merge::DeepMerge;

verus! {

/// QuobyteVolumeSource names a volume on a Quobyte registry and how to
/// mount it.  Every field is a scalar and merges by overwrite or optional
/// absorption.
#[derive(Debug, Clone, PartialEq)]
pub struct QuobyteVolumeSource {
    /// The group to map volume access to.
    pub group: Option<String>,
    /// Whether the volume is mounted read-only.
    pub read_only: Option<bool>,
    /// The registry serving the volume, as host:port pairs.
    pub registry: String,
    /// The user to map volume access to.
    pub user: Option<String>,
    /// The name of an already created Quobyte volume.
    pub volume: String,
}

/// The mathematical shape of a [`QuobyteVolumeSource`].
pub struct QuobyteVolumeSourceView {
    pub group: Option<Seq<char>>,
    pub read_only: Option<bool>,
    pub registry: Seq<char>,
    pub user: Option<Seq<char>>,
    pub volume: Seq<char>,
}

impl DeepView for QuobyteVolumeSource {
    type V = QuobyteVolumeSourceView;

    open spec fn deep_view(&self) -> QuobyteVolumeSourceView {
        QuobyteVolumeSourceView {
            group: self.group.deep_view(),
            read_only: self.read_only.deep_view(),
            registry: self.registry@,
            user: self.user.deep_view(),
            volume: self.volume@,
        }
    }
}

impl DeepMerge for QuobyteVolumeSource {
    open spec fn merged_view(
        pre: QuobyteVolumeSourceView,
        other: QuobyteVolumeSourceView,
    ) -> QuobyteVolumeSourceView {
        QuobyteVolumeSourceView {
            group: <Option<String> as DeepMerge>::merged_view(pre.group, other.group),
            read_only: <Option<bool> as DeepMerge>::merged_view(
                pre.read_only,
                other.read_only,
            ),
            registry: other.registry,
            user: <Option<String> as DeepMerge>::merged_view(pre.user, other.user),
            volume: other.volume,
        }
    }

    fn merge_from(&mut self, other: Self) {
        self.group.merge_from(other.group);
        self.read_only.merge_from(other.read_only);
        self.registry.merge_from(other.registry);
        self.user.merge_from(other.user);
        self.volume.merge_from(other.volume);
    }
}

} // verus!
