//! Standard object metadata: names, labels, annotations and ownership.

use vstd::prelude::*;

use crate::deep_merge::DeepMerge;
use crate::strategies;
use crate::strategies::list::{list_map_merged, list_set_merged, KeyComparator};
use crate::strategies::map::granular_merged;
use crate::string_map::StringMap;
use crate::types::Time;

verus! {

/// A reference to an owning object, keyed by its uid.
#[derive(Debug, Clone, PartialEq)]
pub struct OwnerReference {
    /// The API version of the owner.
    pub api_version: String,
    /// Whether the owner must be deleted before this object can be.
    pub block_owner_deletion: Option<bool>,
    /// Whether the owner manages this object.
    pub controller: Option<bool>,
    /// The kind of the owner.
    pub kind: String,
    /// The name of the owner.
    pub name: String,
    /// The uid of the owner.
    pub uid: String,
}

/// The mathematical shape of an [`OwnerReference`].
pub struct OwnerReferenceView {
    pub api_version: Seq<char>,
    pub block_owner_deletion: Option<bool>,
    pub controller: Option<bool>,
    pub kind: Seq<char>,
    pub name: Seq<char>,
    pub uid: Seq<char>,
}

impl DeepView for OwnerReference {
    type V = OwnerReferenceView;

    open spec fn deep_view(&self) -> OwnerReferenceView {
        OwnerReferenceView {
            api_version: self.api_version@,
            block_owner_deletion: self.block_owner_deletion.deep_view(),
            controller: self.controller.deep_view(),
            kind: self.kind@,
            name: self.name@,
            uid: self.uid@,
        }
    }
}

impl DeepMerge for OwnerReference {
    open spec fn merged_view(pre: OwnerReferenceView, other: OwnerReferenceView) -> OwnerReferenceView {
        OwnerReferenceView {
            api_version: other.api_version,
            block_owner_deletion: <Option<bool> as DeepMerge>::merged_view(
                pre.block_owner_deletion,
                other.block_owner_deletion,
            ),
            controller: <Option<bool> as DeepMerge>::merged_view(
                pre.controller,
                other.controller,
            ),
            kind: other.kind,
            name: other.name,
            uid: other.uid,
        }
    }

    fn merge_from(&mut self, other: Self) {
        self.api_version.merge_from(other.api_version);
        self.block_owner_deletion.merge_from(other.block_owner_deletion);
        self.controller.merge_from(other.controller);
        self.kind.merge_from(other.kind);
        self.name.merge_from(other.name);
        self.uid.merge_from(other.uid);
    }
}

/// Identifies owner references by their `uid` field.
#[derive(Debug, Clone, PartialEq)]
pub struct OwnerReferenceUidKey;

impl KeyComparator<OwnerReference> for OwnerReferenceUidKey {
    open spec fn key_eq(&self, new_item: OwnerReferenceView, old_item: OwnerReferenceView) -> bool {
        new_item.uid == old_item.uid
    }

    fn key_matches(&self, new_item: &OwnerReference, old_item: &OwnerReference) -> (r: bool) {
        new_item.uid == old_item.uid
    }
}

/// Standard object metadata.
///
/// Labels and annotations merge key by key, finalizers merge with set
/// semantics, and owner references are reconciled by uid.
#[derive(Debug, PartialEq)]
pub struct ObjectMeta {
    /// Unstructured key/value data held with the object.
    pub annotations: Option<StringMap<String>>,
    /// When the object was created.
    pub creation_timestamp: Option<Time>,
    /// How long the object may take to terminate gracefully.
    pub deletion_grace_period_seconds: Option<i64>,
    /// When the object will be deleted.
    pub deletion_timestamp: Option<Time>,
    /// Identifiers that must be emptied before the object is removed.
    pub finalizers: Option<Vec<String>>,
    /// An optional prefix the server uses to generate a unique name.
    pub generate_name: Option<String>,
    /// A sequence number for the desired state.
    pub generation: Option<i64>,
    /// String keys and values that select and organise objects.
    pub labels: Option<StringMap<String>>,
    /// The object's name within its namespace.
    pub name: Option<String>,
    /// The space the object's name must be unique within.
    pub namespace: Option<String>,
    /// The objects this object depends on.
    pub owner_references: Option<Vec<OwnerReference>>,
    /// The internal version of the object.
    pub resource_version: Option<String>,
    /// A URL representing the object.
    pub self_link: Option<String>,
    /// A unique identifier in time and space.
    pub uid: Option<String>,
}

/// The mathematical shape of an [`ObjectMeta`].
pub struct ObjectMetaView {
    pub annotations: Option<Seq<(Seq<char>, Seq<char>)>>,
    pub creation_timestamp: Option<Time>,
    pub deletion_grace_period_seconds: Option<i64>,
    pub deletion_timestamp: Option<Time>,
    pub finalizers: Option<Seq<Seq<char>>>,
    pub generate_name: Option<Seq<char>>,
    pub generation: Option<i64>,
    pub labels: Option<Seq<(Seq<char>, Seq<char>)>>,
    pub name: Option<Seq<char>>,
    pub namespace: Option<Seq<char>>,
    pub owner_references: Option<Seq<OwnerReferenceView>>,
    pub resource_version: Option<Seq<char>>,
    pub self_link: Option<Seq<char>>,
    pub uid: Option<Seq<char>>,
}

impl DeepView for ObjectMeta {
    type V = ObjectMetaView;

    open spec fn deep_view(&self) -> ObjectMetaView {
        ObjectMetaView {
            annotations: self.annotations.deep_view(),
            creation_timestamp: self.creation_timestamp.deep_view(),
            deletion_grace_period_seconds: self.deletion_grace_period_seconds.deep_view(),
            deletion_timestamp: self.deletion_timestamp.deep_view(),
            finalizers: self.finalizers.deep_view(),
            generate_name: self.generate_name.deep_view(),
            generation: self.generation.deep_view(),
            labels: self.labels.deep_view(),
            name: self.name.deep_view(),
            namespace: self.namespace.deep_view(),
            owner_references: self.owner_references.deep_view(),
            resource_version: self.resource_version.deep_view(),
            self_link: self.self_link.deep_view(),
            uid: self.uid.deep_view(),
        }
    }
}

/// The merged finalizer carrier: a present source extends a present
/// target with set semantics, and assigns an absent one.
pub open spec fn finalizers_merged(
    pre: Option<Seq<Seq<char>>>,
    other: Option<Seq<Seq<char>>>,
) -> Option<Seq<Seq<char>>> {
    match (pre, other) {
        (Some(t), Some(s)) => Some(list_set_merged(t, s)),
        (Some(t), None) => Some(t),
        (None, s) => s,
    }
}

/// The merged owner-reference carrier: a present source reconciles by uid
/// against a present target, and assigns an absent one.
pub open spec fn owner_references_merged(
    pre: Option<Seq<OwnerReferenceView>>,
    other: Option<Seq<OwnerReferenceView>>,
) -> Option<Seq<OwnerReferenceView>> {
    match (pre, other) {
        (Some(t), Some(s)) => Some(
            list_map_merged::<OwnerReference, OwnerReferenceUidKey>(
                t,
                seq![OwnerReferenceUidKey],
                s,
            ),
        ),
        (Some(t), None) => Some(t),
        (None, s) => s,
    }
}

/// The merged label or annotation carrier: a present source merges key by
/// key into a present target, and assigns an absent one.
pub open spec fn string_map_merged(
    pre: Option<Seq<(Seq<char>, Seq<char>)>>,
    other: Option<Seq<(Seq<char>, Seq<char>)>>,
) -> Option<Seq<(Seq<char>, Seq<char>)>> {
    match (pre, other) {
        (Some(t), Some(s)) => Some(granular_merged::<String>(t, s)),
        (Some(t), None) => Some(t),
        (None, s) => s,
    }
}

impl DeepMerge for ObjectMeta {
    open spec fn merged_view(pre: ObjectMetaView, other: ObjectMetaView) -> ObjectMetaView {
        ObjectMetaView {
            annotations: string_map_merged(pre.annotations, other.annotations),
            creation_timestamp: <Option<Time> as DeepMerge>::merged_view(
                pre.creation_timestamp,
                other.creation_timestamp,
            ),
            deletion_grace_period_seconds: <Option<i64> as DeepMerge>::merged_view(
                pre.deletion_grace_period_seconds,
                other.deletion_grace_period_seconds,
            ),
            deletion_timestamp: <Option<Time> as DeepMerge>::merged_view(
                pre.deletion_timestamp,
                other.deletion_timestamp,
            ),
            finalizers: finalizers_merged(pre.finalizers, other.finalizers),
            generate_name: <Option<String> as DeepMerge>::merged_view(
                pre.generate_name,
                other.generate_name,
            ),
            generation: <Option<i64> as DeepMerge>::merged_view(
                pre.generation,
                other.generation,
            ),
            labels: string_map_merged(pre.labels, other.labels),
            name: <Option<String> as DeepMerge>::merged_view(pre.name, other.name),
            namespace: <Option<String> as DeepMerge>::merged_view(
                pre.namespace,
                other.namespace,
            ),
            owner_references: owner_references_merged(
                pre.owner_references,
                other.owner_references,
            ),
            resource_version: <Option<String> as DeepMerge>::merged_view(
                pre.resource_version,
                other.resource_version,
            ),
            self_link: <Option<String> as DeepMerge>::merged_view(
                pre.self_link,
                other.self_link,
            ),
            uid: <Option<String> as DeepMerge>::merged_view(pre.uid, other.uid),
        }
    }

    fn merge_from(&mut self, other: Self) {
        strategies::map::granular(&mut self.annotations, other.annotations);
        self.creation_timestamp.merge_from(other.creation_timestamp);
        self.deletion_grace_period_seconds.merge_from(other.deletion_grace_period_seconds);
        self.deletion_timestamp.merge_from(other.deletion_timestamp);
        strategies::list::set(&mut self.finalizers, other.finalizers);
        self.generate_name.merge_from(other.generate_name);
        self.generation.merge_from(other.generation);
        strategies::map::granular(&mut self.labels, other.labels);
        self.name.merge_from(other.name);
        self.namespace.merge_from(other.namespace);
        let owner_key: Vec<OwnerReferenceUidKey> = vec![OwnerReferenceUidKey];
        strategies::list::map(
            &mut self.owner_references,
            other.owner_references,
            owner_key.as_slice(),
        );
        proof {
            assert(owner_key@ =~= seq![OwnerReferenceUidKey]);
        }
        self.resource_version.merge_from(other.resource_version);
        self.self_link.merge_from(other.self_link);
        self.uid.merge_from(other.uid);
    }
}

} // verus!
