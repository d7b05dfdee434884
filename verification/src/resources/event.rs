//! A report of an event somewhere in the cluster.

use vstd::prelude::*;

use crate::deep_merge::DeepMerge;
use crate::resources::common::{ObjectReference, ObjectReferenceView};
use crate::resources::object_meta::{ObjectMeta, ObjectMetaView};
use crate::types::Time;

verus! {

/// The component reporting an event.
#[derive(Debug, Clone, PartialEq)]
pub struct EventSource {
    /// The component the event came from.
    pub component: Option<String>,
    /// The node name on which the event was generated.
    pub host: Option<String>,
}

/// The mathematical shape of an [`EventSource`].
pub struct EventSourceView {
    pub component: Option<Seq<char>>,
    pub host: Option<Seq<char>>,
}

impl DeepView for EventSource {
    type V = EventSourceView;

    open spec fn deep_view(&self) -> EventSourceView {
        EventSourceView {
            component: self.component.deep_view(),
            host: self.host.deep_view(),
        }
    }
}

impl DeepMerge for EventSource {
    open spec fn merged_view(pre: EventSourceView, other: EventSourceView) -> EventSourceView {
        EventSourceView {
            component: <Option<String> as DeepMerge>::merged_view(
                pre.component,
                other.component,
            ),
            host: <Option<String> as DeepMerge>::merged_view(pre.host, other.host),
        }
    }

    fn merge_from(&mut self, other: Self) {
        self.component.merge_from(other.component);
        self.host.merge_from(other.host);
    }
}

/// Event is a report of an event somewhere in the cluster.
#[derive(Debug, PartialEq)]
pub struct Event {
    /// The versioned schema of this representation.
    pub api_version: Option<String>,
    /// How many times this event has occurred.
    pub count: Option<i32>,
    /// When the event was first recorded.
    pub first_timestamp: Option<Time>,
    /// The object this event is about.
    pub involved_object: ObjectReference,
    /// The REST resource this object represents.
    pub kind: Option<String>,
    /// When the most recent occurrence was recorded.
    pub last_timestamp: Option<Time>,
    /// A human-readable description of the status of this operation.
    pub message: Option<String>,
    /// Standard object metadata.
    pub metadata: ObjectMeta,
    /// A short, machine-understandable reason for the transition.
    pub reason: Option<String>,
    /// The component reporting this event.
    pub source: Option<EventSource>,
    /// The type of this event.
    pub type_: Option<String>,
}

/// The mathematical shape of an [`Event`].
pub struct EventView {
    pub api_version: Option<Seq<char>>,
    pub count: Option<i32>,
    pub first_timestamp: Option<Time>,
    pub involved_object: ObjectReferenceView,
    pub kind: Option<Seq<char>>,
    pub last_timestamp: Option<Time>,
    pub message: Option<Seq<char>>,
    pub metadata: ObjectMetaView,
    pub reason: Option<Seq<char>>,
    pub source: Option<EventSourceView>,
    pub type_: Option<Seq<char>>,
}

impl DeepView for Event {
    type V = EventView;

    open spec fn deep_view(&self) -> EventView {
        EventView {
            api_version: self.api_version.deep_view(),
            count: self.count.deep_view(),
            first_timestamp: self.first_timestamp.deep_view(),
            involved_object: self.involved_object.deep_view(),
            kind: self.kind.deep_view(),
            last_timestamp: self.last_timestamp.deep_view(),
            message: self.message.deep_view(),
            metadata: self.metadata.deep_view(),
            reason: self.reason.deep_view(),
            source: self.source.deep_view(),
            type_: self.type_.deep_view(),
        }
    }
}

impl DeepMerge for Event {
    open spec fn merged_view(pre: EventView, other: EventView) -> EventView {
        EventView {
            api_version: <Option<String> as DeepMerge>::merged_view(
                pre.api_version,
                other.api_version,
            ),
            count: <Option<i32> as DeepMerge>::merged_view(pre.count, other.count),
            first_timestamp: <Option<Time> as DeepMerge>::merged_view(
                pre.first_timestamp,
                other.first_timestamp,
            ),
            involved_object: ObjectReference::merged_view(
                pre.involved_object,
                other.involved_object,
            ),
            kind: <Option<String> as DeepMerge>::merged_view(pre.kind, other.kind),
            last_timestamp: <Option<Time> as DeepMerge>::merged_view(
                pre.last_timestamp,
                other.last_timestamp,
            ),
            message: <Option<String> as DeepMerge>::merged_view(pre.message, other.message),
            metadata: ObjectMeta::merged_view(pre.metadata, other.metadata),
            reason: <Option<String> as DeepMerge>::merged_view(pre.reason, other.reason),
            source: <Option<EventSource> as DeepMerge>::merged_view(pre.source, other.source),
            type_: <Option<String> as DeepMerge>::merged_view(pre.type_, other.type_),
        }
    }

    fn merge_from(&mut self, other: Self) {
        self.api_version.merge_from(other.api_version);
        self.count.merge_from(other.count);
        self.first_timestamp.merge_from(other.first_timestamp);
        self.involved_object.merge_from(other.involved_object);
        self.kind.merge_from(other.kind);
        self.last_timestamp.merge_from(other.last_timestamp);
        self.message.merge_from(other.message);
        self.metadata.merge_from(other.metadata);
        self.reason.merge_from(other.reason);
        self.source.merge_from(other.source);
        self.type_.merge_from(other.type_);
    }
}

} // verus!
