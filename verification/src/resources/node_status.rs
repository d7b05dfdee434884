//! The observed state of a node, and the small types it is built from.
//!
//! This resource exercises every collection strategy: addresses and
//! conditions are lists reconciled by their `type_` key, capacity and
//! allocatable are granular maps, and the remaining lists are atomic.

use vstd::prelude::*;

use crate::deep_merge::DeepMerge;
use crate::resources::common::Quantity;
use crate::strategies;
use crate::strategies::atomic_merged;
use crate::strategies::list::{keys_match, list_map_merged, KeyComparator};
use crate::strategies::map::granular_merged;
use crate::string_map::StringMap;
use crate::types::Time;

verus! {

/// An address reachable to the node, keyed by its type.
#[derive(Debug, Clone, PartialEq)]
pub struct NodeAddress {
    /// The address itself.
    pub address: String,
    /// The kind of address: hostname, internal or external.
    pub type_: String,
}

/// The mathematical shape of a [`NodeAddress`].
pub struct NodeAddressView {
    pub address: Seq<char>,
    pub type_: Seq<char>,
}

impl DeepView for NodeAddress {
    type V = NodeAddressView;

    open spec fn deep_view(&self) -> NodeAddressView {
        NodeAddressView { address: self.address@, type_: self.type_@ }
    }
}

impl DeepMerge for NodeAddress {
    open spec fn merged_view(pre: NodeAddressView, other: NodeAddressView) -> NodeAddressView {
        NodeAddressView { address: other.address, type_: other.type_ }
    }

    fn merge_from(&mut self, other: Self) {
        self.address.merge_from(other.address);
        self.type_.merge_from(other.type_);
    }
}

/// Identifies node addresses by their `type_` field.
#[derive(Debug, Clone, PartialEq)]
pub struct NodeAddressTypeKey;

impl KeyComparator<NodeAddress> for NodeAddressTypeKey {
    open spec fn key_eq(&self, new_item: NodeAddressView, old_item: NodeAddressView) -> bool {
        new_item.type_ == old_item.type_
    }

    fn key_matches(&self, new_item: &NodeAddress, old_item: &NodeAddress) -> (r: bool) {
        new_item.type_ == old_item.type_
    }
}

/// An observed node condition, keyed by its type.
#[derive(Debug, Clone, PartialEq)]
pub struct NodeCondition {
    /// When the condition was last checked.
    pub last_heartbeat_time: Option<Time>,
    /// When the condition last changed.
    pub last_transition_time: Option<Time>,
    /// A human-readable description of the transition.
    pub message: Option<String>,
    /// A one-word reason for the transition.
    pub reason: Option<String>,
    /// The status of the condition: true, false or unknown.
    pub status: String,
    /// The kind of condition.
    pub type_: String,
}

/// The mathematical shape of a [`NodeCondition`].
pub struct NodeConditionView {
    pub last_heartbeat_time: Option<Time>,
    pub last_transition_time: Option<Time>,
    pub message: Option<Seq<char>>,
    pub reason: Option<Seq<char>>,
    pub status: Seq<char>,
    pub type_: Seq<char>,
}

impl DeepView for NodeCondition {
    type V = NodeConditionView;

    open spec fn deep_view(&self) -> NodeConditionView {
        NodeConditionView {
            last_heartbeat_time: self.last_heartbeat_time.deep_view(),
            last_transition_time: self.last_transition_time.deep_view(),
            message: self.message.deep_view(),
            reason: self.reason.deep_view(),
            status: self.status@,
            type_: self.type_@,
        }
    }
}

impl DeepMerge for NodeCondition {
    open spec fn merged_view(pre: NodeConditionView, other: NodeConditionView) -> NodeConditionView {
        NodeConditionView {
            last_heartbeat_time: <Option<Time> as DeepMerge>::merged_view(
                pre.last_heartbeat_time,
                other.last_heartbeat_time,
            ),
            last_transition_time: <Option<Time> as DeepMerge>::merged_view(
                pre.last_transition_time,
                other.last_transition_time,
            ),
            message: <Option<String> as DeepMerge>::merged_view(pre.message, other.message),
            reason: <Option<String> as DeepMerge>::merged_view(pre.reason, other.reason),
            status: other.status,
            type_: other.type_,
        }
    }

    fn merge_from(&mut self, other: Self) {
        self.last_heartbeat_time.merge_from(other.last_heartbeat_time);
        self.last_transition_time.merge_from(other.last_transition_time);
        self.message.merge_from(other.message);
        self.reason.merge_from(other.reason);
        self.status.merge_from(other.status);
        self.type_.merge_from(other.type_);
    }
}

/// Identifies node conditions by their `type_` field.
#[derive(Debug, Clone, PartialEq)]
pub struct NodeConditionTypeKey;

impl KeyComparator<NodeCondition> for NodeConditionTypeKey {
    open spec fn key_eq(&self, new_item: NodeConditionView, old_item: NodeConditionView) -> bool {
        new_item.type_ == old_item.type_
    }

    fn key_matches(&self, new_item: &NodeCondition, old_item: &NodeCondition) -> (r: bool) {
        new_item.type_ == old_item.type_
    }
}

/// A volume attached to the node.
#[derive(Debug, Clone, PartialEq)]
pub struct AttachedVolume {
    /// Where the volume is mounted on the node.
    pub device_path: String,
    /// The name of the attached volume.
    pub name: String,
}

/// The mathematical shape of an [`AttachedVolume`].
pub struct AttachedVolumeView {
    pub device_path: Seq<char>,
    pub name: Seq<char>,
}

impl DeepView for AttachedVolume {
    type V = AttachedVolumeView;

    open spec fn deep_view(&self) -> AttachedVolumeView {
        AttachedVolumeView { device_path: self.device_path@, name: self.name@ }
    }
}

impl DeepMerge for AttachedVolume {
    open spec fn merged_view(pre: AttachedVolumeView, other: AttachedVolumeView) -> AttachedVolumeView {
        AttachedVolumeView { device_path: other.device_path, name: other.name }
    }

    fn merge_from(&mut self, other: Self) {
        self.device_path.merge_from(other.device_path);
        self.name.merge_from(other.name);
    }
}

/// A container image held on the node.
#[derive(Debug, Clone, PartialEq)]
pub struct ContainerImage {
    /// The names by which the image is known.
    pub names: Option<Vec<String>>,
    /// The size of the image in bytes.
    pub size_bytes: Option<i64>,
}

/// The mathematical shape of a [`ContainerImage`].
pub struct ContainerImageView {
    pub names: Option<Seq<Seq<char>>>,
    pub size_bytes: Option<i64>,
}

impl DeepView for ContainerImage {
    type V = ContainerImageView;

    open spec fn deep_view(&self) -> ContainerImageView {
        ContainerImageView {
            names: self.names.deep_view(),
            size_bytes: self.size_bytes.deep_view(),
        }
    }
}

impl DeepMerge for ContainerImage {
    open spec fn merged_view(pre: ContainerImageView, other: ContainerImageView) -> ContainerImageView {
        ContainerImageView {
            names: atomic_merged(pre.names, other.names),
            size_bytes: <Option<i64> as DeepMerge>::merged_view(
                pre.size_bytes,
                other.size_bytes,
            ),
        }
    }

    fn merge_from(&mut self, other: Self) {
        strategies::list::atomic(&mut self.names, other.names);
        self.size_bytes.merge_from(other.size_bytes);
    }
}

/// A daemon listening on the node.
#[derive(Debug, Clone, Copy, PartialEq, Eq, Structural)]
pub struct DaemonEndpoint {
    /// The port the daemon listens on.
    pub port: i32,
}

impl DeepView for DaemonEndpoint {
    type V = DaemonEndpoint;

    open spec fn deep_view(&self) -> DaemonEndpoint {
        *self
    }
}

impl DeepMerge for DaemonEndpoint {
    open spec fn merged_view(pre: DaemonEndpoint, other: DaemonEndpoint) -> DaemonEndpoint {
        other
    }

    fn merge_from(&mut self, other: Self) {
        *self = other;
    }
}

/// The endpoints of daemons running on the node.
#[derive(Debug, Clone, PartialEq)]
pub struct NodeDaemonEndpoints {
    /// The endpoint of the kubelet.
    pub kubelet_endpoint: Option<DaemonEndpoint>,
}

/// The mathematical shape of a [`NodeDaemonEndpoints`].
pub struct NodeDaemonEndpointsView {
    pub kubelet_endpoint: Option<DaemonEndpoint>,
}

impl DeepView for NodeDaemonEndpoints {
    type V = NodeDaemonEndpointsView;

    open spec fn deep_view(&self) -> NodeDaemonEndpointsView {
        NodeDaemonEndpointsView { kubelet_endpoint: self.kubelet_endpoint.deep_view() }
    }
}

impl DeepMerge for NodeDaemonEndpoints {
    open spec fn merged_view(
        pre: NodeDaemonEndpointsView,
        other: NodeDaemonEndpointsView,
    ) -> NodeDaemonEndpointsView {
        NodeDaemonEndpointsView {
            kubelet_endpoint: <Option<DaemonEndpoint> as DeepMerge>::merged_view(
                pre.kubelet_endpoint,
                other.kubelet_endpoint,
            ),
        }
    }

    fn merge_from(&mut self, other: Self) {
        self.kubelet_endpoint.merge_from(other.kubelet_endpoint);
    }
}

/// Identifiers and versions reported by the node.
#[derive(Debug, Clone, PartialEq)]
pub struct NodeSystemInfo {
    /// The hardware architecture.
    pub architecture: String,
    /// The boot identifier.
    pub boot_id: String,
    /// The container runtime and its version.
    pub container_runtime_version: String,
    /// The kernel version.
    pub kernel_version: String,
    /// The kubelet version.
    pub kubelet_version: String,
    /// The machine identifier.
    pub machine_id: String,
    /// The operating system.
    pub operating_system: String,
    /// The operating system image.
    pub os_image: String,
    /// The system identifier.
    pub system_uuid: String,
}

/// The mathematical shape of a [`NodeSystemInfo`].
pub struct NodeSystemInfoView {
    pub architecture: Seq<char>,
    pub boot_id: Seq<char>,
    pub container_runtime_version: Seq<char>,
    pub kernel_version: Seq<char>,
    pub kubelet_version: Seq<char>,
    pub machine_id: Seq<char>,
    pub operating_system: Seq<char>,
    pub os_image: Seq<char>,
    pub system_uuid: Seq<char>,
}

impl DeepView for NodeSystemInfo {
    type V = NodeSystemInfoView;

    open spec fn deep_view(&self) -> NodeSystemInfoView {
        NodeSystemInfoView {
            architecture: self.architecture@,
            boot_id: self.boot_id@,
            container_runtime_version: self.container_runtime_version@,
            kernel_version: self.kernel_version@,
            kubelet_version: self.kubelet_version@,
            machine_id: self.machine_id@,
            operating_system: self.operating_system@,
            os_image: self.os_image@,
            system_uuid: self.system_uuid@,
        }
    }
}

impl DeepMerge for NodeSystemInfo {
    open spec fn merged_view(pre: NodeSystemInfoView, other: NodeSystemInfoView) -> NodeSystemInfoView {
        other
    }

    fn merge_from(&mut self, other: Self) {
        self.architecture.merge_from(other.architecture);
        self.boot_id.merge_from(other.boot_id);
        self.container_runtime_version.merge_from(other.container_runtime_version);
        self.kernel_version.merge_from(other.kernel_version);
        self.kubelet_version.merge_from(other.kubelet_version);
        self.machine_id.merge_from(other.machine_id);
        self.operating_system.merge_from(other.operating_system);
        self.os_image.merge_from(other.os_image);
        self.system_uuid.merge_from(other.system_uuid);
    }
}

/// The observed state of a node.
#[derive(Debug, PartialEq)]
pub struct NodeStatus {
    /// The addresses reachable to the node, reconciled by address type.
    pub addresses: Option<Vec<NodeAddress>>,
    /// The resources available for scheduling, merged key by key.
    pub allocatable: Option<StringMap<Quantity>>,
    /// The total resources of the node, merged key by key.
    pub capacity: Option<StringMap<Quantity>>,
    /// The observed node conditions, reconciled by condition type.
    pub conditions: Option<Vec<NodeCondition>>,
    /// The endpoints of daemons running on the node.
    pub daemon_endpoints: Option<NodeDaemonEndpoints>,
    /// The container images on the node, replaced wholesale.
    pub images: Option<Vec<ContainerImage>>,
    /// Identifiers and versions reported by the node.
    pub node_info: Option<NodeSystemInfo>,
    /// The recently observed lifecycle phase of the node.
    pub phase: Option<String>,
    /// The volumes attached to the node, replaced wholesale.
    pub volumes_attached: Option<Vec<AttachedVolume>>,
    /// The attachable volumes in use by the node, replaced wholesale.
    pub volumes_in_use: Option<Vec<String>>,
}

/// The mathematical shape of a [`NodeStatus`].
pub struct NodeStatusView {
    pub addresses: Option<Seq<NodeAddressView>>,
    pub allocatable: Option<Seq<(Seq<char>, Seq<char>)>>,
    pub capacity: Option<Seq<(Seq<char>, Seq<char>)>>,
    pub conditions: Option<Seq<NodeConditionView>>,
    pub daemon_endpoints: Option<NodeDaemonEndpointsView>,
    pub images: Option<Seq<ContainerImageView>>,
    pub node_info: Option<NodeSystemInfoView>,
    pub phase: Option<Seq<char>>,
    pub volumes_attached: Option<Seq<AttachedVolumeView>>,
    pub volumes_in_use: Option<Seq<Seq<char>>>,
}

impl DeepView for NodeStatus {
    type V = NodeStatusView;

    open spec fn deep_view(&self) -> NodeStatusView {
        NodeStatusView {
            addresses: self.addresses.deep_view(),
            allocatable: self.allocatable.deep_view(),
            capacity: self.capacity.deep_view(),
            conditions: self.conditions.deep_view(),
            daemon_endpoints: self.daemon_endpoints.deep_view(),
            images: self.images.deep_view(),
            node_info: self.node_info.deep_view(),
            phase: self.phase.deep_view(),
            volumes_attached: self.volumes_attached.deep_view(),
            volumes_in_use: self.volumes_in_use.deep_view(),
        }
    }
}

/// The merged addresses or conditions carrier: present sources reconcile
/// by key against a present target, and assign an absent one.
pub open spec fn keyed_list_merged<T: DeepMerge, C: KeyComparator<T>>(
    pre: Option<Seq<T::V>>,
    other: Option<Seq<T::V>>,
    cs: Seq<C>,
) -> Option<Seq<T::V>> {
    match (pre, other) {
        (Some(t), Some(s)) => Some(list_map_merged::<T, C>(t, cs, s)),
        (Some(t), None) => Some(t),
        (None, s) => s,
    }
}

/// The merged granular-map carrier: present sources merge key by key into
/// a present target, and assign an absent one.
pub open spec fn granular_map_merged<V: DeepMerge>(
    pre: Option<Seq<(Seq<char>, <V as DeepView>::V)>>,
    other: Option<Seq<(Seq<char>, <V as DeepView>::V)>>,
) -> Option<Seq<(Seq<char>, <V as DeepView>::V)>> {
    match (pre, other) {
        (Some(t), Some(s)) => Some(granular_merged::<V>(t, s)),
        (Some(t), None) => Some(t),
        (None, s) => s,
    }
}

impl DeepMerge for NodeStatus {
    open spec fn merged_view(pre: NodeStatusView, other: NodeStatusView) -> NodeStatusView {
        NodeStatusView {
            addresses: keyed_list_merged::<NodeAddress, NodeAddressTypeKey>(
                pre.addresses,
                other.addresses,
                seq![NodeAddressTypeKey],
            ),
            allocatable: granular_map_merged::<Quantity>(pre.allocatable, other.allocatable),
            capacity: granular_map_merged::<Quantity>(pre.capacity, other.capacity),
            conditions: keyed_list_merged::<NodeCondition, NodeConditionTypeKey>(
                pre.conditions,
                other.conditions,
                seq![NodeConditionTypeKey],
            ),
            daemon_endpoints: <Option<NodeDaemonEndpoints> as DeepMerge>::merged_view(
                pre.daemon_endpoints,
                other.daemon_endpoints,
            ),
            images: atomic_merged(pre.images, other.images),
            node_info: <Option<NodeSystemInfo> as DeepMerge>::merged_view(
                pre.node_info,
                other.node_info,
            ),
            phase: <Option<String> as DeepMerge>::merged_view(pre.phase, other.phase),
            volumes_attached: atomic_merged(pre.volumes_attached, other.volumes_attached),
            volumes_in_use: atomic_merged(pre.volumes_in_use, other.volumes_in_use),
        }
    }

    fn merge_from(&mut self, other: Self) {
        let address_key: Vec<NodeAddressTypeKey> = vec![NodeAddressTypeKey];
        strategies::list::map(&mut self.addresses, other.addresses, address_key.as_slice());
        proof {
            assert(address_key@ =~= seq![NodeAddressTypeKey]);
        }
        strategies::map::granular(&mut self.allocatable, other.allocatable);
        strategies::map::granular(&mut self.capacity, other.capacity);
        let condition_key: Vec<NodeConditionTypeKey> = vec![NodeConditionTypeKey];
        strategies::list::map(&mut self.conditions, other.conditions, condition_key.as_slice());
        proof {
            assert(condition_key@ =~= seq![NodeConditionTypeKey]);
        }
        self.daemon_endpoints.merge_from(other.daemon_endpoints);
        strategies::list::atomic(&mut self.images, other.images);
        self.node_info.merge_from(other.node_info);
        self.phase.merge_from(other.phase);
        strategies::list::atomic(&mut self.volumes_attached, other.volumes_attached);
        strategies::list::atomic(&mut self.volumes_in_use, other.volumes_in_use);
    }
}

} // verus!
