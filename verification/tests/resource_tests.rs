use k8s_deep_merge::deep_merge::DeepMerge;
use k8s_deep_merge::resources::common::{
    CrossVersionObjectReference, IngressBackend, IntOrString, ObjectReference, Quantity,
};
use k8s_deep_merge::resources::cron_job_status::CronJobStatus;
use k8s_deep_merge::resources::event::{Event, EventSource};
use k8s_deep_merge::resources::object_meta::{ObjectMeta, OwnerReference};
use k8s_deep_merge::resources::horizontal_pod_autoscaler_spec::HorizontalPodAutoscalerSpec;
use k8s_deep_merge::resources::http_ingress_path::HTTPIngressPath;
use k8s_deep_merge::resources::node_status::{NodeAddress, NodeStatus};
use k8s_deep_merge::resources::quobyte_volume_source::QuobyteVolumeSource;
use k8s_deep_merge::resources::resource_rule::ResourceRule;
use k8s_deep_merge::resources::rule::Rule;
use k8s_deep_merge::string_map::StringMap;
use k8s_deep_merge::types::{ByteString, Time};

fn strings(xs: &[&str]) -> Vec<String> {
    xs.iter().map(|x| x.to_string()).collect()
}

#[test]
fn rule_lists_are_atomic() {
    let mut target = Rule {
        api_groups: Some(strings(&["apps"])),
        api_versions: None,
        resources: Some(strings(&["pods", "services"])),
    };
    let source = Rule {
        api_groups: Some(strings(&["batch"])),
        api_versions: Some(strings(&["v1"])),
        resources: None,
    };
    target.merge_from(source);
    assert_eq!(
        target,
        Rule {
            api_groups: Some(strings(&["batch"])),
            api_versions: Some(strings(&["v1"])),
            resources: Some(strings(&["pods", "services"])),
        }
    );
}

#[test]
fn rule_self_merge_is_identity() {
    let make = || Rule {
        api_groups: Some(strings(&["apps"])),
        api_versions: Some(strings(&["v1"])),
        resources: Some(strings(&["pods"])),
    };
    let mut target = make();
    target.merge_from(make());
    assert_eq!(target, make());
}

#[test]
fn resource_rule_merges_field_by_field() {
    let mut target = ResourceRule {
        api_groups: Some(strings(&["*"])),
        resource_names: None,
        resources: Some(strings(&["pods"])),
        verbs: strings(&["get", "list"]),
    };
    let source = ResourceRule {
        api_groups: None,
        resource_names: Some(strings(&["x"])),
        resources: None,
        verbs: strings(&["watch"]),
    };
    target.merge_from(source);
    assert_eq!(
        target,
        ResourceRule {
            api_groups: Some(strings(&["*"])),
            resource_names: Some(strings(&["x"])),
            resources: Some(strings(&["pods"])),
            verbs: strings(&["watch"]),
        }
    );
}

#[test]
fn quobyte_volume_source_scalars_overwrite() {
    let mut target = QuobyteVolumeSource {
        group: Some("g1".to_string()),
        read_only: None,
        registry: "reg1:7861".to_string(),
        user: Some("u1".to_string()),
        volume: "v1".to_string(),
    };
    let source = QuobyteVolumeSource {
        group: None,
        read_only: Some(true),
        registry: "reg2:7861".to_string(),
        user: None,
        volume: "v2".to_string(),
    };
    target.merge_from(source);
    assert_eq!(
        target,
        QuobyteVolumeSource {
            group: Some("g1".to_string()),
            read_only: Some(true),
            registry: "reg2:7861".to_string(),
            user: Some("u1".to_string()),
            volume: "v2".to_string(),
        }
    );
}

#[test]
fn autoscaler_spec_merges_reference_recursively() {
    let mut target = HorizontalPodAutoscalerSpec {
        max_replicas: 3,
        min_replicas: Some(1),
        scale_target_ref: CrossVersionObjectReference {
            api_version: Some("apps/v1".to_string()),
            kind: "Deployment".to_string(),
            name: "web".to_string(),
        },
        target_cpu_utilization_percentage: None,
    };
    let source = HorizontalPodAutoscalerSpec {
        max_replicas: 5,
        min_replicas: None,
        scale_target_ref: CrossVersionObjectReference {
            api_version: None,
            kind: "Deployment".to_string(),
            name: "web-v2".to_string(),
        },
        target_cpu_utilization_percentage: Some(80),
    };
    target.merge_from(source);
    assert_eq!(
        target,
        HorizontalPodAutoscalerSpec {
            max_replicas: 5,
            min_replicas: Some(1),
            scale_target_ref: CrossVersionObjectReference {
                api_version: Some("apps/v1".to_string()),
                kind: "Deployment".to_string(),
                name: "web-v2".to_string(),
            },
            target_cpu_utilization_percentage: Some(80),
        }
    );
}

#[test]
fn ingress_path_backend_overwrites() {
    let mut target = HTTPIngressPath {
        backend: IngressBackend {
            service_name: "svc1".to_string(),
            service_port: IntOrString::Int(80),
        },
        path: Some("/old".to_string()),
    };
    let source = HTTPIngressPath {
        backend: IngressBackend {
            service_name: "svc2".to_string(),
            service_port: IntOrString::Text("http".to_string()),
        },
        path: None,
    };
    target.merge_from(source);
    assert_eq!(target.backend.service_name, "svc2".to_string());
    assert_eq!(
        target.backend.service_port,
        IntOrString::Text("http".to_string())
    );
    assert_eq!(target.path, Some("/old".to_string()));
}

#[test]
fn cron_job_status_active_is_atomic() {
    let job = |name: &str| ObjectReference {
        api_version: None,
        field_path: None,
        kind: Some("Job".to_string()),
        name: Some(name.to_string()),
        namespace: None,
        resource_version: None,
        uid: None,
    };
    let mut target = CronJobStatus {
        active: Some(vec![job("a"), job("b")]),
        last_schedule_time: Some(Time { epoch_seconds: 100, nanoseconds: 0 }),
    };
    let source = CronJobStatus {
        active: Some(vec![job("c")]),
        last_schedule_time: Some(Time { epoch_seconds: 200, nanoseconds: 5 }),
    };
    target.merge_from(source);
    assert_eq!(target.active, Some(vec![job("c")]));
    assert_eq!(
        target.last_schedule_time,
        Some(Time { epoch_seconds: 200, nanoseconds: 5 })
    );
}

#[test]
fn node_status_reconciles_addresses_by_type() {
    let addr = |type_: &str, address: &str| NodeAddress {
        address: address.to_string(),
        type_: type_.to_string(),
    };
    let empty = || NodeStatus {
        addresses: None,
        allocatable: None,
        capacity: None,
        conditions: None,
        daemon_endpoints: None,
        images: None,
        node_info: None,
        phase: None,
        volumes_attached: None,
        volumes_in_use: None,
    };
    let mut target = empty();
    target.addresses = Some(vec![addr("Hostname", "n1"), addr("InternalIP", "10.0.0.1")]);
    let mut source = empty();
    source.addresses = Some(vec![addr("InternalIP", "10.0.0.2"), addr("ExternalIP", "1.2.3.4")]);
    target.merge_from(source);
    assert_eq!(
        target.addresses,
        Some(vec![
            addr("Hostname", "n1"),
            addr("InternalIP", "10.0.0.2"),
            addr("ExternalIP", "1.2.3.4"),
        ])
    );
}

#[test]
fn node_status_capacity_merges_granularly() {
    let empty = || NodeStatus {
        addresses: None,
        allocatable: None,
        capacity: None,
        conditions: None,
        daemon_endpoints: None,
        images: None,
        node_info: None,
        phase: None,
        volumes_attached: None,
        volumes_in_use: None,
    };
    let mut cap_old: StringMap<Quantity> = StringMap::new();
    cap_old.insert("cpu".to_string(), Quantity("4".to_string()));
    cap_old.insert("memory".to_string(), Quantity("8Gi".to_string()));
    let mut cap_new: StringMap<Quantity> = StringMap::new();
    cap_new.insert("cpu".to_string(), Quantity("8".to_string()));
    cap_new.insert("pods".to_string(), Quantity("110".to_string()));

    let mut target = empty();
    target.capacity = Some(cap_old);
    let mut source = empty();
    source.capacity = Some(cap_new);
    target.merge_from(source);

    let got = target.capacity.expect("capacity should be present");
    assert_eq!(got.len(), 3);
    assert_eq!(got.get(&"cpu".to_string()), Some(&Quantity("8".to_string())));
    assert_eq!(got.get(&"memory".to_string()), Some(&Quantity("8Gi".to_string())));
    assert_eq!(got.get(&"pods".to_string()), Some(&Quantity("110".to_string())));
}

fn empty_meta() -> ObjectMeta {
    ObjectMeta {
        annotations: None,
        creation_timestamp: None,
        deletion_grace_period_seconds: None,
        deletion_timestamp: None,
        finalizers: None,
        generate_name: None,
        generation: None,
        labels: None,
        name: None,
        namespace: None,
        owner_references: None,
        resource_version: None,
        self_link: None,
        uid: None,
    }
}

#[test]
fn object_meta_finalizers_merge_as_set() {
    let mut target = empty_meta();
    target.finalizers = Some(strings(&["protect", "drain"]));
    let mut source = empty_meta();
    source.finalizers = Some(strings(&["drain", "archive"]));
    target.merge_from(source);
    assert_eq!(target.finalizers, Some(strings(&["protect", "drain", "archive"])));
}

#[test]
fn object_meta_labels_merge_granularly() {
    let mut labels_old: StringMap<String> = StringMap::new();
    labels_old.insert("app".to_string(), "web".to_string());
    labels_old.insert("tier".to_string(), "front".to_string());
    let mut labels_new: StringMap<String> = StringMap::new();
    labels_new.insert("tier".to_string(), "back".to_string());
    labels_new.insert("env".to_string(), "prod".to_string());

    let mut target = empty_meta();
    target.labels = Some(labels_old);
    let mut source = empty_meta();
    source.labels = Some(labels_new);
    target.merge_from(source);

    let got = target.labels.expect("labels should be present");
    assert_eq!(got.len(), 3);
    assert_eq!(got.get(&"app".to_string()), Some(&"web".to_string()));
    assert_eq!(got.get(&"tier".to_string()), Some(&"back".to_string()));
    assert_eq!(got.get(&"env".to_string()), Some(&"prod".to_string()));
}

#[test]
fn object_meta_owner_references_reconcile_by_uid() {
    let owner = |uid: &str, name: &str, controller: Option<bool>| OwnerReference {
        api_version: "v1".to_string(),
        block_owner_deletion: None,
        controller,
        kind: "Deployment".to_string(),
        name: name.to_string(),
        uid: uid.to_string(),
    };
    let mut target = empty_meta();
    target.owner_references = Some(vec![owner("u1", "a", None)]);
    let mut source = empty_meta();
    source.owner_references = Some(vec![owner("u1", "a2", Some(true)), owner("u2", "b", None)]);
    target.merge_from(source);
    assert_eq!(
        target.owner_references,
        Some(vec![owner("u1", "a2", Some(true)), owner("u2", "b", None)])
    );
}

#[test]
fn event_merges_field_by_field() {
    let reference = |name: &str| ObjectReference {
        api_version: None,
        field_path: None,
        kind: Some("Pod".to_string()),
        name: Some(name.to_string()),
        namespace: None,
        resource_version: None,
        uid: None,
    };
    let mut target = Event {
        api_version: Some("v1".to_string()),
        count: Some(1),
        first_timestamp: Some(Time { epoch_seconds: 10, nanoseconds: 0 }),
        involved_object: reference("p1"),
        kind: Some("Event".to_string()),
        last_timestamp: Some(Time { epoch_seconds: 10, nanoseconds: 0 }),
        message: Some("started".to_string()),
        metadata: empty_meta(),
        reason: None,
        source: None,
        type_: Some("Normal".to_string()),
    };
    let source = Event {
        api_version: None,
        count: Some(2),
        first_timestamp: None,
        involved_object: reference("p1"),
        kind: None,
        last_timestamp: Some(Time { epoch_seconds: 20, nanoseconds: 0 }),
        message: None,
        metadata: empty_meta(),
        reason: Some("Scheduled".to_string()),
        source: Some(EventSource { component: Some("kubelet".to_string()), host: None }),
        type_: None,
    };
    target.merge_from(source);
    assert_eq!(target.api_version, Some("v1".to_string()));
    assert_eq!(target.count, Some(2));
    assert_eq!(target.first_timestamp, Some(Time { epoch_seconds: 10, nanoseconds: 0 }));
    assert_eq!(target.last_timestamp, Some(Time { epoch_seconds: 20, nanoseconds: 0 }));
    assert_eq!(target.message, Some("started".to_string()));
    assert_eq!(target.reason, Some("Scheduled".to_string()));
    assert_eq!(
        target.source,
        Some(EventSource { component: Some("kubelet".to_string()), host: None })
    );
    assert_eq!(target.type_, Some("Normal".to_string()));
}

#[test]
fn byte_string_overwrites() {
    let mut target = ByteString(vec![1, 2, 3]);
    target.merge_from(ByteString(vec![9]));
    assert_eq!(target, ByteString(vec![9]));
}

#[test]
fn time_overwrites() {
    let mut target = Time { epoch_seconds: 1, nanoseconds: 2 };
    target.merge_from(Time { epoch_seconds: 3, nanoseconds: 4 });
    assert_eq!(target, Time { epoch_seconds: 3, nanoseconds: 4 });
}

#[test]
fn object_reference_optional_fields_absorb() {
    let mut target = ObjectReference {
        api_version: Some("v1".to_string()),
        field_path: None,
        kind: Some("Pod".to_string()),
        name: Some("p1".to_string()),
        namespace: None,
        resource_version: None,
        uid: None,
    };
    let source = ObjectReference {
        api_version: None,
        field_path: None,
        kind: None,
        name: Some("p2".to_string()),
        namespace: Some("ns".to_string()),
        resource_version: None,
        uid: None,
    };
    target.merge_from(source);
    assert_eq!(target.api_version, Some("v1".to_string()));
    assert_eq!(target.kind, Some("Pod".to_string()));
    assert_eq!(target.name, Some("p2".to_string()));
    assert_eq!(target.namespace, Some("ns".to_string()));
}
