use listener_operator::crd::{
    AddressType, ExternalTrafficPolicy, Listener, ListenerClassSpec, ListenerIngress,
    ListenerSpec, ListenerStatus, PodListenerScope, ServiceType,
};
use listener_operator::csi::CsiErrorCode;
use listener_operator::csi_node::{
    build_listener_for_class, build_pod_listeners, find_pod_volume_name_for_pvc,
    local_listener_addresses_for_pod, parse_node_volume_context, publish_pod_label,
    publish_pv_labels, pvc_name_for_pv, require_addresses, PublishVolumeError,
    UnpublishVolumeError,
};
use listener_operator::k8s::{
    Container, ContainerPort, Node, NodeAddress, NodeStatus, ObjectMetadata, ObjectReference,
    PersistentVolume, PersistentVolumeClaim, PersistentVolumeClaimVolumeSource,
    PersistentVolumeSpec, Pod, PodSpec, Volume,
};

fn metadata(name: &str, namespace: &str, uid: Option<&str>) -> ObjectMetadata {
    ObjectMetadata {
        name: Some(name.to_string()),
        namespace: Some(namespace.to_string()),
        uid: uid.map(|u| u.to_string()),
        labels: Vec::new(),
        annotations: Vec::new(),
        owner_uid: None,
    }
}

fn kv(pairs: Vec<(&str, &str)>) -> Vec<(String, String)> {
    pairs.into_iter().map(|(k, v)| (k.to_string(), v.to_string())).collect()
}

fn pod_with_ports(ports: Vec<ContainerPort>) -> Pod {
    Pod {
        metadata: metadata("web-0", "ns1", Some("pod-uid-1")),
        spec: Some(PodSpec {
            node_name: Some("node-1".to_string()),
            containers: vec![Container { ports: Some(ports) }],
            volumes: None,
        }),
    }
}

fn pv_claimed_by(pvc: &str) -> PersistentVolume {
    PersistentVolume {
        metadata: ObjectMetadata {
            name: Some("pvc-42".to_string()),
            namespace: None,
            uid: Some("pv-uid-1".to_string()),
            labels: Vec::new(),
            annotations: Vec::new(),
            owner_uid: None,
        },
        spec: Some(PersistentVolumeSpec {
            claim_ref: Some(ObjectReference { name: Some(pvc.to_string()) }),
            node_affinity: None,
        }),
    }
}

#[test]
fn volume_context_names_pod_and_selector() {
    let context = kv(vec![
        ("csi.storage.k8s.io/pod.namespace", "ns1"),
        ("csi.storage.k8s.io/pod.name", "web-0"),
        ("listeners.stackable.tech/listener-class", "public"),
    ]);
    let parsed = parse_node_volume_context(&context).unwrap();
    assert_eq!(parsed.pod_namespace, "ns1");
    assert_eq!(parsed.pod_name, "web-0");
    let missing_pod = kv(vec![("listeners.stackable.tech/listener-class", "public")]);
    let status = parse_node_volume_context(&missing_pod).unwrap_err().to_status();
    assert_eq!(status.code, CsiErrorCode::InvalidArgument);
}

#[test]
fn unclaimed_volume_is_unavailable() {
    let mut pv = pv_claimed_by("web-volume");
    pv.spec = None;
    let status = pvc_name_for_pv(&pv).unwrap_err().to_status();
    assert_eq!(status.code, CsiErrorCode::Unavailable);
    assert_eq!(pvc_name_for_pv(&pv_claimed_by("web-volume")).unwrap(), "web-volume");
}

#[test]
fn derived_listener_names_unnamed_ports_after_their_number() {
    let pod = pod_with_ports(vec![
        ContainerPort {
            name: Some("http".to_string()),
            container_port: 8080,
            protocol: Some("TCP".to_string()),
        },
        ContainerPort { name: None, container_port: 9090, protocol: None },
    ]);
    let pvc = PersistentVolumeClaim { metadata: metadata("web-volume", "ns1", None) };
    let listener = build_listener_for_class(
        &"ns1".to_string(),
        &"web-volume".to_string(),
        &pv_claimed_by("web-volume"),
        &pvc,
        &pod,
        "public".to_string(),
    )
    .unwrap();
    assert_eq!(listener.metadata.name, Some("web-volume".to_string()));
    assert_eq!(listener.metadata.owner_uid, Some("pv-uid-1".to_string()));
    assert_eq!(listener.spec.class_name, Some("public".to_string()));
    assert_eq!(listener.spec.publish_not_ready_addresses, Some(true));
    let ports = listener.spec.ports.unwrap();
    assert_eq!(ports.len(), 2);
    assert_eq!(ports[0].name, "http");
    assert_eq!(ports[0].port, 8080);
    assert_eq!(ports[1].name, "port-9090");
    assert_eq!(ports[1].port, 9090);
}

#[test]
fn owner_reference_needs_the_volume_uid() {
    let pod = pod_with_ports(vec![]);
    let pvc = PersistentVolumeClaim { metadata: metadata("web-volume", "ns1", None) };
    let mut pv = pv_claimed_by("web-volume");
    pv.metadata.uid = None;
    let r = build_listener_for_class(
        &"ns1".to_string(),
        &"web-volume".to_string(),
        &pv,
        &pvc,
        &pod,
        "public".to_string(),
    );
    let status = r.unwrap_err().to_status();
    assert_eq!(status.code, CsiErrorCode::Unavailable);
}

fn listener_with_status(status: Option<ListenerStatus>) -> Listener {
    Listener {
        metadata: metadata("web", "ns1", Some("uid-1")),
        spec: ListenerSpec {
            class_name: Some("public".to_string()),
            extra_pod_selector_labels: Vec::new(),
            ports: None,
            publish_not_ready_addresses: None,
        },
        status,
    }
}

fn nodeport_class() -> ListenerClassSpec {
    ListenerClassSpec {
        service_type: ServiceType::NodePort,
        service_annotations: Vec::new(),
        preferred_address_type: AddressType::Ip,
        service_external_traffic_policy: ExternalTrafficPolicy::Cluster,
        sticky_node_ports: true,
    }
}

#[test]
fn node_ports_in_status_prefer_the_pods_own_node() {
    let listener = listener_with_status(Some(ListenerStatus {
        service_name: Some("web".to_string()),
        ingress_addresses: Some(vec![ListenerIngress {
            address: "9.9.9.9".to_string(),
            address_type: AddressType::Ip,
            ports: vec![("http".to_string(), 31234)],
        }]),
        node_ports: Some(vec![("http".to_string(), 31234)]),
    }));
    let node = Node {
        status: Some(NodeStatus {
            addresses: Some(vec![NodeAddress {
                type_: "ExternalIP".to_string(),
                address: "1.2.3.4".to_string(),
            }]),
        }),
    };
    let addrs =
        local_listener_addresses_for_pod(&listener, Some(&node), Some(&nodeport_class()));
    assert_eq!(addrs.len(), 1);
    assert_eq!(addrs[0].address, "1.2.3.4");
    assert_eq!(addrs[0].address_type, AddressType::Ip);
    assert_eq!(addrs[0].ports, vec![("http".to_string(), 31234)]);
}

#[test]
fn without_node_ports_the_status_addresses_are_used() {
    let listener = listener_with_status(Some(ListenerStatus {
        service_name: Some("web".to_string()),
        ingress_addresses: Some(vec![ListenerIngress {
            address: "lb.example.com".to_string(),
            address_type: AddressType::Hostname,
            ports: vec![("http".to_string(), 8080)],
        }]),
        node_ports: None,
    }));
    let addrs = local_listener_addresses_for_pod(&listener, None, None);
    assert_eq!(addrs.len(), 1);
    assert_eq!(addrs[0].address, "lb.example.com");
}

#[test]
fn publishing_without_any_address_is_unavailable() {
    // a ClusterIP-backed volume before the Service has a cluster IP:
    // the status has no usable ingress address yet
    let listener = listener_with_status(Some(ListenerStatus {
        service_name: Some("web".to_string()),
        ingress_addresses: Some(Vec::new()),
        node_ports: None,
    }));
    let addrs = local_listener_addresses_for_pod(&listener, None, None);
    assert_eq!(addrs.len(), 0);
    let status = require_addresses(addrs).unwrap_err().to_status();
    assert_eq!(status.code, CsiErrorCode::Unavailable);
    assert_eq!(status.message, "listener has no addresses yet");
}

#[test]
fn pod_volume_is_found_by_claim_or_ephemeral_name() {
    let mut pod = pod_with_ports(vec![]);
    if let Some(spec) = pod.spec.as_mut() {
        spec.volumes = Some(vec![
            Volume {
                name: "data".to_string(),
                persistent_volume_claim: Some(PersistentVolumeClaimVolumeSource {
                    claim_name: "web-volume".to_string(),
                }),
                ephemeral: false,
            },
            Volume {
                name: "listener".to_string(),
                persistent_volume_claim: None,
                ephemeral: true,
            },
        ]);
    }
    let direct = find_pod_volume_name_for_pvc(
        &pod,
        &"web-0".to_string(),
        &"web-volume".to_string(),
    );
    assert_eq!(direct.unwrap(), "data");
    let ephemeral = find_pod_volume_name_for_pvc(
        &pod,
        &"web-0".to_string(),
        &"web-0-listener".to_string(),
    );
    assert_eq!(ephemeral.unwrap(), "listener");
    let missing =
        find_pod_volume_name_for_pvc(&pod, &"web-0".to_string(), &"other".to_string());
    let status = missing.unwrap_err().to_status();
    assert_eq!(status.code, CsiErrorCode::FailedPrecondition);
}

#[test]
fn pod_listeners_record_is_keyed_by_pod_uid() {
    let pod = pod_with_ports(vec![]);
    let listener = listener_with_status(Some(ListenerStatus {
        service_name: Some("web".to_string()),
        ingress_addresses: None,
        node_ports: Some(vec![("http".to_string(), 31234)]),
    }));
    let addrs = vec![ListenerIngress {
        address: "1.2.3.4".to_string(),
        address_type: AddressType::Ip,
        ports: vec![("http".to_string(), 31234)],
    }];
    let record =
        build_pod_listeners(&pod, "listener".to_string(), &listener, &addrs).unwrap();
    assert_eq!(record.name, Some("pod-pod-uid-1".to_string()));
    assert_eq!(record.namespace, Some("ns1".to_string()));
    assert_eq!(record.owner_pod_uid, Some("pod-uid-1".to_string()));
    assert_eq!(record.spec.listeners.len(), 1);
    assert_eq!(record.spec.listeners[0].0, "listener");
    assert_eq!(record.spec.listeners[0].1.scope, PodListenerScope::Node);
}

#[test]
fn ambiguous_selector_fails_to_decode() {
    let context = kv(vec![
        ("csi.storage.k8s.io/pod.namespace", "ns1"),
        ("csi.storage.k8s.io/pod.name", "web-0"),
        ("listeners.stackable.tech/listener-class", "public"),
        ("listeners.stackable.tech/listener-name", "web"),
    ]);
    let status = parse_node_volume_context(&context).unwrap_err().to_status();
    assert_eq!(status.code, CsiErrorCode::InvalidArgument);
}

#[test]
fn claim_backed_volume_never_matches_as_ephemeral() {
    let mut pod = pod_with_ports(vec![]);
    if let Some(spec) = pod.spec.as_mut() {
        // backed by a different claim, but flagged ephemeral with a
        // name that would match the ephemeral rule
        spec.volumes = Some(vec![Volume {
            name: "listener".to_string(),
            persistent_volume_claim: Some(PersistentVolumeClaimVolumeSource {
                claim_name: "other".to_string(),
            }),
            ephemeral: true,
        }]);
    }
    let r = find_pod_volume_name_for_pvc(
        &pod,
        &"web-0".to_string(),
        &"web-0-listener".to_string(),
    );
    assert!(r.is_err());
}

#[test]
fn underivable_labels_are_failed_preconditions() {
    let mut l = listener_with_status(None);
    l.metadata.uid = None;
    let status = publish_pod_label(&l).unwrap_err().to_status();
    assert_eq!(status.code, CsiErrorCode::FailedPrecondition);
    assert_eq!(
        status.message,
        "failed to generate Listener ns1/web's pod selector: object has no uid"
    );
    let mut l = listener_with_status(None);
    l.metadata.namespace = None;
    let status = publish_pv_labels(&l).unwrap_err().to_status();
    assert_eq!(status.code, CsiErrorCode::FailedPrecondition);
    assert_eq!(
        status.message,
        "failed to generate Listener /web's PersistentVolume selector: object has no namespace"
    );
}

#[test]
fn derivable_labels_pass_through() {
    let l = listener_with_status(None);
    let (key, value) = publish_pod_label(&l).unwrap();
    assert_eq!(key, "listener.stackable.tech/mnt.uid1");
    assert_eq!(value, "web");
    let labels = publish_pv_labels(&l).unwrap();
    assert_eq!(labels.len(), 2);
    assert_eq!(labels[0].1, "ns1");
    assert_eq!(labels[1].1, "web");
}

#[test]
fn filesystem_failures_are_internal() {
    let status = PublishVolumeError::PreparePodDir {
        target_path: "/var/lib/kubelet/pods/p1/volumes/v1".to_string(),
        message: "read-only file system".to_string(),
    }
    .to_status();
    assert_eq!(status.code, CsiErrorCode::Internal);
    assert_eq!(
        status.message,
        "failed to prepare pod dir at /var/lib/kubelet/pods/p1/volumes/v1: read-only file system"
    );
    let status = UnpublishVolumeError::CleanupData {
        path: "/var/lib/kubelet/pods/p1/volumes/v1".to_string(),
        message: "permission denied".to_string(),
    }
    .to_status();
    assert_eq!(status.code, CsiErrorCode::Internal);
    assert_eq!(
        status.message,
        "failed to clean up volume data at /var/lib/kubelet/pods/p1/volumes/v1: permission denied"
    );
}

#[test]
fn store_write_failures_are_unavailable() {
    let apply = PublishVolumeError::ApplyListener {
        listener_namespace: "ns1".to_string(),
        listener_name: "web".to_string(),
        message: "conflict".to_string(),
    }
    .to_status();
    assert_eq!(apply.code, CsiErrorCode::Unavailable);
    assert_eq!(apply.message, "failed to apply Listener ns1/web: conflict");
    let write = PublishVolumeError::WritePodListeners {
        pod_listeners_name: "pod-pod-uid-1".to_string(),
        create_error: "already exists".to_string(),
        message: "conflict".to_string(),
    }
    .to_status();
    assert_eq!(write.code, CsiErrorCode::Unavailable);
    assert_eq!(
        write.message,
        "failed to write PodListeners pod-pod-uid-1 (also tried to create: already exists): conflict"
    );
}
