use listener_operator::crd::{
    AddressType, ExternalTrafficPolicy, Listener, ListenerClassSpec, ListenerPort, ListenerSpec,
    ServiceType,
};
use listener_operator::k8s::{
    EndpointAddress, Endpoints, EndpointSubset, LoadBalancerIngressStatus, Node, NodeAddress,
    NodeSelector, NodeSelectorRequirement, NodeSelectorTerm, NodeStatus, ObjectMetadata,
    PersistentVolume, PersistentVolumeSpec, ServiceStatus,
};
use listener_operator::crd::{ListenerIngress, ListenerStatus};
use listener_operator::listener_controller::{
    build_listener_status, build_service, error_policy, listener_mounted_pod_label,
    listener_owns_endpoints, listener_persistent_volume_label, listener_references_class,
    node_names_for_nodeport_listener, pv_listener_reference, Error, ObjectId, ReconcileAction,
};

fn metadata(name: &str, namespace: &str, uid: &str) -> ObjectMetadata {
    ObjectMetadata {
        name: Some(name.to_string()),
        namespace: Some(namespace.to_string()),
        uid: Some(uid.to_string()),
        labels: Vec::new(),
        annotations: Vec::new(),
        owner_uid: None,
    }
}

fn listener(name: &str, namespace: &str, uid: &str, ports: Vec<ListenerPort>) -> Listener {
    Listener {
        metadata: metadata(name, namespace, uid),
        spec: ListenerSpec {
            class_name: Some("public".to_string()),
            extra_pod_selector_labels: Vec::new(),
            ports: Some(ports),
            publish_not_ready_addresses: Some(true),
        },
        status: None,
    }
}

fn class(service_type: ServiceType, preferred: AddressType) -> ListenerClassSpec {
    ListenerClassSpec {
        service_type,
        service_annotations: Vec::new(),
        preferred_address_type: preferred,
        service_external_traffic_policy: ExternalTrafficPolicy::Local,
        sticky_node_ports: true,
    }
}

fn port(name: &str, number: i32) -> ListenerPort {
    ListenerPort { name: name.to_string(), port: number, protocol: Some("TCP".to_string()) }
}

fn node_with_external_ip(ip: &str) -> Node {
    Node {
        status: Some(NodeStatus {
            addresses: Some(vec![NodeAddress {
                type_: "ExternalIP".to_string(),
                address: ip.to_string(),
            }]),
        }),
    }
}

#[test]
fn mounted_pod_label_strips_uid_dashes() {
    let l = listener("web", "ns1", "8f7c2a10-1111-2222-3333-444455556666", vec![]);
    let (key, value) = listener_mounted_pod_label(&l).unwrap();
    assert_eq!(key, "listener.stackable.tech/mnt.8f7c2a10111122223333444455556666");
    assert_eq!(value, "web");
}

#[test]
fn mounted_pod_label_needs_uid() {
    let mut l = listener("web", "ns1", "u", vec![]);
    l.metadata.uid = None;
    assert!(listener_mounted_pod_label(&l).is_err());
}

#[test]
fn persistent_volume_label_names_listener() {
    let l = listener("web", "ns1", "u", vec![]);
    let labels = listener_persistent_volume_label(&l).unwrap();
    assert_eq!(
        labels,
        vec![
            (
                "listeners.stackable.tech/listener-namespace".to_string(),
                "ns1".to_string()
            ),
            ("listeners.stackable.tech/listener-name".to_string(), "web".to_string()),
        ]
    );
}

#[test]
fn derived_service_mirrors_listener_and_class() {
    let l = listener("web", "ns1", "uid-1", vec![port("http", 8080)]);
    let c = class(ServiceType::NodePort, AddressType::Ip);
    let svc = build_service(&l, &c).unwrap();
    assert_eq!(svc.name, "web");
    assert_eq!(svc.namespace, "ns1");
    assert_eq!(svc.spec.type_, ServiceType::NodePort);
    assert_eq!(svc.spec.ports.len(), 1);
    assert_eq!(svc.spec.ports[0].name, Some("http".to_string()));
    assert_eq!(svc.spec.ports[0].port, 8080);
    assert_eq!(svc.spec.external_traffic_policy, Some(ExternalTrafficPolicy::Local));
    assert!(svc.spec.publish_not_ready_addresses);
    // the selector ends with the mounted-pod label
    let last = svc.spec.selector.last().unwrap();
    assert_eq!(last.0, "listener.stackable.tech/mnt.uid1");
    assert_eq!(last.1, "web");
}

#[test]
fn cluster_ip_service_gets_no_traffic_policy() {
    let l = listener("web", "ns1", "uid-1", vec![port("http", 8080)]);
    let c = class(ServiceType::ClusterIP, AddressType::Ip);
    let svc = build_service(&l, &c).unwrap();
    assert_eq!(svc.spec.external_traffic_policy, None);
}

#[test]
fn service_ports_deduplicate_by_protocol_and_name() {
    let l = listener(
        "web",
        "ns1",
        "uid-1",
        vec![port("http", 8080), port("metrics", 9100), port("http", 9090)],
    );
    let c = class(ServiceType::NodePort, AddressType::Ip);
    let svc = build_service(&l, &c).unwrap();
    assert_eq!(svc.spec.ports.len(), 2);
    // the repeated key keeps its first position but the later port wins
    assert_eq!(svc.spec.ports[0].name, Some("http".to_string()));
    assert_eq!(svc.spec.ports[0].port, 9090);
    assert_eq!(svc.spec.ports[1].name, Some("metrics".to_string()));
    assert_eq!(svc.spec.ports[1].port, 9100);
}

#[test]
fn nodeport_status_lists_each_backing_node() {
    // Listener `web` in `ns1`, NodePort class preferring IPs, one port
    // http/8080; two backing nodes with external IPs.
    let l = listener("web", "ns1", "uid-1", vec![port("http", 8080)]);
    let c = class(ServiceType::NodePort, AddressType::Ip);
    let mut svc = build_service(&l, &c).unwrap();
    // the cluster assigned a node port
    svc.spec.ports[0].node_port = Some(31234);
    let nodes = vec![node_with_external_ip("1.2.3.4"), node_with_external_ip("5.6.7.8")];
    let status = build_listener_status(&c, &svc, &"cluster.local".to_string(), &nodes);
    let ingress = status.ingress_addresses.unwrap();
    assert_eq!(ingress.len(), 2);
    assert_eq!(ingress[0].address, "1.2.3.4");
    assert_eq!(ingress[0].address_type, AddressType::Ip);
    assert_eq!(ingress[0].ports, vec![("http".to_string(), 31234)]);
    assert_eq!(ingress[1].address, "5.6.7.8");
    assert_eq!(ingress[1].address_type, AddressType::Ip);
    assert_eq!(ingress[1].ports, vec![("http".to_string(), 31234)]);
    assert_eq!(status.node_ports, Some(vec![("http".to_string(), 31234)]));
    assert_eq!(status.service_name, Some("web".to_string()));
}

#[test]
fn cluster_ip_hostname_status_is_the_service_fqdn() {
    let l = listener("web", "ns1", "uid-1", vec![port("http", 8080)]);
    let c = class(ServiceType::ClusterIP, AddressType::Hostname);
    let svc = build_service(&l, &c).unwrap();
    let status = build_listener_status(&c, &svc, &"cluster.local".to_string(), &Vec::new());
    let ingress = status.ingress_addresses.unwrap();
    assert_eq!(ingress.len(), 1);
    assert_eq!(ingress[0].address, "web.ns1.svc.cluster.local");
    assert_eq!(ingress[0].address_type, AddressType::Hostname);
    assert_eq!(ingress[0].ports, vec![("http".to_string(), 8080)]);
    assert_eq!(status.node_ports, None);
}

#[test]
fn cluster_ip_ip_status_uses_cluster_ips() {
    let l = listener("web", "ns1", "uid-1", vec![port("http", 8080)]);
    let c = class(ServiceType::ClusterIP, AddressType::Ip);
    let mut svc = build_service(&l, &c).unwrap();
    svc.spec.cluster_ips.push("10.96.0.17".to_string());
    let status = build_listener_status(&c, &svc, &"cluster.local".to_string(), &Vec::new());
    let ingress = status.ingress_addresses.unwrap();
    assert_eq!(ingress.len(), 1);
    assert_eq!(ingress[0].address, "10.96.0.17");
    assert_eq!(ingress[0].address_type, AddressType::Ip);
}

fn pv_pinned_to(node: &str) -> PersistentVolume {
    PersistentVolume {
        metadata: ObjectMetadata {
            name: None,
            namespace: None,
            uid: None,
            labels: Vec::new(),
            annotations: Vec::new(),
            owner_uid: None,
        },
        spec: Some(PersistentVolumeSpec {
            claim_ref: None,
            node_affinity: Some(NodeSelector {
                node_selector_terms: vec![NodeSelectorTerm {
                    match_expressions: Some(vec![NodeSelectorRequirement {
                        key: "listeners.stackable.tech/hostname".to_string(),
                        operator: "In".to_string(),
                        values: Some(vec![node.to_string()]),
                    }]),
                }],
            }),
        }),
    }
}

fn endpoints_on(nodes: Vec<&str>) -> Endpoints {
    Endpoints {
        subsets: Some(vec![EndpointSubset {
            addresses: Some(
                nodes
                    .into_iter()
                    .map(|n| EndpointAddress { node_name: Some(n.to_string()) })
                    .collect(),
            ),
        }]),
    }
}

#[test]
fn node_discovery_unions_volumes_and_endpoints() {
    let pvs = vec![pv_pinned_to("node-1")];
    let endpoints = Some(endpoints_on(vec!["node-2", "node-1"]));
    let discovered = node_names_for_nodeport_listener(&pvs, &endpoints);
    assert_eq!(discovered.node_names, vec!["node-1".to_string(), "node-2".to_string()]);
    assert_eq!(discovered.endpoints_only, vec!["node-2".to_string()]);
}

#[test]
fn node_discovery_ignores_other_selector_keys() {
    let mut pv = pv_pinned_to("node-1");
    if let Some(spec) = pv.spec.as_mut() {
        if let Some(sel) = spec.node_affinity.as_mut() {
            if let Some(exprs) = sel.node_selector_terms[0].match_expressions.as_mut() {
                exprs[0].key = "kubernetes.io/hostname".to_string();
            }
        }
    }
    let discovered = node_names_for_nodeport_listener(&vec![pv], &None);
    assert_eq!(discovered.node_names, Vec::<String>::new());
}

#[test]
fn node_discovery_without_endpoints_object() {
    let pvs = vec![pv_pinned_to("node-1"), pv_pinned_to("node-1")];
    let discovered = node_names_for_nodeport_listener(&pvs, &None);
    assert_eq!(discovered.node_names, vec!["node-1".to_string()]);
    assert_eq!(discovered.endpoints_only, Vec::<String>::new());
}

#[test]
fn invalid_listener_waits_other_errors_requeue() {
    assert_eq!(error_policy(&Error::InvalidListener), ReconcileAction::AwaitChange);
    assert_eq!(
        error_policy(&Error::NoListenerClass),
        ReconcileAction::RequeueAfterSeconds(10)
    );
    assert_eq!(error_policy(&Error::NoNs), ReconcileAction::RequeueAfterSeconds(10));
}

#[test]
fn load_balancer_status_resolves_each_ingress_entry() {
    let l = listener("web", "ns1", "uid-1", vec![port("http", 8080)]);
    let c = class(ServiceType::LoadBalancer, AddressType::Hostname);
    let mut svc = build_service(&l, &c).unwrap();
    svc.status = Some(ServiceStatus {
        load_balancer_ingress: vec![
            LoadBalancerIngressStatus {
                ip: Some("203.0.113.7".to_string()),
                hostname: Some("lb.example.com".to_string()),
            },
            LoadBalancerIngressStatus { ip: Some("203.0.113.8".to_string()), hostname: None },
        ],
    });
    let status = build_listener_status(&c, &svc, &"cluster.local".to_string(), &Vec::new());
    let ingress = status.ingress_addresses.unwrap();
    assert_eq!(ingress.len(), 2);
    // the preferred hostname where one exists, the IP as fallback
    assert_eq!(ingress[0].address, "lb.example.com");
    assert_eq!(ingress[0].address_type, AddressType::Hostname);
    assert_eq!(ingress[1].address, "203.0.113.8");
    assert_eq!(ingress[1].address_type, AddressType::Ip);
    // requested port numbers, not node ports
    assert_eq!(ingress[0].ports, vec![("http".to_string(), 8080)]);
    assert_eq!(status.node_ports, None);
}

#[test]
fn failures_report_their_category_and_object() {
    let err = Error::GetObject {
        obj: ObjectId {
            kind: "ListenerClass".to_string(),
            namespace: None,
            name: "public".to_string(),
        },
        message: "connection refused".to_string(),
    };
    assert_eq!(err.category(), "GetObject");
    let obj = err.secondary_object().unwrap();
    assert_eq!(obj.kind, "ListenerClass");
    assert_eq!(obj.name, "public");
    assert_eq!(Error::NoListenerClass.category(), "NoListenerClass");
    assert_eq!(Error::NoListenerClass.secondary_object(), None);
}

#[test]
fn class_watch_maps_to_referencing_listeners() {
    let l = listener("web", "ns1", "uid-1", vec![]);
    assert!(listener_references_class(&l, &Some("public".to_string())));
    assert!(!listener_references_class(&l, &Some("internal".to_string())));
    assert!(!listener_references_class(&l, &None));
}

#[test]
fn endpoints_watch_maps_by_service_name() {
    let mut l = listener("web", "ns1", "uid-1", vec![]);
    l.status = Some(ListenerStatus {
        service_name: Some("web".to_string()),
        ingress_addresses: None,
        node_ports: None,
    });
    assert!(listener_owns_endpoints(&l, &Some("web".to_string())));
    assert!(!listener_owns_endpoints(&l, &Some("other".to_string())));
    let unreconciled = listener("web", "ns1", "uid-1", vec![]);
    assert!(!listener_owns_endpoints(&unreconciled, &Some("web".to_string())));
}

#[test]
fn pv_watch_maps_by_discovery_labels() {
    let labels = vec![
        (
            "listeners.stackable.tech/listener-namespace".to_string(),
            "ns1".to_string(),
        ),
        ("listeners.stackable.tech/listener-name".to_string(), "web".to_string()),
    ];
    assert_eq!(
        pv_listener_reference(&labels),
        Some(("ns1".to_string(), "web".to_string()))
    );
    let only_ns = vec![(
        "listeners.stackable.tech/listener-namespace".to_string(),
        "ns1".to_string(),
    )];
    assert_eq!(pv_listener_reference(&only_ns), None);
    assert_eq!(pv_listener_reference(&Vec::new()), None);
}
