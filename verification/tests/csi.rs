use listener_operator::crd::{
    AddressType, ExternalTrafficPolicy, Listener, ListenerClassSpec, ListenerSpec, ServiceType,
};
use listener_operator::csi::{
    parse_listener_selector, unimplemented_status, CsiErrorCode, ListenerSelector,
};
use listener_operator::csi_controller::{
    controller_capabilities, create_volume_response, create_volume_topology,
    listener_class_name_from_listener, parse_controller_volume_params, ControllerCapability,
    CreateVolumeError, Topology,
};
use listener_operator::csi_node::node_get_info;
use listener_operator::identity::{LbOperatorIdentity, PluginCapability};
use listener_operator::k8s::ObjectMetadata;
use listener_operator::store::GetOutcome;

fn kv(pairs: Vec<(&str, &str)>) -> Vec<(String, String)> {
    pairs.into_iter().map(|(k, v)| (k.to_string(), v.to_string())).collect()
}

fn class(service_type: ServiceType, sticky: bool) -> ListenerClassSpec {
    ListenerClassSpec {
        service_type,
        service_annotations: Vec::new(),
        preferred_address_type: AddressType::Ip,
        service_external_traffic_policy: ExternalTrafficPolicy::Cluster,
        sticky_node_ports: sticky,
    }
}

#[test]
fn selector_takes_exactly_one_key() {
    let by_class = kv(vec![("listeners.stackable.tech/listener-class", "public")]);
    assert_eq!(
        parse_listener_selector(&by_class),
        Some(ListenerSelector::ListenerClass("public".to_string()))
    );
    let by_name = kv(vec![("listeners.stackable.tech/listener-name", "web")]);
    assert_eq!(
        parse_listener_selector(&by_name),
        Some(ListenerSelector::Listener("web".to_string()))
    );
    let both = kv(vec![
        ("listeners.stackable.tech/listener-class", "public"),
        ("listeners.stackable.tech/listener-name", "web"),
    ]);
    assert_eq!(parse_listener_selector(&both), None);
    assert_eq!(parse_listener_selector(&kv(vec![])), None);
}

#[test]
fn controller_params_need_claim_name_and_namespace() {
    let params = kv(vec![
        ("csi.storage.k8s.io/pvc/name", "web-volume"),
        ("csi.storage.k8s.io/pvc/namespace", "ns1"),
    ]);
    let parsed = parse_controller_volume_params(&params).unwrap();
    assert_eq!(parsed.pvc_name, "web-volume");
    assert_eq!(parsed.pvc_namespace, "ns1");
    let missing = kv(vec![("csi.storage.k8s.io/pvc/name", "web-volume")]);
    assert!(parse_controller_volume_params(&missing).is_none());
}

#[test]
fn nonexistent_listener_is_an_invalid_argument_with_identity() {
    let r = listener_class_name_from_listener(
        &"ns1".to_string(),
        &"missing-listener".to_string(),
        &GetOutcome::NotFound,
    );
    let err = r.unwrap_err();
    let status = err.to_status();
    assert_eq!(status.code, CsiErrorCode::InvalidArgument);
    assert!(status.message.contains("missing-listener"));
    assert!(status.message.contains("ns1"));
}

#[test]
fn listener_without_class_is_an_invalid_argument() {
    let listener = Listener {
        metadata: ObjectMetadata {
            name: Some("web".to_string()),
            namespace: Some("ns1".to_string()),
            uid: None,
            labels: Vec::new(),
            annotations: Vec::new(),
            owner_uid: None,
        },
        spec: ListenerSpec {
            class_name: None,
            extra_pod_selector_labels: Vec::new(),
            ports: None,
            publish_not_ready_addresses: None,
        },
        status: None,
    };
    let r = listener_class_name_from_listener(
        &"ns1".to_string(),
        &"web".to_string(),
        &GetOutcome::Found(listener),
    );
    let status = r.unwrap_err().to_status();
    assert_eq!(status.code, CsiErrorCode::InvalidArgument);
    assert!(status.message.contains("web"));
}

#[test]
fn store_failure_is_unavailable() {
    let r = listener_class_name_from_listener(
        &"ns1".to_string(),
        &"web".to_string(),
        &GetOutcome::Error("connection refused".to_string()),
    );
    let status = r.unwrap_err().to_status();
    assert_eq!(status.code, CsiErrorCode::Unavailable);
    assert!(status.message.contains("connection refused"));
}

#[test]
fn decode_errors_are_invalid_arguments() {
    assert_eq!(
        CreateVolumeError::DecodeRequestParams.to_status().code,
        CsiErrorCode::InvalidArgument
    );
    assert_eq!(
        CreateVolumeError::DecodeVolumeContext.to_status().code,
        CsiErrorCode::InvalidArgument
    );
}

#[test]
fn sticky_nodeport_volume_pins_one_topology() {
    let preferred = vec![
        Topology { segments: kv(vec![("listeners.stackable.tech/hostname", "node-1")]) },
        Topology { segments: kv(vec![("listeners.stackable.tech/hostname", "node-2")]) },
    ];
    let pinned = create_volume_topology(&class(ServiceType::NodePort, true), &preferred);
    assert_eq!(pinned.len(), 1);
    assert_eq!(
        pinned[0].segments,
        kv(vec![("listeners.stackable.tech/hostname", "node-1")])
    );
    let unpinned = create_volume_topology(&class(ServiceType::LoadBalancer, true), &preferred);
    assert_eq!(unpinned.len(), 0);
    let not_sticky = create_volume_topology(&class(ServiceType::NodePort, false), &preferred);
    assert_eq!(not_sticky.len(), 0);
}

#[test]
fn created_volume_carries_context_forward() {
    let context = kv(vec![("listeners.stackable.tech/listener-class", "public")]);
    let response = create_volume_response(&"pvc-42".to_string(), &context, Vec::new());
    assert_eq!(response.volume_id, "pvc-42");
    assert_eq!(response.volume_context, context);
    assert_eq!(response.accessible_topology.len(), 0);
}

#[test]
fn other_endpoints_answer_unimplemented() {
    let status = unimplemented_status();
    assert_eq!(status.code, CsiErrorCode::Unimplemented);
    assert_eq!(status.message, "this endpoint is not implemented");
}

#[test]
fn controller_offers_only_volume_creation() {
    assert_eq!(controller_capabilities(), vec![ControllerCapability::CreateDeleteVolume]);
}

#[test]
fn node_info_advertises_its_hostname_topology() {
    let info = node_get_info(&"node-1".to_string());
    assert_eq!(info.node_id, "node-1");
    assert_eq!(
        info.topology_segments,
        vec![("listeners.stackable.tech/hostname".to_string(), "node-1".to_string())]
    );
}

#[test]
fn identity_reports_name_capabilities_and_readiness() {
    let identity = LbOperatorIdentity;
    let info = identity.get_plugin_info("1.0.0".to_string());
    assert_eq!(info.name, "lb.stackable.tech");
    assert_eq!(info.vendor_version, "1.0.0");
    assert_eq!(
        identity.get_plugin_capabilities(),
        vec![
            PluginCapability::VolumeAccessibilityConstraints,
            PluginCapability::ControllerService
        ]
    );
    assert!(identity.probe());
}

#[test]
fn listener_by_name_resolves_to_its_class() {
    let listener = Listener {
        metadata: ObjectMetadata {
            name: Some("web".to_string()),
            namespace: Some("ns1".to_string()),
            uid: None,
            labels: Vec::new(),
            annotations: Vec::new(),
            owner_uid: None,
        },
        spec: ListenerSpec {
            class_name: Some("public".to_string()),
            extra_pod_selector_labels: Vec::new(),
            ports: None,
            publish_not_ready_addresses: None,
        },
        status: None,
    };
    let r = listener_class_name_from_listener(
        &"ns1".to_string(),
        &"web".to_string(),
        &GetOutcome::Found(listener),
    );
    assert_eq!(r.unwrap(), "public");
}
