use listener_operator::address::{node_primary_addresses, AddressCandidates};
use listener_operator::crd::AddressType;
use listener_operator::k8s::{Node, NodeAddress, NodeStatus};

fn node_from_addresses(addresses: Vec<(&str, &str)>) -> Node {
    Node {
        status: Some(NodeStatus {
            addresses: Some(
                addresses
                    .into_iter()
                    .map(|(ty, addr)| NodeAddress {
                        type_: ty.to_string(),
                        address: addr.to_string(),
                    })
                    .collect(),
            ),
        }),
    }
}

#[test]
fn node_with_only_ips_primary_address_returns_external_ip() {
    let node = node_from_addresses(vec![("InternalIP", "10.1.2.3"), ("ExternalIP", "1.2.3.4")]);
    let node_primary_address = node_primary_addresses(&node);
    assert_eq!(
        node_primary_address.pick(AddressType::Ip),
        Some(("1.2.3.4".to_string(), AddressType::Ip))
    );
    assert_eq!(
        node_primary_address.pick(AddressType::Hostname),
        Some(("1.2.3.4".to_string(), AddressType::Ip))
    );
}

#[test]
fn node_with_only_hostname_primary_address_returns_hostname() {
    let node = node_from_addresses(vec![
        ("Hostname", "first-hostname"),
        ("Hostname", "second-hostname"),
    ]);
    let node_primary_address = node_primary_addresses(&node);
    assert_eq!(
        node_primary_address.pick(AddressType::Ip),
        Some(("first-hostname".to_string(), AddressType::Hostname))
    );
    assert_eq!(
        node_primary_address.pick(AddressType::Hostname),
        Some(("first-hostname".to_string(), AddressType::Hostname))
    );
}

#[test]
fn node_with_hostname_and_ips_primary_address() {
    let node = node_from_addresses(vec![
        ("Hostname", "node-0"),
        ("ExternalIP", "1.2.3.4"),
        ("InternalIP", "10.1.2.3"),
    ]);
    let node_primary_address = node_primary_addresses(&node);
    assert_eq!(
        node_primary_address.pick(AddressType::Ip),
        Some(("1.2.3.4".to_string(), AddressType::Ip))
    );
    assert_eq!(
        node_primary_address.pick(AddressType::Hostname),
        Some(("node-0".to_string(), AddressType::Hostname))
    );
}

#[test]
fn pick_returns_preferred_type_whenever_present() {
    let both = AddressCandidates {
        ip: Some("10.0.0.1".to_string()),
        hostname: Some("host-a".to_string()),
    };
    assert_eq!(both.pick(AddressType::Ip), Some(("10.0.0.1".to_string(), AddressType::Ip)));
    assert_eq!(
        both.pick(AddressType::Hostname),
        Some(("host-a".to_string(), AddressType::Hostname))
    );
}

#[test]
fn pick_falls_back_to_other_type() {
    let only_ip = AddressCandidates { ip: Some("10.0.0.1".to_string()), hostname: None };
    assert_eq!(
        only_ip.pick(AddressType::Hostname),
        Some(("10.0.0.1".to_string(), AddressType::Ip))
    );
    let only_host = AddressCandidates { ip: None, hostname: Some("host-a".to_string()) };
    assert_eq!(
        only_host.pick(AddressType::Ip),
        Some(("host-a".to_string(), AddressType::Hostname))
    );
}

#[test]
fn pick_returns_none_only_when_both_slots_empty() {
    let empty = AddressCandidates { ip: None, hostname: None };
    assert_eq!(empty.pick(AddressType::Ip), None);
    assert_eq!(empty.pick(AddressType::Hostname), None);
}

#[test]
fn node_without_status_has_no_candidates() {
    let node = Node { status: None };
    let candidates = node_primary_addresses(&node);
    assert_eq!(candidates.pick(AddressType::Ip), None);
}
