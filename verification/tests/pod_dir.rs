use listener_operator::crd::{AddressType, ListenerIngress};
use listener_operator::pod_dir::{build_pod_dir_layout, MountTable, PodDirError};

fn ingress(address: &str, ports: Vec<(&str, i32)>) -> ListenerIngress {
    ListenerIngress {
        address: address.to_string(),
        address_type: AddressType::Ip,
        ports: ports.into_iter().map(|(n, p)| (n.to_string(), p)).collect(),
    }
}

#[test]
fn one_port_file_per_port_with_decimal_contents() {
    // two distinct ports: exactly two files, named after the ports,
    // holding the decimal node ports
    let addrs = vec![ingress("1.2.3.4", vec![("http", 30080), ("metrics", 30081)])];
    let layout = build_pod_dir_layout(&addrs).unwrap();
    assert_eq!(layout.address_dirs.len(), 1);
    let dir = &layout.address_dirs[0];
    assert_eq!(dir.address, "1.2.3.4");
    assert_eq!(dir.ports.len(), 2);
    assert_eq!(dir.ports[0], ("http".to_string(), "30080".to_string()));
    assert_eq!(dir.ports[1], ("metrics".to_string(), "30081".to_string()));
}

#[test]
fn default_address_link_points_at_the_first_address() {
    let addrs = vec![
        ingress("1.2.3.4", vec![("http", 30080)]),
        ingress("5.6.7.8", vec![("http", 30080)]),
    ];
    let layout = build_pod_dir_layout(&addrs).unwrap();
    assert_eq!(layout.address_dirs.len(), 2);
    assert_eq!(layout.default_address_target, "addresses/1.2.3.4");
}

#[test]
fn empty_address_list_gives_no_layout() {
    assert_eq!(build_pod_dir_layout(&Vec::new()).unwrap_err(), PodDirError::NoDefaultAddress);
}

#[test]
fn unpublish_of_a_never_published_path_succeeds() {
    let mut mounts = MountTable::new();
    let removed = mounts.unpublish(&"/var/lib/kubelet/pods/p1/volumes/v1".to_string());
    assert!(!removed);
}

#[test]
fn unpublish_of_an_already_removed_path_succeeds() {
    let target = "/var/lib/kubelet/pods/p1/volumes/v1".to_string();
    let addrs = vec![ingress("1.2.3.4", vec![("http", 30080)])];
    let layout = build_pod_dir_layout(&addrs).unwrap();
    let mut mounts = MountTable::new();
    mounts.publish(&target, layout);
    assert!(mounts.unpublish(&target));
    // the second attempt finds nothing left, and still succeeds
    assert!(!mounts.unpublish(&target));
}

#[test]
fn publish_then_unpublish_leaves_no_residue() {
    let target = "/var/lib/kubelet/pods/p1/volumes/v1".to_string();
    let other = "/var/lib/kubelet/pods/p2/volumes/v1".to_string();
    let addrs = vec![ingress("1.2.3.4", vec![("http", 30080)])];
    let mut mounts = MountTable::new();
    mounts.publish(&other, build_pod_dir_layout(&addrs).unwrap());
    mounts.publish(&target, build_pod_dir_layout(&addrs).unwrap());
    assert!(mounts.unpublish(&target));
    // nothing of the round-tripped path remains, the other mount does
    assert!(!mounts.unpublish(&target));
    assert!(mounts.unpublish(&other));
}

#[test]
fn republishing_overwrites_the_same_path() {
    let target = "/var/lib/kubelet/pods/p1/volumes/v1".to_string();
    let addrs = vec![ingress("1.2.3.4", vec![("http", 30080)])];
    let mut mounts = MountTable::new();
    mounts.publish(&target, build_pod_dir_layout(&addrs).unwrap());
    mounts.publish(&target, build_pod_dir_layout(&addrs).unwrap());
    assert!(mounts.unpublish(&target));
    assert!(!mounts.unpublish(&target));
}
