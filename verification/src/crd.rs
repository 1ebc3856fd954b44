//! The declarative resources the operator works on, held as plain data:
//! the cluster-scoped ListenerClass policy, the namespaced Listener, and
//! the per-pod PodListeners record. Key/value maps are association lists
//! (`Vec` of pairs).

use vstd::prelude::*;

use crate::k8s::ObjectMetadata;

verus! {

/// The method used to expose a Listener's pods.
#[derive(Clone, Copy, Debug, PartialEq, Eq, Structural)]
pub enum ServiceType {
    /// Reserve a port on each node backing the Listener.
    NodePort,
    /// Provision a dedicated load balancer.
    LoadBalancer,
    /// Expose inside the cluster only.
    ClusterIP,
}

/// The kind of a published address.
#[derive(Clone, Copy, Debug, PartialEq, Eq, Structural)]
pub enum AddressType {
    Ip,
    Hostname,
}

/// How traffic arriving from outside the cluster is routed.
#[derive(Clone, Copy, Debug, PartialEq, Eq, Structural)]
pub enum ExternalTrafficPolicy {
    /// Route to any backing pod, possibly on another node.
    Cluster,
    /// Route only to pods on the receiving node.
    Local,
}

/// Policy for how Listeners referencing this class are exposed.
#[derive(Clone, Debug)]
pub struct ListenerClassSpec {
    pub service_type: ServiceType,
    /// Annotations copied onto the derived Service object.
    pub service_annotations: Vec<(String, String)>,
    /// Which address kind to publish when both are known.
    pub preferred_address_type: AddressType,
    pub service_external_traffic_policy: ExternalTrafficPolicy,
    /// For NodePort classes: pin each volume to a single node so clients
    /// keep a stable address.
    pub sticky_node_ports: bool,
}

/// One port exposed by a Listener.
#[derive(Clone, Debug)]
pub struct ListenerPort {
    /// Must be unique within a single Listener.
    pub name: String,
    pub port: i32,
    /// The layer-4 protocol (`TCP` or `UDP`).
    pub protocol: Option<String>,
}

/// Desired state of a Listener.
#[derive(Clone, Debug)]
pub struct ListenerSpec {
    /// The name of the governing ListenerClass.
    pub class_name: Option<String>,
    /// Extra labels that pods must share in order to be exposed.
    pub extra_pod_selector_labels: Vec<(String, String)>,
    pub ports: Option<Vec<ListenerPort>>,
    /// Expose pods before they report ready, so addresses can be
    /// discovered at pod startup.
    pub publish_not_ready_addresses: Option<bool>,
}

/// One address a Listener is reachable from, with its port mapping.
#[derive(Clone, Debug)]
pub struct ListenerIngress {
    pub address: String,
    pub address_type: AddressType,
    /// Port name to reachable port number.
    pub ports: Vec<(String, i32)>,
}

/// Observed state of a Listener, owned by the reconciler.
#[derive(Clone, Debug)]
pub struct ListenerStatus {
    /// The backing Service.
    pub service_name: Option<String>,
    pub ingress_addresses: Option<Vec<ListenerIngress>>,
    /// Node-local port mapping, set only for NodePort classes.
    pub node_ports: Option<Vec<(String, i32)>>,
}

/// A Listener object: metadata, desired state, observed state.
#[derive(Clone, Debug)]
pub struct Listener {
    pub metadata: ObjectMetadata,
    pub spec: ListenerSpec,
    pub status: Option<ListenerStatus>,
}

/// Scope of a pod-local listener entry.
#[derive(Clone, Copy, Debug, PartialEq, Eq, Structural)]
pub enum PodListenerScope {
    /// Addresses are specific to the node the pod runs on.
    Node,
    /// Addresses are valid cluster-wide.
    Cluster,
}

/// Addresses resolved for one volume mounted into a pod.
#[derive(Clone, Debug)]
pub struct PodListener {
    pub scope: PodListenerScope,
    pub ingress_addresses: Option<Vec<ListenerIngress>>,
}

/// Per-pod companion record: volume name to resolved addresses.
#[derive(Clone, Debug)]
pub struct PodListenersSpec {
    pub listeners: Vec<(String, PodListener)>,
}

/// The PodListeners object written at publish time, one per pod.
#[derive(Clone, Debug)]
pub struct PodListeners {
    pub name: Option<String>,
    pub namespace: Option<String>,
    /// Uid of the owning pod, so the record is collected with it.
    pub owner_pod_uid: Option<String>,
    pub spec: PodListenersSpec,
}

} // verus!
