//! Core cluster objects, held as plain data: as much of each object as
//! the operator's logic reads or writes. Fetching and patching them is
//! the outer shell's job.

use vstd::prelude::*;

verus! {

/// Identity and common metadata of an object.
#[derive(Clone, Debug)]
pub struct ObjectMetadata {
    pub name: Option<String>,
    pub namespace: Option<String>,
    pub uid: Option<String>,
    pub labels: Vec<(String, String)>,
    pub annotations: Vec<(String, String)>,
    /// Uid of the owning object, if any: the owner's deletion cascades
    /// to this object (garbage collection is the orchestrator's job).
    pub owner_uid: Option<String>,
}

impl ObjectMetadata {
    /// Metadata with every field unset.
    pub fn empty() -> (r: ObjectMetadata)
        ensures
            r.name is None,
            r.namespace is None,
            r.uid is None,
            r.labels@ == Seq::<(String, String)>::empty(),
            r.annotations@ == Seq::<(String, String)>::empty(),
            r.owner_uid is None,
    {
        ObjectMetadata {
            name: None,
            namespace: None,
            uid: None,
            labels: Vec::new(),
            annotations: Vec::new(),
            owner_uid: None,
        }
    }
}

/// One address reported for a node, tagged with its kind
/// (`ExternalIP`, `InternalIP`, `Hostname`, ...).
#[derive(Clone, Debug)]
pub struct NodeAddress {
    pub type_: String,
    pub address: String,
}

/// Observed state of a node; only the address list matters here.
#[derive(Clone, Debug)]
pub struct NodeStatus {
    pub addresses: Option<Vec<NodeAddress>>,
}

/// A cluster node, as much of it as address resolution reads.
#[derive(Clone, Debug)]
pub struct Node {
    pub status: Option<NodeStatus>,
}

/// A reference to another object by name.
#[derive(Clone, Debug)]
pub struct ObjectReference {
    pub name: Option<String>,
}

/// One requirement of a node-selector term.
#[derive(Clone, Debug)]
pub struct NodeSelectorRequirement {
    pub key: String,
    pub operator: String,
    pub values: Option<Vec<String>>,
}

/// One term of a node selector.
#[derive(Clone, Debug)]
pub struct NodeSelectorTerm {
    pub match_expressions: Option<Vec<NodeSelectorRequirement>>,
}

/// A required node selector.
#[derive(Clone, Debug)]
pub struct NodeSelector {
    pub node_selector_terms: Vec<NodeSelectorTerm>,
}

/// Desired state of a persistent volume: its claim and where it may be
/// mounted.
#[derive(Clone, Debug)]
pub struct PersistentVolumeSpec {
    pub claim_ref: Option<ObjectReference>,
    pub node_affinity: Option<NodeSelector>,
}

/// A persistent volume: the mount handle backing a published volume.
#[derive(Clone, Debug)]
pub struct PersistentVolume {
    pub metadata: ObjectMetadata,
    pub spec: Option<PersistentVolumeSpec>,
}

/// A persistent volume claim; its annotations select the Listener or
/// ListenerClass a volume is created for.
#[derive(Clone, Debug)]
pub struct PersistentVolumeClaim {
    pub metadata: ObjectMetadata,
}

/// One exposed port of a container.
#[derive(Clone, Debug)]
pub struct ContainerPort {
    pub name: Option<String>,
    pub container_port: i32,
    pub protocol: Option<String>,
}

/// A container, as much of it as port derivation reads.
#[derive(Clone, Debug)]
pub struct Container {
    pub ports: Option<Vec<ContainerPort>>,
}

/// The claim backing a pod volume.
#[derive(Clone, Debug)]
pub struct PersistentVolumeClaimVolumeSource {
    pub claim_name: String,
}

/// One volume entry of a pod.
#[derive(Clone, Debug)]
pub struct Volume {
    pub name: String,
    /// Set when the volume is backed by a named claim.
    pub persistent_volume_claim: Option<PersistentVolumeClaimVolumeSource>,
    /// Whether the volume is an ephemeral (generated-claim) volume.
    pub ephemeral: bool,
}

/// Desired state of a pod.
#[derive(Clone, Debug)]
pub struct PodSpec {
    pub node_name: Option<String>,
    pub containers: Vec<Container>,
    pub volumes: Option<Vec<Volume>>,
}

/// A pod consuming a published volume.
#[derive(Clone, Debug)]
pub struct Pod {
    pub metadata: ObjectMetadata,
    pub spec: Option<PodSpec>,
}

/// One port of a Service.
#[derive(Clone, Debug)]
pub struct ServicePort {
    pub name: Option<String>,
    pub protocol: Option<String>,
    pub port: i32,
    /// The node-level port the cluster assigned, for NodePort services.
    pub node_port: Option<i32>,
}

/// One ingress entry of a load balancer's status.
#[derive(Clone, Debug)]
pub struct LoadBalancerIngressStatus {
    pub ip: Option<String>,
    pub hostname: Option<String>,
}

/// Observed state of a Service.
#[derive(Clone, Debug)]
pub struct ServiceStatus {
    pub load_balancer_ingress: Vec<LoadBalancerIngressStatus>,
}

/// One endpoint address of an Endpoints subset.
#[derive(Clone, Debug)]
pub struct EndpointAddress {
    pub node_name: Option<String>,
}

/// One subset of an Endpoints object.
#[derive(Clone, Debug)]
pub struct EndpointSubset {
    pub addresses: Option<Vec<EndpointAddress>>,
}

/// The Endpoints object tracking a Service's ready addresses.
#[derive(Clone, Debug)]
pub struct Endpoints {
    pub subsets: Option<Vec<EndpointSubset>>,
}

} // verus!
