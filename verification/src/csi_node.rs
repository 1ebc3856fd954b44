//! The per-node driver's decisions for publishing a volume: decode the
//! volume context, resolve or lazily derive the backing Listener,
//! compute the freshest addresses for the pod, and prepare the record
//! of what was mounted.

use vstd::pervasive::unreached;
use vstd::prelude::*;
use vstd::string::StringExecFns;

use crate::address::{node_picked_address, node_primary_addresses, opt_str_view};
use crate::crd::{
    AddressType, Listener, ListenerClassSpec, ListenerIngress, ListenerPort, ListenerSpec,
    PodListener, PodListenerScope, PodListeners, PodListenersSpec,
};
use crate::csi::{CsiErrorCode, CsiStatus, ListenerSelector};
use crate::listener_controller::{
    listener_mounted_pod_label, listener_persistent_volume_label, ListenerMountedPodLabelError,
    ListenerPersistentVolumeLabelError,
};
use crate::decimal::{decimal_chars_int, i32_to_decimal};
use crate::k8s::{
    Container, ContainerPort, Node, ObjectMetadata, PersistentVolume, PersistentVolumeClaim, Pod,
    Volume,
};
use crate::kv::{copy_string_i32_pairs, copy_string_pairs, kv_first_value, kv_get};

verus! {

/// The characters of an optional string, empty if unset.
pub open spec fn str_or_empty(o: Option<String>) -> Seq<char> {
    match o {
        Some(s) => s@,
        None => Seq::empty(),
    }
}

/// Why publishing a volume onto this node failed.
#[derive(Clone, Debug)]
pub enum PublishVolumeError {
    /// The volume context names no pod, or its Listener selector is
    /// missing or ambiguous.
    DecodeVolumeContext,
    /// A dependency could not be fetched; `obj` says which one.
    GetObject { obj: String, message: String },
    /// The persistent volume has no corresponding claim.
    UnclaimedPv,
    /// The Listener's persistent-volume labels could not be derived.
    ListenerPvReference {
        listener_namespace: String,
        listener_name: String,
        source: ListenerPersistentVolumeLabelError,
    },
    /// The Listener's mounted-pod label could not be derived.
    ListenerPodSelector {
        listener_namespace: String,
        listener_name: String,
        source: ListenerMountedPodLabelError,
    },
    /// The Listener names no ListenerClass.
    ListenerHasNoClass { listener_namespace: String, listener_name: String },
    /// The pod has not been scheduled to a node yet.
    PodHasNoNode { pod_namespace: String, pod_name: String },
    /// The object to own the new Listener has no uid to refer to.
    BuildListenerOwnerRef,
    /// The Listener could not be applied to the store.
    ApplyListener { listener_namespace: String, listener_name: String, message: String },
    /// The discovery labels could not be added to the persistent
    /// volume.
    AddListenerLabelToPv { pv_name: String, message: String },
    /// The mounted-Listener label could not be added to the pod.
    AddListenerLabelToPod { pod_namespace: String, pod_name: String, message: String },
    /// The Listener has no addresses yet; mounting must not silently
    /// succeed with an empty directory.
    NoAddresses,
    /// The pod-local directory could not be written.
    PreparePodDir { target_path: String, message: String },
    /// The PodListeners record could not be merged, after creating it
    /// failed as well.
    WritePodListeners { pod_listeners_name: String, create_error: String, message: String },
    /// No volume of the pod corresponds to the claim.
    FindPodVolumeForPvc { pvc_name: String },
}

impl PublishVolumeError {
    /// The error class of the response, as a spec-level function.
    pub open spec fn code_spec(&self) -> CsiErrorCode {
        match *self {
            PublishVolumeError::DecodeVolumeContext => CsiErrorCode::InvalidArgument,
            PublishVolumeError::GetObject { .. } => CsiErrorCode::Unavailable,
            PublishVolumeError::UnclaimedPv => CsiErrorCode::Unavailable,
            PublishVolumeError::ListenerPvReference { .. } => CsiErrorCode::FailedPrecondition,
            PublishVolumeError::ListenerPodSelector { .. } => CsiErrorCode::FailedPrecondition,
            PublishVolumeError::ListenerHasNoClass { .. } => CsiErrorCode::FailedPrecondition,
            PublishVolumeError::PodHasNoNode { .. } => CsiErrorCode::Unavailable,
            PublishVolumeError::BuildListenerOwnerRef => CsiErrorCode::Unavailable,
            PublishVolumeError::ApplyListener { .. } => CsiErrorCode::Unavailable,
            PublishVolumeError::AddListenerLabelToPv { .. } => CsiErrorCode::Unavailable,
            PublishVolumeError::AddListenerLabelToPod { .. } => CsiErrorCode::Unavailable,
            PublishVolumeError::NoAddresses => CsiErrorCode::Unavailable,
            PublishVolumeError::PreparePodDir { .. } => CsiErrorCode::Internal,
            PublishVolumeError::WritePodListeners { .. } => CsiErrorCode::Unavailable,
            PublishVolumeError::FindPodVolumeForPvc { .. } => CsiErrorCode::FailedPrecondition,
        }
    }

    /// The message of the response, as a spec-level function.
    pub open spec fn message_spec(&self) -> Seq<char> {
        match *self {
            PublishVolumeError::DecodeVolumeContext => "failed to decode volume context"@,
            PublishVolumeError::GetObject { obj, message } => "failed to get "@ + obj@ + ": "@
                + message@,
            PublishVolumeError::UnclaimedPv =>
                "PersistentVolume has no corresponding PersistentVolumeClaim"@,
            PublishVolumeError::ListenerPvReference { listener_namespace, listener_name, source } =>
                "failed to generate Listener "@ + listener_namespace@ + "/"@ + listener_name@
                + "'s PersistentVolume selector: "@ + source.message_spec(),
            PublishVolumeError::ListenerPodSelector { listener_namespace, listener_name, source } =>
                "failed to generate Listener "@ + listener_namespace@ + "/"@ + listener_name@
                + "'s pod selector: "@ + source.message_spec(),
            PublishVolumeError::ListenerHasNoClass { listener_namespace, listener_name } =>
                "Listener "@ + listener_namespace@ + "/"@ + listener_name@
                + " has no associated ListenerClass"@,
            PublishVolumeError::PodHasNoNode { pod_namespace, pod_name } => "Pod "@
                + pod_namespace@ + "/"@ + pod_name@ + " has not been scheduled to a node yet"@,
            PublishVolumeError::BuildListenerOwnerRef =>
                "failed to build Listener's owner reference"@,
            PublishVolumeError::ApplyListener { listener_namespace, listener_name, message } =>
                "failed to apply Listener "@ + listener_namespace@ + "/"@ + listener_name@ + ": "@
                + message@,
            PublishVolumeError::AddListenerLabelToPv { pv_name, message } =>
                "failed to add listener label to PersistentVolume "@ + pv_name@ + ": "@ + message@,
            PublishVolumeError::AddListenerLabelToPod { pod_namespace, pod_name, message } =>
                "failed to add listener label to Pod "@ + pod_namespace@ + "/"@ + pod_name@ + ": "@
                + message@,
            PublishVolumeError::NoAddresses => "listener has no addresses yet"@,
            PublishVolumeError::PreparePodDir { target_path, message } =>
                "failed to prepare pod dir at "@ + target_path@ + ": "@ + message@,
            PublishVolumeError::WritePodListeners { pod_listeners_name, create_error, message } =>
                "failed to write PodListeners "@ + pod_listeners_name@ + " (also tried to create: "@
                + create_error@ + "): "@ + message@,
            PublishVolumeError::FindPodVolumeForPvc { pvc_name } =>
                "failed to find Pod volume corresponding for "@ + pvc_name@,
        }
    }

    /// The full response for this error: decode failures are the
    /// caller's to fix; unmet preconditions are distinguished from a
    /// store that did not answer, so stuck mounts can be diagnosed.
    pub fn to_status(&self) -> (r: CsiStatus)
        ensures
            r.code == self.code_spec(),
            r.message@ == self.message_spec(),
    {
        let code = match self {
            PublishVolumeError::DecodeVolumeContext => CsiErrorCode::InvalidArgument,
            PublishVolumeError::GetObject { .. } => CsiErrorCode::Unavailable,
            PublishVolumeError::UnclaimedPv => CsiErrorCode::Unavailable,
            PublishVolumeError::ListenerPvReference { .. } => CsiErrorCode::FailedPrecondition,
            PublishVolumeError::ListenerPodSelector { .. } => CsiErrorCode::FailedPrecondition,
            PublishVolumeError::ListenerHasNoClass { .. } => CsiErrorCode::FailedPrecondition,
            PublishVolumeError::PodHasNoNode { .. } => CsiErrorCode::Unavailable,
            PublishVolumeError::BuildListenerOwnerRef => CsiErrorCode::Unavailable,
            PublishVolumeError::ApplyListener { .. } => CsiErrorCode::Unavailable,
            PublishVolumeError::AddListenerLabelToPv { .. } => CsiErrorCode::Unavailable,
            PublishVolumeError::AddListenerLabelToPod { .. } => CsiErrorCode::Unavailable,
            PublishVolumeError::NoAddresses => CsiErrorCode::Unavailable,
            PublishVolumeError::PreparePodDir { .. } => CsiErrorCode::Internal,
            PublishVolumeError::WritePodListeners { .. } => CsiErrorCode::Unavailable,
            PublishVolumeError::FindPodVolumeForPvc { .. } => CsiErrorCode::FailedPrecondition,
        };
        let message = match self {
            PublishVolumeError::DecodeVolumeContext => String::from_str(
                "failed to decode volume context",
            ),
            PublishVolumeError::GetObject { obj, message } => {
                let mut r = String::from_str("failed to get ");
                r.append(obj.as_str());
                r.append(": ");
                r.append(message.as_str());
                r
            },
            PublishVolumeError::UnclaimedPv => String::from_str(
                "PersistentVolume has no corresponding PersistentVolumeClaim",
            ),
            PublishVolumeError::ListenerPvReference {
                listener_namespace,
                listener_name,
                source,
            } => {
                let mut r = String::from_str("failed to generate Listener ");
                r.append(listener_namespace.as_str());
                r.append("/");
                r.append(listener_name.as_str());
                r.append("'s PersistentVolume selector: ");
                let src = source.message();
                r.append(src.as_str());
                r
            },
            PublishVolumeError::ListenerPodSelector {
                listener_namespace,
                listener_name,
                source,
            } => {
                let mut r = String::from_str("failed to generate Listener ");
                r.append(listener_namespace.as_str());
                r.append("/");
                r.append(listener_name.as_str());
                r.append("'s pod selector: ");
                let src = source.message();
                r.append(src.as_str());
                r
            },
            PublishVolumeError::ListenerHasNoClass { listener_namespace, listener_name } => {
                let mut r = String::from_str("Listener ");
                r.append(listener_namespace.as_str());
                r.append("/");
                r.append(listener_name.as_str());
                r.append(" has no associated ListenerClass");
                r
            },
            PublishVolumeError::PodHasNoNode { pod_namespace, pod_name } => {
                let mut r = String::from_str("Pod ");
                r.append(pod_namespace.as_str());
                r.append("/");
                r.append(pod_name.as_str());
                r.append(" has not been scheduled to a node yet");
                r
            },
            PublishVolumeError::BuildListenerOwnerRef => String::from_str(
                "failed to build Listener's owner reference",
            ),
            PublishVolumeError::ApplyListener { listener_namespace, listener_name, message } => {
                let mut r = String::from_str("failed to apply Listener ");
                r.append(listener_namespace.as_str());
                r.append("/");
                r.append(listener_name.as_str());
                r.append(": ");
                r.append(message.as_str());
                r
            },
            PublishVolumeError::AddListenerLabelToPv { pv_name, message } => {
                let mut r = String::from_str("failed to add listener label to PersistentVolume ");
                r.append(pv_name.as_str());
                r.append(": ");
                r.append(message.as_str());
                r
            },
            PublishVolumeError::AddListenerLabelToPod { pod_namespace, pod_name, message } => {
                let mut r = String::from_str("failed to add listener label to Pod ");
                r.append(pod_namespace.as_str());
                r.append("/");
                r.append(pod_name.as_str());
                r.append(": ");
                r.append(message.as_str());
                r
            },
            PublishVolumeError::NoAddresses => String::from_str("listener has no addresses yet"),
            PublishVolumeError::PreparePodDir { target_path, message } => {
                let mut r = String::from_str("failed to prepare pod dir at ");
                r.append(target_path.as_str());
                r.append(": ");
                r.append(message.as_str());
                r
            },
            PublishVolumeError::WritePodListeners {
                pod_listeners_name,
                create_error,
                message,
            } => {
                let mut r = String::from_str("failed to write PodListeners ");
                r.append(pod_listeners_name.as_str());
                r.append(" (also tried to create: ");
                r.append(create_error.as_str());
                r.append("): ");
                r.append(message.as_str());
                r
            },
            PublishVolumeError::FindPodVolumeForPvc { pvc_name } => {
                let mut r = String::from_str("failed to find Pod volume corresponding for ");
                r.append(pvc_name.as_str());
                r
            },
        };
        CsiStatus { code, message }
    }
}

/// Why tearing a published volume down failed.
#[derive(Clone, Debug)]
pub enum UnpublishVolumeError {
    /// The target directory could not be removed.
    CleanupData { path: String, message: String },
}

impl UnpublishVolumeError {
    /// The error class of the response, as a spec-level function: a
    /// failed removal is a fault of this node.
    pub open spec fn code_spec(&self) -> CsiErrorCode {
        match *self {
            UnpublishVolumeError::CleanupData { .. } => CsiErrorCode::Internal,
        }
    }

    /// The message of the response, as a spec-level function.
    pub open spec fn message_spec(&self) -> Seq<char> {
        match *self {
            UnpublishVolumeError::CleanupData { path, message } =>
                "failed to clean up volume data at "@ + path@ + ": "@ + message@,
        }
    }

    /// The full response for this error.
    pub fn to_status(&self) -> (r: CsiStatus)
        ensures
            r.code == self.code_spec(),
            r.message@ == self.message_spec(),
    {
        match self {
            UnpublishVolumeError::CleanupData { path, message } => {
                let mut r = String::from_str("failed to clean up volume data at ");
                r.append(path.as_str());
                r.append(": ");
                r.append(message.as_str());
                CsiStatus { code: CsiErrorCode::Internal, message: r }
            },
        }
    }
}

/// What the node service reports about itself: its id, and one
/// topology segment carrying its hostname, so the controller's
/// stickiness hint can be honored by the scheduler.
#[derive(Clone, Debug)]
pub struct NodeInfo {
    pub node_id: String,
    /// The advertised topology segment: label key to this node's name.
    pub topology_segments: Vec<(String, String)>,
}

/// The node's identity and its single topology segment under the
/// node-topology hostname label.
pub fn node_get_info(node_name: &String) -> (r: NodeInfo)
    ensures
        r.node_id == node_name,
        r.topology_segments@.len() == 1,
        r.topology_segments@[0].0@ == crate::listener_controller::node_topology_label_hostname(),
        r.topology_segments@[0].1 == node_name,
{
    let mut topology_segments: Vec<(String, String)> = Vec::new();
    topology_segments.push(
        (String::from_str("listeners.stackable.tech/hostname"), node_name.clone()),
    );
    NodeInfo { node_id: node_name.clone(), topology_segments }
}

/// The volume context of a publish request: the consuming pod and the
/// Listener selector.
#[derive(Clone, Debug)]
pub struct NodeVolumeContext {
    pub pod_namespace: String,
    pub pod_name: String,
    pub listener_selector: ListenerSelector,
}

/// The volume-context key carrying the pod's namespace.
pub open spec fn pod_namespace_key() -> Seq<char> {
    "csi.storage.k8s.io/pod.namespace"@
}

/// The volume-context key carrying the pod's name.
pub open spec fn pod_name_key() -> Seq<char> {
    "csi.storage.k8s.io/pod.name"@
}

/// Decodes the volume context of a publish request: the pod keys must
/// both be present, and exactly one Listener selector key.
pub fn parse_node_volume_context(context: &Vec<(String, String)>) -> (r: Result<
    NodeVolumeContext,
    PublishVolumeError,
>)
    ensures
        r matches Ok(c) ==> kv_first_value(context@, pod_namespace_key()) == Some(c.pod_namespace)
            && kv_first_value(context@, pod_name_key()) == Some(c.pod_name),
        r matches Ok(c) ==> match c.listener_selector {
            ListenerSelector::ListenerClass(cls) => kv_first_value(
                context@,
                crate::csi::listener_class_key(),
            ) == Some(cls) && kv_first_value(context@, crate::csi::listener_name_key()) is None,
            ListenerSelector::Listener(n) => kv_first_value(
                context@,
                crate::csi::listener_name_key(),
            ) == Some(n) && kv_first_value(context@, crate::csi::listener_class_key()) is None,
        },
        r matches Err(e) ==> e matches PublishVolumeError::DecodeVolumeContext,
        r is Ok <==> ({
            &&& kv_first_value(context@, pod_namespace_key()) is Some
            &&& kv_first_value(context@, pod_name_key()) is Some
            &&& (kv_first_value(context@, crate::csi::listener_name_key()) is Some
                <==> kv_first_value(context@, crate::csi::listener_class_key()) is None)
        }),
{
    let ns_key = String::from_str("csi.storage.k8s.io/pod.namespace");
    let name_key = String::from_str("csi.storage.k8s.io/pod.name");
    let ns = match kv_get(context, &ns_key) {
        Some(v) => v.clone(),
        None => {
            return Err(PublishVolumeError::DecodeVolumeContext);
        },
    };
    let name = match kv_get(context, &name_key) {
        Some(v) => v.clone(),
        None => {
            return Err(PublishVolumeError::DecodeVolumeContext);
        },
    };
    match crate::csi::parse_listener_selector(context) {
        Some(selector) => Ok(
            NodeVolumeContext {
                pod_namespace: ns,
                pod_name: name,
                listener_selector: selector,
            },
        ),
        None => Err(PublishVolumeError::DecodeVolumeContext),
    }
}

/// The name of the claim a persistent volume is bound to.
pub fn pvc_name_for_pv(pv: &PersistentVolume) -> (r: Result<String, PublishVolumeError>)
    ensures
        r matches Ok(n) ==> (pv.spec matches Some(sp) && sp.claim_ref matches Some(c) && c.name
            == Some(n)),
        r matches Err(e) ==> e matches PublishVolumeError::UnclaimedPv,
        r is Err <==> !(pv.spec matches Some(sp) && sp.claim_ref matches Some(c)
            && c.name is Some),
{
    match &pv.spec {
        Some(sp) => match &sp.claim_ref {
            Some(c) => match &c.name {
                Some(n) => Ok(n.clone()),
                None => Err(PublishVolumeError::UnclaimedPv),
            },
            None => Err(PublishVolumeError::UnclaimedPv),
        },
        None => Err(PublishVolumeError::UnclaimedPv),
    }
}

/// The view of one derived Listener port: name, protocol, number.
pub open spec fn listener_port_view(p: ListenerPort) -> (Seq<char>, Option<Seq<char>>, i32) {
    (p.name@, opt_str_view(p.protocol), p.port)
}

/// The view of a list of Listener ports.
pub open spec fn listener_ports_view(ps: Seq<ListenerPort>) -> Seq<
    (Seq<char>, Option<Seq<char>>, i32),
>
    decreases ps.len(),
{
    if ps.len() == 0 {
        Seq::empty()
    } else {
        listener_ports_view(ps.drop_last()).push(listener_port_view(ps.last()))
    }
}

/// The port a Listener derives from one container port: the container
/// port number under the container port's name, or under
/// `port-<number>` if it is unnamed.
pub open spec fn derived_port_view(p: ContainerPort) -> (Seq<char>, Option<Seq<char>>, i32) {
    (
        match p.name {
            Some(n) => n@,
            None => "port-"@ + decimal_chars_int(p.container_port as int),
        },
        opt_str_view(p.protocol),
        p.container_port,
    )
}

/// The ports derived from a sequence of container ports.
pub open spec fn container_ports_views(ps: Seq<ContainerPort>) -> Seq<
    (Seq<char>, Option<Seq<char>>, i32),
>
    decreases ps.len(),
{
    if ps.len() == 0 {
        Seq::empty()
    } else {
        container_ports_views(ps.drop_last()).push(derived_port_view(ps.last()))
    }
}

/// The ports derived from all of a pod's containers, in order.
pub open spec fn containers_port_views(cs: Seq<Container>) -> Seq<
    (Seq<char>, Option<Seq<char>>, i32),
>
    decreases cs.len(),
{
    if cs.len() == 0 {
        Seq::empty()
    } else {
        containers_port_views(cs.drop_last()) + (match cs.last().ports {
            Some(ps) => container_ports_views(ps@),
            None => Seq::empty(),
        })
    }
}

/// The containers of a pod, empty if its spec is unset.
pub open spec fn pod_containers(pod: Pod) -> Seq<Container> {
    match pod.spec {
        Some(sp) => sp.containers@,
        None => Seq::empty(),
    }
}

/// A copy of an optional string, character for character.
fn clone_opt_string(a: &Option<String>) -> (r: Option<String>)
    ensures
        r == *a,
{
    match a {
        Some(x) => Some(x.clone()),
        None => None,
    }
}

/// Appends the Listener ports derived from one container.
fn collect_container_ports(acc: &mut Vec<ListenerPort>, c: &Container)
    ensures
        listener_ports_view(final(acc)@) == listener_ports_view(old(acc)@) + (match c.ports {
            Some(ps) => container_ports_views(ps@),
            None => Seq::empty(),
        }),
{
    match &c.ports {
        Some(ps) => {
            let n = ps.len();
            let mut i: usize = 0;
            proof {
                assert(listener_ports_view(acc@) =~= listener_ports_view(old(acc)@)
                    + container_ports_views(ps@.take(0)));
            }
            while i < n
                invariant
                    n == ps@.len(),
                    i <= n,
                    listener_ports_view(acc@) == listener_ports_view(old(acc)@)
                        + container_ports_views(ps@.take(i as int)),
                decreases n - i,
            {
                let p = &ps[i];
                let name = match &p.name {
                    Some(nm) => nm.clone(),
                    None => {
                        let mut nm = String::from_str("port-");
                        let digits = i32_to_decimal(p.container_port);
                        nm.append(digits.as_str());
                        nm
                    },
                };
                let ghost prev = acc@;
                acc.push(
                    ListenerPort {
                        name,
                        port: p.container_port,
                        protocol: clone_opt_string(&p.protocol),
                    },
                );
                proof {
                    assert(ps@.take(i as int + 1).drop_last() =~= ps@.take(i as int));
                    assert(ps@.take(i as int + 1).last() == ps@[i as int]);
                    assert(acc@.drop_last() =~= prev);
                    assert(listener_ports_view(acc@) == listener_ports_view(prev).push(
                        listener_port_view(acc@.last()),
                    ));
                    assert(listener_port_view(acc@.last()) == derived_port_view(ps@[i as int]));
                    assert(listener_ports_view(acc@) =~= listener_ports_view(old(acc)@)
                        + container_ports_views(ps@.take(i as int + 1)));
                }
                i += 1;
            }
            proof {
                assert(ps@.take(n as int) =~= ps@);
            }
        },
        None => {
            proof {
                assert(listener_ports_view(acc@) =~= listener_ports_view(old(acc)@));
            }
        },
    }
}

/// The Listener derived for a volume that selects a ListenerClass:
/// named after the claim, owned by the persistent volume, carrying the
/// claim's labels forward for discoverability, with one port per
/// container port of the pod (an unnamed port is named
/// `port-<number>`), publishing not-ready addresses so the pod can read
/// its own address at startup.
pub fn build_listener_for_class(
    ns: &String,
    pvc_name: &String,
    pv: &PersistentVolume,
    pvc: &PersistentVolumeClaim,
    pod: &Pod,
    listener_class_name: String,
) -> (r: Result<Listener, PublishVolumeError>)
    ensures
        r matches Ok(l) ==> (pv.metadata.uid matches Some(u) && l.metadata.namespace == Some(*ns)
            && l.metadata.name == Some(*pvc_name) && l.metadata.uid is None
            && l.metadata.owner_uid == Some(u) && l.metadata.labels@ == pvc.metadata.labels@
            && l.spec.class_name == Some(listener_class_name)
            && l.spec.extra_pod_selector_labels@ == Seq::<(String, String)>::empty()
            && l.spec.publish_not_ready_addresses == Some(true) && l.status is None && (
            l.spec.ports matches Some(ps) && listener_ports_view(ps@) == containers_port_views(
                pod_containers(*pod),
            ))),
        r matches Err(e) ==> e matches PublishVolumeError::BuildListenerOwnerRef,
        r is Ok <==> pv.metadata.uid is Some,
{
    let owner_uid = match &pv.metadata.uid {
        Some(u) => u.clone(),
        None => {
            return Err(PublishVolumeError::BuildListenerOwnerRef);
        },
    };
    let mut ports: Vec<ListenerPort> = Vec::new();
    match &pod.spec {
        Some(sp) => {
            let n = sp.containers.len();
            let mut i: usize = 0;
            proof {
                assert(listener_ports_view(ports@) =~= containers_port_views(
                    sp.containers@.take(0),
                ));
            }
            while i < n
                invariant
                    n == sp.containers@.len(),
                    i <= n,
                    listener_ports_view(ports@) == containers_port_views(
                        sp.containers@.take(i as int),
                    ),
                decreases n - i,
            {
                collect_container_ports(&mut ports, &sp.containers[i]);
                proof {
                    assert(sp.containers@.take(i as int + 1).drop_last() =~= sp.containers@.take(
                        i as int,
                    ));
                    assert(sp.containers@.take(i as int + 1).last() == sp.containers@[i as int]);
                    assert(listener_ports_view(ports@) =~= containers_port_views(
                        sp.containers@.take(i as int + 1),
                    ));
                }
                i += 1;
            }
            proof {
                assert(sp.containers@.take(n as int) =~= sp.containers@);
            }
        },
        None => {
            proof {
                assert(listener_ports_view(ports@) =~= containers_port_views(pod_containers(*pod)));
            }
        },
    }
    Ok(
        Listener {
            metadata: ObjectMetadata {
                name: Some(pvc_name.clone()),
                namespace: Some(ns.clone()),
                uid: None,
                labels: copy_string_pairs(&pvc.metadata.labels),
                annotations: Vec::new(),
                owner_uid: Some(owner_uid),
            },
            spec: ListenerSpec {
                class_name: Some(listener_class_name),
                extra_pod_selector_labels: Vec::new(),
                ports: Some(ports),
                publish_not_ready_addresses: Some(true),
            },
            status: None,
        },
    )
}

/// The discovery labels to put on the persistent volume at publish
/// time, so the reconciler can find the backing nodes before any
/// Endpoints exist; a Listener they cannot be derived for is an unmet
/// precondition.
pub fn publish_pv_labels(listener: &Listener) -> (r: Result<
    Vec<(String, String)>,
    PublishVolumeError,
>)
    ensures
        r matches Ok(labels) ==> listener.metadata.namespace matches Some(ns)
            && listener.metadata.name matches Some(nm) && labels@.len() == 2 && labels@[0].0@
            == crate::listener_controller::pv_label_listener_namespace() && labels@[0].1 == ns
            && labels@[1].0@ == crate::listener_controller::pv_label_listener_name()
            && labels@[1].1 == nm,
        r matches Err(e) ==> (e matches PublishVolumeError::ListenerPvReference {
            listener_namespace,
            listener_name,
            source,
        } && listener_namespace@ == str_or_empty(listener.metadata.namespace) && listener_name@
            == str_or_empty(listener.metadata.name) && match source {
            ListenerPersistentVolumeLabelError::NoNamespace => listener.metadata.namespace
                is None,
            ListenerPersistentVolumeLabelError::NoName => listener.metadata.namespace is Some
                && listener.metadata.name is None,
        }),
        r is Ok <==> listener.metadata.namespace is Some && listener.metadata.name is Some,
{
    match listener_persistent_volume_label(listener) {
        Ok(labels) => Ok(labels),
        Err(source) => {
            let listener_namespace = match &listener.metadata.namespace {
                Some(s) => s.clone(),
                None => String::new(),
            };
            let listener_name = match &listener.metadata.name {
                Some(s) => s.clone(),
                None => String::new(),
            };
            Err(
                PublishVolumeError::ListenerPvReference {
                    listener_namespace,
                    listener_name,
                    source,
                },
            )
        },
    }
}

/// The mounted-pod label to merge onto the consuming pod at publish
/// time, so the derived Service's selector matches it; a Listener it
/// cannot be derived for is an unmet precondition.
pub fn publish_pod_label(listener: &Listener) -> (r: Result<
    (String, String),
    PublishVolumeError,
>)
    ensures
        r matches Ok(p) ==> listener.metadata.uid matches Some(uid) && p.0@
            == crate::listener_controller::mounted_pod_label_key(uid@)
            && listener.metadata.name == Some(p.1),
        r matches Err(e) ==> (e matches PublishVolumeError::ListenerPodSelector {
            listener_namespace,
            listener_name,
            source,
        } && listener_namespace@ == str_or_empty(listener.metadata.namespace) && listener_name@
            == str_or_empty(listener.metadata.name) && match source {
            ListenerMountedPodLabelError::NoUid => listener.metadata.uid is None,
            ListenerMountedPodLabelError::NoName => listener.metadata.uid is Some
                && listener.metadata.name is None,
        }),
        r is Ok <==> listener.metadata.uid is Some && listener.metadata.name is Some,
{
    match listener_mounted_pod_label(listener) {
        Ok(label) => Ok(label),
        Err(source) => {
            let listener_namespace = match &listener.metadata.namespace {
                Some(s) => s.clone(),
                None => String::new(),
            };
            let listener_name = match &listener.metadata.name {
                Some(s) => s.clone(),
                None => String::new(),
            };
            Err(
                PublishVolumeError::ListenerPodSelector {
                    listener_namespace,
                    listener_name,
                    source,
                },
            )
        },
    }
}

/// Whether the Listener's status already carries resolved node ports,
/// meaning a node-local address is both available and fresher than the
/// cluster-wide status.
pub fn needs_node_local_addresses(listener: &Listener) -> (b: bool)
    ensures
        b == (listener.status matches Some(st) && st.node_ports is Some),
{
    match &listener.status {
        Some(st) => match &st.node_ports {
            Some(_) => true,
            None => false,
        },
        None => false,
    }
}

/// The node ports of the Listener's status.
pub fn listener_status_node_ports(listener: &Listener) -> (r: Option<Vec<(String, i32)>>)
    ensures
        r matches Some(np) ==> (listener.status matches Some(st) && st.node_ports matches Some(
            orig,
        ) && np@ == orig@),
        r is Some <==> (listener.status matches Some(st) && st.node_ports is Some),
{
    match &listener.status {
        Some(st) => match &st.node_ports {
            Some(np) => Some(copy_string_i32_pairs(np)),
            None => None,
        },
        None => None,
    }
}

/// The node the pod runs on, without which no node-local address can be
/// resolved.
pub fn pod_node_name(pod: &Pod) -> (r: Result<String, PublishVolumeError>)
    ensures
        r matches Ok(n) ==> (pod.spec matches Some(sp) && sp.node_name == Some(n)),
        r matches Err(e) ==> (e matches PublishVolumeError::PodHasNoNode { pod_namespace, pod_name }
            && pod_namespace@ == str_or_empty(pod.metadata.namespace) && pod_name@ == str_or_empty(
            pod.metadata.name,
        )),
        r is Ok <==> (pod.spec matches Some(sp) && sp.node_name is Some),
{
    match &pod.spec {
        Some(sp) => match &sp.node_name {
            Some(n) => {
                return Ok(n.clone());
            },
            None => {},
        },
        None => {},
    }
    let pod_namespace = match &pod.metadata.namespace {
        Some(s) => s.clone(),
        None => String::new(),
    };
    let pod_name = match &pod.metadata.name {
        Some(s) => s.clone(),
        None => String::new(),
    };
    Err(PublishVolumeError::PodHasNoNode { pod_namespace, pod_name })
}

/// The class name governing a Listener at publish time.
pub fn publish_listener_class_name(listener: &Listener) -> (r: Result<
    String,
    PublishVolumeError,
>)
    ensures
        r matches Ok(n) ==> listener.spec.class_name == Some(n),
        r matches Err(e) ==> (e matches PublishVolumeError::ListenerHasNoClass {
            listener_namespace,
            listener_name,
        } && listener_namespace@ == str_or_empty(listener.metadata.namespace) && listener_name@
            == str_or_empty(listener.metadata.name)),
        r is Ok <==> listener.spec.class_name is Some,
{
    match &listener.spec.class_name {
        Some(n) => Ok(n.clone()),
        None => {
            let listener_namespace = match &listener.metadata.namespace {
                Some(s) => s.clone(),
                None => String::new(),
            };
            let listener_name = match &listener.metadata.name {
                Some(s) => s.clone(),
                None => String::new(),
            };
            Err(PublishVolumeError::ListenerHasNoClass { listener_namespace, listener_name })
        },
    }
}

/// The view of one resolved ingress entry.
pub open spec fn ingress_view(x: ListenerIngress) -> (Seq<char>, AddressType, Seq<(String, i32)>) {
    (x.address@, x.address_type, x.ports@)
}

/// The view of a list of resolved ingress entries.
pub open spec fn ingress_views(s: Seq<ListenerIngress>) -> Seq<
    (Seq<char>, AddressType, Seq<(String, i32)>),
>
    decreases s.len(),
{
    if s.len() == 0 {
        Seq::empty()
    } else {
        ingress_views(s.drop_last()).push(ingress_view(s.last()))
    }
}

/// The node-local address for a pod, paired with the Listener's
/// node-port map: at most one entry, resolved from the pod's node under
/// the class's preference. This is fresher than waiting for the
/// reconciler's endpoint-based resolution.
pub fn node_local_listener_addresses(
    node_ports: &Vec<(String, i32)>,
    node: &Node,
    class: &ListenerClassSpec,
) -> (r: Vec<ListenerIngress>)
    ensures
        match node_picked_address(*node, class.preferred_address_type) {
            Some(p) => r@.len() == 1 && r@[0].address@ == p.0 && r@[0].address_type == p.1
                && r@[0].ports@ == node_ports@,
            None => r@.len() == 0,
        },
{
    let candidates = node_primary_addresses(node);
    let mut r: Vec<ListenerIngress> = Vec::new();
    match candidates.pick(class.preferred_address_type) {
        Some(pair) => {
            r.push(
                ListenerIngress {
                    address: pair.0,
                    address_type: pair.1,
                    ports: copy_string_i32_pairs(node_ports),
                },
            );
        },
        None => {},
    }
    r
}

/// An entry-for-entry copy of a list of resolved ingress entries.
fn copy_ingress_list(v: &Vec<ListenerIngress>) -> (r: Vec<ListenerIngress>)
    ensures
        ingress_views(r@) == ingress_views(v@),
        r@.len() == v@.len(),
{
    let mut r: Vec<ListenerIngress> = Vec::new();
    let n = v.len();
    let mut i: usize = 0;
    proof {
        assert(ingress_views(r@) =~= ingress_views(v@.take(0)));
    }
    while i < n
        invariant
            n == v@.len(),
            i <= n,
            r@.len() == i,
            ingress_views(r@) == ingress_views(v@.take(i as int)),
        decreases n - i,
    {
        let entry = &v[i];
        let ghost prev = r@;
        r.push(
            ListenerIngress {
                address: entry.address.clone(),
                address_type: entry.address_type,
                ports: copy_string_i32_pairs(&entry.ports),
            },
        );
        proof {
            assert(v@.take(i as int + 1).drop_last() =~= v@.take(i as int));
            assert(v@.take(i as int + 1).last() == v@[i as int]);
            assert(r@.drop_last() =~= prev);
            assert(ingress_view(r@.last()) == ingress_view(v@[i as int]));
            assert(ingress_views(r@) =~= ingress_views(v@.take(i as int + 1)));
        }
        i += 1;
    }
    proof {
        assert(v@.take(n as int) =~= v@);
    }
    r
}

/// The ingress addresses already present in the Listener's status,
/// empty if none have been resolved yet.
pub fn status_ingress_addresses(listener: &Listener) -> (r: Vec<ListenerIngress>)
    ensures
        listener.status matches Some(st) ==> st.ingress_addresses matches Some(ia) ==>
            ingress_views(r@) == ingress_views(ia@),
        !(listener.status matches Some(st) && st.ingress_addresses is Some) ==> r@.len() == 0,
{
    match &listener.status {
        Some(st) => match &st.ingress_addresses {
            Some(ia) => copy_ingress_list(ia),
            None => Vec::new(),
        },
        None => Vec::new(),
    }
}

/// The as-local-as-possible addresses for a pod: if the Listener's
/// status carries node ports, the pod's own node resolves the address;
/// otherwise whatever ingress addresses the status already has.
pub fn local_listener_addresses_for_pod(
    listener: &Listener,
    node: Option<&Node>,
    class: Option<&ListenerClassSpec>,
) -> (r: Vec<ListenerIngress>)
    requires
        (listener.status matches Some(st) && st.node_ports is Some) ==> node is Some
            && class is Some,
    ensures
        listener.status matches Some(st) ==> st.node_ports matches Some(np) ==> (
        node matches Some(nd) && class matches Some(cl) && (match node_picked_address(
            *nd,
            cl.preferred_address_type,
        ) {
            Some(p) => r@.len() == 1 && r@[0].address@ == p.0 && r@[0].address_type == p.1
                && r@[0].ports@ == np@,
            None => r@.len() == 0,
        })),
        !(listener.status matches Some(st) && st.node_ports is Some) ==> ({
            &&& listener.status matches Some(st) ==> st.ingress_addresses matches Some(ia) ==>
                ingress_views(r@) == ingress_views(ia@)
            &&& !(listener.status matches Some(st) && st.ingress_addresses is Some) ==> r@.len()
                == 0
        }),
{
    match listener_status_node_ports(listener) {
        Some(node_ports) => {
            let nd = match node {
                Some(nd) => nd,
                None => unreached(),
            };
            let cl = match class {
                Some(cl) => cl,
                None => unreached(),
            };
            node_local_listener_addresses(&node_ports, nd, cl)
        },
        None => status_ingress_addresses(listener),
    }
}

/// Refuses an empty address list: a publish must fail rather than
/// silently mount an empty directory the pod would read nothing from.
pub fn require_addresses(addrs: Vec<ListenerIngress>) -> (r: Result<
    Vec<ListenerIngress>,
    PublishVolumeError,
>)
    ensures
        r matches Ok(v) ==> v == addrs && addrs@.len() > 0,
        r matches Err(e) ==> e matches PublishVolumeError::NoAddresses && addrs@.len() == 0,
{
    if addrs.len() == 0 {
        Err(PublishVolumeError::NoAddresses)
    } else {
        Ok(addrs)
    }
}

/// The volumes of a pod, empty if unset.
pub open spec fn pod_volumes(pod: Pod) -> Seq<Volume> {
    match pod.spec {
        Some(sp) => match sp.volumes {
            Some(vs) => vs@,
            None => Seq::empty(),
        },
        None => Seq::empty(),
    }
}

/// Whether a pod volume corresponds to the claim: a volume backed by a
/// named claim matches by that claim's name alone; only a volume with
/// no claim source can match as the ephemeral volume the claim was
/// generated for (whose claim is named `<pod>-<volume>`).
pub open spec fn volume_matches(v: Volume, pod_name: Seq<char>, pvc_name: Seq<char>) -> bool {
    match v.persistent_volume_claim {
        Some(c) => c.claim_name@ == pvc_name,
        None => v.ephemeral && pvc_name == pod_name + "-"@ + v.name@,
    }
}

/// The name of the first pod volume corresponding to the claim.
pub open spec fn find_volume_name(vols: Seq<Volume>, pod_name: Seq<char>, pvc_name: Seq<char>) -> Option<
    Seq<char>,
>
    decreases vols.len(),
{
    if vols.len() == 0 {
        None
    } else if volume_matches(vols[0], pod_name, pvc_name) {
        Some(vols[0].name@)
    } else {
        find_volume_name(vols.drop_first(), pod_name, pvc_name)
    }
}

/// Skipping a prefix without matches does not change the search.
proof fn lemma_find_volume_name_skip(
    vols: Seq<Volume>,
    pod_name: Seq<char>,
    pvc_name: Seq<char>,
    i: int,
)
    requires
        0 <= i <= vols.len(),
        forall|j: int| 0 <= j < i ==> !volume_matches(vols[j], pod_name, pvc_name),
    ensures
        find_volume_name(vols, pod_name, pvc_name) == find_volume_name(
            vols.skip(i),
            pod_name,
            pvc_name,
        ),
    decreases i,
{
    if i > 0 {
        lemma_find_volume_name_skip(vols, pod_name, pvc_name, i - 1);
        assert(vols.skip(i - 1).len() > 0);
        assert(vols.skip(i - 1)[0] == vols[i - 1]);
        assert(vols.skip(i - 1).drop_first() =~= vols.skip(i));
    } else {
        assert(vols.skip(0) =~= vols);
    }
}

/// The pod volume the published claim backs: the volume that names the
/// claim, or the ephemeral volume it was generated for.
pub fn find_pod_volume_name_for_pvc(pod: &Pod, pod_name: &String, pvc_name: &String) -> (r: Result<
    String,
    PublishVolumeError,
>)
    ensures
        r matches Ok(n) ==> find_volume_name(pod_volumes(*pod), pod_name@, pvc_name@) == Some(n@),
        r matches Err(e) ==> (e matches PublishVolumeError::FindPodVolumeForPvc { pvc_name: p }
            && p == *pvc_name && find_volume_name(
            pod_volumes(*pod),
            pod_name@,
            pvc_name@,
        ) is None),
{
    let empty: Vec<Volume> = Vec::new();
    let vols: &Vec<Volume> = match &pod.spec {
        Some(sp) => match &sp.volumes {
            Some(vs) => vs,
            None => &empty,
        },
        None => &empty,
    };
    assert(vols@ == pod_volumes(*pod));
    let n = vols.len();
    let mut i: usize = 0;
    while i < n
        invariant
            n == vols@.len(),
            i <= n,
            vols@ == pod_volumes(*pod),
            forall|j: int| 0 <= j < i ==> !volume_matches(vols@[j], pod_name@, pvc_name@),
        decreases n - i,
    {
        let v = &vols[i];
        let matched = match &v.persistent_volume_claim {
            Some(c) => c.claim_name == *pvc_name,
            None => {
                if v.ephemeral {
                    let mut expected = pod_name.clone();
                    expected.append("-");
                    expected.append(v.name.as_str());
                    expected == *pvc_name
                } else {
                    false
                }
            },
        };
        if matched {
            proof {
                assert(volume_matches(vols@[i as int], pod_name@, pvc_name@));
                lemma_find_volume_name_skip(vols@, pod_name@, pvc_name@, i as int);
                assert(vols@.skip(i as int)[0] == vols@[i as int]);
            }
            return Ok(v.name.clone());
        }
        proof {
            assert(!volume_matches(vols@[i as int], pod_name@, pvc_name@));
        }
        i += 1;
    }
    proof {
        lemma_find_volume_name_skip(vols@, pod_name@, pvc_name@, n as int);
        assert(vols@.skip(n as int).len() == 0);
    }
    Err(PublishVolumeError::FindPodVolumeForPvc { pvc_name: pvc_name.clone() })
}

/// The per-pod record of what was mounted: the pod's companion
/// PodListeners object, keyed by the pod's uid and owned by the pod,
/// mapping the volume's name to the resolved addresses and their scope
/// (node-local when node ports drove the resolution).
pub fn build_pod_listeners(
    pod: &Pod,
    volume_name: String,
    listener: &Listener,
    addrs: &Vec<ListenerIngress>,
) -> (r: Result<PodListeners, PublishVolumeError>)
    ensures
        r matches Ok(pl) ==> (pod.metadata.uid matches Some(u) && pl.name matches Some(nm) && nm@
            == "pod-"@ + u@ && pl.namespace == pod.metadata.namespace && pl.owner_pod_uid == Some(
            u,
        ) && pl.spec.listeners@.len() == 1 && pl.spec.listeners@[0].0 == volume_name
            && pl.spec.listeners@[0].1.scope == (if listener.status matches Some(st)
            && st.node_ports is Some {
            PodListenerScope::Node
        } else {
            PodListenerScope::Cluster
        }) && (pl.spec.listeners@[0].1.ingress_addresses matches Some(ia) && ingress_views(ia@)
            == ingress_views(addrs@))),
        r matches Err(e) ==> e matches PublishVolumeError::BuildListenerOwnerRef
            && pod.metadata.uid is None,
        r is Ok <==> pod.metadata.uid is Some,
{
    let uid = match &pod.metadata.uid {
        Some(u) => u,
        None => {
            return Err(PublishVolumeError::BuildListenerOwnerRef);
        },
    };
    let mut name = String::from_str("pod-");
    name.append(uid.as_str());
    let scope = if needs_node_local_addresses(listener) {
        PodListenerScope::Node
    } else {
        PodListenerScope::Cluster
    };
    let addr_copies = copy_ingress_list(addrs);
    let mut listeners: Vec<(String, PodListener)> = Vec::new();
    listeners.push(
        (volume_name, PodListener { scope, ingress_addresses: Some(addr_copies) }),
    );
    Ok(
        PodListeners {
            name: Some(name),
            namespace: clone_opt_string(&pod.metadata.namespace),
            owner_pod_uid: Some(uid.clone()),
            spec: PodListenersSpec { listeners },
        },
    )
}

} // verus!
