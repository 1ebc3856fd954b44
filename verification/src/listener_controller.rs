//! The reconciler's computation: derive the Service object backing a
//! Listener, discover the nodes backing a NodePort Listener, resolve the
//! published addresses, and assemble the Listener's status.

use vstd::prelude::*;
use vstd::string::StringExecFns;

use crate::address::{
    node_picked_address, node_primary_addresses, opt_str_view, pick_from, AddressCandidates,
};
use crate::crd::{
    AddressType, ExternalTrafficPolicy, Listener, ListenerClassSpec, ListenerIngress,
    ListenerPort, ListenerStatus, ServiceType,
};
use crate::k8s::{
    EndpointAddress, Endpoints, EndpointSubset, LoadBalancerIngressStatus, Node,
    NodeSelectorRequirement, NodeSelectorTerm, PersistentVolume, ServicePort, ServiceStatus,
};
use crate::kv::{copy_string_i32_pairs, copy_string_pairs, copy_strings, kv_first_value, kv_get};
use crate::strutil::{append_without_dashes, without_dashes};

verus! {

/// Why a Listener's mounted-pod label could not be derived.
#[derive(Clone, Copy, Debug, PartialEq, Eq, Structural)]
pub enum ListenerMountedPodLabelError {
    /// The Listener has no uid.
    NoUid,
    /// The Listener has no name.
    NoName,
}

impl ListenerMountedPodLabelError {
    /// The failure's message, as a spec-level function.
    pub open spec fn message_spec(&self) -> Seq<char> {
        match *self {
            ListenerMountedPodLabelError::NoUid => "object has no uid"@,
            ListenerMountedPodLabelError::NoName => "object has no name"@,
        }
    }

    /// The failure's message.
    pub fn message(&self) -> (r: String)
        ensures
            r@ == self.message_spec(),
    {
        match self {
            ListenerMountedPodLabelError::NoUid => String::from_str("object has no uid"),
            ListenerMountedPodLabelError::NoName => String::from_str("object has no name"),
        }
    }
}

/// Why a Listener's persistent-volume labels could not be derived.
#[derive(Clone, Copy, Debug, PartialEq, Eq, Structural)]
pub enum ListenerPersistentVolumeLabelError {
    /// The Listener has no name.
    NoName,
    /// The Listener has no namespace.
    NoNamespace,
}

impl ListenerPersistentVolumeLabelError {
    /// The failure's message, as a spec-level function.
    pub open spec fn message_spec(&self) -> Seq<char> {
        match *self {
            ListenerPersistentVolumeLabelError::NoName => "object has no name"@,
            ListenerPersistentVolumeLabelError::NoNamespace => "object has no namespace"@,
        }
    }

    /// The failure's message.
    pub fn message(&self) -> (r: String)
        ensures
            r@ == self.message_spec(),
    {
        match self {
            ListenerPersistentVolumeLabelError::NoName => String::from_str("object has no name"),
            ListenerPersistentVolumeLabelError::NoNamespace => String::from_str(
                "object has no namespace",
            ),
        }
    }
}

/// Identity of an arbitrary object: enough for error messages and for
/// mapping a watch event back to the Listener it concerns.
#[derive(Clone, Debug, PartialEq, Eq)]
pub struct ObjectId {
    pub kind: String,
    pub namespace: Option<String>,
    pub name: String,
}

/// Why a reconcile pass over a Listener failed.
#[derive(Clone, Debug, PartialEq, Eq)]
pub enum Error {
    /// The Listener object itself could not be interpreted.
    InvalidListener,
    /// The Listener has no namespace.
    NoNs,
    /// The Listener has no name.
    NoName,
    /// The Listener names no ListenerClass.
    NoListenerClass,
    /// The Listener's pod-selector label could not be derived.
    ListenerPodSelector(ListenerMountedPodLabelError),
    /// The Listener's persistent-volume labels could not be derived.
    ListenerPvSelector(ListenerPersistentVolumeLabelError),
    /// The Listener's labelled persistent volumes could not be listed.
    GetListenerPvs { message: String },
    /// A dependency could not be fetched; `obj` says which one.
    GetObject { obj: ObjectId, message: String },
    /// The derived Service could not be applied.
    ApplyService { svc: ObjectId, message: String },
    /// The Listener's status could not be applied.
    ApplyStatus { message: String },
}

impl Error {
    /// The category a failure is reported under: the variant's name.
    pub open spec fn category_spec(&self) -> Seq<char> {
        match *self {
            Error::InvalidListener => "InvalidListener"@,
            Error::NoNs => "NoNs"@,
            Error::NoName => "NoName"@,
            Error::NoListenerClass => "NoListenerClass"@,
            Error::ListenerPodSelector(_) => "ListenerPodSelector"@,
            Error::ListenerPvSelector(_) => "ListenerPvSelector"@,
            Error::GetListenerPvs { .. } => "GetListenerPvs"@,
            Error::GetObject { .. } => "GetObject"@,
            Error::ApplyService { .. } => "ApplyService"@,
            Error::ApplyStatus { .. } => "ApplyStatus"@,
        }
    }

    /// The category a failure is reported under.
    pub fn category(&self) -> (r: String)
        ensures
            r@ == self.category_spec(),
    {
        match self {
            Error::InvalidListener => String::from_str("InvalidListener"),
            Error::NoNs => String::from_str("NoNs"),
            Error::NoName => String::from_str("NoName"),
            Error::NoListenerClass => String::from_str("NoListenerClass"),
            Error::ListenerPodSelector(_) => String::from_str("ListenerPodSelector"),
            Error::ListenerPvSelector(_) => String::from_str("ListenerPvSelector"),
            Error::GetListenerPvs { .. } => String::from_str("GetListenerPvs"),
            Error::GetObject { .. } => String::from_str("GetObject"),
            Error::ApplyService { .. } => String::from_str("ApplyService"),
            Error::ApplyStatus { .. } => String::from_str("ApplyStatus"),
        }
    }

    /// The object, besides the Listener itself, that the failure is
    /// about, for reporting.
    pub fn secondary_object(&self) -> (r: Option<ObjectId>)
        ensures
            match *self {
                Error::GetObject { obj, .. } => r == Some(obj),
                Error::ApplyService { svc, .. } => r == Some(svc),
                _ => r is None,
            },
    {
        match self {
            Error::GetObject { obj, .. } => Some(clone_object_id(obj)),
            Error::ApplyService { svc, .. } => Some(clone_object_id(svc)),
            _ => None,
        }
    }
}

/// A field-for-field copy of an object identity.
fn clone_object_id(o: &ObjectId) -> (r: ObjectId)
    ensures
        r == *o,
{
    ObjectId {
        kind: o.kind.clone(),
        namespace: match &o.namespace {
            Some(ns) => Some(ns.clone()),
            None => None,
        },
        name: o.name.clone(),
    }
}

/// What the reconcile loop does next.
#[derive(Clone, Copy, Debug, PartialEq, Eq, Structural)]
pub enum ReconcileAction {
    /// Wait for the next change of the object; no retry would help.
    AwaitChange,
    /// Try again after this many seconds.
    RequeueAfterSeconds(u64),
}

/// What to do after a failed reconcile pass: an uninterpretable
/// Listener waits for its next change (retrying cannot fix it); every
/// other failure is retried on a fixed backoff.
pub fn error_policy(error: &Error) -> (r: ReconcileAction)
    ensures
        r == match *error {
            Error::InvalidListener => ReconcileAction::AwaitChange,
            _ => ReconcileAction::RequeueAfterSeconds(10),
        },
{
    match error {
        Error::InvalidListener => ReconcileAction::AwaitChange,
        _ => ReconcileAction::RequeueAfterSeconds(10),
    }
}

/// The key of the label that marks pods which have mounted a Listener:
/// a fixed prefix followed by the Listener's uid without its dashes
/// (dropping the dashes keeps the key within the length limit on label
/// names).
pub open spec fn mounted_pod_label_key(uid: Seq<char>) -> Seq<char> {
    "listener.stackable.tech/mnt."@ + without_dashes(uid)
}

/// The label that marks pods which have mounted `listener`; its value is
/// the Listener's name, as a hint to users. The CSI node driver adds it
/// to the relevant pods; the derived Service selects on it.
pub fn listener_mounted_pod_label(listener: &Listener) -> (r: Result<
    (String, String),
    ListenerMountedPodLabelError,
>)
    ensures
        r matches Ok(p) ==> listener.metadata.uid matches Some(uid) && p.0@
            == mounted_pod_label_key(uid@) && listener.metadata.name == Some(p.1),
        r matches Err(e) ==> match e {
            ListenerMountedPodLabelError::NoUid => listener.metadata.uid is None,
            ListenerMountedPodLabelError::NoName => listener.metadata.uid is Some
                && listener.metadata.name is None,
        },
        r is Ok <==> listener.metadata.uid is Some && listener.metadata.name is Some,
{
    let uid = match &listener.metadata.uid {
        Some(uid) => uid,
        None => {
            return Err(ListenerMountedPodLabelError::NoUid);
        },
    };
    let name = match &listener.metadata.name {
        Some(name) => name,
        None => {
            return Err(ListenerMountedPodLabelError::NoName);
        },
    };
    let mut key = String::from_str("listener.stackable.tech/mnt.");
    append_without_dashes(&mut key, uid);
    Ok((key, name.clone()))
}

/// The label pair naming the namespace of the Listener a persistent
/// volume belongs to.
pub open spec fn pv_label_listener_namespace() -> Seq<char> {
    "listeners.stackable.tech/listener-namespace"@
}

/// The label pair naming the name of the Listener a persistent volume
/// belongs to.
pub open spec fn pv_label_listener_name() -> Seq<char> {
    "listeners.stackable.tech/listener-name"@
}

/// The labels that tie a persistent volume to its Listener, so the
/// reconciler can find the volumes (and through them the nodes) backing
/// a Listener before any Endpoints exist.
pub fn listener_persistent_volume_label(listener: &Listener) -> (r: Result<
    Vec<(String, String)>,
    ListenerPersistentVolumeLabelError,
>)
    ensures
        r matches Ok(labels) ==> listener.metadata.namespace matches Some(ns)
            && listener.metadata.name matches Some(nm) && labels@.len() == 2 && labels@[0].0@
            == pv_label_listener_namespace() && labels@[0].1 == ns && labels@[1].0@
            == pv_label_listener_name() && labels@[1].1 == nm,
        r matches Err(e) ==> match e {
            ListenerPersistentVolumeLabelError::NoNamespace => listener.metadata.namespace is None,
            ListenerPersistentVolumeLabelError::NoName => listener.metadata.namespace is Some
                && listener.metadata.name is None,
        },
        r is Ok <==> listener.metadata.namespace is Some && listener.metadata.name is Some,
{
    let ns = match &listener.metadata.namespace {
        Some(ns) => ns,
        None => {
            return Err(ListenerPersistentVolumeLabelError::NoNamespace);
        },
    };
    let name = match &listener.metadata.name {
        Some(name) => name,
        None => {
            return Err(ListenerPersistentVolumeLabelError::NoName);
        },
    };
    let mut labels: Vec<(String, String)> = Vec::new();
    labels.push((String::from_str("listeners.stackable.tech/listener-namespace"), ns.clone()));
    labels.push((String::from_str("listeners.stackable.tech/listener-name"), name.clone()));
    Ok(labels)
}

/// Desired state of the Service derived for a Listener.
#[derive(Clone, Debug)]
pub struct ServiceSpec {
    pub type_: ServiceType,
    pub ports: Vec<ServicePort>,
    /// Set only for service types that receive external traffic.
    pub external_traffic_policy: Option<ExternalTrafficPolicy>,
    pub selector: Vec<(String, String)>,
    pub publish_not_ready_addresses: bool,
    /// Assigned by the cluster, empty in a desired state.
    pub cluster_ips: Vec<String>,
}

/// The Service object derived 1:1 from a Listener: same name and
/// namespace, owned by the Listener.
#[derive(Clone, Debug)]
pub struct Service {
    pub name: String,
    pub namespace: String,
    pub labels: Vec<(String, String)>,
    pub annotations: Vec<(String, String)>,
    /// Uid of the owning Listener.
    pub owner_listener_uid: Option<String>,
    pub spec: ServiceSpec,
    pub status: Option<ServiceStatus>,
}

/// The deduplication key of a port: its protocol and its name.
pub open spec fn listener_port_key(p: ListenerPort) -> (Option<Seq<char>>, Option<Seq<char>>) {
    (opt_str_view(p.protocol), Some(p.name@))
}

/// The deduplication key of a Service port.
pub open spec fn service_port_key(p: ServicePort) -> (Option<Seq<char>>, Option<Seq<char>>) {
    (opt_str_view(p.protocol), opt_str_view(p.name))
}

/// Whether two optional strings hold the same characters.
fn opt_string_eq(a: &Option<String>, b: &Option<String>) -> (r: bool)
    ensures
        r == (opt_str_view(*a) == opt_str_view(*b)),
{
    match (a, b) {
        (Some(x), Some(y)) => *x == *y,
        (None, None) => true,
        _ => false,
    }
}

/// A copy of an optional string, character for character.
fn clone_opt_string(a: &Option<String>) -> (r: Option<String>)
    ensures
        r == *a,
{
    match a {
        Some(x) => Some(x.clone()),
        None => None,
    }
}

/// The Service port derived from one Listener port.
pub open spec fn service_port_of(p: ListenerPort) -> ServicePort {
    ServicePort { name: Some(p.name), protocol: p.protocol, port: p.port, node_port: None }
}

/// The index of the first port in `r` with key `k`, if any.
pub open spec fn find_port_key(
    r: Seq<ServicePort>,
    k: (Option<Seq<char>>, Option<Seq<char>>),
) -> Option<int>
    decreases r.len(),
{
    if r.len() == 0 {
        None
    } else if service_port_key(r[0]) == k {
        Some(0int)
    } else {
        match find_port_key(r.drop_first(), k) {
            Some(i) => Some(i + 1),
            None => None,
        }
    }
}

/// The ports of the derived Service: one Service port per Listener port,
/// deduplicated by (protocol, name); a later port with the same key
/// replaces the earlier one in place.
pub open spec fn dedup_ports(ps: Seq<ListenerPort>) -> Seq<ServicePort>
    decreases ps.len(),
{
    if ps.len() == 0 {
        Seq::empty()
    } else {
        let rest = dedup_ports(ps.drop_last());
        let sp = service_port_of(ps.last());
        match find_port_key(rest, listener_port_key(ps.last())) {
            Some(j) => rest.update(j, sp),
            None => rest.push(sp),
        }
    }
}

/// The deduplicated ports carry pairwise distinct keys: the derived
/// Service never declares the same (protocol, name) twice, however the
/// Listener repeats itself.
pub proof fn lemma_dedup_ports_keys_unique(ps: Seq<ListenerPort>)
    ensures
        forall|j1: int, j2: int|
            0 <= j1 < j2 < dedup_ports(ps).len() ==> service_port_key(dedup_ports(ps)[j1])
                != service_port_key(dedup_ports(ps)[j2]),
    decreases ps.len(),
{
    if ps.len() > 0 {
        let pre = ps.drop_last();
        lemma_dedup_ports_keys_unique(pre);
        let rest = dedup_ports(pre);
        let sp = service_port_of(ps.last());
        let d = dedup_ports(ps);
        lemma_find_port_key_props(rest, listener_port_key(ps.last()));
        match find_port_key(rest, listener_port_key(ps.last())) {
            Some(j) => {
                assert(d == rest.update(j, sp));
                assert forall|j1: int, j2: int| 0 <= j1 < j2 < d.len() implies service_port_key(
                    d[j1],
                ) != service_port_key(d[j2]) by {
                    assert(service_port_key(d[j1]) == service_port_key(rest[j1]));
                    assert(service_port_key(d[j2]) == service_port_key(rest[j2]));
                }
            },
            None => {
                assert(d == rest.push(sp));
                assert forall|j1: int, j2: int| 0 <= j1 < j2 < d.len() implies service_port_key(
                    d[j1],
                ) != service_port_key(d[j2]) by {
                    assert(d[j1] == rest[j1]);
                    if j2 == d.len() - 1 {
                        assert(d[j2] == sp);
                        assert(service_port_key(rest[j1]) != service_port_key(sp));
                    } else {
                        assert(d[j2] == rest[j2]);
                    }
                }
            },
        }
    }
}

/// Where `find_port_key` answers, it points at a port with the key; where
/// it does not, no port has the key.
pub proof fn lemma_find_port_key_props(r: Seq<ServicePort>, k: (Option<Seq<char>>, Option<Seq<char>>))
    ensures
        find_port_key(r, k) matches Some(j) ==> 0 <= j < r.len() && service_port_key(r[j]) == k
            && (forall|j2: int| 0 <= j2 < j ==> service_port_key(r[j2]) != k),
        find_port_key(r, k) is None ==> forall|j: int| 0 <= j < r.len() ==> service_port_key(r[j])
            != k,
    decreases r.len(),
{
    if r.len() > 0 && service_port_key(r[0]) != k {
        let d = r.drop_first();
        lemma_find_port_key_props(d, k);
        match find_port_key(d, k) {
            Some(i) => {
                assert(d[i] == r[i + 1]);
                assert forall|j2: int| 0 <= j2 < i + 1 implies service_port_key(r[j2]) != k by {
                    if j2 > 0 {
                        assert(d[j2 - 1] == r[j2]);
                    }
                }
            },
            None => {
                assert forall|j: int| 0 <= j < r.len() implies service_port_key(r[j]) != k by {
                    if j > 0 {
                        assert(d[j - 1] == r[j]);
                    }
                }
            },
        }
    }
}

/// Skipping a prefix without the key moves the first found index down.
proof fn lemma_find_port_key_skip(
    r: Seq<ServicePort>,
    k: (Option<Seq<char>>, Option<Seq<char>>),
    i: int,
)
    requires
        0 <= i <= r.len(),
        forall|j: int| 0 <= j < i ==> service_port_key(r[j]) != k,
    ensures
        find_port_key(r, k) == match find_port_key(r.skip(i), k) {
            Some(j) => Some(j + i),
            None => None::<int>,
        },
    decreases i,
{
    if i > 0 {
        lemma_find_port_key_skip(r, k, i - 1);
        assert(r.skip(i - 1).len() > 0);
        assert(r.skip(i - 1)[0] == r[i - 1]);
        assert(r.skip(i - 1).drop_first() =~= r.skip(i));
    } else {
        assert(r.skip(0) =~= r);
    }
}

/// The index of the Service port with the given key, if one is there.
fn find_port_index(r: &Vec<ServicePort>, name: &String, protocol: &Option<String>) -> (idx: Option<
    usize,
>)
    ensures
        match idx {
            Some(j) => find_port_key(r@, (opt_str_view(*protocol), Some(name@))) == Some(j as int),
            None => find_port_key(r@, (opt_str_view(*protocol), Some(name@))) is None,
        },
{
    let ghost k = (opt_str_view(*protocol), Some(name@));
    let n = r.len();
    let mut j: usize = 0;
    while j < n
        invariant
            n == r@.len(),
            j <= n,
            k == (opt_str_view(*protocol), Some(name@)),
            forall|j2: int| 0 <= j2 < j ==> service_port_key(r@[j2]) != k,
        decreases n - j,
    {
        let entry = &r[j];
        let name_matches = match &entry.name {
            Some(en) => *en == *name,
            None => false,
        };
        if name_matches && opt_string_eq(&entry.protocol, protocol) {
            proof {
                lemma_find_port_key_skip(r@, k, j as int);
                assert(r@.skip(j as int)[0] == r@[j as int]);
            }
            return Some(j);
        }
        j += 1;
    }
    proof {
        lemma_find_port_key_skip(r@, k, n as int);
        assert(r@.skip(n as int).len() == 0);
    }
    None
}

/// Turns a Listener's ports into the derived Service's ports,
/// deduplicated by (protocol, name); on a repeated key the later port
/// wins, keeping the position of the first.
pub fn build_service_ports(ports: &Vec<ListenerPort>) -> (r: Vec<ServicePort>)
    ensures
        r@ == dedup_ports(ports@),
{
    let mut r: Vec<ServicePort> = Vec::new();
    let n = ports.len();
    let mut t: usize = 0;
    while t < n
        invariant
            n == ports@.len(),
            t <= n,
            r@ == dedup_ports(ports@.take(t as int)),
        decreases n - t,
    {
        let p = &ports[t];
        let sp = ServicePort {
            name: Some(p.name.clone()),
            protocol: clone_opt_string(&p.protocol),
            port: p.port,
            node_port: None,
        };
        proof {
            assert(sp == service_port_of(ports@[t as int]));
            assert(ports@.take(t as int + 1).drop_last() =~= ports@.take(t as int));
            assert(ports@.take(t as int + 1).last() == ports@[t as int]);
        }
        let idx = find_port_index(&r, &p.name, &p.protocol);
        match idx {
            Some(j) => {
                proof {
                    lemma_find_port_key_props(r@, listener_port_key(ports@[t as int]));
                }
                r.set(j, sp);
            },
            None => {
                r.push(sp);
            },
        }
        t += 1;
    }
    proof {
        assert(ports@.take(n as int) =~= ports@);
    }
    r
}


/// The ports a Listener declares, empty if unset.
pub open spec fn listener_spec_ports(l: crate::crd::ListenerSpec) -> Seq<ListenerPort> {
    match l.ports {
        Some(v) => v@,
        None => Seq::empty(),
    }
}

/// The external-traffic policy of the derived Service: the class's
/// policy for service types that receive external traffic, nothing for
/// ClusterIP services.
pub open spec fn external_traffic_policy_for(class: ListenerClassSpec) -> Option<
    ExternalTrafficPolicy,
> {
    match class.service_type {
        ServiceType::NodePort => Some(class.service_external_traffic_policy),
        ServiceType::LoadBalancer => Some(class.service_external_traffic_policy),
        ServiceType::ClusterIP => None,
    }
}

/// The desired derived Service for a Listener under its class: same name
/// and namespace as the Listener, owned by it; the Listener's labels;
/// the class's annotations; ports deduplicated by (protocol, name); the
/// selector is the Listener's extra pod-selector labels plus its
/// mounted-pod label; not-ready addresses are published if the Listener
/// asks for it.
pub fn build_service(listener: &Listener, class: &ListenerClassSpec) -> (r: Result<Service, Error>)
    ensures
        r matches Ok(svc) ==> (listener.metadata.namespace matches Some(ns)
            && listener.metadata.name matches Some(nm) && listener.metadata.uid matches Some(uid)
            && svc.namespace == ns && svc.name == nm && svc.owner_listener_uid == Some(uid)
            && svc.labels@ == listener.metadata.labels@ && svc.annotations@
            == class.service_annotations@ && svc.spec.type_ == class.service_type
            && svc.spec.ports@ == dedup_ports(listener_spec_ports(listener.spec))
            && svc.spec.external_traffic_policy == external_traffic_policy_for(*class)
            && svc.spec.selector@.len() == listener.spec.extra_pod_selector_labels@.len() + 1
            && svc.spec.selector@.drop_last() == listener.spec.extra_pod_selector_labels@
            && svc.spec.selector@.last().0@ == mounted_pod_label_key(uid@)
            && svc.spec.selector@.last().1 == nm && svc.spec.publish_not_ready_addresses == (
            match listener.spec.publish_not_ready_addresses {
                Some(b) => b,
                None => false,
            }) && svc.spec.cluster_ips@ == Seq::<String>::empty() && svc.status is None),
        r matches Err(e) ==> match e {
            Error::NoNs => listener.metadata.namespace is None,
            Error::NoName => listener.metadata.namespace is Some && listener.metadata.name is None,
            Error::ListenerPodSelector(src) => src == ListenerMountedPodLabelError::NoUid
                && listener.metadata.namespace is Some && listener.metadata.name is Some
                && listener.metadata.uid is None,
            _ => false,
        },
        r is Ok <==> listener.metadata.namespace is Some && listener.metadata.name is Some
            && listener.metadata.uid is Some,
{
    let ns = match &listener.metadata.namespace {
        Some(ns) => ns,
        None => {
            return Err(Error::NoNs);
        },
    };
    let name = match &listener.metadata.name {
        Some(name) => name,
        None => {
            return Err(Error::NoName);
        },
    };
    let pod_label = match listener_mounted_pod_label(listener) {
        Ok(l) => l,
        Err(e) => {
            return Err(Error::ListenerPodSelector(e));
        },
    };
    let empty_ports: Vec<ListenerPort> = Vec::new();
    let declared_ports = match &listener.spec.ports {
        Some(p) => p,
        None => &empty_ports,
    };
    let svc_ports = build_service_ports(declared_ports);
    let mut selector = copy_string_pairs(&listener.spec.extra_pod_selector_labels);
    selector.push(pod_label);
    proof {
        assert(selector@.drop_last() =~= listener.spec.extra_pod_selector_labels@);
    }
    let external_traffic_policy = match class.service_type {
        ServiceType::NodePort => Some(class.service_external_traffic_policy),
        ServiceType::LoadBalancer => Some(class.service_external_traffic_policy),
        ServiceType::ClusterIP => None,
    };
    let publish_not_ready_addresses = match &listener.spec.publish_not_ready_addresses {
        Some(b) => *b,
        None => false,
    };
    Ok(
        Service {
            name: name.clone(),
            namespace: ns.clone(),
            labels: copy_string_pairs(&listener.metadata.labels),
            annotations: copy_string_pairs(&class.service_annotations),
            owner_listener_uid: clone_opt_string(&listener.metadata.uid),
            spec: ServiceSpec {
                type_: class.service_type,
                ports: svc_ports,
                external_traffic_policy,
                selector,
                publish_not_ready_addresses,
                cluster_ips: Vec::new(),
            },
            status: None,
        },
    )
}

/// The name of the class governing a Listener; without one the Listener
/// cannot be reconciled.
pub fn listener_class_name(listener: &Listener) -> (r: Result<String, Error>)
    ensures
        r matches Ok(n) ==> listener.spec.class_name == Some(n),
        r matches Err(e) ==> e == Error::NoListenerClass && listener.spec.class_name is None,
        r is Ok <==> listener.spec.class_name is Some,
{
    match &listener.spec.class_name {
        Some(n) => Ok(n.clone()),
        None => Err(Error::NoListenerClass),
    }
}

/// The (name, node port) pairs of the named ports that have an assigned
/// node port.
pub open spec fn node_port_entries(ports: Seq<ServicePort>) -> Seq<(String, i32)>
    decreases ports.len(),
{
    if ports.len() == 0 {
        Seq::empty()
    } else {
        node_port_entries(ports.drop_last()) + (match (ports.last().name, ports.last().node_port) {
            (Some(n), Some(p)) => seq![(n, p)],
            _ => Seq::empty(),
        })
    }
}

/// The (name, port) pairs of the named ports, with their requested port
/// numbers.
pub open spec fn port_number_entries(ports: Seq<ServicePort>) -> Seq<(String, i32)>
    decreases ports.len(),
{
    if ports.len() == 0 {
        Seq::empty()
    } else {
        port_number_entries(ports.drop_last()) + (match ports.last().name {
            Some(n) => seq![(n, ports.last().port)],
            None => Seq::empty(),
        })
    }
}

/// The node ports the cluster assigned to a Service's named ports.
pub fn service_node_ports(ports: &Vec<ServicePort>) -> (r: Vec<(String, i32)>)
    ensures
        r@ == node_port_entries(ports@),
{
    let mut r: Vec<(String, i32)> = Vec::new();
    let n = ports.len();
    let mut i: usize = 0;
    while i < n
        invariant
            n == ports@.len(),
            i <= n,
            r@ == node_port_entries(ports@.take(i as int)),
        decreases n - i,
    {
        let p = &ports[i];
        proof {
            assert(ports@.take(i as int + 1).drop_last() =~= ports@.take(i as int));
            assert(ports@.take(i as int + 1).last() == ports@[i as int]);
        }
        match (&p.name, &p.node_port) {
            (Some(name), Some(node_port)) => {
                r.push((name.clone(), *node_port));
                proof {
                    assert(r@ =~= node_port_entries(ports@.take(i as int + 1)));
                }
            },
            _ => {
                proof {
                    assert(r@ =~= node_port_entries(ports@.take(i as int + 1)));
                }
            },
        }
        i += 1;
    }
    proof {
        assert(ports@.take(n as int) =~= ports@);
    }
    r
}

/// The requested port numbers of a Service's named ports.
pub fn service_port_numbers(ports: &Vec<ServicePort>) -> (r: Vec<(String, i32)>)
    ensures
        r@ == port_number_entries(ports@),
{
    let mut r: Vec<(String, i32)> = Vec::new();
    let n = ports.len();
    let mut i: usize = 0;
    while i < n
        invariant
            n == ports@.len(),
            i <= n,
            r@ == port_number_entries(ports@.take(i as int)),
        decreases n - i,
    {
        let p = &ports[i];
        proof {
            assert(ports@.take(i as int + 1).drop_last() =~= ports@.take(i as int));
            assert(ports@.take(i as int + 1).last() == ports@[i as int]);
        }
        match &p.name {
            Some(name) => {
                r.push((name.clone(), p.port));
                proof {
                    assert(r@ =~= port_number_entries(ports@.take(i as int + 1)));
                }
            },
            None => {
                proof {
                    assert(r@ =~= port_number_entries(ports@.take(i as int + 1)));
                }
            },
        }
        i += 1;
    }
    proof {
        assert(ports@.take(n as int) =~= ports@);
    }
    r
}


/// The view of a list of tagged addresses.
pub open spec fn addr_pairs_view(s: Seq<(String, AddressType)>) -> Seq<(Seq<char>, AddressType)> {
    s.map_values(|p: (String, AddressType)| (p.0@, p.1))
}

/// The addresses published for a NodePort Listener: one per backing
/// node, resolved from the node's primary addresses under the class's
/// preference; nodes without any usable address contribute nothing.
pub open spec fn nodeport_address_pairs(nodes: Seq<Node>, preferred: AddressType) -> Seq<
    (Seq<char>, AddressType),
>
    decreases nodes.len(),
{
    if nodes.len() == 0 {
        Seq::empty()
    } else {
        nodeport_address_pairs(nodes.drop_last(), preferred) + (match node_picked_address(
            nodes.last(),
            preferred,
        ) {
            Some(p) => seq![p],
            None => Seq::empty(),
        })
    }
}

/// One address per backing node, under the given preference.
pub fn nodeport_addresses(nodes: &Vec<Node>, preferred: AddressType) -> (r: Vec<
    (String, AddressType),
>)
    ensures
        addr_pairs_view(r@) == nodeport_address_pairs(nodes@, preferred),
{
    let mut r: Vec<(String, AddressType)> = Vec::new();
    let n = nodes.len();
    let mut i: usize = 0;
    proof {
        assert(addr_pairs_view(r@) =~= nodeport_address_pairs(nodes@.take(0), preferred));
    }
    while i < n
        invariant
            n == nodes@.len(),
            i <= n,
            addr_pairs_view(r@) == nodeport_address_pairs(nodes@.take(i as int), preferred),
        decreases n - i,
    {
        let candidates = node_primary_addresses(&nodes[i]);
        proof {
            assert(nodes@.take(i as int + 1).drop_last() =~= nodes@.take(i as int));
            assert(nodes@.take(i as int + 1).last() == nodes@[i as int]);
        }
        match candidates.pick(preferred) {
            Some(pair) => {
                r.push(pair);
                proof {
                    assert(addr_pairs_view(r@) =~= nodeport_address_pairs(
                        nodes@.take(i as int + 1),
                        preferred,
                    ));
                }
            },
            None => {
                proof {
                    assert(addr_pairs_view(r@) =~= nodeport_address_pairs(
                        nodes@.take(i as int + 1),
                        preferred,
                    ));
                }
            },
        }
        i += 1;
    }
    proof {
        assert(nodes@.take(n as int) =~= nodes@);
    }
    r
}

/// The addresses published for a LoadBalancer Listener: one per
/// load-balancer ingress entry, under the given preference.
pub open spec fn lb_address_pairs(
    ingress: Seq<LoadBalancerIngressStatus>,
    preferred: AddressType,
) -> Seq<(Seq<char>, AddressType)>
    decreases ingress.len(),
{
    if ingress.len() == 0 {
        Seq::empty()
    } else {
        lb_address_pairs(ingress.drop_last(), preferred) + (match pick_from(
            opt_str_view(ingress.last().ip),
            opt_str_view(ingress.last().hostname),
            preferred,
        ) {
            Some(p) => seq![p],
            None => Seq::empty(),
        })
    }
}

/// One address per load-balancer ingress entry, under the preference.
pub fn lb_addresses(ingress: &Vec<LoadBalancerIngressStatus>, preferred: AddressType) -> (r: Vec<
    (String, AddressType),
>)
    ensures
        addr_pairs_view(r@) == lb_address_pairs(ingress@, preferred),
{
    let mut r: Vec<(String, AddressType)> = Vec::new();
    let n = ingress.len();
    let mut i: usize = 0;
    proof {
        assert(addr_pairs_view(r@) =~= lb_address_pairs(ingress@.take(0), preferred));
    }
    while i < n
        invariant
            n == ingress@.len(),
            i <= n,
            addr_pairs_view(r@) == lb_address_pairs(ingress@.take(i as int), preferred),
        decreases n - i,
    {
        let entry = &ingress[i];
        let candidates = AddressCandidates {
            ip: clone_opt_string(&entry.ip),
            hostname: clone_opt_string(&entry.hostname),
        };
        proof {
            assert(ingress@.take(i as int + 1).drop_last() =~= ingress@.take(i as int));
            assert(ingress@.take(i as int + 1).last() == ingress@[i as int]);
        }
        match candidates.pick(preferred) {
            Some(pair) => {
                r.push(pair);
                proof {
                    assert(addr_pairs_view(r@) =~= lb_address_pairs(
                        ingress@.take(i as int + 1),
                        preferred,
                    ));
                }
            },
            None => {
                proof {
                    assert(addr_pairs_view(r@) =~= lb_address_pairs(
                        ingress@.take(i as int + 1),
                        preferred,
                    ));
                }
            },
        }
        i += 1;
    }
    proof {
        assert(ingress@.take(n as int) =~= ingress@);
    }
    r
}

/// The addresses published for a ClusterIP Listener preferring IPs:
/// the Service's assigned cluster IPs.
pub open spec fn cluster_ip_pairs(ips: Seq<String>) -> Seq<(Seq<char>, AddressType)>
    decreases ips.len(),
{
    if ips.len() == 0 {
        Seq::empty()
    } else {
        cluster_ip_pairs(ips.drop_last()).push((ips.last()@, AddressType::Ip))
    }
}

/// The Service's cluster IPs, tagged as IP addresses.
pub fn cluster_ip_addresses(ips: &Vec<String>) -> (r: Vec<(String, AddressType)>)
    ensures
        addr_pairs_view(r@) == cluster_ip_pairs(ips@),
{
    let mut r: Vec<(String, AddressType)> = Vec::new();
    let n = ips.len();
    let mut i: usize = 0;
    proof {
        assert(addr_pairs_view(r@) =~= cluster_ip_pairs(ips@.take(0)));
    }
    while i < n
        invariant
            n == ips@.len(),
            i <= n,
            addr_pairs_view(r@) == cluster_ip_pairs(ips@.take(i as int)),
        decreases n - i,
    {
        proof {
            assert(ips@.take(i as int + 1).drop_last() =~= ips@.take(i as int));
            assert(ips@.take(i as int + 1).last() == ips@[i as int]);
        }
        r.push((ips[i].clone(), AddressType::Ip));
        proof {
            assert(addr_pairs_view(r@) =~= cluster_ip_pairs(ips@.take(i as int + 1)));
        }
        i += 1;
    }
    proof {
        assert(ips@.take(n as int) =~= ips@);
    }
    r
}

/// The in-cluster DNS name of a Service.
pub open spec fn cluster_service_fqdn(
    svc_name: Seq<char>,
    ns: Seq<char>,
    cluster_domain: Seq<char>,
) -> Seq<char> {
    svc_name + "."@ + ns + ".svc."@ + cluster_domain
}

/// The in-cluster DNS name `<service>.<namespace>.svc.<cluster-domain>`.
pub fn service_fqdn(svc_name: &String, ns: &String, cluster_domain: &String) -> (r: String)
    ensures
        r@ == cluster_service_fqdn(svc_name@, ns@, cluster_domain@),
{
    let mut r = svc_name.clone();
    r.append(".");
    r.append(ns.as_str());
    r.append(".svc.");
    r.append(cluster_domain.as_str());
    r
}

/// The load-balancer ingress entries of a Service's status, empty if
/// the status is not filled in yet.
pub open spec fn svc_status_ingress(svc: Service) -> Seq<LoadBalancerIngressStatus> {
    match svc.status {
        Some(st) => st.load_balancer_ingress@,
        None => Seq::empty(),
    }
}

/// The addresses the reconciler publishes for a Listener, given its
/// class, its derived Service as the cluster returned it, and the
/// backing nodes (used only for NodePort classes).
pub open spec fn status_address_pairs(
    class: ListenerClassSpec,
    svc: Service,
    cluster_domain: Seq<char>,
    nodes: Seq<Node>,
) -> Seq<(Seq<char>, AddressType)> {
    match class.service_type {
        ServiceType::NodePort => nodeport_address_pairs(nodes, class.preferred_address_type),
        ServiceType::LoadBalancer => lb_address_pairs(
            svc_status_ingress(svc),
            class.preferred_address_type,
        ),
        ServiceType::ClusterIP => match class.preferred_address_type {
            AddressType::Ip => cluster_ip_pairs(svc.spec.cluster_ips@),
            AddressType::Hostname => seq![
                (
                    cluster_service_fqdn(svc.name@, svc.namespace@, cluster_domain),
                    AddressType::Hostname,
                ),
            ],
        },
    }
}

/// The port map the reconciler publishes: assigned node ports for a
/// NodePort class, requested port numbers otherwise.
pub open spec fn status_port_entries(class: ListenerClassSpec, svc: Service) -> Seq<
    (String, i32),
> {
    match class.service_type {
        ServiceType::NodePort => node_port_entries(svc.spec.ports@),
        ServiceType::LoadBalancer => port_number_entries(svc.spec.ports@),
        ServiceType::ClusterIP => port_number_entries(svc.spec.ports@),
    }
}

/// The Listener status the reconciler writes: the backing Service's
/// name; one ingress entry per resolved address, each carrying the full
/// port map; and, only for NodePort classes, the node-port map itself.
pub fn build_listener_status(
    class: &ListenerClassSpec,
    svc: &Service,
    cluster_domain: &String,
    nodes: &Vec<Node>,
) -> (st: ListenerStatus)
    ensures
        st.service_name == Some(svc.name),
        st.ingress_addresses matches Some(ia) && ({
            let pairs = status_address_pairs(*class, *svc, cluster_domain@, nodes@);
            let ports = status_port_entries(*class, *svc);
            &&& ia@.len() == pairs.len()
            &&& forall|k: int|
                #![trigger ia@[k]]
                0 <= k < pairs.len() ==> ia@[k].address@ == pairs[k].0 && ia@[k].address_type
                    == pairs[k].1 && ia@[k].ports@ == ports
        }),
        match class.service_type {
            ServiceType::NodePort => st.node_ports matches Some(np) && np@ == status_port_entries(
                *class,
                *svc,
            ),
            _ => st.node_ports is None,
        },
{
    let ports = match class.service_type {
        ServiceType::NodePort => service_node_ports(&svc.spec.ports),
        _ => service_port_numbers(&svc.spec.ports),
    };
    let addresses: Vec<(String, AddressType)> = match class.service_type {
        ServiceType::NodePort => nodeport_addresses(nodes, class.preferred_address_type),
        ServiceType::LoadBalancer => {
            let empty: Vec<LoadBalancerIngressStatus> = Vec::new();
            let ingress = match &svc.status {
                Some(st) => &st.load_balancer_ingress,
                None => &empty,
            };
            lb_addresses(ingress, class.preferred_address_type)
        },
        ServiceType::ClusterIP => {
            match class.preferred_address_type {
                AddressType::Ip => cluster_ip_addresses(&svc.spec.cluster_ips),
                            AddressType::Hostname => {
                    let fqdn = service_fqdn(&svc.name, &svc.namespace, cluster_domain);
                    let mut r: Vec<(String, AddressType)> = Vec::new();
                    r.push((fqdn, AddressType::Hostname));
                    proof {
                        assert(addr_pairs_view(r@) =~= status_address_pairs(
                            *class,
                            *svc,
                            cluster_domain@,
                            nodes@,
                        ));
                    }
                    r
                },
            }
        },
    };
    let mut ingress_addresses: Vec<ListenerIngress> = Vec::new();
    let n = addresses.len();
    let mut i: usize = 0;
    while i < n
        invariant
            n == addresses@.len(),
            i <= n,
            ingress_addresses@.len() == i,
            forall|k: int|
                #![trigger ingress_addresses@[k]]
                0 <= k < i ==> ingress_addresses@[k].address@ == addr_pairs_view(addresses@)[k].0
                    && ingress_addresses@[k].address_type == addr_pairs_view(addresses@)[k].1
                    && ingress_addresses@[k].ports@ == ports@,
        decreases n - i,
    {
        let pair = &addresses[i];
        ingress_addresses.push(
            ListenerIngress {
                address: pair.0.clone(),
                address_type: pair.1,
                ports: copy_string_i32_pairs(&ports),
            },
        );
        i += 1;
    }
    let node_ports = match class.service_type {
        ServiceType::NodePort => Some(ports),
        _ => None,
    };
    ListenerStatus {
        service_name: Some(svc.name.clone()),
        ingress_addresses: Some(ingress_addresses),
        node_ports,
    }
}

/// For a ClusterIP class preferring hostnames, the reconciler publishes
/// exactly one ingress address: the Service's in-cluster DNS name
/// `<service>.<namespace>.svc.<cluster-domain>`.
pub proof fn lemma_cluster_ip_hostname_single_ingress(
    class: ListenerClassSpec,
    svc: Service,
    cluster_domain: Seq<char>,
    nodes: Seq<Node>,
)
    requires
        class.service_type == ServiceType::ClusterIP,
        class.preferred_address_type == AddressType::Hostname,
    ensures
        status_address_pairs(class, svc, cluster_domain, nodes).len() == 1,
        status_address_pairs(class, svc, cluster_domain, nodes)[0] == (
            cluster_service_fqdn(svc.name@, svc.namespace@, cluster_domain),
            AddressType::Hostname,
        ),
{
}


/// The key of the node-topology label the CSI driver advertises; a
/// persistent volume pinned to a node carries a node-affinity
/// requirement on it.
pub open spec fn node_topology_label_hostname() -> Seq<char> {
    "listeners.stackable.tech/hostname"@
}

/// The node names one node-selector requirement pins a volume to: its
/// values, if it requires the node-topology hostname label with `In`.
pub open spec fn expr_node_names(e: NodeSelectorRequirement) -> Seq<String> {
    if e.key@ == node_topology_label_hostname() && e.operator@ == "In"@ {
        match e.values {
            Some(vs) => vs@,
            None => Seq::empty(),
        }
    } else {
        Seq::empty()
    }
}

/// The node names listed by a sequence of requirements.
pub open spec fn exprs_node_names(es: Seq<NodeSelectorRequirement>) -> Seq<String>
    decreases es.len(),
{
    if es.len() == 0 {
        Seq::empty()
    } else {
        exprs_node_names(es.drop_last()) + expr_node_names(es.last())
    }
}

/// The node names listed by one node-selector term.
pub open spec fn term_node_names(t: NodeSelectorTerm) -> Seq<String> {
    match t.match_expressions {
        Some(es) => exprs_node_names(es@),
        None => Seq::empty(),
    }
}

/// The node names listed by a sequence of terms.
pub open spec fn terms_node_names(ts: Seq<NodeSelectorTerm>) -> Seq<String>
    decreases ts.len(),
{
    if ts.len() == 0 {
        Seq::empty()
    } else {
        terms_node_names(ts.drop_last()) + term_node_names(ts.last())
    }
}

/// The node names a persistent volume's node affinity pins it to.
pub open spec fn pv_node_names(pv: PersistentVolume) -> Seq<String> {
    match pv.spec {
        Some(sp) => match sp.node_affinity {
            Some(sel) => terms_node_names(sel.node_selector_terms@),
            None => Seq::empty(),
        },
        None => Seq::empty(),
    }
}

/// The node names of all the given persistent volumes, in order.
pub open spec fn pvs_node_names(pvs: Seq<PersistentVolume>) -> Seq<String>
    decreases pvs.len(),
{
    if pvs.len() == 0 {
        Seq::empty()
    } else {
        pvs_node_names(pvs.drop_last()) + pv_node_names(pvs.last())
    }
}

/// The node names of a sequence of endpoint addresses.
pub open spec fn addrs_node_names(ad: Seq<EndpointAddress>) -> Seq<String>
    decreases ad.len(),
{
    if ad.len() == 0 {
        Seq::empty()
    } else {
        addrs_node_names(ad.drop_last()) + (match ad.last().node_name {
            Some(n) => seq![n],
            None => Seq::empty(),
        })
    }
}

/// The node names of one Endpoints subset.
pub open spec fn subset_node_names(ss: EndpointSubset) -> Seq<String> {
    match ss.addresses {
        Some(ad) => addrs_node_names(ad@),
        None => Seq::empty(),
    }
}

/// The node names of a sequence of Endpoints subsets.
pub open spec fn subsets_node_names(sss: Seq<EndpointSubset>) -> Seq<String>
    decreases sss.len(),
{
    if sss.len() == 0 {
        Seq::empty()
    } else {
        subsets_node_names(sss.drop_last()) + subset_node_names(sss.last())
    }
}

/// The node names an Endpoints object reports, empty if it does not
/// exist yet.
pub open spec fn endpoints_node_names(ep: Option<Endpoints>) -> Seq<String> {
    match ep {
        Some(e) => match e.subsets {
            Some(ss) => subsets_node_names(ss@),
            None => Seq::empty(),
        },
        None => Seq::empty(),
    }
}

/// Some string in `s` has the characters `x`.
pub open spec fn str_seq_contains(s: Seq<String>, x: Seq<char>) -> bool {
    exists|i: int| 0 <= i < s.len() && s[i]@ == x
}

/// `s` with later repetitions removed: each name keeps its first
/// occurrence only.
pub open spec fn dedup_strings(s: Seq<String>) -> Seq<String>
    decreases s.len(),
{
    if s.len() == 0 {
        Seq::empty()
    } else if str_seq_contains(s.drop_last(), s.last()@) {
        dedup_strings(s.drop_last())
    } else {
        dedup_strings(s.drop_last()).push(s.last())
    }
}

/// The entries of `epn` whose characters occur nowhere in `pvn`.
pub open spec fn names_not_in(epn: Seq<String>, pvn: Seq<String>) -> Seq<String>
    decreases epn.len(),
{
    if epn.len() == 0 {
        Seq::empty()
    } else {
        names_not_in(epn.drop_last(), pvn) + (if str_seq_contains(pvn, epn.last()@) {
            Seq::empty()
        } else {
            seq![epn.last()]
        })
    }
}

/// Deduplication keeps exactly the names of the input, each once.
pub proof fn lemma_dedup_strings_props(s: Seq<String>)
    ensures
        forall|x: Seq<char>| str_seq_contains(dedup_strings(s), x) <==> str_seq_contains(s, x),
        forall|i: int, j: int|
            0 <= i < j < dedup_strings(s).len() ==> dedup_strings(s)[i]@ != dedup_strings(s)[j]@,
    decreases s.len(),
{
    if s.len() > 0 {
        let pre = s.drop_last();
        lemma_dedup_strings_props(pre);
        let d = dedup_strings(s);
        let dp = dedup_strings(pre);
        assert(forall|i2: int| 0 <= i2 < pre.len() ==> pre[i2] == s[i2]);
        assert forall|x: Seq<char>| str_seq_contains(d, x) implies str_seq_contains(s, x) by {
            if str_seq_contains(pre, s.last()@) {
                assert(d == dp);
                assert(str_seq_contains(dp, x));
                assert(str_seq_contains(pre, x));
                let i2 = choose|i2: int| 0 <= i2 < pre.len() && pre[i2]@ == x;
                assert(s[i2]@ == x);
            } else {
                assert(d == dp.push(s.last()));
                let i = choose|i: int| 0 <= i < d.len() && d[i]@ == x;
                if i < d.len() - 1 {
                    assert(d[i] == dp[i]);
                    assert(str_seq_contains(dp, x));
                    assert(str_seq_contains(pre, x));
                    let i2 = choose|i2: int| 0 <= i2 < pre.len() && pre[i2]@ == x;
                    assert(s[i2]@ == x);
                } else {
                    assert(d[i] == s.last());
                    assert(s[s.len() - 1]@ == x);
                }
            }
        }
        assert forall|x: Seq<char>| str_seq_contains(s, x) implies str_seq_contains(d, x) by {
            let i = choose|i: int| 0 <= i < s.len() && s[i]@ == x;
            if i < s.len() - 1 {
                assert(pre[i]@ == x);
                assert(str_seq_contains(pre, x));
                assert(str_seq_contains(dp, x));
                let i2 = choose|i2: int| 0 <= i2 < dp.len() && dp[i2]@ == x;
                if str_seq_contains(pre, s.last()@) {
                    assert(d[i2]@ == x);
                } else {
                    assert(d == dp.push(s.last()));
                    assert(d[i2] == dp[i2]);
                    assert(d[i2]@ == x);
                }
            } else {
                if str_seq_contains(pre, s.last()@) {
                    assert(d == dp);
                    assert(str_seq_contains(pre, x));
                    assert(str_seq_contains(dp, x));
                    let i3 = choose|i3: int| 0 <= i3 < dp.len() && dp[i3]@ == x;
                    assert(d[i3]@ == x);
                } else {
                    assert(d == dp.push(s.last()));
                    assert(d[d.len() - 1]@ == x);
                }
            }
        }
        if !str_seq_contains(pre, s.last()@) {
            assert(d == dp.push(s.last()));
            assert forall|i: int, j: int| 0 <= i < j < d.len() implies d[i]@ != d[j]@ by {
                if j == d.len() - 1 {
                    assert(d[i] == dp[i]);
                    assert(d[j] == s.last());
                    if d[i]@ == s.last()@ {
                        assert(str_seq_contains(dp, s.last()@));
                        assert(str_seq_contains(pre, s.last()@));
                        assert(false);
                    }
                } else {
                    assert(d[i] == dp[i]);
                    assert(d[j] == dp[j]);
                }
            }
        }
    }
}

/// Whether any entry of `v` has the characters of `x`.
fn contains_string(v: &Vec<String>, x: &String) -> (b: bool)
    ensures
        b == str_seq_contains(v@, x@),
{
    let n = v.len();
    let mut i: usize = 0;
    while i < n
        invariant
            n == v@.len(),
            i <= n,
            forall|j: int| 0 <= j < i ==> v@[j]@ != x@,
        decreases n - i,
    {
        if v[i] == *x {
            assert(v@[i as int]@ == x@);
            return true;
        }
        i += 1;
    }
    false
}

/// `v` with later repetitions removed.
fn dedup_string_vec(v: &Vec<String>) -> (r: Vec<String>)
    ensures
        r@ == dedup_strings(v@),
{
    let mut r: Vec<String> = Vec::new();
    let n = v.len();
    let mut i: usize = 0;
    while i < n
        invariant
            n == v@.len(),
            i <= n,
            r@ == dedup_strings(v@.take(i as int)),
        decreases n - i,
    {
        proof {
            assert(v@.take(i as int + 1).drop_last() =~= v@.take(i as int));
            assert(v@.take(i as int + 1).last() == v@[i as int]);
            lemma_dedup_strings_props(v@.take(i as int));
        }
        if !contains_string(&r, &v[i]) {
            r.push(v[i].clone());
        }
        i += 1;
    }
    proof {
        assert(v@.take(n as int) =~= v@);
    }
    r
}

/// Appends the node names one requirement lists.
fn collect_expr_node_names(acc: &mut Vec<String>, e: &NodeSelectorRequirement)
    ensures
        final(acc)@ == old(acc)@ + expr_node_names(*e),
{
    let key = String::from_str("listeners.stackable.tech/hostname");
    let op = String::from_str("In");
    if e.key == key && e.operator == op {
        match &e.values {
            Some(vs) => {
                let n = vs.len();
                let mut i: usize = 0;
                proof {
                    assert(acc@ =~= old(acc)@ + vs@.take(0));
                }
                while i < n
                    invariant
                        n == vs@.len(),
                        i <= n,
                        acc@ == old(acc)@ + vs@.take(i as int),
                    decreases n - i,
                {
                    acc.push(vs[i].clone());
                    proof {
                        assert(acc@ =~= old(acc)@ + vs@.take(i as int + 1));
                    }
                    i += 1;
                }
                proof {
                    assert(vs@.take(n as int) =~= vs@);
                }
            },
            None => {
                proof {
                    assert(acc@ =~= old(acc)@ + expr_node_names(*e));
                }
            },
        }
    } else {
        proof {
            assert(acc@ =~= old(acc)@ + expr_node_names(*e));
        }
    }
}

/// Appends the node names a node-selector term lists.
fn collect_term_node_names(acc: &mut Vec<String>, t: &NodeSelectorTerm)
    ensures
        final(acc)@ == old(acc)@ + term_node_names(*t),
{
    match &t.match_expressions {
        Some(es) => {
            let n = es.len();
            let mut i: usize = 0;
            proof {
                assert(acc@ =~= old(acc)@ + exprs_node_names(es@.take(0)));
            }
            while i < n
                invariant
                    n == es@.len(),
                    i <= n,
                    acc@ == old(acc)@ + exprs_node_names(es@.take(i as int)),
                decreases n - i,
            {
                collect_expr_node_names(acc, &es[i]);
                proof {
                    assert(es@.take(i as int + 1).drop_last() =~= es@.take(i as int));
                    assert(es@.take(i as int + 1).last() == es@[i as int]);
                    assert(acc@ =~= old(acc)@ + exprs_node_names(es@.take(i as int + 1)));
                }
                i += 1;
            }
            proof {
                assert(es@.take(n as int) =~= es@);
            }
        },
        None => {
            proof {
                assert(acc@ =~= old(acc)@ + term_node_names(*t));
            }
        },
    }
}

/// Appends the node names a persistent volume is pinned to.
fn collect_pv_node_names(acc: &mut Vec<String>, pv: &PersistentVolume)
    ensures
        final(acc)@ == old(acc)@ + pv_node_names(*pv),
{
    let terms = match &pv.spec {
        Some(sp) => match &sp.node_affinity {
            Some(sel) => &sel.node_selector_terms,
            None => {
                proof {
                    assert(acc@ =~= old(acc)@ + pv_node_names(*pv));
                }
                return ;
            },
        },
        None => {
            proof {
                assert(acc@ =~= old(acc)@ + pv_node_names(*pv));
            }
            return ;
        },
    };
    let n = terms.len();
    let mut i: usize = 0;
    proof {
        assert(acc@ =~= old(acc)@ + terms_node_names(terms@.take(0)));
    }
    while i < n
        invariant
            n == terms@.len(),
            i <= n,
            terms@ == (match pv.spec {
                Some(sp) => match sp.node_affinity {
                    Some(sel) => sel.node_selector_terms@,
                    None => Seq::empty(),
                },
                None => Seq::empty(),
            }),
            acc@ == old(acc)@ + terms_node_names(terms@.take(i as int)),
        decreases n - i,
    {
        collect_term_node_names(acc, &terms[i]);
        proof {
            assert(terms@.take(i as int + 1).drop_last() =~= terms@.take(i as int));
            assert(terms@.take(i as int + 1).last() == terms@[i as int]);
            assert(acc@ =~= old(acc)@ + terms_node_names(terms@.take(i as int + 1)));
        }
        i += 1;
    }
    proof {
        assert(terms@.take(n as int) =~= terms@);
    }
}

/// Appends the node names of a sequence of endpoint addresses.
fn collect_endpoint_addresses(acc: &mut Vec<String>, ad: &Vec<EndpointAddress>)
    ensures
        final(acc)@ == old(acc)@ + addrs_node_names(ad@),
{
    let n = ad.len();
    let mut i: usize = 0;
    proof {
        assert(acc@ =~= old(acc)@ + addrs_node_names(ad@.take(0)));
    }
    while i < n
        invariant
            n == ad@.len(),
            i <= n,
            acc@ == old(acc)@ + addrs_node_names(ad@.take(i as int)),
        decreases n - i,
    {
        proof {
            assert(ad@.take(i as int + 1).drop_last() =~= ad@.take(i as int));
            assert(ad@.take(i as int + 1).last() == ad@[i as int]);
        }
        match &ad[i].node_name {
            Some(nm) => {
                acc.push(nm.clone());
                proof {
                    assert(acc@ =~= old(acc)@ + addrs_node_names(ad@.take(i as int + 1)));
                }
            },
            None => {
                proof {
                    assert(acc@ =~= old(acc)@ + addrs_node_names(ad@.take(i as int + 1)));
                }
            },
        }
        i += 1;
    }
    proof {
        assert(ad@.take(n as int) =~= ad@);
    }
}

/// Appends the node names an Endpoints object reports.
fn collect_endpoints_node_names(acc: &mut Vec<String>, endpoints: &Option<Endpoints>)
    ensures
        final(acc)@ == old(acc)@ + endpoints_node_names(*endpoints),
{
    let subsets = match endpoints {
        Some(e) => match &e.subsets {
            Some(ss) => ss,
            None => {
                proof {
                    assert(acc@ =~= old(acc)@ + endpoints_node_names(*endpoints));
                }
                return ;
            },
        },
        None => {
            proof {
                assert(acc@ =~= old(acc)@ + endpoints_node_names(*endpoints));
            }
            return ;
        },
    };
    let n = subsets.len();
    let mut i: usize = 0;
    proof {
        assert(acc@ =~= old(acc)@ + subsets_node_names(subsets@.take(0)));
    }
    while i < n
        invariant
            n == subsets@.len(),
            i <= n,
            subsets@ == (match *endpoints {
                Some(e) => match e.subsets {
                    Some(ss) => ss@,
                    None => Seq::empty(),
                },
                None => Seq::empty(),
            }),
            acc@ == old(acc)@ + subsets_node_names(subsets@.take(i as int)),
        decreases n - i,
    {
        proof {
            assert(subsets@.take(i as int + 1).drop_last() =~= subsets@.take(i as int));
            assert(subsets@.take(i as int + 1).last() == subsets@[i as int]);
        }
        match &subsets[i].addresses {
            Some(ad) => {
                collect_endpoint_addresses(acc, ad);
                proof {
                    assert(acc@ =~= old(acc)@ + subsets_node_names(subsets@.take(i as int + 1)));
                }
            },
            None => {
                proof {
                    assert(acc@ =~= old(acc)@ + subsets_node_names(subsets@.take(i as int + 1)));
                }
            },
        }
        i += 1;
    }
    proof {
        assert(subsets@.take(n as int) =~= subsets@);
    }
}

/// The names of the nodes backing a NodePort Listener, found two ways
/// and combined: the node-affinity of the persistent volumes labelled
/// for the Listener, and, as a fallback for volumes published before
/// they were labelled, the derived Service's Endpoints.
#[derive(Clone, Debug)]
pub struct DiscoveredNodeNames {
    /// Every backing node name, first occurrences in order, without
    /// repetition.
    pub node_names: Vec<String>,
    /// Names only the Endpoints fallback found; worth a warning, since
    /// it means some volumes lack their labels.
    pub endpoints_only: Vec<String>,
}

/// Discovers the nodes backing a NodePort Listener from its labelled
/// persistent volumes and, as a legacy fallback, from its Service's
/// Endpoints.
pub fn node_names_for_nodeport_listener(
    pvs: &Vec<PersistentVolume>,
    endpoints: &Option<Endpoints>,
) -> (r: DiscoveredNodeNames)
    ensures
        r.node_names@ == dedup_strings(pvs_node_names(pvs@) + endpoints_node_names(*endpoints)),
        r.endpoints_only@ == dedup_strings(
            names_not_in(endpoints_node_names(*endpoints), pvs_node_names(pvs@)),
        ),
{
    let mut pv_names: Vec<String> = Vec::new();
    let n = pvs.len();
    let mut i: usize = 0;
    proof {
        assert(pv_names@ =~= pvs_node_names(pvs@.take(0)));
    }
    while i < n
        invariant
            n == pvs@.len(),
            i <= n,
            pv_names@ == pvs_node_names(pvs@.take(i as int)),
        decreases n - i,
    {
        collect_pv_node_names(&mut pv_names, &pvs[i]);
        proof {
            assert(pvs@.take(i as int + 1).drop_last() =~= pvs@.take(i as int));
            assert(pvs@.take(i as int + 1).last() == pvs@[i as int]);
        }
        i += 1;
    }
    proof {
        assert(pvs@.take(n as int) =~= pvs@);
    }
    let mut ep_names: Vec<String> = Vec::new();
    collect_endpoints_node_names(&mut ep_names, endpoints);
    let mut all_names = copy_strings(&pv_names);
    let en = ep_names.len();
    let mut j: usize = 0;
    proof {
        assert(all_names@ =~= pv_names@ + ep_names@.take(0));
    }
    let mut endpoints_only_raw: Vec<String> = Vec::new();
    while j < en
        invariant
            en == ep_names@.len(),
            j <= en,
            all_names@ == pv_names@ + ep_names@.take(j as int),
            endpoints_only_raw@ == names_not_in(ep_names@.take(j as int), pv_names@),
        decreases en - j,
    {
        proof {
            assert(ep_names@.take(j as int + 1).drop_last() =~= ep_names@.take(j as int));
            assert(ep_names@.take(j as int + 1).last() == ep_names@[j as int]);
        }
        if !contains_string(&pv_names, &ep_names[j]) {
            endpoints_only_raw.push(ep_names[j].clone());
        }
        all_names.push(ep_names[j].clone());
        proof {
            assert(all_names@ =~= pv_names@ + ep_names@.take(j as int + 1));
        }
        j += 1;
    }
    proof {
        assert(ep_names@.take(en as int) =~= ep_names@);
    }
    DiscoveredNodeNames {
        node_names: dedup_string_vec(&all_names),
        endpoints_only: dedup_string_vec(&endpoints_only_raw),
    }
}


/// The Service name a Listener's status carries, if any.
pub open spec fn listener_status_service_name(listener: Listener) -> Option<Seq<char>> {
    match listener.status {
        Some(st) => opt_str_view(st.service_name),
        None => None,
    }
}

/// The ListenerClass watch maps a changed class to the Listeners that
/// reference it: those whose spec names the class.
pub fn listener_references_class(listener: &Listener, listener_class_name: &Option<String>) -> (b:
    bool)
    ensures
        b == (opt_str_view(listener.spec.class_name) == opt_str_view(*listener_class_name)),
{
    opt_string_eq(&listener.spec.class_name, listener_class_name)
}

/// The Endpoints watch maps a changed Endpoints object back to the
/// Listener it belongs to: the one whose status names the same-named
/// Service.
pub fn listener_owns_endpoints(listener: &Listener, endpoints_name: &Option<String>) -> (b: bool)
    ensures
        b == (listener_status_service_name(*listener) == opt_str_view(*endpoints_name)),
{
    match &listener.status {
        Some(st) => opt_string_eq(&st.service_name, endpoints_name),
        None => match endpoints_name {
            Some(_) => false,
            None => true,
        },
    }
}

/// The PersistentVolume watch maps a labelled volume to the Listener
/// its discovery labels name: the namespace and name carried by the
/// two labels, present only when both are.
pub fn pv_listener_reference(labels: &Vec<(String, String)>) -> (r: Option<(String, String)>)
    ensures
        r matches Some(p) ==> kv_first_value(labels@, pv_label_listener_namespace()) == Some(p.0)
            && kv_first_value(labels@, pv_label_listener_name()) == Some(p.1),
        r is Some <==> kv_first_value(labels@, pv_label_listener_namespace()) is Some
            && kv_first_value(labels@, pv_label_listener_name()) is Some,
{
    let ns_key = String::from_str("listeners.stackable.tech/listener-namespace");
    let name_key = String::from_str("listeners.stackable.tech/listener-name");
    match (kv_get(labels, &ns_key), kv_get(labels, &name_key)) {
        (Some(ns), Some(name)) => Some((ns.clone(), name.clone())),
        _ => None,
    }
}

} // verus!
