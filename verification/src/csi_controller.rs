//! The volume-driver controller's decisions: validate the provisioning
//! parameters, resolve which ListenerClass governs a requested volume,
//! and hand scheduling hints back so NodePort volumes stick to one node.

use vstd::prelude::*;
use vstd::string::StringExecFns;

use crate::crd::{Listener, ListenerClassSpec, ServiceType};
use crate::csi::{CsiErrorCode, CsiStatus};
use crate::kv::{copy_string_pairs, kv_first_value, kv_get};
use crate::store::GetOutcome;

verus! {

/// The provisioning parameters of a volume request: which claim it is
/// for.
#[derive(Clone, Debug, PartialEq, Eq)]
pub struct ControllerVolumeParams {
    pub pvc_name: String,
    pub pvc_namespace: String,
}

/// The parameter key carrying the claim's name.
pub open spec fn pvc_name_key() -> Seq<char> {
    "csi.storage.k8s.io/pvc/name"@
}

/// The parameter key carrying the claim's namespace.
pub open spec fn pvc_namespace_key() -> Seq<char> {
    "csi.storage.k8s.io/pvc/namespace"@
}

/// Reads the claim reference out of the provisioning parameters; both
/// keys must be present.
pub fn parse_controller_volume_params(params: &Vec<(String, String)>) -> (r: Option<
    ControllerVolumeParams,
>)
    ensures
        ({
            let name = kv_first_value(params@, pvc_name_key());
            let ns = kv_first_value(params@, pvc_namespace_key());
            match r {
                Some(p) => name == Some(p.pvc_name) && ns == Some(p.pvc_namespace),
                None => name is None || ns is None,
            }
        }),
{
    let name_key = String::from_str("csi.storage.k8s.io/pvc/name");
    let ns_key = String::from_str("csi.storage.k8s.io/pvc/namespace");
    let name = kv_get(params, &name_key);
    let ns = kv_get(params, &ns_key);
    match (name, ns) {
        (Some(n), Some(s)) => Some(
            ControllerVolumeParams { pvc_name: n.clone(), pvc_namespace: s.clone() },
        ),
        _ => None,
    }
}

/// Why a volume could not be created.
#[derive(Clone, Debug)]
pub enum CreateVolumeError {
    /// The provisioning parameters name no claim.
    DecodeRequestParams,
    /// The claim's annotations select no Listener and no ListenerClass,
    /// or both.
    DecodeVolumeContext,
    /// A dependency could not be fetched; `obj` says which one.
    GetObject { obj: String, message: String },
    /// The selected Listener names no ListenerClass.
    NoListenerClass { listener_namespace: String, listener_name: String },
    /// The selected Listener does not exist.
    ListenerNotFound { listener_namespace: String, listener_name: String },
    /// The resolved ListenerClass does not exist.
    ListenerClassNotFound { listener_class_name: String },
}

impl CreateVolumeError {
    /// The error class of the response: bad selectors and references to
    /// objects that do not exist are the caller's to fix; a store that
    /// did not answer is worth a retry.
    pub fn code(&self) -> (r: CsiErrorCode)
        ensures
            r == self.code_spec(),
    {
        match self {
            CreateVolumeError::DecodeRequestParams => CsiErrorCode::InvalidArgument,
            CreateVolumeError::DecodeVolumeContext => CsiErrorCode::InvalidArgument,
            CreateVolumeError::GetObject { .. } => CsiErrorCode::Unavailable,
            CreateVolumeError::NoListenerClass { .. } => CsiErrorCode::InvalidArgument,
            CreateVolumeError::ListenerNotFound { .. } => CsiErrorCode::InvalidArgument,
            CreateVolumeError::ListenerClassNotFound { .. } => CsiErrorCode::InvalidArgument,
        }
    }

    /// The message of the response; where an object is involved, its
    /// identity is named.
    pub fn message(&self) -> (r: String)
        ensures
            r@ == self.message_spec(),
    {
        match self {
            CreateVolumeError::DecodeRequestParams => String::from_str(
                "failed to decode request parameters",
            ),
            CreateVolumeError::DecodeVolumeContext => String::from_str(
                "failed to decode volume context",
            ),
            CreateVolumeError::GetObject { obj, message } => {
                let mut r = String::from_str("failed to get ");
                r.append(obj.as_str());
                r.append(": ");
                r.append(message.as_str());
                r
            },
            CreateVolumeError::NoListenerClass { listener_namespace, listener_name } => {
                let mut r = String::from_str("Listener ");
                r.append(listener_namespace.as_str());
                r.append("/");
                r.append(listener_name.as_str());
                r.append(" does not specify a listener class");
                r
            },
            CreateVolumeError::ListenerNotFound { listener_namespace, listener_name } => {
                let mut r = String::from_str("Listener ");
                r.append(listener_namespace.as_str());
                r.append("/");
                r.append(listener_name.as_str());
                r.append(" not found");
                r
            },
            CreateVolumeError::ListenerClassNotFound { listener_class_name } => {
                let mut r = String::from_str("ListenerClass ");
                r.append(listener_class_name.as_str());
                r.append(" not found");
                r
            },
        }
    }

    /// The full response for this error.
    pub fn to_status(&self) -> (r: CsiStatus)
        ensures
            r.code == self.code_spec(),
            r.message@ == self.message_spec(),
    {
        CsiStatus { code: self.code(), message: self.message() }
    }

    /// The error class, as a spec-level function of the error.
    pub open spec fn code_spec(&self) -> CsiErrorCode {
        match *self {
            CreateVolumeError::DecodeRequestParams => CsiErrorCode::InvalidArgument,
            CreateVolumeError::DecodeVolumeContext => CsiErrorCode::InvalidArgument,
            CreateVolumeError::GetObject { .. } => CsiErrorCode::Unavailable,
            CreateVolumeError::NoListenerClass { .. } => CsiErrorCode::InvalidArgument,
            CreateVolumeError::ListenerNotFound { .. } => CsiErrorCode::InvalidArgument,
            CreateVolumeError::ListenerClassNotFound { .. } => CsiErrorCode::InvalidArgument,
        }
    }

    /// The message, as a spec-level function of the error.
    pub open spec fn message_spec(&self) -> Seq<char> {
        match *self {
            CreateVolumeError::DecodeRequestParams => "failed to decode request parameters"@,
            CreateVolumeError::DecodeVolumeContext => "failed to decode volume context"@,
            CreateVolumeError::GetObject { obj, message } => "failed to get "@ + obj@ + ": "@
                + message@,
            CreateVolumeError::NoListenerClass { listener_namespace, listener_name } => "Listener "@
                + listener_namespace@ + "/"@ + listener_name@
                + " does not specify a listener class"@,
            CreateVolumeError::ListenerNotFound { listener_namespace, listener_name } => "Listener "@
                + listener_namespace@ + "/"@ + listener_name@ + " not found"@,
            CreateVolumeError::ListenerClassNotFound { listener_class_name } => "ListenerClass "@
                + listener_class_name@ + " not found"@,
        }
    }
}

/// The ListenerClass name a fetched Listener delegates to. A Listener
/// that does not exist, or that names no class, makes the volume
/// request invalid; a store that did not answer is reported as such.
pub fn listener_class_name_from_listener(
    ns: &String,
    listener_name: &String,
    listener_get: &GetOutcome<Listener>,
) -> (r: Result<String, CreateVolumeError>)
    ensures
        listener_get matches GetOutcome::Found(l) ==> match l.spec.class_name {
            Some(c) => r == Ok::<String, CreateVolumeError>(c),
            None => r matches Err(e) && e matches CreateVolumeError::NoListenerClass {
                listener_namespace,
                listener_name: n,
            } && listener_namespace == *ns && n == *listener_name,
        },
        listener_get is NotFound ==> (r matches Err(e) && e
            matches CreateVolumeError::ListenerNotFound { listener_namespace, listener_name: n }
            && listener_namespace == *ns && n == *listener_name),
        listener_get matches GetOutcome::Error(m) ==> (r matches Err(e) && e
            matches CreateVolumeError::GetObject { obj, message } && obj@ == "Listener "@ + ns@
            + "/"@ + listener_name@ && message == m),
{
    match listener_get {
        GetOutcome::Found(l) => match &l.spec.class_name {
            Some(c) => Ok(c.clone()),
            None => Err(
                CreateVolumeError::NoListenerClass {
                    listener_namespace: ns.clone(),
                    listener_name: listener_name.clone(),
                },
            ),
        },
        GetOutcome::NotFound => Err(
            CreateVolumeError::ListenerNotFound {
                listener_namespace: ns.clone(),
                listener_name: listener_name.clone(),
            },
        ),
        GetOutcome::Error(m) => {
            let mut obj = String::from_str("Listener ");
            obj.append(ns.as_str());
            obj.append("/");
            obj.append(listener_name.as_str());
            Err(CreateVolumeError::GetObject { obj, message: m.clone() })
        },
    }
}

/// Turns the fetch of the resolved ListenerClass into either its spec
/// or the error the response carries.
pub fn resolve_listener_class(
    class_name: &String,
    class_get: GetOutcome<ListenerClassSpec>,
) -> (r: Result<ListenerClassSpec, CreateVolumeError>)
    ensures
        class_get matches GetOutcome::Found(c) ==> r == Ok::<ListenerClassSpec, CreateVolumeError>(
            c,
        ),
        class_get is NotFound ==> (r matches Err(e) && e
            matches CreateVolumeError::ListenerClassNotFound { listener_class_name } &&
            listener_class_name == *class_name),
        class_get matches GetOutcome::Error(m) ==> (r matches Err(e) && e
            matches CreateVolumeError::GetObject { obj, message } && obj@ == "ListenerClass "@
            + class_name@ && message == m),
{
    match class_get {
        GetOutcome::Found(c) => Ok(c),
        GetOutcome::NotFound => Err(
            CreateVolumeError::ListenerClassNotFound { listener_class_name: class_name.clone() },
        ),
        GetOutcome::Error(m) => {
            let mut obj = String::from_str("ListenerClass ");
            obj.append(class_name.as_str());
            Err(CreateVolumeError::GetObject { obj, message: m })
        },
    }
}

/// A capability class the controller service advertises.
#[derive(Clone, Copy, Debug, PartialEq, Eq, Structural)]
pub enum ControllerCapability {
    /// Volumes can be created and deleted.
    CreateDeleteVolume,
}

/// The controller offers creating and deleting volumes, nothing more.
pub fn controller_capabilities() -> (r: Vec<ControllerCapability>)
    ensures
        r@ == seq![ControllerCapability::CreateDeleteVolume],
{
    let mut r: Vec<ControllerCapability> = Vec::new();
    r.push(ControllerCapability::CreateDeleteVolume);
    proof {
        assert(r@ =~= seq![ControllerCapability::CreateDeleteVolume]);
    }
    r
}

/// One topology segment set the scheduler offered or is given back.
#[derive(Clone, Debug, PartialEq, Eq)]
pub struct Topology {
    pub segments: Vec<(String, String)>,
}

/// The accessibility constraint returned for a volume: for a NodePort
/// class with sticky node ports, the single most-preferred topology the
/// caller offered, so the pod is pinned to one node and clients keep a
/// stable address; otherwise no constraint.
pub fn create_volume_topology(class: &ListenerClassSpec, preferred: &Vec<Topology>) -> (r: Vec<
    Topology,
>)
    ensures
        class.sticky_node_ports && class.service_type == ServiceType::NodePort ==> ({
            &&& preferred@.len() == 0 ==> r@.len() == 0
            &&& preferred@.len() > 0 ==> r@.len() == 1 && r@[0].segments@ == preferred@[0].segments@
        }),
        !(class.sticky_node_ports && class.service_type == ServiceType::NodePort) ==> r@.len()
            == 0,
{
    let mut r: Vec<Topology> = Vec::new();
    let sticky = class.sticky_node_ports && match class.service_type {
        ServiceType::NodePort => true,
        _ => false,
    };
    if sticky && preferred.len() > 0 {
        r.push(Topology { segments: copy_string_pairs(&preferred[0].segments) });
    }
    r
}

/// The created volume as the driver reports it: a logical handle only,
/// carrying the claim's annotations forward as the volume context.
#[derive(Clone, Debug)]
pub struct CreateVolumeResponse {
    pub volume_id: String,
    pub volume_context: Vec<(String, String)>,
    pub accessible_topology: Vec<Topology>,
}

/// Assembles the response: the requested name becomes the volume id,
/// the claim's annotations travel along as the volume context.
pub fn create_volume_response(
    request_name: &String,
    volume_context: &Vec<(String, String)>,
    accessible_topology: Vec<Topology>,
) -> (r: CreateVolumeResponse)
    ensures
        r.volume_id == request_name,
        r.volume_context@ == volume_context@,
        r.accessible_topology == accessible_topology,
{
    CreateVolumeResponse {
        volume_id: request_name.clone(),
        volume_context: copy_string_pairs(volume_context),
        accessible_topology,
    }
}

} // verus!
