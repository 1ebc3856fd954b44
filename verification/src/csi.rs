//! Shared pieces of the volume-driver surface: the error codes its
//! responses carry, and the volume-context keys that select which
//! Listener a volume belongs to.

use vstd::prelude::*;
use vstd::string::StringExecFns;

use crate::kv::{kv_first_value, kv_get};

verus! {

/// The error class of a driver response.
#[derive(Clone, Copy, Debug, PartialEq, Eq, Structural)]
pub enum CsiErrorCode {
    /// The caller must fix the request; no retry will help.
    InvalidArgument,
    /// A dependency did not answer; the caller should retry.
    Unavailable,
    /// A precondition is not met yet.
    FailedPrecondition,
    /// Something went wrong on this node.
    Internal,
    /// The endpoint is not offered.
    Unimplemented,
}

/// An error response of the driver: its class and a message carrying
/// the full cause chain.
#[derive(Clone, Debug)]
pub struct CsiStatus {
    pub code: CsiErrorCode,
    pub message: String,
}

/// The response of every endpoint this driver does not offer.
pub fn unimplemented_status() -> (r: CsiStatus)
    ensures
        r.code == CsiErrorCode::Unimplemented,
        r.message@ == "this endpoint is not implemented"@,
{
    CsiStatus {
        code: CsiErrorCode::Unimplemented,
        message: String::from_str("this endpoint is not implemented"),
    }
}

/// Which Listener a volume belongs to: an existing Listener by name, or
/// a ListenerClass a Listener is created from.
#[derive(Clone, Debug, PartialEq, Eq)]
pub enum ListenerSelector {
    ListenerClass(String),
    Listener(String),
}

/// The volume-context key naming a ListenerClass.
pub open spec fn listener_class_key() -> Seq<char> {
    "listeners.stackable.tech/listener-class"@
}

/// The volume-context key naming a Listener.
pub open spec fn listener_name_key() -> Seq<char> {
    "listeners.stackable.tech/listener-name"@
}

/// Reads the Listener selector out of a volume context or a claim's
/// annotations: exactly one of the two selector keys must be present.
pub fn parse_listener_selector(context: &Vec<(String, String)>) -> (r: Option<ListenerSelector>)
    ensures
        ({
            let class = kv_first_value(context@, listener_class_key());
            let name = kv_first_value(context@, listener_name_key());
            match r {
                Some(ListenerSelector::ListenerClass(c)) => name is None && class == Some(c),
                Some(ListenerSelector::Listener(n)) => class is None && name == Some(n),
                None => (class is Some && name is Some) || (class is None && name is None),
            }
        }),
{
    let class_key = String::from_str("listeners.stackable.tech/listener-class");
    let name_key = String::from_str("listeners.stackable.tech/listener-name");
    let class = kv_get(context, &class_key);
    let name = kv_get(context, &name_key);
    match (class, name) {
        (Some(c), None) => Some(ListenerSelector::ListenerClass(c.clone())),
        (None, Some(n)) => Some(ListenerSelector::Listener(n.clone())),
        _ => None,
    }
}

} // verus!
