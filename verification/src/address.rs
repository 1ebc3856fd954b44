//! Address resolution: given the known addresses of a node (or of a load
//! balancer), pick one address of the preferred kind, falling back to the
//! other kind if the preferred one is absent.

use vstd::prelude::*;
use vstd::string::StringExecFns;

use crate::crd::AddressType;
use crate::k8s::{Node, NodeAddress};

verus! {

/// The primary addresses of an entity, one per kind of address.
#[derive(Clone, Debug)]
pub struct AddressCandidates {
    pub ip: Option<String>,
    pub hostname: Option<String>,
}

/// The character sequence of an optional string.
pub open spec fn opt_str_view(o: Option<String>) -> Option<Seq<char>> {
    match o {
        Some(s) => Some(s@),
        None => None,
    }
}

/// The other kind of address.
pub open spec fn other_address_type(t: AddressType) -> AddressType {
    match t {
        AddressType::Ip => AddressType::Hostname,
        AddressType::Hostname => AddressType::Ip,
    }
}

/// What picking between an IP candidate and a hostname candidate with a
/// preference returns: the preferred one if present, else the other one,
/// else nothing.
pub open spec fn pick_from(
    ip: Option<Seq<char>>,
    hostname: Option<Seq<char>>,
    preferred: AddressType,
) -> Option<(Seq<char>, AddressType)> {
    let first = match preferred {
        AddressType::Ip => ip,
        AddressType::Hostname => hostname,
    };
    let second = match preferred {
        AddressType::Ip => hostname,
        AddressType::Hostname => ip,
    };
    match first {
        Some(a) => Some((a, preferred)),
        None => match second {
            Some(b) => Some((b, other_address_type(preferred))),
            None => None,
        },
    }
}

/// The view of a picked address.
pub open spec fn picked_view(o: Option<(String, AddressType)>) -> Option<(Seq<char>, AddressType)> {
    match o {
        Some(p) => Some((p.0@, p.1)),
        None => None,
    }
}

impl AddressCandidates {
    /// Picks the preferred address kind, falling back to the other kind
    /// if no address of the preferred kind is available.
    pub fn pick(&self, preferred_address_type: AddressType) -> (r: Option<(String, AddressType)>)
        ensures
            picked_view(r) == pick_from(
                opt_str_view(self.ip),
                opt_str_view(self.hostname),
                preferred_address_type,
            ),
    {
        let first = match preferred_address_type {
            AddressType::Ip => &self.ip,
            AddressType::Hostname => &self.hostname,
        };
        let second = match preferred_address_type {
            AddressType::Ip => &self.hostname,
            AddressType::Hostname => &self.ip,
        };
        match first {
            Some(a) => Some((a.clone(), preferred_address_type)),
            None => match second {
                Some(b) => Some(
                    (
                        b.clone(),
                        match preferred_address_type {
                            AddressType::Ip => AddressType::Hostname,
                            AddressType::Hostname => AddressType::Ip,
                        },
                    ),
                ),
                None => None,
            },
        }
    }
}

/// Whenever a candidate of the preferred kind exists, picking returns
/// exactly that candidate, tagged with the preferred kind; and picking
/// returns nothing only when both candidate slots are empty.
pub proof fn lemma_pick_prefers_available_type(
    ip: Option<Seq<char>>,
    hostname: Option<Seq<char>>,
    preferred: AddressType,
)
    ensures
        (match preferred {
            AddressType::Ip => ip,
            AddressType::Hostname => hostname,
        }) matches Some(a) ==> pick_from(ip, hostname, preferred) == Some((a, preferred)),
        pick_from(ip, hostname, preferred) is None <==> ip is None && hostname is None,
{
}

/// The address list reported by a node's status, empty if unset.
pub open spec fn node_status_addresses(node: Node) -> Seq<NodeAddress> {
    match node.status {
        Some(s) => match s.addresses {
            Some(a) => a@,
            None => Seq::empty(),
        },
        None => Seq::empty(),
    }
}

/// The address of the first entry of kind `t` in `addrs`, if any.
pub open spec fn first_address_of_type(addrs: Seq<NodeAddress>, t: Seq<char>) -> Option<Seq<char>>
    decreases addrs.len(),
{
    if addrs.len() == 0 {
        None
    } else if addrs[0].type_@ == t {
        Some(addrs[0].address@)
    } else {
        first_address_of_type(addrs.drop_first(), t)
    }
}

/// The IP a node is primarily known by: its first `ExternalIP`, else its
/// first `InternalIP`.
pub open spec fn spec_node_ip(node: Node) -> Option<Seq<char>> {
    match first_address_of_type(node_status_addresses(node), "ExternalIP"@) {
        Some(a) => Some(a),
        None => first_address_of_type(node_status_addresses(node), "InternalIP"@),
    }
}

/// The hostname a node is primarily known by: its first `Hostname` entry.
pub open spec fn spec_node_hostname(node: Node) -> Option<Seq<char>> {
    first_address_of_type(node_status_addresses(node), "Hostname"@)
}

/// The address published for a node under a given preference.
pub open spec fn node_picked_address(node: Node, preferred: AddressType) -> Option<
    (Seq<char>, AddressType),
> {
    pick_from(spec_node_ip(node), spec_node_hostname(node), preferred)
}

/// Skipping a prefix without matches does not change the first match.
proof fn lemma_first_address_skip(addrs: Seq<NodeAddress>, t: Seq<char>, i: int)
    requires
        0 <= i <= addrs.len(),
        forall|j: int| 0 <= j < i ==> addrs[j].type_@ != t,
    ensures
        first_address_of_type(addrs, t) == first_address_of_type(addrs.skip(i), t),
    decreases i,
{
    if i > 0 {
        lemma_first_address_skip(addrs, t, i - 1);
        assert(addrs.skip(i - 1).len() > 0);
        assert(addrs.skip(i - 1)[0] == addrs[i - 1]);
        assert(addrs.skip(i - 1).drop_first() =~= addrs.skip(i));
    } else {
        assert(addrs.skip(0) =~= addrs);
    }
}

/// The address of the first entry of kind `ty`, if any.
fn first_address_of(addrs: &Vec<NodeAddress>, ty: &String) -> (r: Option<String>)
    ensures
        opt_str_view(r) == first_address_of_type(addrs@, ty@),
{
    let n = addrs.len();
    let mut i: usize = 0;
    while i < n
        invariant
            n == addrs@.len(),
            i <= n,
            forall|j: int| 0 <= j < i ==> addrs@[j].type_@ != ty@,
        decreases n - i,
    {
        let entry = &addrs[i];
        if entry.type_ == *ty {
            proof {
                lemma_first_address_skip(addrs@, ty@, i as int);
                assert(addrs@.skip(i as int)[0] == addrs@[i as int]);
            }
            return Some(entry.address.clone());
        }
        i += 1;
    }
    proof {
        lemma_first_address_skip(addrs@, ty@, n as int);
        assert(addrs@.skip(n as int).len() == 0);
    }
    None
}

/// The primary addresses of a node, which external clients are expected
/// to reach it on: the first `ExternalIP` (else the first `InternalIP`)
/// and the first `Hostname` from the node's reported addresses.
pub fn node_primary_addresses(node: &Node) -> (c: AddressCandidates)
    ensures
        opt_str_view(c.ip) == spec_node_ip(*node),
        opt_str_view(c.hostname) == spec_node_hostname(*node),
{
    let empty: Vec<NodeAddress> = Vec::new();
    let addrs: &Vec<NodeAddress> = match &node.status {
        Some(s) => match &s.addresses {
            Some(a) => a,
            None => &empty,
        },
        None => &empty,
    };
    assert(addrs@ == node_status_addresses(*node));
    let external_ip = String::from_str("ExternalIP");
    let internal_ip = String::from_str("InternalIP");
    let hostname = String::from_str("Hostname");
    let ip = match first_address_of(addrs, &external_ip) {
        Some(a) => Some(a),
        None => first_address_of(addrs, &internal_ip),
    };
    let host = first_address_of(addrs, &hostname);
    AddressCandidates { ip, hostname: host }
}

} // verus!
