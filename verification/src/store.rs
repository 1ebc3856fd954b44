//! The shape of an object-store lookup as the logic consumes it: the
//! store is an external collaborator, and every fetch is fallible with a
//! distinguishable not-found case.

use vstd::prelude::*;

verus! {

/// What fetching one object from the cluster store yielded.
#[derive(Clone, Debug)]
pub enum GetOutcome<T> {
    /// The object exists; here it is.
    Found(T),
    /// The store answered: no such object.
    NotFound,
    /// The store could not answer; the message says why.
    Error(String),
}

} // verus!
