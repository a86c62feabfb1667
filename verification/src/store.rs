//! What the object store says to the requests that the coordinators make.

use vstd::prelude::*;

verus! {

/// What the store answered to a request to put or to delete an object.
#[derive(Clone, Copy, Debug, PartialEq, Eq, Structural)]
pub enum StoreReply {
    /// The request was carried out.
    Done,
    /// The request failed, for whatever reason: the network, the
    /// credentials, a missing object.
    Failed,
}

} // verus!
