//! Why a call to the cluster gave no usable reply.

use vstd::prelude::*;

verus! {

/// The two ways in which a request can fail. Neither is retried.
#[derive(Clone, Copy, Debug, PartialEq, Eq, Structural)]
pub enum ScrollError {
    /// The request did not reach the cluster, or no reply came back in time.
    Transport,
    /// A reply came back, but not in the shape that a scroll reply has.
    Decode,
}

} // verus!
