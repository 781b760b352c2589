//! The shape of the backend interface as the pages see it: what is asked for
//! and how a request can end.

use vstd::prelude::*;

verus! {

/// One request for a product by its identifier.
#[derive(Debug, Clone, Copy, PartialEq, Eq, Structural)]
pub struct FetchRequest {
    pub id: i32,
}

/// Why a request delivered no product.
#[derive(Debug, Clone, Copy, PartialEq, Eq, Structural)]
pub enum FetchError {
    /// The transport failed: no usable response arrived.
    Network,
    /// A response arrived, but its payload is not a product.
    Decode,
}

} // verus!
