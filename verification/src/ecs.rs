//! The component store, its notification hub and the identifiers they share.

use vstd::prelude::*;

pub mod communicator;
pub mod errors;
pub mod history;
pub mod laws;
pub mod manager;
pub mod consistency;
pub mod model;

verus! {

/// Handle of a logical game object. Handles are handed out in increasing
/// order, starting at zero, and are never handed out twice.
pub type EntityID = u64;

/// Handle of one stored component value inside the value pool. Handles are
/// handed out in increasing order and are never handed out twice.
pub type LookupID = u128;

/// Runtime identifier of a component type. The store never interprets a
/// component; it only compares the identifiers that callers tag them with.
pub type ComponentType = u64;

} // verus!
