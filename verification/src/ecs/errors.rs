//! What a store operation can report instead of doing its work.

use crate::ecs::{ComponentType, EntityID, LookupID};
use vstd::prelude::*;

verus! {

#[derive(Clone, Copy, PartialEq, Eq, Debug, Structural)]
pub enum ComponentErrors {
    /// The entity handle is not present in the entity index.
    EntityNotFound(EntityID),
    /// The entity holds no component of this type, or a query by type found
    /// no registry for the type.
    ComponentNotFound(ComponentType),
    /// Reserved for stores that refuse a second component of one type.
    DuplicateComponent(ComponentType),
    /// A slot that the index gives for this type is tagged with another type.
    ComponentCastError(ComponentType),
    /// A slot handle that an index refers to has no entry in the value pool.
    ComponentLookupNotFound(LookupID),
}

} // verus!
