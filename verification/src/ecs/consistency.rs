//! Every operation of the store keeps a consistent state consistent.

use crate::ecs::communicator::{Channel, Subscription};
use crate::ecs::model::StoreView;
use crate::ecs::{ComponentType, EntityID, LookupID};
use vstd::prelude::*;

verus! {

/// The store that nothing was done to is consistent.
pub proof fn lemma_empty_consistent<C>()
    ensures
        StoreView::<C>::empty().consistent(),
{
}

/// Creating an entity keeps the store consistent, as long as an entity
/// handle is left.
pub proof fn lemma_create_entity_consistent<C>(s: StoreView<C>)
    requires
        s.consistent(),
        s.next_entity < EntityID::MAX,
    ensures
        s.create_entity().consistent(),
{
}

/// Attaching a component to an existing entity keeps the store consistent,
/// as long as a slot handle is left.
pub proof fn lemma_attach_consistent<C>(
    s: StoreView<C>,
    entity_id: EntityID,
    component_type: ComponentType,
    value: C,
)
    requires
        s.consistent(),
        s.has_entity(entity_id),
        s.next_lookup < LookupID::MAX,
    ensures
        s.attach(entity_id, component_type, value).consistent(),
{
}

/// Detaching a component that an entity holds keeps the store consistent.
pub proof fn lemma_detach_consistent<C>(
    s: StoreView<C>,
    entity_id: EntityID,
    component_type: ComponentType,
)
    requires
        s.consistent(),
        s.has_component(entity_id, component_type),
    ensures
        s.detach(entity_id, component_type).consistent(),
{
}

/// Removing an existing entity keeps the store consistent.
pub proof fn lemma_remove_entity_consistent<C>(s: StoreView<C>, entity_id: EntityID)
    requires
        s.consistent(),
        s.has_entity(entity_id),
    ensures
        s.remove_entity(entity_id).consistent(),
{
}

/// Writing a value into a slot that is in use keeps the store consistent.
pub proof fn lemma_with_value_consistent<C>(s: StoreView<C>, lookup_id: LookupID, value: C)
    requires
        s.consistent(),
        s.components.contains_key(lookup_id),
    ensures
        s.with_value(lookup_id, value).consistent(),
{
}

/// Registering a listener, polling one and noting a renderable type keep
/// the store consistent.
pub proof fn lemma_hub_operations_consistent<C>(
    s: StoreView<C>,
    channel: Channel,
    component_type: ComponentType,
    subscription: Subscription,
)
    requires
        s.consistent(),
    ensures
        s.subscribe(channel, component_type).consistent(),
        s.poll(subscription).consistent(),
        s.note_renderable(component_type).consistent(),
{
}

} // verus!
