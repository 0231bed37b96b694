//! What holds of the store whatever is done to it.

use crate::ecs::communicator::{queues_of, Channel, Subscription};
use crate::ecs::consistency::{
    lemma_attach_consistent, lemma_create_entity_consistent, lemma_detach_consistent,
    lemma_hub_operations_consistent, lemma_remove_entity_consistent, lemma_with_value_consistent,
};
use crate::ecs::errors::ComponentErrors;
use crate::ecs::history::{leaves_alone, Operation};
use crate::ecs::model::{lists_exactly, StoreView};
use crate::ecs::{ComponentType, EntityID, LookupID};
use vstd::prelude::*;

verus! {

/// `operation` is about the component of `component_type` of `entity_id`:
/// it attaches, detaches or writes that component, or removes the entity.
pub open spec fn touches<C>(
    operation: Operation<C>,
    entity_id: EntityID,
    component_type: ComponentType,
) -> bool {
    match operation {
        Operation::Attach { entity_id: e, component_type: t, .. } => e == entity_id && t
            == component_type,
        Operation::AttachRenderable { entity_id: e, component_type: t, .. } => e == entity_id && t
            == component_type,
        Operation::Detach { entity_id: e, component_type: t } => e == entity_id && t
            == component_type,
        Operation::RemoveEntity { entity_id: e } => e == entity_id,
        Operation::Write { entity_id: e, component_type: t, .. } => e == entity_id && t
            == component_type,
        _ => false,
    }
}

/// None of `operations` is about the component of `component_type` of
/// `entity_id`.
pub open spec fn spares<C>(
    operations: Seq<Operation<C>>,
    entity_id: EntityID,
    component_type: ComponentType,
) -> bool {
    forall|i: int|
        0 <= i < operations.len() ==> !touches(#[trigger] operations[i], entity_id, component_type)
}

/// An operation that finds the handle it needs keeps a consistent store
/// consistent.
pub proof fn law_operation_keeps_consistency<C>(s: StoreView<C>, operation: Operation<C>)
    requires
        s.consistent(),
        s.permits(operation),
    ensures
        s.after(operation).consistent(),
{
    match operation {
        Operation::CreateEntity => {
            lemma_create_entity_consistent(s);
        },
        Operation::Attach { entity_id, component_type, value } => {
            if s.has_entity(entity_id) {
                lemma_attach_consistent(s, entity_id, component_type, value);
            }
        },
        Operation::AttachRenderable { entity_id, component_type, value } => {
            lemma_hub_operations_consistent(
                s,
                Channel::Added,
                component_type,
                s.hub.next_subscription(Channel::Added, component_type),
            );
            if s.has_entity(entity_id) {
                lemma_attach_consistent(
                    s.note_renderable(component_type),
                    entity_id,
                    component_type,
                    value,
                );
            }
        },
        Operation::Detach { entity_id, component_type } => {
            if s.has_component(entity_id, component_type) {
                lemma_detach_consistent(s, entity_id, component_type);
            }
        },
        Operation::RemoveEntity { entity_id } => {
            if s.has_entity(entity_id) {
                lemma_remove_entity_consistent(s, entity_id);
            }
        },
        Operation::Write { entity_id, component_type, value } => {
            if s.has_component(entity_id, component_type) {
                lemma_with_value_consistent(s, s.slot_of(entity_id, component_type), value);
            }
        },
        Operation::Subscribe { channel, component_type } => {
            lemma_hub_operations_consistent(
                s,
                channel,
                component_type,
                s.hub.next_subscription(channel, component_type),
            );
        },
        Operation::Poll { subscription } => {
            lemma_hub_operations_consistent(
                s,
                subscription.channel,
                subscription.component_type,
                subscription,
            );
        },
    }
}

/// The indices and the value pool agree after every operation: a store
/// that is consistent stays so through any sequence of operations that
/// find the handles they need.
pub proof fn law_consistency_is_kept<C>(s: StoreView<C>, operations: Seq<Operation<C>>)
    requires
        s.consistent(),
        s.permits_all(operations),
    ensures
        s.after_all(operations).consistent(),
    decreases operations.len(),
{
    if operations.len() > 0 {
        law_operation_keeps_consistency(s, operations.first());
        law_consistency_is_kept(s.after(operations.first()), operations.drop_first());
    }
}

/// In a consistent store a lookup finds the component that the entity
/// holds, or reports that the entity or the component is not there: the
/// pool never lacks a slot that the index names, and never has another
/// type in it.
pub proof fn law_get_finds_what_is_held<C>(
    s: StoreView<C>,
    entity_id: EntityID,
    component_type: ComponentType,
)
    requires
        s.consistent(),
    ensures
        s.has_component(entity_id, component_type) ==> s.get(entity_id, component_type) == Ok::<
            C,
            ComponentErrors,
        >(s.components[s.slot_of(entity_id, component_type)].value),
        !s.has_entity(entity_id) ==> s.get(entity_id, component_type) == Err::<C, ComponentErrors>(
            ComponentErrors::EntityNotFound(entity_id),
        ),
        s.has_entity(entity_id) && !s.has_component(entity_id, component_type) ==> s.get(
            entity_id,
            component_type,
        ) == Err::<C, ComponentErrors>(ComponentErrors::ComponentNotFound(component_type)),
{
}

/// A lookup returns the value that was attached: right after `value` was
/// attached to an existing entity under a type, the lookup of that type on
/// that entity gives `value`.
pub proof fn law_get_returns_attached_value<C>(
    s: StoreView<C>,
    entity_id: EntityID,
    component_type: ComponentType,
    value: C,
)
    requires
        s.consistent(),
        s.has_entity(entity_id),
    ensures
        s.attach(entity_id, component_type, value).get(entity_id, component_type) == Ok::<
            C,
            ComponentErrors,
        >(value),
{
}

/// A lookup returns the value that was written through the reference that
/// `get_component_mut` gave out.
pub proof fn law_get_returns_written_value<C>(
    s: StoreView<C>,
    entity_id: EntityID,
    component_type: ComponentType,
    value: C,
)
    requires
        s.consistent(),
        s.has_component(entity_id, component_type),
    ensures
        s.with_value(s.slot_of(entity_id, component_type), value).get(entity_id, component_type)
            == Ok::<C, ComponentErrors>(value),
{
}

/// One operation that is not about a component leaves it as it is.
pub proof fn law_operation_spares_component<C>(
    s: StoreView<C>,
    entity_id: EntityID,
    component_type: ComponentType,
    operation: Operation<C>,
)
    requires
        s.consistent(),
        s.permits(operation),
        s.has_component(entity_id, component_type),
        !touches(operation, entity_id, component_type),
    ensures
        s.after(operation).has_component(entity_id, component_type),
        s.after(operation).get(entity_id, component_type) == s.get(entity_id, component_type),
{
}

/// A lookup returns the value last attached: a component that an entity
/// holds is found unchanged after any sequence of operations none of which
/// is about that component.
pub proof fn law_get_returns_last_value<C>(
    s: StoreView<C>,
    entity_id: EntityID,
    component_type: ComponentType,
    operations: Seq<Operation<C>>,
)
    requires
        s.consistent(),
        s.permits_all(operations),
        s.has_component(entity_id, component_type),
        spares(operations, entity_id, component_type),
    ensures
        s.after_all(operations).has_component(entity_id, component_type),
        s.after_all(operations).get(entity_id, component_type) == s.get(entity_id, component_type),
    decreases operations.len(),
{
    if operations.len() > 0 {
        let first = operations.first();
        let rest = operations.drop_first();
        assert(first == operations[0]);
        law_operation_spares_component(s, entity_id, component_type, first);
        law_operation_keeps_consistency(s, first);
        assert forall|i: int| 0 <= i < rest.len() implies !touches(
            #[trigger] rest[i],
            entity_id,
            component_type,
        ) by {
            assert(rest[i] == operations[i + 1]);
        }
        law_get_returns_last_value(s.after(first), entity_id, component_type, rest);
    }
}

/// Attaching a component and detaching it again leaves the entity without
/// one: the lookup fails with `ComponentNotFound`.
pub proof fn law_detach_undoes_attach<C>(
    s: StoreView<C>,
    entity_id: EntityID,
    component_type: ComponentType,
    value: C,
)
    requires
        s.consistent(),
        s.has_entity(entity_id),
    ensures
        s.attach(entity_id, component_type, value).has_component(entity_id, component_type),
        s.attach(entity_id, component_type, value).detach(entity_id, component_type).get(
            entity_id,
            component_type,
        ) == Err::<C, ComponentErrors>(ComponentErrors::ComponentNotFound(component_type)),
{
}

/// After a component was detached the lookup fails with
/// `ComponentNotFound`, the query by type does not name the entity, and
/// the entity is still there.
pub proof fn law_detached_component_is_gone<C>(
    s: StoreView<C>,
    entity_id: EntityID,
    component_type: ComponentType,
)
    requires
        s.has_component(entity_id, component_type),
    ensures
        s.detach(entity_id, component_type).has_entity(entity_id),
        !s.detach(entity_id, component_type).has_component(entity_id, component_type),
        s.detach(entity_id, component_type).knows_type(component_type),
        !s.detach(entity_id, component_type).all(component_type).contains_key(entity_id),
        s.detach(entity_id, component_type).get(entity_id, component_type) == Err::<
            C,
            ComponentErrors,
        >(ComponentErrors::ComponentNotFound(component_type)),
{
}

/// The handle of a new entity is the next in order, was in use for no
/// entity before, and is in use afterwards, beside those that were.
pub proof fn law_created_entity_is_new<C>(s: StoreView<C>)
    requires
        s.consistent(),
        s.next_entity < EntityID::MAX,
    ensures
        !s.has_entity(s.next_entity),
        s.create_entity().has_entity(s.next_entity),
        s.create_entity().next_entity == s.next_entity + 1,
        forall|e: EntityID| s.has_entity(e) ==> s.create_entity().has_entity(e),
        forall|e: EntityID, t: ComponentType|
            s.create_entity().has_component(e, t) <==> s.has_component(e, t),
{
}

/// An entity handle that is not in use and was handed out before is not
/// in use after any operation either: handles are not reused.
pub proof fn law_operation_keeps_handle_retired<C>(
    s: StoreView<C>,
    entity_id: EntityID,
    operation: Operation<C>,
)
    requires
        s.permits(operation),
        !s.has_entity(entity_id),
        entity_id < s.next_entity,
    ensures
        !s.after(operation).has_entity(entity_id),
        entity_id < s.after(operation).next_entity,
{
}

/// As `law_operation_keeps_handle_retired`, for any sequence of
/// operations.
pub proof fn law_handle_stays_retired<C>(
    s: StoreView<C>,
    entity_id: EntityID,
    operations: Seq<Operation<C>>,
)
    requires
        s.permits_all(operations),
        !s.has_entity(entity_id),
        entity_id < s.next_entity,
    ensures
        !s.after_all(operations).has_entity(entity_id),
        entity_id < s.after_all(operations).next_entity,
    decreases operations.len(),
{
    if operations.len() > 0 {
        law_operation_keeps_handle_retired(s, entity_id, operations.first());
        law_handle_stays_retired(s.after(operations.first()), entity_id, operations.drop_first());
    }
}

/// Once an entity was removed, every operation that names its handle fails
/// with `EntityNotFound`, a second removal too, whatever was done to the
/// store in between.
pub proof fn law_removed_entity_is_unknown<C>(
    s: StoreView<C>,
    entity_id: EntityID,
    operations: Seq<Operation<C>>,
    component_type: ComponentType,
)
    requires
        s.consistent(),
        s.has_entity(entity_id),
        s.remove_entity(entity_id).permits_all(operations),
    ensures
        ({
            let later = s.remove_entity(entity_id).after_all(operations);
            let unknown = ComponentErrors::EntityNotFound(entity_id);
            &&& !later.has_entity(entity_id)
            &&& later.get(entity_id, component_type) == Err::<C, ComponentErrors>(unknown)
            &&& later.attach_outcome(entity_id) == Err::<(), ComponentErrors>(unknown)
            &&& later.detach_outcome(entity_id, component_type) == Err::<(), ComponentErrors>(
                unknown,
            )
            &&& later.remove_entity_outcome(entity_id) == Err::<(), ComponentErrors>(unknown)
        }),
{
    law_handle_stays_retired(s.remove_entity(entity_id), entity_id, operations);
}

/// The query by type names exactly the entities that hold a component of
/// the type now, each beside the component that a lookup finds for it: an
/// entity that had the component detached, or was removed, is not among
/// them.
pub proof fn law_all_names_the_holders<C>(s: StoreView<C>, component_type: ComponentType)
    requires
        s.consistent(),
        s.knows_type(component_type),
    ensures
        forall|e: EntityID| #[trigger]
            s.all(component_type).contains_key(e) <==> s.has_component(e, component_type),
        forall|e: EntityID| #[trigger]
            s.all(component_type).contains_key(e) ==> s.get(e, component_type) == Ok::<
                C,
                ComponentErrors,
            >(s.all(component_type)[e]),
{
}

/// A list that the query by type may return names each entity that holds
/// a component of the type once, and no other entity.
pub proof fn law_listing_has_each_holder_once<C>(
    s: StoreView<C>,
    component_type: ComponentType,
    list: Seq<(EntityID, C)>,
)
    requires
        s.consistent(),
        s.knows_type(component_type),
        lists_exactly(list, s.all(component_type)),
    ensures
        forall|i: int, j: int| 0 <= i < j < list.len() ==> list[i].0 != list[j].0,
        forall|i: int|
            0 <= i < list.len() ==> s.has_component(#[trigger] list[i].0, component_type) && s.get(
                list[i].0,
                component_type,
            ) == Ok::<C, ComponentErrors>(list[i].1),
        forall|e: EntityID|
            s.has_component(e, component_type) ==> exists|i: int|
                0 <= i < list.len() && #[trigger] list[i].0 == e,
{
    law_all_names_the_holders(s, component_type);
    assert forall|e: EntityID| s.has_component(e, component_type) implies exists|i: int|
        0 <= i < list.len() && #[trigger] list[i].0 == e by {
        assert(s.all(component_type).contains_key(e));
    }
}

/// `subscription` names a queue of the store.
pub open spec fn registered_with<C>(s: StoreView<C>, subscription: Subscription) -> bool {
    subscription.slot < queues_of(
        s.hub.queues(subscription.channel),
        subscription.component_type,
    ).len()
}

/// One operation that is not a poll of a listener puts at the end of the
/// listener's queue what it announces to the listeners of that kind and
/// type, and leaves the rest of the queue as it is.
pub proof fn law_operation_reaches_listener<C>(
    s: StoreView<C>,
    subscription: Subscription,
    operation: Operation<C>,
)
    requires
        registered_with(s, subscription),
        operation != (Operation::<C>::Poll { subscription }),
    ensures
        registered_with(s.after(operation), subscription),
        s.after(operation).hub.pending(subscription) == s.hub.pending(subscription) + s.announced(
            operation,
            subscription.channel,
            subscription.component_type,
        ),
{
    let before = s.hub.pending(subscription);
    let after = s.after(operation).hub.pending(subscription);
    let news = s.announced(operation, subscription.channel, subscription.component_type);
    assert(after =~= before + news);
}

/// A listener receives one event for each operation that announces one to
/// the listeners of its kind and type, in the order of the calls, and no
/// other event: after any sequence of operations that does not poll it,
/// its queue holds what it held before, and behind that what the
/// operations announced.
pub proof fn law_listener_hears_every_event<C>(
    s: StoreView<C>,
    subscription: Subscription,
    operations: Seq<Operation<C>>,
)
    requires
        registered_with(s, subscription),
        leaves_alone(operations, subscription),
    ensures
        registered_with(s.after_all(operations), subscription),
        s.after_all(operations).hub.pending(subscription) == s.hub.pending(subscription)
            + s.announced_by_all(operations, subscription.channel, subscription.component_type),
    decreases operations.len(),
{
    if operations.len() > 0 {
        let first = operations.first();
        let rest = operations.drop_first();
        assert(first == operations[0]);
        law_operation_reaches_listener(s, subscription, first);
        assert forall|i: int| 0 <= i < rest.len() implies #[trigger] rest[i] != (Operation::<
            C,
        >::Poll { subscription }) by {
            assert(rest[i] == operations[i + 1]);
        }
        law_listener_hears_every_event(s.after(first), subscription, rest);
        assert(s.after_all(operations).hub.pending(subscription) =~= s.hub.pending(subscription)
            + s.announced_by_all(operations, subscription.channel, subscription.component_type));
    } else {
        assert(s.hub.pending(subscription) =~= s.hub.pending(subscription) + Seq::<
            EntityID,
        >::empty());
    }
}

/// A listener that was just registered has an empty queue, so that
/// whatever is done next, short of polling it, its queue holds exactly
/// what was announced since: for a listener for additions one event for
/// each successful attachment of its type, and none for another type; for
/// a listener for removals one event for each component of its type that
/// was destroyed, by detaching it or by removing its entity.
pub proof fn law_new_listener_hears_what_follows<C>(
    s: StoreView<C>,
    channel: Channel,
    component_type: ComponentType,
    operations: Seq<Operation<C>>,
)
    requires
        queues_of(s.hub.queues(channel), component_type).len() < usize::MAX,
        leaves_alone(operations, s.hub.next_subscription(channel, component_type)),
    ensures
        ({
            let subscription = s.hub.next_subscription(channel, component_type);
            let start = s.subscribe(channel, component_type);
            &&& start.hub.pending(subscription) == Seq::<EntityID>::empty()
            &&& start.after_all(operations).hub.pending(subscription) == start.announced_by_all(
                operations,
                channel,
                component_type,
            )
        }),
{
    let subscription = s.hub.next_subscription(channel, component_type);
    let start = s.subscribe(channel, component_type);
    assert(registered_with(start, subscription));
    assert(start.hub.pending(subscription) =~= Seq::<EntityID>::empty());
    law_listener_hears_every_event(start, subscription, operations);
    assert(Seq::<EntityID>::empty() + start.announced_by_all(operations, channel, component_type)
        =~= start.announced_by_all(operations, channel, component_type));
}

/// A poll hands out what the queue holds and leaves it empty: a second
/// poll right after it hands out nothing.
pub proof fn law_poll_drains<C>(s: StoreView<C>, subscription: Subscription)
    ensures
        s.poll(subscription).hub.pending(subscription) == Seq::<EntityID>::empty(),
{
    assert(s.poll(subscription).hub.pending(subscription) =~= Seq::<EntityID>::empty());
}

} // verus!
