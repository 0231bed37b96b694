//! The mathematical model of the component store: what it holds, which
//! states are consistent, and what each operation makes of a state.

use crate::ecs::communicator::{Channel, HubView, Subscription};
use crate::ecs::errors::ComponentErrors;
use crate::ecs::{ComponentType, EntityID, LookupID};
use vstd::prelude::*;

verus! {

/// One entry of the value pool: a component value, tagged with its type and
/// with the entity that holds it.
pub struct Slot<C> {
    pub entity: EntityID,
    pub component_type: ComponentType,
    pub value: C,
}

/// `list` names each key of `all` once, beside the value that `all` gives for
/// it, and names nothing else, so that it is as long as `all` has keys.
pub open spec fn lists_exactly<C>(list: Seq<(EntityID, C)>, all: Map<EntityID, C>) -> bool {
    &&& list.len() == all.dom().len()
    &&& forall|i: int|
        0 <= i < list.len() ==> all.contains_key(#[trigger] list[i].0) && all[list[i].0]
            == list[i].1
    &&& forall|i: int, j: int| 0 <= i < j < list.len() ==> #[trigger] list[i].0 != #[trigger] list[j].0
    &&& forall|e: EntityID| #[trigger]
        all.contains_key(e) ==> exists|i: int| 0 <= i < list.len() && #[trigger] list[i].0 == e
}

/// The second half of each pair of `list`, in order.
pub open spec fn values_of<C>(list: Seq<(EntityID, C)>) -> Seq<C> {
    Seq::new(list.len(), |i: int| list[i].1)
}

/// `values` holds the value of each key of `all` once, a value that several
/// keys have once for each of them, and nothing else.
pub open spec fn lists_values<C>(values: Seq<C>, all: Map<EntityID, C>) -> bool {
    exists|list: Seq<(EntityID, C)>| #[trigger] lists_exactly(list, all) && values == values_of(list)
}

/// The state of a component store.
pub struct StoreView<C> {
    /// For each entity, the slot of its component of each type it holds.
    pub entity_index: Map<EntityID, Map<ComponentType, LookupID>>,
    /// For each type ever attached, the slot of each entity that holds it.
    pub component_index: Map<ComponentType, Map<EntityID, LookupID>>,
    /// The value pool: every live component, by slot.
    pub components: Map<LookupID, Slot<C>>,
    /// The handle that the next entity gets.
    pub next_entity: EntityID,
    /// The handle that the next slot gets.
    pub next_lookup: LookupID,
    /// The listeners and the events they have not polled yet.
    pub hub: HubView,
    /// The component types that were attached as renderable, each once, in
    /// the order in which they were first seen.
    pub render_types: Seq<ComponentType>,
}

impl<C> StoreView<C> {
    /// The store before anything was done to it.
    pub open spec fn empty() -> StoreView<C> {
        StoreView {
            entity_index: Map::empty(),
            component_index: Map::empty(),
            components: Map::empty(),
            next_entity: 0,
            next_lookup: 0,
            hub: HubView { added: Map::empty(), removed: Map::empty() },
            render_types: Seq::empty(),
        }
    }

    /// `entity_id` was created and not removed since.
    #[verifier::inline]
    pub open spec fn has_entity(self, entity_id: EntityID) -> bool {
        self.entity_index.contains_key(entity_id)
    }

    /// `entity_id` exists and holds a component of `component_type`.
    #[verifier::inline]
    pub open spec fn has_component(self, entity_id: EntityID, component_type: ComponentType)
        -> bool {
        self.entity_index.contains_key(entity_id) && self.entity_index[entity_id].contains_key(
            component_type,
        )
    }

    /// The slot that the entity index gives for the component of
    /// `component_type` that `entity_id` holds.
    #[verifier::inline]
    pub open spec fn slot_of(self, entity_id: EntityID, component_type: ComponentType)
        -> LookupID {
        self.entity_index[entity_id][component_type]
    }

    /// A component of `component_type` was attached at some time, so that
    /// the type index has a registry for it.
    #[verifier::inline]
    pub open spec fn knows_type(self, component_type: ComponentType) -> bool {
        self.component_index.contains_key(component_type)
    }

    /// The type index lists `entity_id` under `component_type`.
    #[verifier::inline]
    pub open spec fn lists(self, component_type: ComponentType, entity_id: EntityID) -> bool {
        self.component_index.contains_key(component_type)
            && self.component_index[component_type].contains_key(entity_id)
    }

    /// The registry of `component_type` in the type index; empty where the
    /// type has none yet.
    pub open spec fn members(self, component_type: ComponentType) -> Map<EntityID, LookupID> {
        if self.component_index.contains_key(component_type) {
            self.component_index[component_type]
        } else {
            Map::empty()
        }
    }

    /// The two indices and the value pool agree, and no handle that is in
    /// use will be handed out again:
    /// - what the entity index holds, the type index holds under the same
    ///   slot, and the pool has that slot, tagged with that entity and type;
    /// - what the type index holds, the entity index holds;
    /// - every pool entry is the slot that the entity index gives for the
    ///   entity and type it is tagged with, so the pool holds no orphan and
    ///   no slot serves two components;
    /// - every handle in use is below the next one to be handed out.
    pub open spec fn consistent(self) -> bool {
        &&& forall|e: EntityID, t: ComponentType|
            self.entity_index.contains_key(e) && #[trigger] self.entity_index[e].contains_key(t)
                ==> {
                &&& self.lists(t, e)
                &&& self.component_index[t][e] == self.slot_of(e, t)
                &&& self.components.contains_key(self.slot_of(e, t))
                &&& self.components[self.slot_of(e, t)].entity == e
                &&& self.components[self.slot_of(e, t)].component_type == t
            }
        &&& forall|t: ComponentType, e: EntityID|
            self.component_index.contains_key(t) && #[trigger] self.component_index[t].contains_key(
                e,
            ) ==> self.has_component(e, t)
        &&& forall|id: LookupID| #[trigger]
            self.components.contains_key(id) ==> {
                &&& id < self.next_lookup
                &&& self.has_component(
                    self.components[id].entity,
                    self.components[id].component_type,
                )
                &&& self.slot_of(self.components[id].entity, self.components[id].component_type)
                    == id
            }
        &&& forall|e: EntityID| #[trigger] self.entity_index.contains_key(e) ==> e < self.next_entity
    }

    /// The store after a new entity was created. Its handle is
    /// `self.next_entity`.
    pub open spec fn create_entity(self) -> StoreView<C> {
        StoreView {
            entity_index: self.entity_index.insert(self.next_entity, Map::empty()),
            next_entity: (self.next_entity + 1) as EntityID,
            ..self
        }
    }

    /// What attaching to `entity_id` reports.
    pub open spec fn attach_outcome(self, entity_id: EntityID) -> Result<(), ComponentErrors> {
        if self.has_entity(entity_id) {
            Ok(())
        } else {
            Err(ComponentErrors::EntityNotFound(entity_id))
        }
    }

    /// The value pool without the component of `component_type` that
    /// `entity_id` holds, if it holds one.
    pub open spec fn released(self, entity_id: EntityID, component_type: ComponentType) -> Map<
        LookupID,
        Slot<C>,
    > {
        if self.has_component(entity_id, component_type) {
            self.components.remove(self.slot_of(entity_id, component_type))
        } else {
            self.components
        }
    }

    /// The store after `value` was attached to the existing entity
    /// `entity_id` as its component of `component_type`. The value gets the
    /// slot `self.next_lookup`. A component of that type which the entity
    /// held before leaves the pool: its slot is freed, and no removal is
    /// announced for it. The listeners for additions of the type hear of
    /// the entity.
    pub open spec fn attach(self, entity_id: EntityID, component_type: ComponentType, value: C)
        -> StoreView<C>
        recommends
            self.has_entity(entity_id),
    {
        StoreView {
            entity_index: self.entity_index.insert(
                entity_id,
                self.entity_index[entity_id].insert(component_type, self.next_lookup),
            ),
            component_index: self.component_index.insert(
                component_type,
                self.members(component_type).insert(entity_id, self.next_lookup),
            ),
            components: self.released(entity_id, component_type).insert(
                self.next_lookup,
                Slot { entity: entity_id, component_type, value },
            ),
            next_lookup: (self.next_lookup + 1) as LookupID,
            hub: self.hub.notify(Channel::Added, component_type, entity_id),
            ..self
        }
    }

    /// What detaching the component of `component_type` from `entity_id`
    /// reports.
    pub open spec fn detach_outcome(self, entity_id: EntityID, component_type: ComponentType)
        -> Result<(), ComponentErrors> {
        if !self.has_entity(entity_id) {
            Err(ComponentErrors::EntityNotFound(entity_id))
        } else if !self.has_component(entity_id, component_type) {
            Err(ComponentErrors::ComponentNotFound(component_type))
        } else {
            Ok(())
        }
    }

    /// The store after the component of `component_type` was detached from
    /// `entity_id`, which holds one: its slot leaves the pool and both
    /// indices, and the listeners for removals of the type hear of the
    /// entity. The type keeps its registry in the type index.
    pub open spec fn detach(self, entity_id: EntityID, component_type: ComponentType)
        -> StoreView<C>
        recommends
            self.has_component(entity_id, component_type),
    {
        StoreView {
            entity_index: self.entity_index.insert(
                entity_id,
                self.entity_index[entity_id].remove(component_type),
            ),
            component_index: self.component_index.insert(
                component_type,
                self.members(component_type).remove(entity_id),
            ),
            components: self.components.remove(self.slot_of(entity_id, component_type)),
            hub: self.hub.notify(Channel::Removed, component_type, entity_id),
            ..self
        }
    }

    /// What removing `entity_id` reports.
    pub open spec fn remove_entity_outcome(self, entity_id: EntityID) -> Result<
        (),
        ComponentErrors,
    > {
        if self.has_entity(entity_id) {
            Ok(())
        } else {
            Err(ComponentErrors::EntityNotFound(entity_id))
        }
    }

    /// The hub after the listeners for removals of every type in
    /// `component_types` heard of `entity_id`, once for each type.
    pub open spec fn announce_removals(
        hub: HubView,
        component_types: Set<ComponentType>,
        entity_id: EntityID,
    ) -> HubView {
        HubView {
            added: hub.added,
            removed: Map::new(
                |t: ComponentType| hub.removed.contains_key(t),
                |t: ComponentType|
                    if component_types.contains(t) {
                        hub.notify(Channel::Removed, t, entity_id).removed[t]
                    } else {
                        hub.removed[t]
                    },
            ),
        }
    }

    /// The store after `entity_id` left the entity index and its components
    /// of the types in `component_types` were destroyed: each of them left
    /// the pool and the type index, and the listeners for removals of its
    /// type heard of the entity.
    pub open spec fn strip(self, entity_id: EntityID, component_types: Set<ComponentType>)
        -> StoreView<C> {
        StoreView {
            entity_index: self.entity_index.remove(entity_id),
            component_index: Map::new(
                |t: ComponentType| self.component_index.contains_key(t),
                |t: ComponentType|
                    if component_types.contains(t) {
                        self.component_index[t].remove(entity_id)
                    } else {
                        self.component_index[t]
                    },
            ),
            components: Map::new(
                |id: LookupID|
                    self.components.contains_key(id) && !(self.components[id].entity == entity_id
                        && component_types.contains(self.components[id].component_type)),
                |id: LookupID| self.components[id],
            ),
            hub: Self::announce_removals(self.hub, component_types, entity_id),
            ..self
        }
    }

    /// The store after the existing entity `entity_id` was removed: each of
    /// its components leaves the pool and the type index, the listeners for
    /// removals hear of the entity once for each type it held, and the
    /// entity leaves the entity index.
    pub open spec fn remove_entity(self, entity_id: EntityID) -> StoreView<C>
        recommends
            self.has_entity(entity_id),
    {
        self.strip(entity_id, self.entity_index[entity_id].dom())
    }

    /// What a lookup of the component of `component_type` that `entity_id`
    /// holds gives: the entity index is asked for the slot, the pool for the
    /// slot's entry, and the entry's tag is held against the type asked for.
    pub open spec fn get(self, entity_id: EntityID, component_type: ComponentType) -> Result<
        C,
        ComponentErrors,
    > {
        if !self.has_entity(entity_id) {
            Err(ComponentErrors::EntityNotFound(entity_id))
        } else if !self.has_component(entity_id, component_type) {
            Err(ComponentErrors::ComponentNotFound(component_type))
        } else {
            self.lookup(self.slot_of(entity_id, component_type), component_type)
        }
    }

    /// What the pool gives for slot `lookup_id` when a component of
    /// `component_type` is expected there.
    pub open spec fn lookup(self, lookup_id: LookupID, component_type: ComponentType) -> Result<
        C,
        ComponentErrors,
    > {
        if !self.components.contains_key(lookup_id) {
            Err(ComponentErrors::ComponentLookupNotFound(lookup_id))
        } else if self.components[lookup_id].component_type != component_type {
            Err(ComponentErrors::ComponentCastError(component_type))
        } else {
            Ok(self.components[lookup_id].value)
        }
    }

    /// The store with `value` in slot `lookup_id`, which is in use, in place
    /// of the value that was there.
    pub open spec fn with_value(self, lookup_id: LookupID, value: C) -> StoreView<C>
        recommends
            self.components.contains_key(lookup_id),
    {
        StoreView {
            components: self.components.insert(
                lookup_id,
                Slot {
                    entity: self.components[lookup_id].entity,
                    component_type: self.components[lookup_id].component_type,
                    value,
                },
            ),
            ..self
        }
    }

    /// The components of `component_type`, by the entity that holds each.
    pub open spec fn all(self, component_type: ComponentType) -> Map<EntityID, C>
        recommends
            self.knows_type(component_type),
    {
        Map::new(
            |e: EntityID| self.component_index[component_type].contains_key(e),
            |e: EntityID| self.components[self.component_index[component_type][e]].value,
        )
    }

    /// The store after a listener was registered on `channel` for
    /// `component_type`.
    pub open spec fn subscribe(self, channel: Channel, component_type: ComponentType)
        -> StoreView<C> {
        StoreView { hub: self.hub.subscribe(channel, component_type), ..self }
    }

    /// The store after `subscription` was polled.
    pub open spec fn poll(self, subscription: Subscription) -> StoreView<C> {
        StoreView { hub: self.hub.poll(subscription), ..self }
    }

    /// The store after `component_type` was noted as renderable.
    pub open spec fn note_renderable(self, component_type: ComponentType) -> StoreView<C> {
        if self.render_types.contains(component_type) {
            self
        } else {
            StoreView { render_types: self.render_types.push(component_type), ..self }
        }
    }
}

} // verus!
