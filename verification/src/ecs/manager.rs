//! The component store: the value pool, the index by entity and the index
//! by component type, kept in step by every operation.

use crate::ecs::communicator::{Channel, ChaosCommunicator, Subscription};
use crate::ecs::consistency::{
    lemma_attach_consistent, lemma_create_entity_consistent, lemma_detach_consistent,
    lemma_hub_operations_consistent, lemma_remove_entity_consistent, lemma_with_value_consistent,
};
use crate::ecs::errors::ComponentErrors;
use crate::ecs::model::{lists_exactly, lists_values, values_of, Slot, StoreView};
use crate::ecs::{ComponentType, EntityID, LookupID};
use std::collections::hash_map::Entry;
use std::collections::HashMap;
use vstd::prelude::*;
use vstd::std_specs::iter::IteratorSpec;

verus! {

broadcast use vstd::std_specs::hash::group_hash_axioms;

/// What an index holds: for each outer key, the slots by inner key.
spec fn index_view<K, L>(index: Map<K, HashMap<L, LookupID>>) -> Map<
    K,
    Map<L, LookupID>,
> {
    index.map_values(|inner: HashMap<L, LookupID>| inner@)
}

/// The view of an index has the keys of the index, and under each key the
/// contents of the inner map.
broadcast proof fn lemma_index_view_entries<K, L>(index: Map<K, HashMap<L, LookupID>>)
    ensures
        #[trigger] index_view(index).dom() == index.dom(),
        forall|key: K| index.contains_key(key) ==> #[trigger] index_view(index)[key] == index[key]@,
{
    assert(index_view(index).dom() =~= index.dom());
}

/// Putting an inner map into an index puts its contents into the view.
broadcast proof fn lemma_index_view_insert<K, L>(
    index: Map<K, HashMap<L, LookupID>>,
    key: K,
    inner: HashMap<L, LookupID>,
)
    ensures
        #[trigger] index_view(index.insert(key, inner)) == index_view(index).insert(key, inner@),
{
    assert(index_view(index.insert(key, inner)) =~= index_view(index).insert(key, inner@));
}

/// Taking a key out of an index takes it out of the view.
broadcast proof fn lemma_index_view_remove<K, L>(index: Map<K, HashMap<L, LookupID>>, key: K)
    ensures
        #[trigger] index_view(index.remove(key)) == index_view(index).remove(key),
{
    assert(index_view(index.remove(key)) =~= index_view(index).remove(key));
}

/// The value in slot `lookup_id` of `pool`, for writing, where the slot is in
/// use and tagged with `component_type`.
fn slot_value_mut<'a, C>(
    pool: &'a mut HashMap<LookupID, Slot<C>>,
    lookup_id: &LookupID,
    component_type: ComponentType,
) -> (found: Result<&'a mut C, ComponentErrors>)
    ensures
        match found {
            Ok(value) => {
                &&& old(pool)@.contains_key(*lookup_id)
                &&& old(pool)@[*lookup_id].component_type == component_type
                &&& old(pool)@[*lookup_id].value == *value
                &&& final(pool)@ == old(pool)@.insert(
                    *lookup_id,
                    Slot {
                        entity: old(pool)@[*lookup_id].entity,
                        component_type: old(pool)@[*lookup_id].component_type,
                        value: *final(value),
                    },
                )
            },
            Err(error) => {
                &&& final(pool)@ == old(pool)@
                &&& error == (if old(pool)@.contains_key(*lookup_id) {
                    ComponentErrors::ComponentCastError(component_type)
                } else {
                    ComponentErrors::ComponentLookupNotFound(*lookup_id)
                })
                &&& old(pool)@.contains_key(*lookup_id) ==> old(pool)@[*lookup_id].component_type
                    != component_type
            },
        },
{
    match pool.entry(*lookup_id) {
        Entry::Occupied(entry) => {
            let slot = entry.into_mut();
            if slot.component_type == component_type {
                Ok(&mut slot.value)
            } else {
                Err(ComponentErrors::ComponentCastError(component_type))
            }
        },
        Entry::Vacant(_) => Err(ComponentErrors::ComponentLookupNotFound(*lookup_id)),
    }
}

/// What a list of borrowed entries names: each entity beside its value.
pub open spec fn entries<C>(list: Seq<(&EntityID, &C)>) -> Seq<(EntityID, C)> {
    Seq::new(list.len(), |i: int| (*list[i].0, *list[i].1))
}

/// What a list of borrowed values holds.
pub open spec fn values<C>(list: Seq<&C>) -> Seq<C> {
    Seq::new(list.len(), |i: int| *list[i])
}

/// The component types among the first `count` entries of `pairs`.
spec fn types_among(pairs: Seq<(&ComponentType, &LookupID)>, count: int) -> Set<
    ComponentType,
> {
    Set::new(|t: ComponentType| exists|j: int| 0 <= j < count && *(#[trigger] pairs[j]).0 == t)
}

/// The component store. `C` is the type of the component values; the store
/// tells their kinds apart by the `ComponentType` that each is attached
/// under, and never looks inside a value.
pub struct ChaosComponentManager<C> {
    entity_index: HashMap<EntityID, HashMap<ComponentType, LookupID>>,
    component_index: HashMap<ComponentType, HashMap<EntityID, LookupID>>,
    components: HashMap<LookupID, Slot<C>>,
    current_entity_id: EntityID,
    current_index_id: LookupID,
    communicator: ChaosCommunicator,
    render_component_types: Vec<ComponentType>,
}

impl<C> View for ChaosComponentManager<C> {
    type V = StoreView<C>;

    closed spec fn view(&self) -> StoreView<C> {
        StoreView {
            entity_index: index_view(self.entity_index@),
            component_index: index_view(self.component_index@),
            components: self.components@,
            next_entity: self.current_entity_id,
            next_lookup: self.current_index_id,
            hub: self.communicator@,
            render_types: self.render_component_types@,
        }
    }
}

impl<C> ChaosComponentManager<C> {
    /// The store is in a consistent state.
    pub open spec fn wf(&self) -> bool {
        self@.consistent()
    }

    /// An empty store with room for five entities and five components
    /// before it grows.
    pub fn default() -> (manager: ChaosComponentManager<C>)
        ensures
            manager.wf(),
            manager@ == StoreView::<C>::empty(),
    {
        ChaosComponentManager::new(5, 5)
    }

    /// An empty store. The capacities say how much room to set aside at
    /// first; they bound nothing.
    pub fn new(initial_entity_capacity: usize, initial_component_capacity: usize) -> (manager:
        ChaosComponentManager<C>)
        ensures
            manager.wf(),
            manager@ == StoreView::<C>::empty(),
    {
        let manager = ChaosComponentManager {
            entity_index: HashMap::with_capacity(initial_entity_capacity),
            component_index: HashMap::with_capacity(initial_component_capacity),
            components: HashMap::with_capacity(initial_component_capacity),
            current_entity_id: 0,
            current_index_id: 0,
            communicator: ChaosCommunicator::new(),
            render_component_types: Vec::new(),
        };
        proof {
            assert(manager@.entity_index =~~= Map::empty());
            assert(manager@.component_index =~~= Map::empty());
            assert(manager@.components =~~= Map::empty());
            assert(manager@.hub == StoreView::<C>::empty().hub);
            assert(manager@.render_types =~~= Seq::empty());
            assert(manager@ =~~= StoreView::<C>::empty());
        }
        manager
    }

    /// Whether an entity handle is left, so that `create_entity` may be
    /// called.
    pub fn can_create_entity(&self) -> (left: bool)
        ensures
            left == (self@.next_entity < EntityID::MAX),
    {
        self.current_entity_id < EntityID::MAX
    }

    /// Whether a slot handle is left, so that a component may be attached.
    pub fn can_add_component(&self) -> (left: bool)
        ensures
            left == (self@.next_lookup < LookupID::MAX),
    {
        self.current_index_id < LookupID::MAX
    }

    /// Creates an entity without components and returns its handle, which
    /// no entity had before.
    pub fn create_entity(&mut self) -> (id: EntityID)
        requires
            old(self).wf(),
            old(self)@.next_entity < EntityID::MAX,
        ensures
            final(self).wf(),
            id == old(self)@.next_entity,
            !old(self)@.has_entity(id),
            final(self)@ == old(self)@.create_entity(),
    {
        let id = self.current_entity_id;
        self.current_entity_id += 1;
        self.entity_index.insert(id, HashMap::new());
        proof {
            broadcast use lemma_index_view_insert;

            lemma_create_entity_consistent(old(self)@);
            assert(self@ =~~= old(self)@.create_entity());
        }
        id
    }

    /// Attaches `component` to `entity_id` as its component of
    /// `component_type`, in a slot that no component had before, and tells
    /// the listeners for additions of that type. A component of the type
    /// that the entity held before is replaced: its slot leaves the pool.
    /// Fails with `EntityNotFound`, and changes nothing, where the entity
    /// does not exist.
    pub fn add_component(
        &mut self,
        entity_id: EntityID,
        component_type: ComponentType,
        component: C,
    ) -> (outcome: Result<(), ComponentErrors>)
        requires
            old(self).wf(),
            old(self)@.next_lookup < LookupID::MAX,
        ensures
            final(self).wf(),
            outcome == old(self)@.attach_outcome(entity_id),
            outcome is Ok ==> final(self)@ == old(self)@.attach(
                entity_id,
                component_type,
                component,
            ),
            outcome is Err ==> final(self)@ == old(self)@,
    {
        broadcast use {lemma_index_view_insert, lemma_index_view_remove};

        let id = self.current_index_id;
        let superseded = match self.entity_index.entry(entity_id) {
            Entry::Occupied(entry) => entry.into_mut().insert(component_type, id),
            Entry::Vacant(_) => {
                proof {
                    assert(final(self).entity_index@ =~= old(self).entity_index@);
                }
                return Err(ComponentErrors::EntityNotFound(entity_id));
            },
        };
        self.current_index_id += 1;
        if let Some(freed) = superseded {
            self.components.remove(&freed);
        }
        let members = self.component_index.entry(component_type).or_insert(HashMap::new());
        members.insert(entity_id, id);
        self.components.insert(id, Slot { entity: entity_id, component_type, value: component });
        self.communicator.notify_of_add(component_type, entity_id);
        proof {
            let before = old(self)@;
            let after = before.attach(entity_id, component_type, component);
            lemma_attach_consistent(before, entity_id, component_type, component);
            assert(self@.entity_index =~~= after.entity_index);
            assert(self@.component_index =~~= after.component_index);
            assert(self@.components =~~= after.components);
            assert(self@ =~~= after);
        }
        Ok(())
    }

    /// Notes `component_type` as a type of renderable components, unless it
    /// is noted already, and then attaches `component` as `add_component`
    /// does. The type is noted even where the entity does not exist.
    pub fn add_renderable_component(
        &mut self,
        entity_id: EntityID,
        component_type: ComponentType,
        component: C,
    ) -> (outcome: Result<(), ComponentErrors>)
        requires
            old(self).wf(),
            old(self)@.next_lookup < LookupID::MAX,
        ensures
            final(self).wf(),
            outcome == old(self)@.attach_outcome(entity_id),
            outcome is Ok ==> final(self)@ == old(self)@.note_renderable(component_type).attach(
                entity_id,
                component_type,
                component,
            ),
            outcome is Err ==> final(self)@ == old(self)@.note_renderable(component_type),
    {
        let mut noted = false;
        let mut i: usize = 0;
        while i < self.render_component_types.len()
            invariant
                *self == *old(self),
                i <= self.render_component_types@.len(),
                noted <==> exists|j: int|
                    0 <= j < i && self.render_component_types@[j] == component_type,
            decreases self.render_component_types@.len() - i,
        {
            if self.render_component_types[i] == component_type {
                noted = true;
            }
            i += 1;
        }
        if !noted {
            self.render_component_types.push(component_type);
        }
        proof {
            assert(self@ =~~= old(self)@.note_renderable(component_type));
        }
        self.add_component(entity_id, component_type, component)
    }

    /// The slot of the component of `component_type` that `entity_id` holds.
    fn get_lookup_id(&self, entity_id: EntityID, component_type: ComponentType) -> (found: Result<
        LookupID,
        ComponentErrors,
    >)
        ensures
            found == (if !self@.has_entity(entity_id) {
                Err::<LookupID, ComponentErrors>(ComponentErrors::EntityNotFound(entity_id))
            } else if !self@.has_component(entity_id, component_type) {
                Err(ComponentErrors::ComponentNotFound(component_type))
            } else {
                Ok(self@.slot_of(entity_id, component_type))
            }),
    {
        match self.entity_index.get(&entity_id) {
            Some(entity) => {
                match entity.get(&component_type) {
                    Some(lookup_id) => Ok(*lookup_id),
                    None => Err(ComponentErrors::ComponentNotFound(component_type)),
                }
            },
            None => Err(ComponentErrors::EntityNotFound(entity_id)),
        }
    }

    /// The value in slot `lookup_id`, where the slot is in use and tagged
    /// with `component_type`.
    fn lookup_component(&self, lookup_id: &LookupID, component_type: ComponentType) -> (found:
        Result<&C, ComponentErrors>)
        ensures
            match found {
                Ok(value) => self@.lookup(*lookup_id, component_type) == Ok::<C, ComponentErrors>(
                    *value,
                ),
                Err(error) => self@.lookup(*lookup_id, component_type) == Err::<
                    C,
                    ComponentErrors,
                >(error),
            },
    {
        match self.components.get(lookup_id) {
            Some(slot) => {
                if slot.component_type == component_type {
                    Ok(&slot.value)
                } else {
                    Err(ComponentErrors::ComponentCastError(component_type))
                }
            },
            None => Err(ComponentErrors::ComponentLookupNotFound(*lookup_id)),
        }
    }

    /// The value in slot `lookup_id`, for writing, where the slot is in use
    /// and tagged with `component_type`.
    fn lookup_component_mut(&mut self, lookup_id: &LookupID, component_type: ComponentType) -> (found:
        Result<&mut C, ComponentErrors>)
        ensures
            match found {
                Ok(value) => {
                    &&& old(self)@.lookup(*lookup_id, component_type) == Ok::<C, ComponentErrors>(
                        *value,
                    )
                    &&& final(self)@ == old(self)@.with_value(*lookup_id, *final(value))
                },
                Err(error) => {
                    &&& old(self)@.lookup(*lookup_id, component_type) == Err::<C, ComponentErrors>(
                        error,
                    )
                    &&& final(self)@ == old(self)@
                },
            },
    {
        slot_value_mut(&mut self.components, lookup_id, component_type)
    }

    /// The component of `component_type` that `entity_id` holds: the value
    /// that was last attached to it under that type, or written through
    /// `get_component_mut` since. Fails with `EntityNotFound` where the
    /// entity does not exist, and with `ComponentNotFound` where it exists
    /// and holds no such component; it fails in no other way.
    pub fn get_component(&self, entity_id: EntityID, component_type: ComponentType) -> (found:
        Result<&C, ComponentErrors>)
        requires
            self.wf(),
        ensures
            match found {
                Ok(value) => self@.get(entity_id, component_type) == Ok::<C, ComponentErrors>(
                    *value,
                ),
                Err(error) => self@.get(entity_id, component_type) == Err::<C, ComponentErrors>(
                    error,
                ),
            },
            found is Ok <==> self@.has_component(entity_id, component_type),
            !self@.has_entity(entity_id) ==> found == Err::<&C, ComponentErrors>(
                ComponentErrors::EntityNotFound(entity_id),
            ),
            self@.has_entity(entity_id) && !self@.has_component(entity_id, component_type)
                ==> found == Err::<&C, ComponentErrors>(
                ComponentErrors::ComponentNotFound(component_type),
            ),
    {
        match self.get_lookup_id(entity_id, component_type) {
            Ok(lookup_id) => self.lookup_component(&lookup_id, component_type),
            Err(error) => Err(error),
        }
    }

    /// The component of `component_type` that `entity_id` holds, for
    /// writing. What the caller leaves there is what the store holds
    /// afterwards; nothing else changes. Fails as `get_component` does, and
    /// changes nothing then.
    pub fn get_component_mut(&mut self, entity_id: EntityID, component_type: ComponentType) -> (found:
        Result<&mut C, ComponentErrors>)
        requires
            old(self).wf(),
        ensures
            final(self).wf(),
            match found {
                Ok(value) => {
                    &&& old(self)@.get(entity_id, component_type) == Ok::<C, ComponentErrors>(
                        *value,
                    )
                    &&& final(self)@ == old(self)@.with_value(
                        old(self)@.slot_of(entity_id, component_type),
                        *final(value),
                    )
                },
                Err(error) => {
                    &&& old(self)@.get(entity_id, component_type) == Err::<C, ComponentErrors>(
                        error,
                    )
                    &&& final(self)@ == old(self)@
                },
            },
            found is Ok <==> old(self)@.has_component(entity_id, component_type),
            !old(self)@.has_entity(entity_id) ==> found == Err::<&mut C, ComponentErrors>(
                ComponentErrors::EntityNotFound(entity_id),
            ),
            old(self)@.has_entity(entity_id) && !old(self)@.has_component(entity_id, component_type)
                ==> found == Err::<&mut C, ComponentErrors>(
                ComponentErrors::ComponentNotFound(component_type),
            ),
    {
        let lookup_id = match self.get_lookup_id(entity_id, component_type) {
            Ok(lookup_id) => lookup_id,
            Err(error) => {
                return Err(error);
            },
        };
        proof {
            assert forall|value: C| (#[trigger] self@.with_value(lookup_id, value)).consistent() by {
                lemma_with_value_consistent(self@, lookup_id, value);
            }
        }
        self.lookup_component_mut(&lookup_id, component_type)
    }

    /// Every entity that holds a component of `component_type`, each once
    /// and beside that component, in no particular order. Fails with
    /// `ComponentNotFound` where no component of the type was ever
    /// attached; where all of them are gone again, the list is empty.
    pub fn get_all_components(&self, component_type: ComponentType) -> (found: Result<
        Vec<(&EntityID, &C)>,
        ComponentErrors,
    >)
        requires
            self.wf(),
        ensures
            match found {
                Ok(list) => {
                    &&& self@.knows_type(component_type)
                    &&& lists_exactly(entries(list@), self@.all(component_type))
                },
                Err(error) => {
                    &&& !self@.knows_type(component_type)
                    &&& error == ComponentErrors::ComponentNotFound(component_type)
                },
            },
    {
        match self.component_index.get(&component_type) {
            Some(members) => {
                let mut result: Vec<(&EntityID, &C)> = Vec::new();
                let ghost pairs = members.iter().remaining();
                proof {
                    assert(self@.component_index[component_type] == members@);
                    assert forall|i: int| 0 <= i < pairs.len() implies members@.contains_key(
                        *(#[trigger] pairs[i]).0,
                    ) && members@[*pairs[i].0] == *pairs[i].1 by {
                        assert(members@.contains_key(*pairs[i].0));
                    }
                }
                for entry in it: members.iter()
                    invariant
                        self.wf(),
                        it.seq() == pairs,
                        self@.knows_type(component_type),
                        self@.component_index[component_type] == members@,
                        forall|i: int|
                            0 <= i < pairs.len() ==> members@.contains_key(*(#[trigger] pairs[i]).0)
                                && members@[*pairs[i].0] == *pairs[i].1,
                        result@.len() == it.index(),
                        forall|i: int|
                            0 <= i < result@.len() ==> *(#[trigger] result@[i]).0 == *pairs[i].0
                                && *result@[i].1 == self@.components[*pairs[i].1].value,
                {
                    let (entity_id, lookup_id) = entry;
                    assert(entry == pairs[it.index() as int]);
                    match self.lookup_component(lookup_id, component_type) {
                        Ok(component) => {
                            result.push((entity_id, component));
                        },
                        Err(error) => {
                            return Err(error);
                        },
                    }
                }
                proof {
                    let all = self@.all(component_type);
                    let list = entries(result@);
                    assert forall|e: EntityID| #[trigger] all.contains_key(e) implies exists|i: int|
                        0 <= i < list.len() && #[trigger] list[i].0 == e by {
                        assert(members@.contains_key(e));
                        assert(pairs.contains((&e, &members@[e])));
                        let i = choose|i: int| 0 <= i < pairs.len() && pairs[i] == (&e, &members@[e]);
                        assert(list[i].0 == e);
                    }
                    assert forall|i: int| 0 <= i < list.len() implies all.contains_key(
                        #[trigger] list[i].0,
                    ) && all[list[i].0] == list[i].1 by {
                        assert(*result@[i].0 == *pairs[i].0);
                    }
                    assert forall|i: int, j: int| 0 <= i < j < list.len() implies #[trigger] list[i].0
                        != #[trigger] list[j].0 by {
                        assert(*result@[i].0 == *pairs[i].0);
                        assert(*result@[j].0 == *pairs[j].0);
                        assert(pairs[i] != pairs[j]);
                    }
                    assert(all.dom() =~= members@.dom());
                    assert(pairs.len() == members@.dom().len());
                    assert(lists_exactly(list, all));
                }
                Ok(result)
            },
            None => Err(ComponentErrors::ComponentNotFound(component_type)),
        }
    }

    /// The component of `component_type` of every entity that holds one, in
    /// no particular order. Fails as `get_all_components` does.
    pub fn get_all_components_of_type(&self, component_type: ComponentType) -> (found: Result<
        Vec<&C>,
        ComponentErrors,
    >)
        requires
            self.wf(),
        ensures
            match found {
                Ok(list) => {
                    &&& self@.knows_type(component_type)
                    &&& lists_values(values(list@), self@.all(component_type))
                },
                Err(error) => {
                    &&& !self@.knows_type(component_type)
                    &&& error == ComponentErrors::ComponentNotFound(component_type)
                },
            },
    {
        match self.get_all_components(component_type) {
            Ok(held) => {
                let mut result: Vec<&C> = Vec::new();
                let mut i: usize = 0;
                while i < held.len()
                    invariant
                        i <= held@.len(),
                        result@.len() == i,
                        forall|j: int| 0 <= j < i ==> *result@[j] == *held@[j].1,
                    decreases held@.len() - i,
                {
                    result.push(held[i].1);
                    i += 1;
                }
                proof {
                    assert(values(result@) =~= values_of(entries(held@)));
                    assert(lists_exactly(entries(held@), self@.all(component_type)));
                }
                Ok(result)
            },
            Err(error) => Err(error),
        }
    }

    /// Detaches the component of `component_type` from `entity_id`: its slot
    /// leaves the pool and both indices, and the listeners for removals of
    /// that type are told. Fails with `EntityNotFound` where the entity
    /// does not exist and with `ComponentNotFound` where it holds no such
    /// component, and changes nothing then.
    pub fn remove_component(&mut self, entity_id: EntityID, component_type: ComponentType) -> (outcome:
        Result<(), ComponentErrors>)
        requires
            old(self).wf(),
        ensures
            final(self).wf(),
            outcome == old(self)@.detach_outcome(entity_id, component_type),
            outcome is Ok ==> final(self)@ == old(self)@.detach(entity_id, component_type),
            outcome is Err ==> final(self)@ == old(self)@,
    {
        broadcast use {lemma_index_view_insert, lemma_index_view_remove};

        let lookup_id = match self.get_lookup_id(entity_id, component_type) {
            Ok(lookup_id) => lookup_id,
            Err(error) => {
                return Err(error);
            },
        };
        self.components.remove(&lookup_id);
        if let Entry::Occupied(entry) = self.entity_index.entry(entity_id) {
            entry.into_mut().remove(&component_type);
        }
        if let Entry::Occupied(entry) = self.component_index.entry(component_type) {
            entry.into_mut().remove(&entity_id);
        }
        self.communicator.notify_of_removal(component_type, entity_id);
        proof {
            let before = old(self)@;
            let after = before.detach(entity_id, component_type);
            lemma_detach_consistent(before, entity_id, component_type);
            assert(self@.entity_index =~~= after.entity_index);
            assert(self@.component_index =~~= after.component_index);
            assert(self@.components =~~= after.components);
            assert(self@ =~~= after);
        }
        Ok(())
    }

    /// Removes `entity_id`: every component it holds leaves the pool and the
    /// type index, the listeners for removals of each of their types are
    /// told once, and the entity leaves the entity index. Its handle is
    /// never handed out again. Fails with `EntityNotFound`, and changes
    /// nothing, where the entity does not exist.
    pub fn remove_entity(&mut self, entity_id: EntityID) -> (outcome: Result<(), ComponentErrors>)
        requires
            old(self).wf(),
        ensures
            final(self).wf(),
            outcome == old(self)@.remove_entity_outcome(entity_id),
            outcome is Ok ==> final(self)@ == old(self)@.remove_entity(entity_id),
            outcome is Err ==> final(self)@ == old(self)@,
    {
        broadcast use {lemma_index_view_insert, lemma_index_view_remove};

        let ghost before = self@;
        let held = match self.entity_index.remove(&entity_id) {
            Some(held) => held,
            None => {
                proof {
                    assert(self.entity_index@ =~= old(self).entity_index@);
                }
                return Err(ComponentErrors::EntityNotFound(entity_id));
            },
        };
        let ghost pairs = held.iter().remaining();
        proof {
            assert(before.entity_index[entity_id] == held@);
            assert forall|i: int| 0 <= i < pairs.len() implies held@.contains_key(
                *(#[trigger] pairs[i]).0,
            ) && held@[*pairs[i].0] == *pairs[i].1 by {
                assert(held@.contains_key(*pairs[i].0));
            }
            assert(types_among(pairs, 0) =~= Set::empty());
            let start = before.strip(entity_id, Set::empty());
            assert(self@.entity_index =~~= start.entity_index);
            assert(self@.component_index =~~= start.component_index);
            assert(self@.components =~~= start.components);
            assert(self@.hub.removed =~~= start.hub.removed);
            assert(self@ =~~= start);
        }
        for entry in it: held.iter()
            invariant
                before.consistent(),
                before.has_entity(entity_id),
                before.entity_index[entity_id] == held@,
                it.seq() == pairs,
                pairs.no_duplicates(),
                forall|i: int|
                    0 <= i < pairs.len() ==> held@.contains_key(*(#[trigger] pairs[i]).0)
                        && held@[*pairs[i].0] == *pairs[i].1,
                self@ == before.strip(entity_id, types_among(pairs, it.index() as int)),
        {
            let (component_type, lookup_id) = entry;
            let ghost done = types_among(pairs, it.index() as int);
            let ghost current = self@;
            proof {
                assert(entry == pairs[it.index() as int]);
                assert(!done.contains(*component_type)) by {
                    if done.contains(*component_type) {
                        let j = choose|j: int|
                            0 <= j < it.index() && *(#[trigger] pairs[j]).0 == *component_type;
                        assert(pairs[j] == pairs[it.index() as int]);
                    }
                }
                assert(types_among(pairs, it.index() + 1) =~= done.insert(*component_type)) by {
                    assert forall|t: ComponentType|
                        done.insert(*component_type).contains(t) implies types_among(
                        pairs,
                        it.index() + 1,
                    ).contains(t) by {
                        if t == *component_type {
                            assert(*pairs[it.index() as int].0 == t);
                        } else {
                            let j = choose|j: int| 0 <= j < it.index() && *(#[trigger] pairs[j]).0 == t;
                            assert(*pairs[j].0 == t);
                        }
                    }
                }
                assert(before.has_component(entity_id, *component_type));
                assert(before.slot_of(entity_id, *component_type) == *lookup_id);
                assert(before.lists(*component_type, entity_id));
                assert(current.component_index[*component_type]
                    == before.component_index[*component_type]);
                assert(self.component_index@.contains_key(*component_type)) by {
                    lemma_index_view_entries(self.component_index@);
                }
                assert(self.component_index@[*component_type]@.contains_key(entity_id));
                assert(before.components.contains_key(*lookup_id));
                assert(current.components.contains_key(*lookup_id));
            }
            // The three failures below would mean that the indices and the
            // pool disagree; in a consistent store none of them is reached.
            match self.component_index.entry(*component_type) {
                Entry::Occupied(entry) => {
                    if entry.into_mut().remove(&entity_id).is_none() {
                        return Err(ComponentErrors::EntityNotFound(entity_id));
                    }
                },
                Entry::Vacant(_) => {
                    return Err(ComponentErrors::ComponentNotFound(*component_type));
                },
            }
            if self.components.remove(lookup_id).is_none() {
                return Err(ComponentErrors::ComponentLookupNotFound(*lookup_id));
            }
            self.communicator.notify_of_type_removal(component_type, entity_id);
            proof {
                let after = before.strip(entity_id, done.insert(*component_type));
                assert(self@.entity_index =~~= after.entity_index);
                assert(self@.component_index =~~= current.component_index.insert(
                    *component_type,
                    before.component_index[*component_type].remove(entity_id),
                ));
                assert(self@.component_index =~~= after.component_index);
                assert(self@.components =~~= after.components);
                assert(self@.hub.removed =~~= after.hub.removed);
                assert(self@ =~~= after);
            }
        }
        proof {
            assert(types_among(pairs, pairs.len() as int) =~= held@.dom()) by {
                assert forall|t: ComponentType| held@.dom().contains(t) implies types_among(
                    pairs,
                    pairs.len() as int,
                ).contains(t) by {
                    assert(held@.contains_key(t));
                    assert(pairs.contains((&t, &held@[t])));
                    let j = choose|j: int| 0 <= j < pairs.len() && pairs[j] == (&t, &held@[t]);
                    assert(*pairs[j].0 == t);
                }
            }
            lemma_remove_entity_consistent(before, entity_id);
        }
        Ok(())
    }

    /// Registers a listener for components of `component_type` being
    /// attached. From now on each successful attachment of that type puts
    /// the entity at the end of the listener's queue.
    pub fn subscribe_to_add(&mut self, component_type: ComponentType) -> (subscription:
        Subscription)
        requires
            old(self).wf(),
        ensures
            final(self).wf(),
            subscription == old(self)@.hub.next_subscription(Channel::Added, component_type),
            final(self)@ == old(self)@.subscribe(Channel::Added, component_type),
    {
        let subscription = self.communicator.register_for_add(component_type);
        proof {
            lemma_hub_operations_consistent(old(self)@, Channel::Added, component_type, subscription);
        }
        subscription
    }

    /// Registers a listener for components of `component_type` being
    /// destroyed. From now on each detachment of that type, and each
    /// removal of an entity that holds it, puts the entity at the end of
    /// the listener's queue.
    pub fn subscribe_to_remove(&mut self, component_type: ComponentType) -> (subscription:
        Subscription)
        requires
            old(self).wf(),
        ensures
            final(self).wf(),
            subscription == old(self)@.hub.next_subscription(Channel::Removed, component_type),
            final(self)@ == old(self)@.subscribe(Channel::Removed, component_type),
    {
        let subscription = self.communicator.register_for_remove(component_type);
        proof {
            lemma_hub_operations_consistent(
                old(self)@,
                Channel::Removed,
                component_type,
                subscription,
            );
        }
        subscription
    }

    /// Hands out the events that `subscription` has not seen yet, oldest
    /// first, and empties its queue, so that a second poll right after
    /// yields nothing. A handle that this store did not give out, and that
    /// names no queue of it, yields nothing and changes nothing.
    pub fn poll(&mut self, subscription: &Subscription) -> (events: Vec<EntityID>)
        requires
            old(self).wf(),
        ensures
            final(self).wf(),
            events@ == old(self)@.hub.pending(*subscription),
            final(self)@ == old(self)@.poll(*subscription),
    {
        let events = self.communicator.poll(subscription);
        proof {
            lemma_hub_operations_consistent(
                old(self)@,
                subscription.channel,
                subscription.component_type,
                *subscription,
            );
        }
        events
    }
}

} // verus!
