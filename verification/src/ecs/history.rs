//! Sequences of operations on the store, for stating what holds of a store
//! whatever is done to it.

use crate::ecs::communicator::{Channel, Subscription};
use crate::ecs::model::StoreView;
use crate::ecs::{ComponentType, EntityID, LookupID};
use vstd::prelude::*;

verus! {

/// One call of an operation of the store that can change it.
pub enum Operation<C> {
    /// `create_entity`.
    CreateEntity,
    /// `add_component`.
    Attach { entity_id: EntityID, component_type: ComponentType, value: C },
    /// `add_renderable_component`.
    AttachRenderable { entity_id: EntityID, component_type: ComponentType, value: C },
    /// `remove_component`.
    Detach { entity_id: EntityID, component_type: ComponentType },
    /// `remove_entity`.
    RemoveEntity { entity_id: EntityID },
    /// `get_component_mut`, and `value` written where it points.
    Write { entity_id: EntityID, component_type: ComponentType, value: C },
    /// `subscribe_to_add` or `subscribe_to_remove`.
    Subscribe { channel: Channel, component_type: ComponentType },
    /// `poll`.
    Poll { subscription: Subscription },
}

impl<C> StoreView<C> {
    /// The store has the handle left that `operation` needs.
    pub open spec fn permits(self, operation: Operation<C>) -> bool {
        match operation {
            Operation::CreateEntity => self.next_entity < EntityID::MAX,
            Operation::Attach { .. } => self.next_lookup < LookupID::MAX,
            Operation::AttachRenderable { .. } => self.next_lookup < LookupID::MAX,
            _ => true,
        }
    }

    /// The store after `operation`. An operation that fails leaves the
    /// store as it was, but that `add_renderable_component` notes the type
    /// first.
    pub open spec fn after(self, operation: Operation<C>) -> StoreView<C> {
        match operation {
            Operation::CreateEntity => self.create_entity(),
            Operation::Attach { entity_id, component_type, value } => {
                if self.has_entity(entity_id) {
                    self.attach(entity_id, component_type, value)
                } else {
                    self
                }
            },
            Operation::AttachRenderable { entity_id, component_type, value } => {
                if self.has_entity(entity_id) {
                    self.note_renderable(component_type).attach(entity_id, component_type, value)
                } else {
                    self.note_renderable(component_type)
                }
            },
            Operation::Detach { entity_id, component_type } => {
                if self.has_component(entity_id, component_type) {
                    self.detach(entity_id, component_type)
                } else {
                    self
                }
            },
            Operation::RemoveEntity { entity_id } => {
                if self.has_entity(entity_id) {
                    self.remove_entity(entity_id)
                } else {
                    self
                }
            },
            Operation::Write { entity_id, component_type, value } => {
                if self.has_component(entity_id, component_type) {
                    self.with_value(self.slot_of(entity_id, component_type), value)
                } else {
                    self
                }
            },
            Operation::Subscribe { channel, component_type } => self.subscribe(
                channel,
                component_type,
            ),
            Operation::Poll { subscription } => self.poll(subscription),
        }
    }

    /// Each of `operations`, done in order from this store on, finds the
    /// handle left that it needs.
    pub open spec fn permits_all(self, operations: Seq<Operation<C>>) -> bool
        decreases operations.len(),
    {
        operations.len() == 0 || (self.permits(operations.first()) && self.after(
            operations.first(),
        ).permits_all(operations.drop_first()))
    }

    /// The store after `operations` were done in order.
    pub open spec fn after_all(self, operations: Seq<Operation<C>>) -> StoreView<C>
        decreases operations.len(),
    {
        if operations.len() == 0 {
            self
        } else {
            self.after(operations.first()).after_all(operations.drop_first())
        }
    }

    /// The entities that `operation` announces on `channel` to the
    /// listeners for `component_type`: the entity of a successful
    /// attachment of that type on the channel of additions; on the channel
    /// of removals the entity of a successful detachment of that type, and
    /// an entity that is removed while it holds a component of that type.
    pub open spec fn announced(
        self,
        operation: Operation<C>,
        channel: Channel,
        component_type: ComponentType,
    ) -> Seq<EntityID> {
        match operation {
            Operation::Attach { entity_id, component_type: attached, .. } => {
                if channel == Channel::Added && attached == component_type && self.has_entity(
                    entity_id,
                ) {
                    seq![entity_id]
                } else {
                    Seq::empty()
                }
            },
            Operation::AttachRenderable { entity_id, component_type: attached, .. } => {
                if channel == Channel::Added && attached == component_type && self.has_entity(
                    entity_id,
                ) {
                    seq![entity_id]
                } else {
                    Seq::empty()
                }
            },
            Operation::Detach { entity_id, component_type: detached } => {
                if channel == Channel::Removed && detached == component_type
                    && self.has_component(entity_id, component_type) {
                    seq![entity_id]
                } else {
                    Seq::empty()
                }
            },
            Operation::RemoveEntity { entity_id } => {
                if channel == Channel::Removed && self.has_component(entity_id, component_type) {
                    seq![entity_id]
                } else {
                    Seq::empty()
                }
            },
            _ => Seq::empty(),
        }
    }

    /// What `operations`, done in order from this store on, announce on
    /// `channel` to the listeners for `component_type`, in the order of the
    /// calls.
    pub open spec fn announced_by_all(
        self,
        operations: Seq<Operation<C>>,
        channel: Channel,
        component_type: ComponentType,
    ) -> Seq<EntityID>
        decreases operations.len(),
    {
        if operations.len() == 0 {
            Seq::empty()
        } else {
            self.announced(operations.first(), channel, component_type) + self.after(
                operations.first(),
            ).announced_by_all(operations.drop_first(), channel, component_type)
        }
    }
}

/// None of `operations` polls `subscription`.
pub open spec fn leaves_alone<C>(operations: Seq<Operation<C>>, subscription: Subscription)
    -> bool {
    forall|i: int|
        0 <= i < operations.len() ==> #[trigger] operations[i] != (Operation::<C>::Poll {
            subscription,
        })
}

} // verus!
