//! The notification hub: per component type, the event queues of the
//! listeners that asked to hear of components being added or removed.

use crate::ecs::{ComponentType, EntityID};
use std::collections::hash_map::Entry;
use std::collections::HashMap;
use vstd::prelude::*;

verus! {

broadcast use vstd::std_specs::hash::group_hash_axioms;

/// Which of the two kinds of event a listener hears.
#[derive(Clone, Copy, PartialEq, Eq, Debug, Structural)]
pub enum Channel {
    Added,
    Removed,
}

/// What a listener keeps to poll its queue: the kind of event, the component
/// type, and the position of its queue among the queues of that type.
#[derive(Clone, Copy, PartialEq, Eq, Debug, Structural)]
pub struct Subscription {
    pub channel: Channel,
    pub component_type: ComponentType,
    pub slot: usize,
}

/// The queues of one kind of event: for each component type that has
/// listeners, their queues in order of registration. A queue holds the
/// entities whose events its listener has not polled yet, oldest first.
pub type Queues = Map<ComponentType, Seq<Seq<EntityID>>>;

/// The queues registered for `component_type`; none where nobody listens.
pub open spec fn queues_of(queues: Queues, component_type: ComponentType) -> Seq<Seq<EntityID>> {
    if queues.contains_key(component_type) {
        queues[component_type]
    } else {
        Seq::empty()
    }
}

/// The events waiting in queue `slot` of `component_type`; none where there
/// is no such queue.
pub open spec fn pending_in(queues: Queues, component_type: ComponentType, slot: int) -> Seq<
    EntityID,
> {
    if 0 <= slot < queues_of(queues, component_type).len() {
        queues_of(queues, component_type)[slot]
    } else {
        Seq::empty()
    }
}

/// `queues` with a fresh, empty queue appended for `component_type`.
pub open spec fn registered(queues: Queues, component_type: ComponentType) -> Queues {
    queues.insert(component_type, queues_of(queues, component_type).push(Seq::empty()))
}

/// `queues` after `entity_id` was pushed onto every queue of
/// `component_type`. Nothing changes where the type has no listeners.
pub open spec fn delivered(queues: Queues, component_type: ComponentType, entity_id: EntityID)
    -> Queues {
    if queues.contains_key(component_type) {
        queues.insert(
            component_type,
            Seq::new(
                queues[component_type].len(),
                |i: int| queues[component_type][i].push(entity_id),
            ),
        )
    } else {
        queues
    }
}

/// `queues` after queue `slot` of `component_type` was emptied. Nothing
/// changes where there is no such queue.
pub open spec fn drained(queues: Queues, component_type: ComponentType, slot: int) -> Queues {
    if 0 <= slot < queues_of(queues, component_type).len() {
        queues.insert(component_type, queues[component_type].update(slot, Seq::empty()))
    } else {
        queues
    }
}

/// The mathematical state of the hub.
pub struct HubView {
    pub added: Queues,
    pub removed: Queues,
}

impl HubView {
    /// The queues of `channel`.
    pub open spec fn queues(self, channel: Channel) -> Queues {
        match channel {
            Channel::Added => self.added,
            Channel::Removed => self.removed,
        }
    }

    /// The hub with `queues` in place of the queues of `channel`.
    pub open spec fn with_queues(self, channel: Channel, queues: Queues) -> HubView {
        match channel {
            Channel::Added => HubView { added: queues, removed: self.removed },
            Channel::Removed => HubView { added: self.added, removed: queues },
        }
    }

    /// The events that a poll of `subscription` would hand out.
    pub open spec fn pending(self, subscription: Subscription) -> Seq<EntityID> {
        pending_in(
            self.queues(subscription.channel),
            subscription.component_type,
            subscription.slot as int,
        )
    }

    /// The handle that the next listener on `channel` for `component_type`
    /// gets.
    pub open spec fn next_subscription(
        self,
        channel: Channel,
        component_type: ComponentType,
    ) -> Subscription {
        Subscription {
            channel,
            component_type,
            slot: queues_of(self.queues(channel), component_type).len() as usize,
        }
    }

    /// The hub after a listener was registered.
    pub open spec fn subscribe(self, channel: Channel, component_type: ComponentType) -> HubView {
        self.with_queues(channel, registered(self.queues(channel), component_type))
    }

    /// The hub after an event was handed to every listener of its type.
    pub open spec fn notify(
        self,
        channel: Channel,
        component_type: ComponentType,
        entity_id: EntityID,
    ) -> HubView {
        self.with_queues(channel, delivered(self.queues(channel), component_type, entity_id))
    }

    /// The hub after `subscription` was polled.
    pub open spec fn poll(self, subscription: Subscription) -> HubView {
        self.with_queues(
            subscription.channel,
            drained(
                self.queues(subscription.channel),
                subscription.component_type,
                subscription.slot as int,
            ),
        )
    }
}

/// The contents of the queues of one component type.
spec fn contents(queues: Seq<Vec<EntityID>>) -> Seq<Seq<EntityID>> {
    Seq::new(queues.len(), |i: int| queues[i]@)
}

/// The contents of the queues of every component type.
spec fn registry_view(registry: Map<ComponentType, Vec<Vec<EntityID>>>) -> Queues {
    Map::new(
        |component_type: ComponentType| registry.contains_key(component_type),
        |component_type: ComponentType| contents(registry[component_type]@),
    )
}

/// Appends an empty queue for `component_type` and returns its position.
fn register(registry: &mut HashMap<ComponentType, Vec<Vec<EntityID>>>, component_type: ComponentType)
    -> (slot: usize)
    ensures
        slot == queues_of(registry_view(old(registry)@), component_type).len(),
        registry_view(final(registry)@) == registered(registry_view(old(registry)@), component_type),
{
    let queues = registry.entry(component_type).or_insert(Vec::new());
    let slot = queues.len();
    queues.push(Vec::new());
    proof {
        assert(registry_view(final(registry)@) =~~= registered(
            registry_view(old(registry)@),
            component_type,
        ));
    }
    slot
}

/// Pushes `entity_id` onto every queue of `component_type`.
fn deliver(
    registry: &mut HashMap<ComponentType, Vec<Vec<EntityID>>>,
    component_type: &ComponentType,
    entity_id: EntityID,
)
    ensures
        registry_view(final(registry)@) == delivered(
            registry_view(old(registry)@),
            *component_type,
            entity_id,
        ),
{
    match registry.entry(*component_type) {
        Entry::Occupied(entry) => {
            let queues = entry.into_mut();
            let ghost before = queues@;
            let count = queues.len();
            let mut i: usize = 0;
            while i < count
                invariant
                    i <= count,
                    queues@.len() == count,
                    before.len() == count,
                    forall|j: int| 0 <= j < i ==> queues@[j]@ == before[j]@.push(entity_id),
                    forall|j: int| i <= j < count ==> queues@[j] == before[j],
                decreases count - i,
            {
                queues[i].push(entity_id);
                i += 1;
            }
            proof {
                assert(contents(queues@) =~= Seq::new(
                    before.len(),
                    |k: int| before[k]@.push(entity_id),
                ));
            }
        },
        Entry::Vacant(_) => {},
    }
    proof {
        assert(registry_view(final(registry)@) =~~= delivered(
            registry_view(old(registry)@),
            *component_type,
            entity_id,
        ));
    }
}

/// Empties queue `slot` of `component_type` and returns what it held.
fn drain(
    registry: &mut HashMap<ComponentType, Vec<Vec<EntityID>>>,
    component_type: &ComponentType,
    slot: usize,
) -> (events: Vec<EntityID>)
    ensures
        events@ == pending_in(registry_view(old(registry)@), *component_type, slot as int),
        registry_view(final(registry)@) == drained(
            registry_view(old(registry)@),
            *component_type,
            slot as int,
        ),
{
    let events = match registry.entry(*component_type) {
        Entry::Occupied(entry) => {
            let queues = entry.into_mut();
            let mut events: Vec<EntityID> = Vec::new();
            if slot < queues.len() {
                core::mem::swap(&mut queues[slot], &mut events);
            }
            events
        },
        Entry::Vacant(_) => Vec::new(),
    };
    proof {
        assert(registry_view(final(registry)@) =~~= drained(
            registry_view(old(registry)@),
            *component_type,
            slot as int,
        ));
    }
    events
}

/// The notification hub. It fans events out to the queues of the listeners
/// of their component type and knows nothing of who polls them.
pub struct ChaosCommunicator {
    component_added_queues: HashMap<ComponentType, Vec<Vec<EntityID>>>,
    component_removed_queues: HashMap<ComponentType, Vec<Vec<EntityID>>>,
}

impl View for ChaosCommunicator {
    type V = HubView;

    closed spec fn view(&self) -> HubView {
        HubView {
            added: registry_view(self.component_added_queues@),
            removed: registry_view(self.component_removed_queues@),
        }
    }
}

impl ChaosCommunicator {
    /// A hub without listeners.
    pub fn new() -> (hub: ChaosCommunicator)
        ensures
            hub@ == (HubView { added: Map::empty(), removed: Map::empty() }),
    {
        let hub = ChaosCommunicator {
            component_added_queues: HashMap::new(),
            component_removed_queues: HashMap::new(),
        };
        proof {
            assert(hub@.added =~~= Map::empty());
            assert(hub@.removed =~~= Map::empty());
        }
        hub
    }

    /// Registers a listener for components of `component_type` being added.
    /// Its queue starts empty.
    pub fn register_for_add(&mut self, component_type: ComponentType) -> (subscription:
        Subscription)
        ensures
            subscription == old(self)@.next_subscription(Channel::Added, component_type),
            final(self)@ == old(self)@.subscribe(Channel::Added, component_type),
    {
        let slot = register(&mut self.component_added_queues, component_type);
        Subscription { channel: Channel::Added, component_type, slot }
    }

    /// Registers a listener for components of `component_type` being
    /// removed. Its queue starts empty.
    pub fn register_for_remove(&mut self, component_type: ComponentType) -> (subscription:
        Subscription)
        ensures
            subscription == old(self)@.next_subscription(Channel::Removed, component_type),
            final(self)@ == old(self)@.subscribe(Channel::Removed, component_type),
    {
        let slot = register(&mut self.component_removed_queues, component_type);
        Subscription { channel: Channel::Removed, component_type, slot }
    }

    /// Tells every listener for additions of `component_type` that
    /// `entity_id` got such a component.
    pub fn notify_of_add(&mut self, component_type: ComponentType, entity_id: EntityID)
        ensures
            final(self)@ == old(self)@.notify(Channel::Added, component_type, entity_id),
    {
        self.notify_of_type_add(&component_type, entity_id);
    }

    /// As `notify_of_add`, for a component type held by reference.
    pub fn notify_of_type_add(&mut self, component_type: &ComponentType, entity_id: EntityID)
        ensures
            final(self)@ == old(self)@.notify(Channel::Added, *component_type, entity_id),
    {
        deliver(&mut self.component_added_queues, component_type, entity_id);
    }

    /// Tells every listener for removals of `component_type` that
    /// `entity_id` lost such a component.
    pub fn notify_of_removal(&mut self, component_type: ComponentType, entity_id: EntityID)
        ensures
            final(self)@ == old(self)@.notify(Channel::Removed, component_type, entity_id),
    {
        self.notify_of_type_removal(&component_type, entity_id);
    }

    /// As `notify_of_removal`, for a component type held by reference.
    pub fn notify_of_type_removal(&mut self, component_type: &ComponentType, entity_id: EntityID)
        ensures
            final(self)@ == old(self)@.notify(Channel::Removed, *component_type, entity_id),
    {
        deliver(&mut self.component_removed_queues, component_type, entity_id);
    }

    /// Hands out the events waiting for `subscription`, oldest first, and
    /// empties its queue. A handle that names no queue of this hub yields
    /// nothing and changes nothing.
    pub fn poll(&mut self, subscription: &Subscription) -> (events: Vec<EntityID>)
        ensures
            events@ == old(self)@.pending(*subscription),
            final(self)@ == old(self)@.poll(*subscription),
    {
        match subscription.channel {
            Channel::Added => drain(
                &mut self.component_added_queues,
                &subscription.component_type,
                subscription.slot,
            ),
            Channel::Removed => drain(
                &mut self.component_removed_queues,
                &subscription.component_type,
                subscription.slot,
            ),
        }
    }
}

} // verus!
