use chaos_engine::ecs::communicator::{Channel, ChaosCommunicator, Subscription};
use chaos_engine::ecs::manager::ChaosComponentManager;
use chaos_engine::ecs::{ComponentType, EntityID};

const HEALTH: ComponentType = 20;
const ARMOUR: ComponentType = 21;

#[derive(Clone, PartialEq, Debug)]
struct Points(u32);

fn nothing() -> Vec<EntityID> {
    Vec::new()
}

#[test]
fn add_listener_hears_one_attach_then_nothing() {
    let mut cm = ChaosComponentManager::default();
    let listener = cm.subscribe_to_add(HEALTH);
    let e0 = cm.create_entity();
    assert!(cm.add_component(e0, HEALTH, Points(100)).is_ok());
    assert_eq!(cm.poll(&listener), vec![e0]);
    assert_eq!(cm.poll(&listener), nothing());
}

#[test]
fn add_listener_hears_each_attach_in_call_order() {
    let mut cm = ChaosComponentManager::default();
    let listener = cm.subscribe_to_add(HEALTH);
    let e0 = cm.create_entity();
    let e1 = cm.create_entity();
    let e2 = cm.create_entity();
    assert!(cm.add_component(e2, HEALTH, Points(1)).is_ok());
    assert!(cm.add_component(e0, HEALTH, Points(2)).is_ok());
    assert!(cm.add_component(e1, ARMOUR, Points(3)).is_ok());
    assert!(cm.add_component(e1, HEALTH, Points(4)).is_ok());
    assert!(cm.add_component(e0, HEALTH, Points(5)).is_ok());
    assert!(cm.add_component(50, HEALTH, Points(6)).is_err());
    assert_eq!(cm.poll(&listener), vec![e2, e0, e1, e0]);
}

#[test]
fn add_listener_hears_nothing_of_other_types() {
    let mut cm = ChaosComponentManager::default();
    let listener = cm.subscribe_to_add(HEALTH);
    let e0 = cm.create_entity();
    assert!(cm.add_component(e0, ARMOUR, Points(3)).is_ok());
    assert_eq!(cm.poll(&listener), nothing());
}

#[test]
fn listener_hears_nothing_from_before_it_was_registered() {
    let mut cm = ChaosComponentManager::default();
    let e0 = cm.create_entity();
    assert!(cm.add_component(e0, HEALTH, Points(3)).is_ok());
    let listener = cm.subscribe_to_add(HEALTH);
    assert_eq!(cm.poll(&listener), nothing());
}

#[test]
fn every_listener_of_a_type_hears_every_event() {
    let mut cm = ChaosComponentManager::default();
    let first = cm.subscribe_to_add(HEALTH);
    let e0 = cm.create_entity();
    assert!(cm.add_component(e0, HEALTH, Points(1)).is_ok());
    let second = cm.subscribe_to_add(HEALTH);
    let e1 = cm.create_entity();
    assert!(cm.add_component(e1, HEALTH, Points(2)).is_ok());
    assert_eq!(cm.poll(&second), vec![e1]);
    assert_eq!(cm.poll(&first), vec![e0, e1]);
    assert_eq!(cm.poll(&second), nothing());
}

#[test]
fn remove_listener_hears_detach_and_entity_removal() {
    let mut cm = ChaosComponentManager::default();
    let gone = cm.subscribe_to_remove(HEALTH);
    let added = cm.subscribe_to_add(HEALTH);
    let e0 = cm.create_entity();
    let e1 = cm.create_entity();
    let e2 = cm.create_entity();
    assert!(cm.add_component(e0, HEALTH, Points(1)).is_ok());
    assert!(cm.add_component(e1, HEALTH, Points(2)).is_ok());
    assert!(cm.add_component(e1, ARMOUR, Points(3)).is_ok());
    assert!(cm.add_component(e2, ARMOUR, Points(4)).is_ok());
    assert_eq!(cm.poll(&gone), nothing());
    assert_eq!(cm.remove_component(e0, HEALTH), Ok(()));
    assert_eq!(cm.remove_entity(e1), Ok(()));
    assert_eq!(cm.remove_entity(e2), Ok(()));
    assert!(cm.remove_component(e0, HEALTH).is_err());
    assert!(cm.remove_entity(e1).is_err());
    assert_eq!(cm.poll(&gone), vec![e0, e1]);
    assert_eq!(cm.poll(&gone), nothing());
    assert_eq!(cm.poll(&added), vec![e0, e1]);
}

#[test]
fn entity_removal_tells_the_listeners_of_each_type_once() {
    let mut cm = ChaosComponentManager::default();
    let health_gone = cm.subscribe_to_remove(HEALTH);
    let armour_gone = cm.subscribe_to_remove(ARMOUR);
    let e0 = cm.create_entity();
    assert!(cm.add_component(e0, HEALTH, Points(1)).is_ok());
    assert!(cm.add_component(e0, ARMOUR, Points(2)).is_ok());
    assert_eq!(cm.remove_entity(e0), Ok(()));
    assert_eq!(cm.poll(&health_gone), vec![e0]);
    assert_eq!(cm.poll(&armour_gone), vec![e0]);
}

#[test]
fn replacing_a_component_announces_an_addition_and_no_removal() {
    let mut cm = ChaosComponentManager::default();
    let added = cm.subscribe_to_add(HEALTH);
    let gone = cm.subscribe_to_remove(HEALTH);
    let e0 = cm.create_entity();
    assert!(cm.add_component(e0, HEALTH, Points(1)).is_ok());
    assert!(cm.add_component(e0, HEALTH, Points(2)).is_ok());
    assert_eq!(cm.poll(&added), vec![e0, e0]);
    assert_eq!(cm.poll(&gone), nothing());
}

#[test]
fn subscriptions_are_numbered_per_channel_and_type() {
    let mut cm = ChaosComponentManager::<Points>::default();
    assert_eq!(
        cm.subscribe_to_add(HEALTH),
        Subscription { channel: Channel::Added, component_type: HEALTH, slot: 0 }
    );
    assert_eq!(
        cm.subscribe_to_add(HEALTH),
        Subscription { channel: Channel::Added, component_type: HEALTH, slot: 1 }
    );
    assert_eq!(
        cm.subscribe_to_remove(HEALTH),
        Subscription { channel: Channel::Removed, component_type: HEALTH, slot: 0 }
    );
    assert_eq!(
        cm.subscribe_to_add(ARMOUR),
        Subscription { channel: Channel::Added, component_type: ARMOUR, slot: 0 }
    );
}

#[test]
fn polling_a_handle_that_names_no_queue_yields_nothing() {
    let mut cm = ChaosComponentManager::default();
    let listener = cm.subscribe_to_add(HEALTH);
    let e0 = cm.create_entity();
    assert!(cm.add_component(e0, HEALTH, Points(1)).is_ok());
    let stray = Subscription { channel: Channel::Added, component_type: HEALTH, slot: 5 };
    assert_eq!(cm.poll(&stray), nothing());
    let other = Subscription { channel: Channel::Removed, component_type: ARMOUR, slot: 0 };
    assert_eq!(cm.poll(&other), nothing());
    assert_eq!(cm.poll(&listener), vec![e0]);
}

#[test]
fn notifying_without_listeners_does_nothing() {
    let mut hub = ChaosCommunicator::new();
    hub.notify_of_add(HEALTH, 1);
    hub.notify_of_removal(HEALTH, 1);
    let listener = hub.register_for_add(HEALTH);
    assert_eq!(hub.poll(&listener), nothing());
}

#[test]
fn hub_delivers_to_the_listeners_of_the_type_and_channel() {
    let mut hub = ChaosCommunicator::new();
    let added = hub.register_for_add(HEALTH);
    let removed = hub.register_for_remove(HEALTH);
    let other = hub.register_for_add(ARMOUR);
    hub.notify_of_add(HEALTH, 4);
    hub.notify_of_type_add(&HEALTH, 5);
    hub.notify_of_removal(HEALTH, 6);
    hub.notify_of_type_removal(&HEALTH, 7);
    hub.notify_of_type_add(&ARMOUR, 8);
    assert_eq!(hub.poll(&added), vec![4, 5]);
    assert_eq!(hub.poll(&removed), vec![6, 7]);
    assert_eq!(hub.poll(&other), vec![8]);
    assert_eq!(hub.poll(&added), nothing());
}
