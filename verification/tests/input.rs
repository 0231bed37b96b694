use chaos_engine::commands::cmd::{CommandType, EXIT_CMD};
use chaos_engine::input::events::{
    ChaosDeviceDetailedEvent, ChaosDeviceEvent, ChaosDeviceEventRegistration,
    ChaosDeviceEventState, KeyCode,
};
use chaos_engine::input::manager::{ChaosDeviceEventManager, MULTI_PRESS_TIME_IN_MS};
use std::time::Instant;

const TEST_CMD: CommandType = 77;
const OTHER_CMD: CommandType = 78;

const ESCAPE: KeyCode = 36;
const SPACE: KeyCode = 76;

#[test]
fn initialized_command_manager_has_exit_cmd_registered_for_close_requested() {
    let event_manager = ChaosDeviceEventManager::new();
    assert!(event_manager.is_registered_event(&ChaosDeviceEvent::CloseRequested));
}

#[test]
fn single_button_click_can_be_registered() {
    let mut event_manager = ChaosDeviceEventManager::new();
    assert!(!event_manager.is_registered_event(&ChaosDeviceEvent::KeyPress(ESCAPE)));

    event_manager.register_single_key_press(TEST_CMD, ESCAPE);
    assert!(event_manager.is_registered_event(&ChaosDeviceEvent::KeyPress(ESCAPE)));
}

#[test]
fn multi_button_click_can_be_registered() {
    let mut event_manager = ChaosDeviceEventManager::new();
    assert!(!event_manager.is_registered_event(&ChaosDeviceEvent::KeyPress(ESCAPE)));

    event_manager.register_multi_key_press(TEST_CMD, ESCAPE, 2);
    assert!(event_manager.is_registered_event(&ChaosDeviceEvent::KeyPress(ESCAPE)));
}

#[test]
fn any_event_can_be_manually_registered() {
    let mut event_manager = ChaosDeviceEventManager::new();
    assert!(!event_manager.is_registered_event(&ChaosDeviceEvent::Focused));

    event_manager.register_command(TEST_CMD, ChaosDeviceEventRegistration::Focused);
    assert!(event_manager.is_registered_event(&ChaosDeviceEvent::Focused));
}

#[test]
fn cmd_is_returned_from_get_commands_when_event_matches_single_key_press() {
    let mut event_manager = ChaosDeviceEventManager::new();
    event_manager.register_single_key_press(TEST_CMD, ESCAPE);
    let commands =
        event_manager.get_commands(&vec![ChaosDeviceDetailedEvent::KeyPress(ESCAPE, true)]);
    assert!(commands.contains(&TEST_CMD));
}

#[test]
fn cmd_is_returned_from_get_commands_when_event_matches_multi_key_press() {
    let mut event_manager = ChaosDeviceEventManager::new();
    event_manager.register_multi_key_press(TEST_CMD, ESCAPE, 2);

    let commands =
        event_manager.get_commands(&vec![ChaosDeviceDetailedEvent::KeyPress(ESCAPE, true)]);
    assert!(!commands.contains(&TEST_CMD));
    let commands =
        event_manager.get_commands(&vec![ChaosDeviceDetailedEvent::KeyPress(ESCAPE, false)]);
    assert!(!commands.contains(&TEST_CMD));
    let commands =
        event_manager.get_commands(&vec![ChaosDeviceDetailedEvent::KeyPress(ESCAPE, true)]);
    assert!(commands.contains(&TEST_CMD));
}

#[test]
fn closing_the_window_raises_the_exit_command() {
    let mut event_manager = ChaosDeviceEventManager::new();
    let commands = event_manager.get_commands(&vec![
        ChaosDeviceDetailedEvent::Focused,
        ChaosDeviceDetailedEvent::CloseRequested,
    ]);
    assert_eq!(commands, vec![EXIT_CMD]);
}

#[test]
fn a_second_registration_for_one_event_is_refused() {
    let mut event_manager = ChaosDeviceEventManager::new();
    assert!(!event_manager.register_command(TEST_CMD, ChaosDeviceEventRegistration::CloseRequested));
    assert!(event_manager.register_single_key_press(TEST_CMD, ESCAPE));
    assert!(!event_manager.register_single_key_press(OTHER_CMD, ESCAPE));
    assert!(!event_manager.register_multi_key_press(OTHER_CMD, ESCAPE, 2));
    assert!(!event_manager.register_command(OTHER_CMD, ChaosDeviceEventRegistration::KeyPress(ESCAPE)));
    assert!(event_manager.register_multi_key_press(OTHER_CMD, SPACE, 3));
    let commands =
        event_manager.get_commands(&vec![ChaosDeviceDetailedEvent::KeyPress(ESCAPE, true)]);
    assert_eq!(commands, vec![TEST_CMD]);
}

#[test]
fn keys_are_told_apart() {
    let mut event_manager = ChaosDeviceEventManager::new();
    assert!(event_manager.register_single_key_press(TEST_CMD, ESCAPE));
    assert!(!event_manager.is_registered_event(&ChaosDeviceEvent::KeyPress(SPACE)));
    let commands =
        event_manager.get_commands(&vec![ChaosDeviceDetailedEvent::KeyPress(SPACE, true)]);
    assert_eq!(commands, Vec::<CommandType>::new());
}

#[test]
fn single_key_press_fires_on_press_and_not_on_release() {
    let mut event_manager = ChaosDeviceEventManager::new();
    event_manager.register_single_key_press(TEST_CMD, ESCAPE);
    let now = Instant::now();
    let down = ChaosDeviceDetailedEvent::KeyPress(ESCAPE, true);
    let up = ChaosDeviceDetailedEvent::KeyPress(ESCAPE, false);
    assert_eq!(event_manager.get_command_at(&down, now, 1000), Some(TEST_CMD));
    assert_eq!(event_manager.get_command_at(&up, now, 1000), None);
    assert_eq!(event_manager.get_command_at(&down, now, 0), Some(TEST_CMD));
}

#[test]
fn multi_key_press_counts_presses_in_quick_succession_only() {
    let mut event_manager = ChaosDeviceEventManager::new();
    event_manager.register_multi_key_press(TEST_CMD, ESCAPE, 2);
    let now = Instant::now();
    let down = ChaosDeviceDetailedEvent::KeyPress(ESCAPE, true);
    let up = ChaosDeviceDetailedEvent::KeyPress(ESCAPE, false);
    assert_eq!(MULTI_PRESS_TIME_IN_MS, 300);
    assert_eq!(event_manager.get_command_at(&down, now, 299), None);
    assert_eq!(event_manager.get_command_at(&up, now, 0), None);
    assert_eq!(event_manager.get_command_at(&down, now, 300), None);
    assert_eq!(event_manager.get_command_at(&up, now, 0), None);
    assert_eq!(event_manager.get_command_at(&down, now, 299), Some(TEST_CMD));
    assert_eq!(event_manager.get_command_at(&up, now, 0), None);
    assert_eq!(event_manager.get_command_at(&down, now, 10), None);
    assert_eq!(event_manager.get_command_at(&up, now, 0), None);
    assert_eq!(event_manager.get_command_at(&down, now, 10), Some(TEST_CMD));
}

#[test]
fn a_command_registered_by_hand_for_a_key_fires_on_press_and_release() {
    let mut event_manager = ChaosDeviceEventManager::new();
    assert!(event_manager.register_command(TEST_CMD, ChaosDeviceEventRegistration::KeyPress(ESCAPE)));
    let commands = event_manager.get_commands(&vec![
        ChaosDeviceDetailedEvent::KeyPress(ESCAPE, true),
        ChaosDeviceDetailedEvent::KeyPress(ESCAPE, false),
    ]);
    assert_eq!(commands, vec![TEST_CMD, TEST_CMD]);
}

#[test]
fn a_registration_for_a_change_of_size_is_looked_up_as_unrecognized() {
    let mut event_manager = ChaosDeviceEventManager::new();
    assert!(event_manager.register_command(TEST_CMD, ChaosDeviceEventRegistration::Resized));
    assert!(event_manager.is_registered_event(&ChaosDeviceEvent::Unrecognized));
    let commands = event_manager.get_commands(&vec![ChaosDeviceDetailedEvent::Unrecognized]);
    assert_eq!(commands, vec![TEST_CMD]);
}

#[test]
fn events_compare_by_kind_only() {
    assert!(ChaosDeviceEvent::KeyPress(ESCAPE) == ChaosDeviceEvent::KeyPress(SPACE));
    assert!(ChaosDeviceEvent::Focused == ChaosDeviceEvent::Focused);
    assert!(ChaosDeviceEvent::Focused != ChaosDeviceEvent::Unfocused);
    assert!(ChaosDeviceEvent::KeyPress(ESCAPE) != ChaosDeviceEvent::Unrecognized);
    assert!(ChaosDeviceEvent::KeyPress(ESCAPE).is_same_as(&ChaosDeviceEvent::KeyPress(ESCAPE)));
    assert!(!ChaosDeviceEvent::KeyPress(ESCAPE).is_same_as(&ChaosDeviceEvent::KeyPress(SPACE)));
    assert!(!ChaosDeviceEvent::Suspended.is_same_as(&ChaosDeviceEvent::Reanimated));
}

#[test]
fn detailed_events_compare_by_kind_key_and_direction() {
    assert_eq!(
        ChaosDeviceDetailedEvent::KeyPress(ESCAPE, true),
        ChaosDeviceDetailedEvent::KeyPress(ESCAPE, true)
    );
    assert_ne!(
        ChaosDeviceDetailedEvent::KeyPress(ESCAPE, true),
        ChaosDeviceDetailedEvent::KeyPress(ESCAPE, false)
    );
    assert_ne!(
        ChaosDeviceDetailedEvent::KeyPress(ESCAPE, true),
        ChaosDeviceDetailedEvent::KeyPress(SPACE, true)
    );
    assert_ne!(ChaosDeviceDetailedEvent::Focused, ChaosDeviceDetailedEvent::Unfocused);
}

#[test]
fn detailed_event_loses_its_details() {
    assert!(ChaosDeviceEvent::from(ChaosDeviceDetailedEvent::KeyPress(ESCAPE, false))
        .is_same_as(&ChaosDeviceEvent::KeyPress(ESCAPE)));
    assert!(ChaosDeviceEvent::from(&ChaosDeviceDetailedEvent::KeyPress(SPACE, true))
        .is_same_as(&ChaosDeviceEvent::KeyPress(SPACE)));
    assert!(ChaosDeviceEvent::from(ChaosDeviceDetailedEvent::CloseRequested)
        .is_same_as(&ChaosDeviceEvent::CloseRequested));
    assert!(ChaosDeviceEvent::from(&ChaosDeviceDetailedEvent::Suspended)
        .is_same_as(&ChaosDeviceEvent::Suspended));
    assert!(ChaosDeviceEvent::from(ChaosDeviceDetailedEvent::Unrecognized)
        .is_same_as(&ChaosDeviceEvent::Unrecognized));
}

#[test]
fn registration_names_the_event_that_sets_it_off() {
    assert_eq!(
        ChaosDeviceDetailedEvent::from(ChaosDeviceEventRegistration::KeyPress(ESCAPE)),
        ChaosDeviceDetailedEvent::KeyPress(ESCAPE, true)
    );
    assert_eq!(
        ChaosDeviceDetailedEvent::from(ChaosDeviceEventRegistration::MultiKeyPress(ESCAPE, 3)),
        ChaosDeviceDetailedEvent::KeyPress(ESCAPE, true)
    );
    assert_eq!(
        ChaosDeviceDetailedEvent::from(ChaosDeviceEventRegistration::Reanimated),
        ChaosDeviceDetailedEvent::Reanimated
    );
    assert_eq!(
        ChaosDeviceDetailedEvent::from(ChaosDeviceEventRegistration::Resized),
        ChaosDeviceDetailedEvent::Unrecognized
    );
}

#[test]
fn registration_compares_with_the_events_it_is_for() {
    let key = ChaosDeviceEventRegistration::KeyPress(ESCAPE);
    assert!(key == ChaosDeviceDetailedEvent::KeyPress(ESCAPE, true));
    assert!(key == ChaosDeviceDetailedEvent::KeyPress(ESCAPE, false));
    assert!(key != ChaosDeviceDetailedEvent::KeyPress(SPACE, true));
    assert!(ChaosDeviceEventRegistration::MultiKeyPress(ESCAPE, 2)
        != ChaosDeviceDetailedEvent::KeyPress(ESCAPE, true));
    assert!(ChaosDeviceEventRegistration::Focused == ChaosDeviceDetailedEvent::Focused);
    assert!(ChaosDeviceEventRegistration::Focused != ChaosDeviceDetailedEvent::Unfocused);
    assert!(ChaosDeviceEventRegistration::Resized != ChaosDeviceDetailedEvent::Unrecognized);
    assert_eq!(
        ChaosDeviceEventRegistration::MultiKeyPress(ESCAPE, 2),
        ChaosDeviceEventRegistration::MultiKeyPress(ESCAPE, 2)
    );
    assert_ne!(
        ChaosDeviceEventRegistration::MultiKeyPress(ESCAPE, 2),
        ChaosDeviceEventRegistration::MultiKeyPress(ESCAPE, 3)
    );
}

#[test]
fn key_state_follows_presses_and_releases() {
    let now = Instant::now();
    let single = ChaosDeviceEventRegistration::KeyPress(ESCAPE);
    let triple = ChaosDeviceEventRegistration::MultiKeyPress(ESCAPE, 3);
    let mut state = ChaosDeviceEventState::new_multi(ESCAPE, 3);
    assert!(!state.fulfils(&single));
    state.update_at(&ChaosDeviceDetailedEvent::KeyPress(SPACE, true), now, 0, 300);
    assert!(!state.fulfils(&single));
    state.update_at(&ChaosDeviceDetailedEvent::Focused, now, 0, 300);
    assert!(!state.fulfils(&single));
    state.update_at(&ChaosDeviceDetailedEvent::KeyPress(ESCAPE, true), now, 0, 300);
    assert!(state.fulfils(&single));
    assert!(!state.fulfils(&triple));
    assert!(!state.fulfils(&ChaosDeviceEventRegistration::KeyPress(SPACE)));
    assert!(!state.fulfils(&ChaosDeviceEventRegistration::Focused));
    state.update_at(&ChaosDeviceDetailedEvent::KeyPress(ESCAPE, false), now, 0, 300);
    assert!(!state.fulfils(&single));
    state.update_at(&ChaosDeviceDetailedEvent::KeyPress(ESCAPE, true), now, 299, 300);
    assert!(!state.fulfils(&triple));
    state.update_at(&ChaosDeviceDetailedEvent::KeyPress(ESCAPE, false), now, 0, 300);
    state.update_at(&ChaosDeviceDetailedEvent::KeyPress(ESCAPE, true), now, 1, 300);
    assert!(state.fulfils(&triple));
    assert!(state.fulfils(&single));
}

#[test]
fn key_state_reads_the_clock_for_its_own_key_only() {
    let mut state = ChaosDeviceEventState::new_single(ESCAPE);
    state.update(&ChaosDeviceDetailedEvent::KeyPress(SPACE, true), 300);
    assert!(!state.fulfils(&ChaosDeviceEventRegistration::KeyPress(ESCAPE)));
    state.update(&ChaosDeviceDetailedEvent::KeyPress(ESCAPE, true), 300);
    assert!(state.fulfils(&ChaosDeviceEventRegistration::KeyPress(ESCAPE)));
    state.update(&ChaosDeviceDetailedEvent::KeyPress(ESCAPE, false), 300);
    assert!(!state.fulfils(&ChaosDeviceEventRegistration::KeyPress(ESCAPE)));
}

#[test]
fn key_states_are_equal_where_they_are_of_one_key() {
    assert!(ChaosDeviceEventState::new_single(ESCAPE) == ChaosDeviceEventState::new_multi(ESCAPE, 4));
    assert!(ChaosDeviceEventState::new_single(ESCAPE) != ChaosDeviceEventState::new_single(SPACE));
}

#[test]
fn a_press_that_comes_late_starts_a_new_count() {
    let mut event_manager = ChaosDeviceEventManager::new();
    event_manager.register_multi_key_press(TEST_CMD, ESCAPE, 2);
    let down = vec![ChaosDeviceDetailedEvent::KeyPress(ESCAPE, true)];
    let up = vec![ChaosDeviceDetailedEvent::KeyPress(ESCAPE, false)];

    assert!(!event_manager.get_commands(&down).contains(&TEST_CMD));
    assert!(!event_manager.get_commands(&up).contains(&TEST_CMD));
    let released = Instant::now();
    while released.elapsed().as_millis() < MULTI_PRESS_TIME_IN_MS + 50 {
        std::hint::spin_loop();
    }
    assert!(!event_manager.get_commands(&down).contains(&TEST_CMD));
    assert!(!event_manager.get_commands(&up).contains(&TEST_CMD));
    assert!(event_manager.get_commands(&down).contains(&TEST_CMD));
}
