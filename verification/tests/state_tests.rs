use heater_control::state::{
    expire_remote, HeaterControlState, StateError, REMOTE_CHECKIN_INTERVAL_MS,
};

#[test]
fn boot_state_is_off_with_zero_duty() {
    let state = HeaterControlState::new();
    assert!(state.is_off());
    assert!(!state.is_manual());
    assert!(!state.is_remote());
    assert_eq!(state.duty(), 0);
    assert_eq!(state.remote_id(), None);
    assert_eq!(state.remote_expires(), None);
}

#[test]
fn manual_transition_sets_duty_and_ownership() {
    let mut state = HeaterControlState::new();
    state.transition_to_manual(50);
    assert!(state.is_manual());
    assert_eq!(state.duty(), 50);
}

#[test]
fn off_is_reachable_from_any_state() {
    let mut state = HeaterControlState::new();
    state.transition_to_off();
    assert!(state.is_off());

    state.transition_to_manual(30);
    state.transition_to_off();
    assert!(state.is_off());

    state.transition_to_remote(String::from("dev1"), 1_000);
    state.transition_to_off();
    assert!(state.is_off());
}

#[test]
fn remote_init_records_id_and_expiry() {
    let mut state = HeaterControlState::new();
    state.transition_to_remote(String::from("dev1"), 5_000);
    assert!(state.is_remote());
    assert_eq!(state.remote_id(), Some("dev1"));
    assert_eq!(state.remote_expires(), Some(5_000 + REMOTE_CHECKIN_INTERVAL_MS));
}

#[test]
fn remote_update_within_lease_succeeds_and_renews() {
    let mut state = HeaterControlState::new();
    state.transition_to_remote(String::from("dev1"), 0);
    let result = state.remote_update_duty(String::from("dev1"), 20, 10_000);
    assert!(result.is_ok());
    assert_eq!(state.duty(), 20);
    assert_eq!(state.remote_expires(), Some(10_000 + REMOTE_CHECKIN_INTERVAL_MS));
}

#[test]
fn remote_update_from_other_remote_is_a_mismatch() {
    let mut state = HeaterControlState::new();
    state.transition_to_remote(String::from("dev1"), 0);
    let result = state.remote_update_duty(String::from("dev2"), 20, 10_000);
    assert!(matches!(result, Err(StateError::RemoteMismatch)));
    assert_eq!(state.duty(), 0);
    assert_eq!(state.remote_id(), Some("dev1"));
}

#[test]
fn remote_update_after_expiry_is_rejected() {
    let mut state = HeaterControlState::new();
    state.transition_to_remote(String::from("dev1"), 0);
    let expiry = state.remote_expires().unwrap();
    let result = state.remote_update_duty(String::from("dev1"), 20, expiry);
    assert!(matches!(result, Err(StateError::RemoteExpired)));
    assert!(state.is_remote());
    assert_eq!(state.duty(), 0);
}

#[test]
fn remote_update_without_initialization_is_rejected() {
    let mut state = HeaterControlState::new();
    let result = state.remote_update_duty(String::from("dev1"), 20, 0);
    assert!(matches!(result, Err(StateError::RemoteNotInitialized)));
    assert!(state.is_off());

    state.transition_to_manual(40);
    let result = state.remote_update_duty(String::from("dev1"), 20, 0);
    assert!(matches!(result, Err(StateError::RemoteNotInitialized)));
    assert!(state.is_manual());
    assert_eq!(state.duty(), 40);
}

#[test]
fn a_second_init_evicts_the_first_remote() {
    let mut state = HeaterControlState::new();
    state.transition_to_remote(String::from("dev1"), 0);
    state.transition_to_remote(String::from("dev2"), 1_000);
    assert_eq!(state.remote_id(), Some("dev2"));
    let result = state.remote_update_duty(String::from("dev1"), 20, 2_000);
    assert!(matches!(result, Err(StateError::RemoteMismatch)));
}

#[test]
fn monitor_tick_past_expiry_forces_off_and_zero_duty() {
    let mut state = HeaterControlState::new();
    state.transition_to_remote(String::from("dev1"), 0);
    state
        .remote_update_duty(String::from("dev1"), 60, 1_000)
        .unwrap();
    let expiry = state.remote_expires().unwrap();

    let expired = expire_remote(&mut state, expiry + 1);
    assert_eq!(expired.as_deref(), Some("dev1"));
    assert!(state.is_off());
    assert_eq!(state.duty(), 0);
}

#[test]
fn monitor_tick_before_expiry_changes_nothing() {
    let mut state = HeaterControlState::new();
    state.transition_to_remote(String::from("dev1"), 0);
    state
        .remote_update_duty(String::from("dev1"), 60, 1_000)
        .unwrap();
    let expiry = state.remote_expires().unwrap();

    let expired = expire_remote(&mut state, expiry - 1);
    assert_eq!(expired, None);
    assert!(state.is_remote());
    assert_eq!(state.duty(), 60);
    assert_eq!(state.remote_expires(), Some(expiry));
}

#[test]
fn monitor_tick_ignores_manual_and_off() {
    let mut state = HeaterControlState::new();
    assert_eq!(expire_remote(&mut state, u64::MAX), None);
    assert!(state.is_off());

    state.transition_to_manual(70);
    assert_eq!(expire_remote(&mut state, u64::MAX), None);
    assert!(state.is_manual());
    assert_eq!(state.duty(), 70);
}

#[test]
fn error_messages_name_their_cause() {
    assert_eq!(
        StateError::RemoteNotInitialized.message(),
        "no remote has been initialized"
    );
    assert_eq!(
        StateError::RemoteMismatch.message(),
        "the heater is being controlled by another remote"
    );
    assert_eq!(
        StateError::RemoteExpired.message(),
        "the remote failed to check in and has expired"
    );
}

#[test]
fn default_state_matches_new() {
    let state = HeaterControlState::default();
    assert!(state.is_off());
    assert_eq!(state.duty(), 0);
}
