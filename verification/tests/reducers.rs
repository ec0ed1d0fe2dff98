use torq::domain::{ControlAvailability, RuntimeStatus, TorError, TorEvent, TorState};
use torq::runtime_state::{TorRuntimeSnapshot, TorRuntimeSnapshotReducer};
use torq::state::{apply_event, reduce_events, TorStateReducer};
use torq::state_store::store_event;

#[test]
fn started_moves_to_starting() {
    let mut state = TorState::default();

    apply_event(&mut state, &TorEvent::Started).unwrap();

    assert_eq!(state.status(), RuntimeStatus::Starting);
    assert_eq!(state.bootstrap(), 0);
}

#[test]
fn bootstrap_hundred_marks_running() {
    let mut state = TorState::default();

    TorStateReducer::apply_event(&mut state, &TorEvent::Bootstrap(100)).unwrap();

    assert_eq!(state.status(), RuntimeStatus::Running);
    assert_eq!(state.bootstrap(), 100);
}

#[test]
fn bootstrap_above_hundred_is_rejected() {
    let mut state = TorState::default();

    assert!(TorStateReducer::apply_event(&mut state, &TorEvent::Bootstrap(101)).is_err());
    assert_eq!(state, TorState::stopped());
}

#[test]
fn stopped_resets_state() {
    let mut state = TorState::running();

    apply_event(&mut state, &TorEvent::Stopped).unwrap();

    assert_eq!(state, TorState::stopped());
}

#[test]
fn crash_moves_to_failed_state() {
    let mut state = TorState::starting(42).unwrap();

    apply_event(&mut state, &TorEvent::Crashed("boom".to_string())).unwrap();

    assert_eq!(state, TorState::failed());
}

#[test]
fn reduce_events_applies_sequence() {
    let state = reduce_events(vec![
        TorEvent::Started,
        TorEvent::Bootstrap(8),
        TorEvent::Bootstrap(100),
    ])
    .unwrap();

    assert_eq!(state.status(), RuntimeStatus::Running);
    assert_eq!(state.bootstrap(), 100);
}

#[test]
fn snapshot_defaults_to_unconfigured_control_without_config() {
    let snapshot = TorRuntimeSnapshot::new(false);

    assert_eq!(snapshot.tor().status(), RuntimeStatus::Stopped);
    assert_eq!(snapshot.control().port(), ControlAvailability::Unconfigured);
    assert_eq!(
        snapshot.control().bootstrap_observation(),
        ControlAvailability::Unconfigured
    );
    assert!(!snapshot.new_identity_available());
    assert!(!snapshot.uses_control_bootstrap_observation());
}

#[test]
fn reducer_keeps_tor_and_control_state_separate() {
    let mut snapshot = TorRuntimeSnapshot::new(true);

    for event in [
        TorEvent::Started,
        TorEvent::ControlAvailabilityChanged(ControlAvailability::Available),
        TorEvent::BootstrapObservationAvailabilityChanged(ControlAvailability::Available),
        TorEvent::Bootstrap(45),
        TorEvent::ControlAvailabilityChanged(ControlAvailability::Unavailable),
    ] {
        TorRuntimeSnapshotReducer::apply_event(&mut snapshot, &event).unwrap();
    }

    assert_eq!(snapshot.tor().status(), RuntimeStatus::Starting);
    assert_eq!(snapshot.tor().bootstrap(), 45);
    assert_eq!(snapshot.control().port(), ControlAvailability::Unavailable);
    assert_eq!(
        snapshot.control().bootstrap_observation(),
        ControlAvailability::Available
    );
    assert!(!snapshot.new_identity_available());
    assert!(snapshot.uses_control_bootstrap_observation());
}

#[test]
fn reducer_resets_configured_control_to_unavailable_when_session_ends() {
    let mut snapshot = TorRuntimeSnapshot::new(true);

    for event in [
        TorEvent::Started,
        TorEvent::ControlAvailabilityChanged(ControlAvailability::Available),
        TorEvent::BootstrapObservationAvailabilityChanged(ControlAvailability::Available),
        TorEvent::Bootstrap(100),
        TorEvent::Stopped,
    ] {
        TorRuntimeSnapshotReducer::apply_event(&mut snapshot, &event).unwrap();
    }

    assert_eq!(snapshot.tor().status(), RuntimeStatus::Stopped);
    assert_eq!(snapshot.control().port(), ControlAvailability::Unavailable);
    assert_eq!(
        snapshot.control().bootstrap_observation(),
        ControlAvailability::Unavailable
    );
}

#[test]
fn reduce_events_stops_at_first_refused_event() {
    let result = reduce_events(vec![
        TorEvent::Started,
        TorEvent::Bootstrap(150),
        TorEvent::Bootstrap(100),
    ]);
    assert_eq!(result.unwrap_err(), TorError::InvalidBootstrap(150));
}

#[test]
fn reduce_in_two_parts_equals_reduce_at_once() {
    // Reducing a concatenation equals reducing its parts one after another.
    let whole = reduce_events(vec![
        TorEvent::Started,
        TorEvent::Bootstrap(30),
        TorEvent::Warning("careful".to_string()),
        TorEvent::Bootstrap(100),
    ])
    .unwrap();
    let mut state = reduce_events(vec![TorEvent::Started, TorEvent::Bootstrap(30)]).unwrap();
    for event in [
        TorEvent::Warning("careful".to_string()),
        TorEvent::Bootstrap(100),
    ] {
        apply_event(&mut state, &event).unwrap();
    }
    assert_eq!(whole, state);
}

#[test]
fn session_end_never_leaves_control_available() {
    for end in [
        TorEvent::Stopped,
        TorEvent::StartFailed("no binary".to_string()),
        TorEvent::Crashed("segfault".to_string()),
    ] {
        let mut snapshot = TorRuntimeSnapshot::new(true);
        for event in [
            TorEvent::Started,
            TorEvent::ControlAvailabilityChanged(ControlAvailability::Available),
        ] {
            TorRuntimeSnapshotReducer::apply_event(&mut snapshot, &event).unwrap();
        }
        TorRuntimeSnapshotReducer::apply_event(&mut snapshot, &end).unwrap();
        assert_eq!(snapshot.control().port(), ControlAvailability::Unavailable);
        assert_eq!(
            snapshot.control().bootstrap_observation(),
            ControlAvailability::Unavailable
        );
    }
    let mut unconfigured = TorRuntimeSnapshot::new(false);
    TorRuntimeSnapshotReducer::apply_event(&mut unconfigured, &TorEvent::Started).unwrap();
    TorRuntimeSnapshotReducer::apply_event(&mut unconfigured, &TorEvent::Stopped).unwrap();
    assert_eq!(unconfigured.control().port(), ControlAvailability::Unconfigured);
}

#[test]
fn refused_snapshot_event_changes_nothing() {
    let mut snapshot = TorRuntimeSnapshot::new(true);
    let before = snapshot;
    assert_eq!(
        TorRuntimeSnapshotReducer::apply_event(&mut snapshot, &TorEvent::Bootstrap(101)),
        Err(TorError::InvalidBootstrap(101))
    );
    assert_eq!(snapshot, before);
}

#[test]
fn store_publishes_only_changes() {
    let mut current = TorRuntimeSnapshot::new(true);

    let started = store_event(&mut current, &TorEvent::Started);
    assert_eq!(started.tor.unwrap().status(), RuntimeStatus::Starting);
    assert_eq!(started.snapshot, Some(current));

    let control = store_event(
        &mut current,
        &TorEvent::ControlAvailabilityChanged(ControlAvailability::Available),
    );
    assert!(control.tor.is_none());
    assert_eq!(control.snapshot.unwrap().control().port(), ControlAvailability::Available);

    let log = store_event(&mut current, &TorEvent::LogLine("hello".to_string()));
    assert!(log.tor.is_none());
    assert!(log.snapshot.is_none());

    let before = current;
    let refused = store_event(&mut current, &TorEvent::Bootstrap(120));
    assert!(refused.tor.is_none());
    assert!(refused.snapshot.is_none());
    assert_eq!(current, before);
}
