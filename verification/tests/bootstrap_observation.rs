use torq::bootstrap_observer::{bootstrap_phase_event, BootstrapObserverState, ObserverAction};
use torq::control::{TorBootstrapPhase, TorControlError};
use torq::domain::{ControlAvailability, TorEvent};

fn phase(progress: u8) -> TorBootstrapPhase {
    TorBootstrapPhase::new(progress, Some("conn".to_string()), None)
}

fn check_forward_progress() {
    assert_eq!(
        bootstrap_phase_event(None, &phase(15)),
        Some(TorEvent::Bootstrap(15))
    );
    assert_eq!(bootstrap_phase_event(Some(15), &phase(15)), None);
    assert_eq!(bootstrap_phase_event(Some(40), &phase(20)), None);
    assert_eq!(
        bootstrap_phase_event(Some(40), &phase(41)),
        Some(TorEvent::Bootstrap(41))
    );
}

#[test]
fn manager_bootstrap_phase_event_only_emits_forward_progress() {
    check_forward_progress();
}

#[test]
fn tests_bootstrap_phase_event_only_emits_forward_progress() {
    check_forward_progress();
}

fn refused() -> TorControlError {
    TorControlError::Connect {
        host: "127.0.0.1".to_string(),
        port: 9051,
        source: "connection refused".to_string(),
    }
}

#[test]
fn first_successful_poll_announces_availability_then_progress() {
    let mut observer = BootstrapObserverState::new();
    let (events, action) = observer.on_poll(Ok(phase(10)));
    assert_eq!(
        events,
        vec![
            TorEvent::ControlAvailabilityChanged(ControlAvailability::Available),
            TorEvent::BootstrapObservationAvailabilityChanged(ControlAvailability::Available),
            TorEvent::Bootstrap(10),
        ]
    );
    assert_eq!(action, ObserverAction::PollAgain);

    let (events, _) = observer.on_poll(Ok(phase(10)));
    assert!(events.is_empty());
    let (events, _) = observer.on_poll(Ok(phase(5)));
    assert!(events.is_empty());
    let (events, action) = observer.on_poll(Ok(phase(100)));
    assert_eq!(events, vec![TorEvent::Bootstrap(100)]);
    assert_eq!(action, ObserverAction::Finish);
}

#[test]
fn failed_poll_marks_control_unavailable_and_warns_once() {
    let mut observer = BootstrapObserverState::new();
    observer.on_poll(Ok(phase(30)));

    let (events, action) = observer.on_poll(Err(refused()));
    let warning = "bootstrap observation via ControlPort is unavailable: failed to connect to Tor ControlPort at 127.0.0.1:9051: connection refused";
    assert_eq!(
        events,
        vec![
            TorEvent::ControlAvailabilityChanged(ControlAvailability::Unavailable),
            TorEvent::BootstrapObservationAvailabilityChanged(ControlAvailability::Unavailable),
            TorEvent::Warning(warning.to_string()),
        ]
    );
    assert_eq!(action, ObserverAction::Reconnect);

    let (events, action) = observer.on_poll(Err(refused()));
    assert!(events.is_empty());
    assert_eq!(action, ObserverAction::Reconnect);

    // A different failure warns again, without repeating availability.
    let (events, _) = observer.on_poll(Err(TorControlError::Io("reset".to_string())));
    assert_eq!(
        events,
        vec![TorEvent::Warning(
            "bootstrap observation via ControlPort is unavailable: ControlPort I/O error: reset"
                .to_string()
        )]
    );

    // Recovery announces availability again; progress resumes only forward.
    let (events, _) = observer.on_poll(Ok(phase(30)));
    assert_eq!(
        events,
        vec![
            TorEvent::ControlAvailabilityChanged(ControlAvailability::Available),
            TorEvent::BootstrapObservationAvailabilityChanged(ControlAvailability::Available),
        ]
    );
}

#[test]
fn first_failure_only_warns_since_nothing_was_available() {
    let mut observer = BootstrapObserverState::new();
    let (events, _) = observer.on_poll(Err(TorControlError::MissingConfig));
    assert_eq!(
        events,
        vec![TorEvent::Warning(
            "bootstrap observation via ControlPort is unavailable: Tor ControlPort is not configured in TorRuntimeConfig".to_string()
        )]
    );
}
