use torq::activity::{
    next_activity_id, runtime_activity_from_event, runtime_activity_from_event_at,
    RuntimeActivityKindView, RuntimeActivityToneView,
};
use torq::domain::{ControlAvailability, TorEvent};

#[test]
fn bootstrap_events_coalesce_under_stable_key() {
    let activity = runtime_activity_from_event(&TorEvent::Bootstrap(42), 7).unwrap();

    assert_eq!(activity.id, 7);
    assert_eq!(activity.kind, RuntimeActivityKindView::Bootstrap);
    assert_eq!(activity.tone, RuntimeActivityToneView::Info);
    assert_eq!(activity.coalesce_key.as_deref(), Some("bootstrap"));
}

#[test]
fn control_availability_is_mapped_to_control_activity() {
    let activity = runtime_activity_from_event(
        &TorEvent::ControlAvailabilityChanged(ControlAvailability::Unavailable),
        3,
    )
    .unwrap();

    assert_eq!(activity.kind, RuntimeActivityKindView::Control);
    assert_eq!(activity.tone, RuntimeActivityToneView::Warning);
    assert_eq!(activity.title, "ControlPort became unavailable");
}

#[test]
fn log_lines_are_not_listed() {
    assert!(runtime_activity_from_event(&TorEvent::LogLine("x".to_string()), 1).is_none());
}

#[test]
fn bootstrap_titles_and_completion_tone() {
    let done = runtime_activity_from_event_at(&TorEvent::Bootstrap(100), 9, 1234).unwrap();
    assert_eq!(done.title, "Bootstrap: 100%");
    assert_eq!(done.tone, RuntimeActivityToneView::Success);
    assert_eq!(done.timestamp_ms, 1234);
    let early = runtime_activity_from_event_at(&TorEvent::Bootstrap(5), 10, 0).unwrap();
    assert_eq!(early.title, "Bootstrap: 5%");
    assert_eq!(early.tone, RuntimeActivityToneView::Info);
}

#[test]
fn failures_carry_their_message_as_details() {
    let crashed = runtime_activity_from_event_at(&TorEvent::Crashed("boom".to_string()), 1, 0)
        .unwrap();
    assert_eq!(crashed.title, "Tor crashed");
    assert_eq!(crashed.kind, RuntimeActivityKindView::Error);
    assert_eq!(crashed.tone, RuntimeActivityToneView::Danger);
    assert_eq!(crashed.details.as_deref(), Some("boom"));
    assert_eq!(crashed.coalesce_key, None);

    let warning = runtime_activity_from_event_at(&TorEvent::Warning("w".to_string()), 2, 0)
        .unwrap();
    assert_eq!(warning.title, "Runtime warning");
    assert_eq!(warning.kind, RuntimeActivityKindView::Warning);

    let failed = runtime_activity_from_event_at(&TorEvent::StartFailed("no".to_string()), 3, 0)
        .unwrap();
    assert_eq!(failed.title, "Tor failed to start");
    assert_eq!(failed.details.as_deref(), Some("no"));

    let error = runtime_activity_from_event_at(&TorEvent::Error("e".to_string()), 4, 0).unwrap();
    assert_eq!(error.title, "Runtime error");
}

#[test]
fn lifecycle_and_identity_entries() {
    let started = runtime_activity_from_event_at(&TorEvent::Started, 1, 0).unwrap();
    assert_eq!(started.title, "Tor started");
    assert_eq!(started.kind, RuntimeActivityKindView::Lifecycle);
    assert_eq!(started.tone, RuntimeActivityToneView::Success);
    let stopped = runtime_activity_from_event_at(&TorEvent::Stopped, 2, 0).unwrap();
    assert_eq!(stopped.title, "Tor stopped");
    assert_eq!(stopped.tone, RuntimeActivityToneView::Neutral);
    let renewed = runtime_activity_from_event_at(&TorEvent::IdentityRenewed, 3, 0).unwrap();
    assert_eq!(renewed.title, "New identity requested");
    assert_eq!(renewed.kind, RuntimeActivityKindView::Identity);
}

#[test]
fn observation_availability_entries() {
    let titles = [
        (
            ControlAvailability::Available,
            "Bootstrap observation became available",
            RuntimeActivityToneView::Success,
        ),
        (
            ControlAvailability::Unavailable,
            "Bootstrap observation became unavailable",
            RuntimeActivityToneView::Warning,
        ),
        (
            ControlAvailability::Unconfigured,
            "Bootstrap observation is unconfigured",
            RuntimeActivityToneView::Neutral,
        ),
    ];
    for (availability, title, tone) in titles {
        let entry = runtime_activity_from_event_at(
            &TorEvent::BootstrapObservationAvailabilityChanged(availability),
            1,
            0,
        )
        .unwrap();
        assert_eq!(entry.title, title);
        assert_eq!(entry.tone, tone);
        assert_eq!(entry.kind, RuntimeActivityKindView::Control);
    }
    let port = runtime_activity_from_event_at(
        &TorEvent::ControlAvailabilityChanged(ControlAvailability::Unconfigured),
        1,
        0,
    )
    .unwrap();
    assert_eq!(port.title, "ControlPort is unconfigured");
}

#[test]
fn current_time_is_after_the_epoch() {
    // 2020-01-01 in milliseconds.
    let entry = runtime_activity_from_event(&TorEvent::Started, 1).unwrap();
    assert!(entry.timestamp_ms > 1_577_836_800_000);
}

#[test]
fn activity_ids_count_up_and_saturate() {
    assert_eq!(next_activity_id(0), 1);
    assert_eq!(next_activity_id(41), 42);
    assert_eq!(next_activity_id(u64::MAX), u64::MAX);
}

#[test]
fn timestamp_falls_back_to_zero_before_the_epoch() {
    assert_eq!(torq::activity::timestamp_from_reading(Some(1234)), 1234);
    assert_eq!(torq::activity::timestamp_from_reading(None), 0);
}
