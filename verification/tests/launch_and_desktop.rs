use torq::config::{LogMode, TorRuntimeConfig};
use torq::desktop::{
    backend_error, config_dir_name, config_file_name, default_runtime_config,
    format_backend_init_error, load_failure_message, persist_failure_message, user_config_root,
    ConfigRoot, ConfigStoreError,
};
use torq::domain::{ControlAvailability, RuntimeStatus, TorEvent, TorState};
use torq::process::{command_arguments, prepares_log_file};
use torq::runtime_config::RuntimeConfigError;
use torq::runtime_events::{delivery, is_lossy, Delivery, RUNTIME_EVENT_QUEUE_CAPACITY};
use torq::runtime_state::{TorRuntimeSnapshot, TorRuntimeSnapshotReducer};
use torq::views::{
    ControlAvailabilityView, RuntimeStatusView, TorRuntimeSnapshotView, TorStateView,
};

#[test]
fn managed_mode_adds_log_argument_and_external_mode_does_not() {
    let managed = TorRuntimeConfig::new("tor.exe", "managed.log");
    let external =
        TorRuntimeConfig::new("tor.exe", "external.log").with_log_mode(LogMode::External);

    let managed_args = command_arguments(&managed);
    let external_args = command_arguments(&external);

    assert!(managed_args.contains(&"--Log".to_string()));
    assert!(managed_args.contains(&"notice file managed.log".to_string()));
    assert!(!external_args.contains(&"--Log".to_string()));
    assert!(!external_args.contains(&"notice file external.log".to_string()));
}

#[test]
fn extra_arguments_come_first() {
    let config = TorRuntimeConfig::new("tor", "t.log")
        .with_args(vec!["-f".to_string(), "torrc".to_string()]);
    assert_eq!(
        command_arguments(&config),
        vec!["-f", "torrc", "--Log", "notice file t.log"]
    );
    assert!(prepares_log_file(LogMode::Managed));
    assert!(!prepares_log_file(LogMode::External));
}

#[test]
fn only_log_lines_are_lossy() {
    assert_eq!(RUNTIME_EVENT_QUEUE_CAPACITY, 1024);
    assert!(is_lossy(&TorEvent::LogLine("x".to_string())));
    assert!(!is_lossy(&TorEvent::Bootstrap(3)));
    assert_eq!(delivery(&TorEvent::Started), Delivery::WaitForCapacity);
    assert_eq!(
        delivery(&TorEvent::LogLine("x".to_string())),
        Delivery::DropWhenFull
    );
}

#[test]
fn default_config_reads_environment_values() {
    let config = default_runtime_config(None, None);
    assert_eq!(config.tor_path, "tor.exe");
    assert_eq!(config.log_path, "tor.log");
    let config = default_runtime_config(Some("/bin/tor".to_string()), Some("/var/t.log".to_string()));
    assert_eq!(config.tor_path, "/bin/tor");
    assert_eq!(config.log_path, "/var/t.log");
    assert_eq!(config.log_mode, LogMode::Managed);
}

#[test]
fn config_root_precedence() {
    assert_eq!(
        user_config_root(Some("A".to_string()), Some("X".to_string()), Some("H".to_string())),
        Some(ConfigRoot::AppData("A".to_string()))
    );
    assert_eq!(
        user_config_root(None, Some("X".to_string()), Some("H".to_string())),
        Some(ConfigRoot::XdgConfigHome("X".to_string()))
    );
    assert_eq!(
        user_config_root(None, None, Some("H".to_string())),
        Some(ConfigRoot::HomeConfig("H".to_string()))
    );
    assert_eq!(user_config_root(None, None, None), None);
    assert_eq!(config_dir_name(), "torq");
    assert_eq!(config_file_name(), "torq.config.json");
}

#[test]
fn backend_error_texts() {
    assert_eq!(
        format_backend_init_error("boom"),
        "Desktop backend could not initialize. boom"
    );
    assert_eq!(
        load_failure_message("bad json"),
        "Desktop backend could not initialize. failed to load runtime config. bad json"
    );
    assert_eq!(
        backend_error(&Some("init failed".to_string()), "desktop backend is unavailable"),
        "init failed"
    );
    assert_eq!(
        backend_error(&None, "desktop backend is unavailable"),
        "desktop backend is unavailable"
    );
    assert_eq!(
        persist_failure_message("disk full", &Ok(())),
        "failed to persist runtime config. disk full"
    );
    assert_eq!(
        persist_failure_message("disk full", &Err("busy".to_string())),
        "failed to persist runtime config. disk full. runtime rollback also failed: busy"
    );
}

#[test]
fn config_store_error_texts() {
    assert_eq!(
        ConfigStoreError::Io {
            action: "write runtime config",
            path: "/c/torq.config.json".to_string(),
            source: "denied".to_string(),
        }
        .message(),
        "failed to write runtime config at /c/torq.config.json: denied"
    );
    assert_eq!(
        ConfigStoreError::from(RuntimeConfigError::empty_field("tor_path")).message(),
        "invalid runtime config: tor_path must not be empty"
    );
    assert_eq!(
        ConfigStoreError::LockPoisoned.message(),
        "runtime config store is unavailable"
    );
    assert_eq!(
        ConfigStoreError::Parse {
            path: "p".to_string(),
            source: "eof".to_string(),
        }
        .message(),
        "failed to parse runtime config at p: eof"
    );
}

#[test]
fn views_mirror_the_snapshot() {
    assert_eq!(RuntimeStatusView::from(RuntimeStatus::Failed), RuntimeStatusView::Failed);
    assert_eq!(
        ControlAvailabilityView::from(ControlAvailability::Unconfigured),
        ControlAvailabilityView::Unconfigured
    );
    assert_eq!(
        TorStateView::from(TorState::starting(12).unwrap()),
        TorStateView {
            status: RuntimeStatusView::Starting,
            bootstrap: 12
        }
    );
    let mut snapshot = TorRuntimeSnapshot::new(true);
    for event in [
        TorEvent::Started,
        TorEvent::ControlAvailabilityChanged(ControlAvailability::Available),
        TorEvent::BootstrapObservationAvailabilityChanged(ControlAvailability::Available),
    ] {
        TorRuntimeSnapshotReducer::apply_event(&mut snapshot, &event).unwrap();
    }
    let view = TorRuntimeSnapshotView::from(snapshot);
    assert_eq!(view.tor.status, RuntimeStatusView::Starting);
    assert_eq!(view.control.port, ControlAvailabilityView::Available);
    assert!(view.control_configured);
    assert!(view.control_available);
    assert!(view.bootstrap_observation_available);
    assert!(view.new_identity_available);
    assert!(view.uses_control_bootstrap_observation);
}
