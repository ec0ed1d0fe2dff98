use torq::config::TorRuntimeConfig;
use torq::control::{TorControlAuth, TorControlConfig, TorControlError};
use torq::domain::{ControlAvailability, TorCommand, TorEvent};
use torq::supervisor::{
    exit_event, AfterStop, Effect, ExitOutcome, Supervisor, SupervisorInput, SupervisorMode,
};

fn plain_config() -> TorRuntimeConfig {
    TorRuntimeConfig::new("tor.exe", "tor.log")
}

fn control_config() -> TorRuntimeConfig {
    plain_config().with_control(TorControlConfig::localhost(9051, TorControlAuth::Null))
}

fn running(config: TorRuntimeConfig) -> Supervisor {
    let mut supervisor = Supervisor::new(config).unwrap();
    assert_eq!(
        supervisor.step(SupervisorInput::Command(TorCommand::Start)),
        vec![Effect::StartSession]
    );
    assert_eq!(supervisor.mode(), SupervisorMode::Starting);
    assert_eq!(
        supervisor.step(SupervisorInput::SessionStarted(Ok(()))),
        vec![Effect::Publish(TorEvent::Started)]
    );
    assert_eq!(supervisor.mode(), SupervisorMode::Running);
    supervisor
}

#[test]
fn invalid_config_is_refused_up_front() {
    let error = Supervisor::new(TorRuntimeConfig::new(" ", "tor.log")).unwrap_err();
    assert_eq!(error.message(), "tor_path must not be empty");
}

#[test]
fn start_while_running_only_warns() {
    let mut supervisor = running(plain_config());
    assert_eq!(
        supervisor.step(SupervisorInput::Command(TorCommand::Start)),
        vec![Effect::Publish(TorEvent::Warning(
            "tor is already running".to_string()
        ))]
    );
    assert_eq!(supervisor.mode(), SupervisorMode::Running);
}

#[test]
fn stop_and_new_identity_without_session_warn() {
    let mut supervisor = Supervisor::new(plain_config()).unwrap();
    for command in [TorCommand::Stop, TorCommand::NewIdentity] {
        assert_eq!(
            supervisor.step(SupervisorInput::Command(command)),
            vec![Effect::Publish(TorEvent::Warning("tor is not running".to_string()))]
        );
        assert_eq!(supervisor.mode(), SupervisorMode::Idle);
    }
}

#[test]
fn new_identity_requires_control_port() {
    let mut supervisor = running(plain_config());
    assert_eq!(
        supervisor.step(SupervisorInput::Command(TorCommand::NewIdentity)),
        vec![Effect::Publish(TorEvent::Warning(
            "new identity requires ControlPort configuration".to_string()
        ))]
    );
}

#[test]
fn new_identity_success_and_failure() {
    let mut supervisor = running(control_config());
    assert_eq!(
        supervisor.step(SupervisorInput::Command(TorCommand::NewIdentity)),
        vec![Effect::SignalNewIdentity]
    );
    assert_eq!(
        supervisor.step(SupervisorInput::IdentityRenewed(Ok(()))),
        vec![
            Effect::Publish(TorEvent::ControlAvailabilityChanged(
                ControlAvailability::Available
            )),
            Effect::Publish(TorEvent::IdentityRenewed),
        ]
    );
    supervisor.step(SupervisorInput::Command(TorCommand::NewIdentity));
    assert_eq!(
        supervisor.step(SupervisorInput::IdentityRenewed(Err(
            TorControlError::CommandFailed {
                code: 552,
                message: "Unrecognized signal".to_string(),
            }
        ))),
        vec![
            Effect::Publish(TorEvent::ControlAvailabilityChanged(
                ControlAvailability::Unavailable
            )),
            Effect::Publish(TorEvent::Error(
                "failed to request new identity via ControlPort: Tor ControlPort command failed with code 552: Unrecognized signal".to_string()
            )),
        ]
    );
    assert_eq!(supervisor.mode(), SupervisorMode::Running);
}

#[test]
fn failed_start_leaves_no_session() {
    let mut supervisor = Supervisor::new(plain_config()).unwrap();
    supervisor.step(SupervisorInput::Command(TorCommand::Start));
    assert_eq!(
        supervisor.step(SupervisorInput::SessionStarted(Err(
            "failed to spawn tor process at tor.exe".to_string()
        ))),
        vec![Effect::Publish(TorEvent::StartFailed(
            "failed to spawn tor process at tor.exe".to_string()
        ))]
    );
    assert_eq!(supervisor.mode(), SupervisorMode::Idle);
}

#[test]
fn stop_then_stopped() {
    let mut supervisor = running(plain_config());
    assert_eq!(
        supervisor.step(SupervisorInput::Command(TorCommand::Stop)),
        vec![Effect::StopSession]
    );
    assert_eq!(supervisor.mode(), SupervisorMode::Stopping(AfterStop::Idle));
    assert_eq!(
        supervisor.step(SupervisorInput::SessionStopped(Ok(()))),
        vec![Effect::Publish(TorEvent::Stopped)]
    );
    assert_eq!(supervisor.mode(), SupervisorMode::Idle);
}

#[test]
fn failed_stop_keeps_the_session() {
    let mut supervisor = running(plain_config());
    supervisor.step(SupervisorInput::Command(TorCommand::Restart));
    assert_eq!(
        supervisor.step(SupervisorInput::SessionStopped(Err(
            "timed out while waiting for tor to exit".to_string()
        ))),
        vec![Effect::Publish(TorEvent::Error(
            "timed out while waiting for tor to exit".to_string()
        ))]
    );
    assert_eq!(supervisor.mode(), SupervisorMode::Running);
}

#[test]
fn restart_stops_then_starts() {
    let mut supervisor = running(plain_config());
    assert_eq!(
        supervisor.step(SupervisorInput::Command(TorCommand::Restart)),
        vec![Effect::StopSession]
    );
    assert_eq!(
        supervisor.step(SupervisorInput::SessionStopped(Ok(()))),
        vec![Effect::Publish(TorEvent::Stopped), Effect::StartSession]
    );
    assert_eq!(supervisor.mode(), SupervisorMode::Starting);

    let mut idle = Supervisor::new(plain_config()).unwrap();
    assert_eq!(
        idle.step(SupervisorInput::Command(TorCommand::Restart)),
        vec![Effect::StartSession]
    );
}

#[test]
fn process_exit_releases_then_reports() {
    let mut supervisor = running(plain_config());
    assert_eq!(
        supervisor.step(SupervisorInput::ProcessExited(ExitOutcome::Failure(
            "exit status: 1".to_string()
        ))),
        vec![
            Effect::ReleaseSession,
            Effect::Publish(TorEvent::Crashed(
                "tor exited unexpectedly with status: exit status: 1".to_string()
            )),
        ]
    );
    assert_eq!(supervisor.mode(), SupervisorMode::Idle);
    assert_eq!(exit_event(&ExitOutcome::Success), TorEvent::Stopped);
    assert_eq!(
        exit_event(&ExitOutcome::WaitFailed("interrupted".to_string())),
        TorEvent::Crashed("failed to wait for tor process: interrupted".to_string())
    );
}

#[test]
fn closing_stops_the_session_and_ends() {
    let mut supervisor = running(plain_config());
    assert_eq!(
        supervisor.step(SupervisorInput::CommandsClosed),
        vec![Effect::StopSession]
    );
    assert_eq!(
        supervisor.step(SupervisorInput::SessionStopped(Err("gone".to_string()))),
        vec![Effect::Close]
    );
    assert_eq!(supervisor.mode(), SupervisorMode::Closed);
    assert!(supervisor
        .step(SupervisorInput::Command(TorCommand::Start))
        .is_empty());

    let mut idle = Supervisor::new(plain_config()).unwrap();
    assert_eq!(idle.step(SupervisorInput::CommandsClosed), vec![Effect::Close]);
}

#[test]
fn config_changes_only_while_idle() {
    let mut supervisor = Supervisor::new(plain_config()).unwrap();
    let next = TorRuntimeConfig::new("other-tor.exe", "other.log").with_use_torrc(true);
    assert_eq!(
        supervisor.update_config(next),
        Err("torrc_path must not be empty".to_string())
    );
    assert_eq!(supervisor.config().tor_path, "tor.exe");
    let next = TorRuntimeConfig::new("other-tor.exe", "other.log");
    assert_eq!(supervisor.update_config(next), Ok(()));
    assert_eq!(supervisor.config().tor_path, "other-tor.exe");

    let mut busy = running(plain_config());
    assert_eq!(
        busy.update_config(TorRuntimeConfig::new("x", "y")),
        Err("runtime config cannot be changed while Tor is Starting or Running".to_string())
    );
    assert_eq!(busy.config().tor_path, "tor.exe");
}

#[test]
fn unexpected_inputs_change_nothing() {
    let mut supervisor = Supervisor::new(control_config()).unwrap();
    assert!(supervisor
        .step(SupervisorInput::SessionStarted(Ok(())))
        .is_empty());
    assert!(supervisor
        .step(SupervisorInput::ProcessExited(ExitOutcome::Success))
        .is_empty());
    assert_eq!(supervisor.mode(), SupervisorMode::Idle);
    assert!(supervisor.control_configured());
}
