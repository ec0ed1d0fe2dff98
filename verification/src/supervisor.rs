//! Decisions of the runtime supervisor.
//!
//! The supervisor owns at most one Tor session at a time. It reacts to
//! commands, to the exit of the Tor process, to the end of the command
//! stream, and to the outcome of the work it asked for (starting a session,
//! stopping it, requesting a new identity). `Supervisor::step` maps each
//! input to the next mode and to an ordered list of effects; the caller
//! performs the effects in that order and, for the last effect of a list that
//! starts an operation, reports its outcome as the next input.
use vstd::prelude::*;
use vstd::string::*;

use crate::config::{
    invalid_field, validate_runtime_config, ConfigView, RuntimeConfigValidationError,
    TorRuntimeConfig,
};
use crate::control::{control_error_text, TorControlError};
use crate::domain::{ControlAvailability, EventView, TorCommand, TorEvent};

verus! {

/// What follows a session stop.
#[derive(Debug, Clone, Copy, PartialEq, Eq, Structural)]
pub enum AfterStop {
    /// Nothing: the supervisor goes idle (a `Stop` command).
    Idle,
    /// A new session starts (a `Restart` command).
    Start,
    /// The supervisor ends (the command stream closed).
    Close,
}

/// Where the supervisor is.
#[derive(Debug, Clone, Copy, PartialEq, Eq, Structural)]
pub enum SupervisorMode {
    /// No session; waiting for input.
    Idle,
    /// A session is being started; waiting for `SessionStarted`.
    Starting,
    /// A session runs; waiting for input.
    Running,
    /// The session is being stopped; waiting for `SessionStopped`.
    Stopping(AfterStop),
    /// A new identity is being requested; waiting for `IdentityRenewed`.
    RenewingIdentity,
    /// The supervisor has ended.
    Closed,
}

/// How the Tor process ended.
#[derive(Debug, Clone, PartialEq, Eq)]
pub enum ExitOutcome {
    /// It exited successfully.
    Success,
    /// It exited unsuccessfully; the text describes its exit status.
    Failure(String),
    /// Waiting for it failed; the text describes the error.
    WaitFailed(String),
}

/// An input to the supervisor.
#[derive(Debug, PartialEq, Eq)]
pub enum SupervisorInput {
    /// A command arrived.
    Command(TorCommand),
    /// The command stream closed.
    CommandsClosed,
    /// The Tor process of the running session ended.
    ProcessExited(ExitOutcome),
    /// Starting the session finished; the error text when it failed.
    SessionStarted(Result<(), String>),
    /// Stopping the session finished; the error text when it failed.
    SessionStopped(Result<(), String>),
    /// Requesting a new identity finished.
    IdentityRenewed(Result<(), TorControlError>),
}

/// Work the supervisor asks its caller to do, in order.
#[derive(Debug, Clone, PartialEq, Eq)]
pub enum Effect {
    /// Publish an event.
    Publish(TorEvent),
    /// Start a session with the current configuration; report
    /// `SessionStarted`.
    StartSession,
    /// Stop the session; report `SessionStopped`.
    StopSession,
    /// Stop the helpers of a session whose process has ended.
    ReleaseSession,
    /// Ask Tor for a new identity over the session's ControlPort; report
    /// `IdentityRenewed`.
    SignalNewIdentity,
    /// End the supervisor.
    Close,
}

/// The abstract effect: `Effect` with the published event by its view.
pub enum EffectView {
    Publish(EventView),
    StartSession,
    StopSession,
    ReleaseSession,
    SignalNewIdentity,
    Close,
}

impl View for Effect {
    type V = EffectView;

    open spec fn view(&self) -> EffectView {
        match self {
            Effect::Publish(e) => EffectView::Publish(e@),
            Effect::StartSession => EffectView::StartSession,
            Effect::StopSession => EffectView::StopSession,
            Effect::ReleaseSession => EffectView::ReleaseSession,
            Effect::SignalNewIdentity => EffectView::SignalNewIdentity,
            Effect::Close => EffectView::Close,
        }
    }
}

/// The views of a sequence of effects.
pub open spec fn effect_views(effects: Seq<Effect>) -> Seq<EffectView> {
    effects.map_values(|e: Effect| e@)
}

/// Publishing one event.
pub open spec fn publish(e: EventView) -> Seq<EffectView> {
    seq![EffectView::Publish(e)]
}

/// The warning for `Start` while a session runs.
pub open spec fn already_running() -> Seq<char> {
    "tor is already running"@
}

/// The warning for `Stop` or `NewIdentity` without a session.
pub open spec fn not_running() -> Seq<char> {
    "tor is not running"@
}

/// The warning for `NewIdentity` without a configured ControlPort.
pub open spec fn no_control_port() -> Seq<char> {
    "new identity requires ControlPort configuration"@
}

/// The refusal of a configuration change while a session exists.
pub open spec fn config_locked() -> Seq<char> {
    "runtime config cannot be changed while Tor is Starting or Running"@
}

/// The event published when the Tor process ends.
pub open spec fn exit_event_view(outcome: ExitOutcome) -> EventView {
    match outcome {
        ExitOutcome::Success => EventView::Stopped,
        ExitOutcome::Failure(status) => EventView::Crashed(
            "tor exited unexpectedly with status: "@ + status@,
        ),
        ExitOutcome::WaitFailed(error) => EventView::Crashed(
            "failed to wait for tor process: "@ + error@,
        ),
    }
}

/// The error published when a new identity could not be requested.
pub open spec fn identity_failure(error: TorControlError) -> Seq<char> {
    "failed to request new identity via ControlPort: "@ + control_error_text(error)
}

/// The next mode and effects for a command, given whether a ControlPort is
/// configured. Commands are only taken while idle or running; in any other
/// mode nothing happens.
pub open spec fn command_step(mode: SupervisorMode, control_configured: bool, command: TorCommand) -> (
    SupervisorMode,
    Seq<EffectView>,
) {
    match (mode, command) {
        (SupervisorMode::Idle, TorCommand::Start) => (
            SupervisorMode::Starting,
            seq![EffectView::StartSession],
        ),
        (SupervisorMode::Running, TorCommand::Start) => (
            SupervisorMode::Running,
            publish(EventView::Warning(already_running())),
        ),
        (SupervisorMode::Idle, TorCommand::Stop) => (
            SupervisorMode::Idle,
            publish(EventView::Warning(not_running())),
        ),
        (SupervisorMode::Running, TorCommand::Stop) => (
            SupervisorMode::Stopping(AfterStop::Idle),
            seq![EffectView::StopSession],
        ),
        (SupervisorMode::Idle, TorCommand::Restart) => (
            SupervisorMode::Starting,
            seq![EffectView::StartSession],
        ),
        (SupervisorMode::Running, TorCommand::Restart) => (
            SupervisorMode::Stopping(AfterStop::Start),
            seq![EffectView::StopSession],
        ),
        (SupervisorMode::Idle, TorCommand::NewIdentity) => (
            SupervisorMode::Idle,
            publish(EventView::Warning(not_running())),
        ),
        (SupervisorMode::Running, TorCommand::NewIdentity) => if control_configured {
            (SupervisorMode::RenewingIdentity, seq![EffectView::SignalNewIdentity])
        } else {
            (SupervisorMode::Running, publish(EventView::Warning(no_control_port())))
        },
        _ => (mode, Seq::empty()),
    }
}

/// The next mode and effects for an input. An input that the mode does not
/// wait for changes nothing.
pub open spec fn supervisor_step(
    mode: SupervisorMode,
    control_configured: bool,
    input: SupervisorInput,
) -> (SupervisorMode, Seq<EffectView>) {
    match input {
        SupervisorInput::Command(command) => command_step(mode, control_configured, command),
        SupervisorInput::CommandsClosed => match mode {
            SupervisorMode::Idle => (SupervisorMode::Closed, seq![EffectView::Close]),
            SupervisorMode::Running => (
                SupervisorMode::Stopping(AfterStop::Close),
                seq![EffectView::StopSession],
            ),
            _ => (mode, Seq::empty()),
        },
        SupervisorInput::ProcessExited(outcome) => match mode {
            SupervisorMode::Running => (
                SupervisorMode::Idle,
                seq![EffectView::ReleaseSession, EffectView::Publish(exit_event_view(outcome))],
            ),
            _ => (mode, Seq::empty()),
        },
        SupervisorInput::SessionStarted(result) => match mode {
            SupervisorMode::Starting => match result {
                Ok(_) => (SupervisorMode::Running, publish(EventView::Started)),
                Err(error) => (SupervisorMode::Idle, publish(EventView::StartFailed(error@))),
            },
            _ => (mode, Seq::empty()),
        },
        SupervisorInput::SessionStopped(result) => match mode {
            SupervisorMode::Stopping(after) => match result {
                Ok(_) => match after {
                    AfterStop::Idle => (SupervisorMode::Idle, publish(EventView::Stopped)),
                    AfterStop::Start => (
                        SupervisorMode::Starting,
                        seq![EffectView::Publish(EventView::Stopped), EffectView::StartSession],
                    ),
                    AfterStop::Close => (
                        SupervisorMode::Closed,
                        seq![EffectView::Publish(EventView::Stopped), EffectView::Close],
                    ),
                },
                Err(error) => match after {
                    AfterStop::Close => (SupervisorMode::Closed, seq![EffectView::Close]),
                    _ => (SupervisorMode::Running, publish(EventView::Error(error@))),
                },
            },
            _ => (mode, Seq::empty()),
        },
        SupervisorInput::IdentityRenewed(result) => match mode {
            SupervisorMode::RenewingIdentity => match result {
                Ok(_) => (
                    SupervisorMode::Running,
                    seq![
                        EffectView::Publish(
                            EventView::ControlAvailabilityChanged(ControlAvailability::Available),
                        ),
                        EffectView::Publish(EventView::IdentityRenewed),
                    ],
                ),
                Err(error) => (
                    SupervisorMode::Running,
                    seq![
                        EffectView::Publish(
                            EventView::ControlAvailabilityChanged(ControlAvailability::Unavailable),
                        ),
                        EffectView::Publish(EventView::Error(identity_failure(error))),
                    ],
                ),
            },
            _ => (mode, Seq::empty()),
        },
    }
}

/// Whether a session exists (starting, running, being stopped, or renewing
/// its identity).
pub open spec fn session_exists(mode: SupervisorMode) -> bool {
    !(mode is Idle || mode is Closed)
}

/// The abstract supervisor: its mode and the configuration it starts
/// sessions with.
pub struct SupervisorModel {
    pub mode: SupervisorMode,
    pub config: ConfigView,
}

/// The supervisor's state. Its configuration is always valid.
#[derive(Debug)]
pub struct Supervisor {
    mode: SupervisorMode,
    config: TorRuntimeConfig,
}

impl View for Supervisor {
    type V = SupervisorModel;

    closed spec fn view(&self) -> SupervisorModel {
        SupervisorModel { mode: self.mode, config: self.config@ }
    }
}

/// The event published when the Tor process ends.
pub fn exit_event(outcome: &ExitOutcome) -> (e: TorEvent)
    ensures
        e@ == exit_event_view(*outcome),
{
    match outcome {
        ExitOutcome::Success => TorEvent::Stopped,
        ExitOutcome::Failure(status) => TorEvent::Crashed(
            String::from_str("tor exited unexpectedly with status: ").concat(status.as_str()),
        ),
        ExitOutcome::WaitFailed(error) => TorEvent::Crashed(
            String::from_str("failed to wait for tor process: ").concat(error.as_str()),
        ),
    }
}

impl Supervisor {
    #[verifier::type_invariant]
    closed spec fn inv(self) -> bool {
        invalid_field(self.config@) is None
    }

    /// An idle supervisor for `config`, refused when the configuration is
    /// invalid.
    pub fn new(config: TorRuntimeConfig) -> (r: Result<Self, RuntimeConfigValidationError>)
        ensures
            r is Ok <==> invalid_field(config@) is None,
            r matches Ok(s) ==> s@ == (SupervisorModel { mode: SupervisorMode::Idle, config: config@ }),
            invalid_field(config@) matches Some(f) ==> (r matches Err(
                RuntimeConfigValidationError::EmptyField { field },
            ) && field@ == f),
    {
        match validate_runtime_config(&config) {
            Ok(()) => Ok(Supervisor { mode: SupervisorMode::Idle, config }),
            Err(e) => Err(e),
        }
    }

    /// The current mode.
    pub fn mode(&self) -> (m: SupervisorMode)
        ensures
            m == self@.mode,
    {
        self.mode
    }

    /// The configuration sessions are started with; always valid.
    pub fn config(&self) -> (c: &TorRuntimeConfig)
        ensures
            c@ == self@.config,
            invalid_field(c@) is None,
    {
        proof {
            use_type_invariant(self);
        }
        &self.config
    }

    /// Whether a ControlPort is configured.
    pub fn control_configured(&self) -> (b: bool)
        ensures
            b == (self@.config.control is Some),
    {
        self.config.control.is_some()
    }

    /// Replaces the configuration. Refused while a session exists, and when
    /// the new configuration is invalid (with the validation message); the
    /// configuration is unchanged when refused.
    pub fn update_config(&mut self, next: TorRuntimeConfig) -> (r: Result<(), String>)
        ensures
            final(self)@.mode == old(self)@.mode,
            session_exists(old(self)@.mode) ==> (r matches Err(m) && m@ == config_locked()),
            !session_exists(old(self)@.mode) ==> (r is Ok <==> invalid_field(next@) is None),
            !session_exists(old(self)@.mode) ==> (invalid_field(next@) matches Some(f) ==> (
            r matches Err(m) && m@ == f + " must not be empty"@)),
            r is Ok ==> final(self)@.config == next@,
            r is Err ==> final(self)@.config == old(self)@.config,
    {
        proof {
            use_type_invariant(&*self);
        }
        if !matches!(self.mode, SupervisorMode::Idle | SupervisorMode::Closed) {
            return Err(
                String::from_str("runtime config cannot be changed while Tor is Starting or Running"),
            );
        }
        match validate_runtime_config(&next) {
            Ok(()) => {
                self.config = next;
                Ok(())
            },
            Err(e) => Err(e.message()),
        }
    }

    /// Handles one input: moves to the next mode and returns the effects to
    /// perform, in order.
    pub fn step(&mut self, input: SupervisorInput) -> (effects: Vec<Effect>)
        ensures
            final(self)@.config == old(self)@.config,
            final(self)@.mode == supervisor_step(
                old(self)@.mode,
                old(self)@.config.control is Some,
                input,
            ).0,
            effect_views(effects@) == supervisor_step(
                old(self)@.mode,
                old(self)@.config.control is Some,
                input,
            ).1,
    {
        proof {
            use_type_invariant(&*self);
        }
        let mode = self.mode;
        let configured = self.config.control.is_some();
        let (next, effects) = Self::transition(mode, configured, input);
        self.mode = next;
        effects
    }

    fn transition(mode: SupervisorMode, configured: bool, input: SupervisorInput) -> (r: (
        SupervisorMode,
        Vec<Effect>,
    ))
        ensures
            r.0 == supervisor_step(mode, configured, input).0,
            effect_views(r.1@) == supervisor_step(mode, configured, input).1,
    {
        let mut effects: Vec<Effect> = Vec::new();
        let next = match input {
            SupervisorInput::Command(command) => match (mode, command) {
                (SupervisorMode::Idle, TorCommand::Start) | (
                    SupervisorMode::Idle,
                    TorCommand::Restart,
                ) => {
                    effects.push(Effect::StartSession);
                    SupervisorMode::Starting
                },
                (SupervisorMode::Running, TorCommand::Start) => {
                    effects.push(
                        Effect::Publish(
                            TorEvent::Warning(String::from_str("tor is already running")),
                        ),
                    );
                    SupervisorMode::Running
                },
                (SupervisorMode::Idle, TorCommand::Stop) | (
                    SupervisorMode::Idle,
                    TorCommand::NewIdentity,
                ) => {
                    effects.push(
                        Effect::Publish(TorEvent::Warning(String::from_str("tor is not running"))),
                    );
                    SupervisorMode::Idle
                },
                (SupervisorMode::Running, TorCommand::Stop) => {
                    effects.push(Effect::StopSession);
                    SupervisorMode::Stopping(AfterStop::Idle)
                },
                (SupervisorMode::Running, TorCommand::Restart) => {
                    effects.push(Effect::StopSession);
                    SupervisorMode::Stopping(AfterStop::Start)
                },
                (SupervisorMode::Running, TorCommand::NewIdentity) => {
                    if configured {
                        effects.push(Effect::SignalNewIdentity);
                        SupervisorMode::RenewingIdentity
                    } else {
                        effects.push(
                            Effect::Publish(
                                TorEvent::Warning(
                                    String::from_str(
                                        "new identity requires ControlPort configuration",
                                    ),
                                ),
                            ),
                        );
                        SupervisorMode::Running
                    }
                },
                _ => mode,
            },
            SupervisorInput::CommandsClosed => match mode {
                SupervisorMode::Idle => {
                    effects.push(Effect::Close);
                    SupervisorMode::Closed
                },
                SupervisorMode::Running => {
                    effects.push(Effect::StopSession);
                    SupervisorMode::Stopping(AfterStop::Close)
                },
                _ => mode,
            },
            SupervisorInput::ProcessExited(outcome) => match mode {
                SupervisorMode::Running => {
                    effects.push(Effect::ReleaseSession);
                    effects.push(Effect::Publish(exit_event(&outcome)));
                    SupervisorMode::Idle
                },
                _ => mode,
            },
            SupervisorInput::SessionStarted(result) => match mode {
                SupervisorMode::Starting => match result {
                    Ok(()) => {
                        effects.push(Effect::Publish(TorEvent::Started));
                        SupervisorMode::Running
                    },
                    Err(error) => {
                        effects.push(Effect::Publish(TorEvent::StartFailed(error)));
                        SupervisorMode::Idle
                    },
                },
                _ => mode,
            },
            SupervisorInput::SessionStopped(result) => match mode {
                SupervisorMode::Stopping(after) => match result {
                    Ok(()) => {
                        effects.push(Effect::Publish(TorEvent::Stopped));
                        match after {
                            AfterStop::Idle => SupervisorMode::Idle,
                            AfterStop::Start => {
                                effects.push(Effect::StartSession);
                                SupervisorMode::Starting
                            },
                            AfterStop::Close => {
                                effects.push(Effect::Close);
                                SupervisorMode::Closed
                            },
                        }
                    },
                    Err(error) => match after {
                        AfterStop::Close => {
                            effects.push(Effect::Close);
                            SupervisorMode::Closed
                        },
                        _ => {
                            effects.push(Effect::Publish(TorEvent::Error(error)));
                            SupervisorMode::Running
                        },
                    },
                },
                _ => mode,
            },
            SupervisorInput::IdentityRenewed(result) => match mode {
                SupervisorMode::RenewingIdentity => {
                    match result {
                        Ok(()) => {
                            effects.push(
                                Effect::Publish(
                                    TorEvent::ControlAvailabilityChanged(
                                        ControlAvailability::Available,
                                    ),
                                ),
                            );
                            effects.push(Effect::Publish(TorEvent::IdentityRenewed));
                        },
                        Err(error) => {
                            effects.push(
                                Effect::Publish(
                                    TorEvent::ControlAvailabilityChanged(
                                        ControlAvailability::Unavailable,
                                    ),
                                ),
                            );
                            let text = String::from_str(
                                "failed to request new identity via ControlPort: ",
                            ).concat(error.message().as_str());
                            effects.push(Effect::Publish(TorEvent::Error(text)));
                        },
                    }
                    SupervisorMode::Running
                },
                _ => mode,
            },
        };
        proof {
            assert(effect_views(effects@) =~= supervisor_step(mode, configured, input).1);
        }
        (next, effects)
    }
}

/// The operation whose outcome a mode waits for: starting, stopping, or
/// renewing the identity; `Close` for the ended supervisor.
pub open spec fn awaited_operation(mode: SupervisorMode) -> Option<EffectView> {
    match mode {
        SupervisorMode::Starting => Some(EffectView::StartSession),
        SupervisorMode::Stopping(_) => Some(EffectView::StopSession),
        SupervisorMode::RenewingIdentity => Some(EffectView::SignalNewIdentity),
        SupervisorMode::Closed => Some(EffectView::Close),
        _ => None,
    }
}

/// Whether an effect completes at once (publishing, releasing helpers).
pub open spec fn immediate(e: EffectView) -> bool {
    e is Publish || e is ReleaseSession
}

/// At most one session at a time: a session is started only from a state
/// without one (idle, or right after the previous session stopped), and the
/// supervisor then waits for that start to finish.
pub proof fn lemma_single_session(mode: SupervisorMode, configured: bool, input: SupervisorInput)
    ensures
        supervisor_step(mode, configured, input).1.contains(EffectView::StartSession) ==> (
        supervisor_step(mode, configured, input).0 == SupervisorMode::Starting && (mode
            == SupervisorMode::Idle || (mode == SupervisorMode::Stopping(AfterStop::Start)
            && input matches SupervisorInput::SessionStopped(Ok(_))))),
{
    let effects = supervisor_step(mode, configured, input).1;
    if effects.contains(EffectView::StartSession) {
        let i = choose|i: int| 0 <= i < effects.len() && effects[i] == EffectView::StartSession;
        assert(effects[i] == EffectView::StartSession);
    }
}

/// Every step's effects are immediate except possibly the last, and the last
/// is exactly the operation the next mode waits for (if it waits for one).
pub proof fn lemma_operation_is_last(mode: SupervisorMode, configured: bool, input: SupervisorInput)
    ensures
        ({
            let (next, effects) = supervisor_step(mode, configured, input);
            &&& forall|i: int| 0 <= i < effects.len() - 1 ==> immediate(#[trigger] effects[i])
            &&& effects.len() > 0 ==> match awaited_operation(next) {
                Some(op) => effects.last() == op,
                None => immediate(effects.last()),
            }
            &&& effects.len() == 0 ==> next == mode
        }),
{
}

/// Once ended, the supervisor stays ended and does nothing.
pub proof fn lemma_closed_is_final(configured: bool, input: SupervisorInput)
    ensures
        supervisor_step(SupervisorMode::Closed, configured, input) == (
            SupervisorMode::Closed,
            Seq::<EffectView>::empty(),
        ),
{
}

/// A failed stop keeps the session running and reports the error, unless
/// the supervisor is shutting down; a failed start leaves no session.
pub proof fn lemma_failures_keep_consistent_state(
    after: AfterStop,
    configured: bool,
    error: String,
)
    ensures
        after != AfterStop::Close ==> supervisor_step(
            SupervisorMode::Stopping(after),
            configured,
            SupervisorInput::SessionStopped(Err(error)),
        ) == (SupervisorMode::Running, publish(EventView::Error(error@))),
        supervisor_step(
            SupervisorMode::Starting,
            configured,
            SupervisorInput::SessionStarted(Err(error)),
        ) == (SupervisorMode::Idle, publish(EventView::StartFailed(error@))),
{
}

} // verus!
