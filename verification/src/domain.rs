//! Shared runtime domain types: status, commands, events, errors and the
//! invariant-bearing `TorState`.
use vstd::prelude::*;
use vstd::string::*;

use crate::text::{decimal, decimal_string};

verus! {

/// Lifecycle status of the supervised Tor process.
#[derive(Debug, Clone, Copy, PartialEq, Eq, Structural)]
pub enum RuntimeStatus {
    Stopped,
    Starting,
    Running,
    Failed,
}

/// How far a ControlPort-backed capability can be used.
#[derive(Debug, Clone, Copy, PartialEq, Eq, Structural)]
pub enum ControlAvailability {
    Unconfigured,
    Unavailable,
    Available,
}

impl ControlAvailability {
    /// Whether a ControlPort is configured at all.
    pub fn is_configured(&self) -> (b: bool)
        ensures
            b == !(*self is Unconfigured),
    {
        !matches!(self, ControlAvailability::Unconfigured)
    }

    /// Whether the ControlPort-backed capability is usable right now.
    pub fn is_available(&self) -> (b: bool)
        ensures
            b == (*self is Available),
    {
        matches!(self, ControlAvailability::Available)
    }
}

/// Commands accepted by the runtime supervisor.
#[derive(Debug, Clone, Copy, PartialEq, Eq, Structural)]
pub enum TorCommand {
    Start,
    Stop,
    Restart,
    NewIdentity,
}

/// Events emitted by the runtime: lifecycle, log, bootstrap and control.
#[derive(Debug, Clone, PartialEq, Eq)]
pub enum TorEvent {
    Started,
    Stopped,
    StartFailed(String),
    Crashed(String),
    LogLine(String),
    Bootstrap(u8),
    Warning(String),
    Error(String),
    ControlAvailabilityChanged(ControlAvailability),
    BootstrapObservationAvailabilityChanged(ControlAvailability),
    IdentityRenewed,
}

/// The abstract event: `TorEvent` with each text as its characters.
pub enum EventView {
    Started,
    Stopped,
    StartFailed(Seq<char>),
    Crashed(Seq<char>),
    LogLine(Seq<char>),
    Bootstrap(u8),
    Warning(Seq<char>),
    Error(Seq<char>),
    ControlAvailabilityChanged(ControlAvailability),
    BootstrapObservationAvailabilityChanged(ControlAvailability),
    IdentityRenewed,
}

impl View for TorEvent {
    type V = EventView;

    open spec fn view(&self) -> EventView {
        match self {
            TorEvent::Started => EventView::Started,
            TorEvent::Stopped => EventView::Stopped,
            TorEvent::StartFailed(m) => EventView::StartFailed(m@),
            TorEvent::Crashed(m) => EventView::Crashed(m@),
            TorEvent::LogLine(m) => EventView::LogLine(m@),
            TorEvent::Bootstrap(b) => EventView::Bootstrap(*b),
            TorEvent::Warning(m) => EventView::Warning(m@),
            TorEvent::Error(m) => EventView::Error(m@),
            TorEvent::ControlAvailabilityChanged(a) => EventView::ControlAvailabilityChanged(*a),
            TorEvent::BootstrapObservationAvailabilityChanged(a) =>
                EventView::BootstrapObservationAvailabilityChanged(*a),
            TorEvent::IdentityRenewed => EventView::IdentityRenewed,
        }
    }
}

/// The views of a sequence of events.
pub open spec fn event_views(events: Seq<TorEvent>) -> Seq<EventView> {
    events.map_values(|e: TorEvent| e@)
}

/// Errors of the state model.
#[derive(Debug, Clone, Copy, PartialEq, Eq, Structural)]
pub enum TorError {
    InvalidBootstrap(u8),
    InvalidRuntimeStatusTransition,
}

/// The text of a `TorError`.
pub open spec fn tor_error_text(e: TorError) -> Seq<char> {
    match e {
        TorError::InvalidBootstrap(b) => "invalid bootstrap progress: "@ + decimal(b as nat),
        TorError::InvalidRuntimeStatusTransition => "invalid runtime status transition"@,
    }
}

impl TorError {
    /// The human-readable text of the error.
    pub fn message(&self) -> (r: String)
        ensures
            r@ == tor_error_text(*self),
    {
        proof {
            reveal_strlit("invalid bootstrap progress: ");
            reveal_strlit("invalid runtime status transition");
        }
        match self {
            TorError::InvalidBootstrap(b) => {
                String::from_str("invalid bootstrap progress: ").concat(
                    decimal_string(*b as u64).as_str(),
                )
            },
            TorError::InvalidRuntimeStatusTransition => {
                String::from_str("invalid runtime status transition")
            },
        }
    }
}

/// Whether `(status, bootstrap)` is a state the runtime can be in:
/// bootstrap is in `0..=100`, `Stopped` and `Failed` have bootstrap `0`,
/// `Running` has bootstrap `100`, and `Starting` has bootstrap below `100`.
pub open spec fn valid_state(status: RuntimeStatus, bootstrap: u8) -> bool {
    &&& bootstrap <= 100
    &&& match status {
        RuntimeStatus::Stopped => bootstrap == 0,
        RuntimeStatus::Failed => bootstrap == 0,
        RuntimeStatus::Running => bootstrap == 100,
        RuntimeStatus::Starting => bootstrap < 100,
    }
}

/// What building a state from `(status, bootstrap)` gives: the pair when it
/// is valid, `InvalidBootstrap` when bootstrap exceeds `100`, and
/// `InvalidRuntimeStatusTransition` otherwise.
pub open spec fn state_from_parts(status: RuntimeStatus, bootstrap: u8) -> Result<
    (RuntimeStatus, u8),
    TorError,
> {
    if bootstrap > 100 {
        Err(TorError::InvalidBootstrap(bootstrap))
    } else if !valid_state(status, bootstrap) {
        Err(TorError::InvalidRuntimeStatusTransition)
    } else {
        Ok((status, bootstrap))
    }
}

/// Lifecycle status and bootstrap progress; only valid pairs can exist.
#[derive(Debug, Clone, Copy, PartialEq, Eq, Structural)]
pub struct TorState {
    status: RuntimeStatus,
    bootstrap: u8,
}

impl View for TorState {
    type V = (RuntimeStatus, u8);

    closed spec fn view(&self) -> (RuntimeStatus, u8) {
        (self.status, self.bootstrap)
    }
}

impl TorState {
    #[verifier::type_invariant]
    closed spec fn inv(self) -> bool {
        valid_state(self.status, self.bootstrap)
    }

    /// Every state is valid.
    pub fn lemma_valid(&self)
        ensures
            valid_state(self@.0, self@.1),
    {
        proof {
            use_type_invariant(self);
        }
    }

    /// The stopped state: `Stopped`, bootstrap `0`.
    pub fn stopped() -> (s: Self)
        ensures
            s@ == (RuntimeStatus::Stopped, 0u8),
    {
        TorState { status: RuntimeStatus::Stopped, bootstrap: 0 }
    }

    /// A starting state with the given bootstrap progress, which must be below
    /// `100`.
    pub fn starting(bootstrap: u8) -> (r: Result<Self, TorError>)
        ensures
            match r {
                Ok(s) => state_from_parts(RuntimeStatus::Starting, bootstrap) == Ok::<(RuntimeStatus, u8), TorError>(s@),
                Err(e) => state_from_parts(RuntimeStatus::Starting, bootstrap) == Err::<
                    (RuntimeStatus, u8),
                    TorError,
                >(e),
            },
            r is Ok <==> bootstrap < 100,
            bootstrap > 100 ==> r == Err::<Self, TorError>(TorError::InvalidBootstrap(bootstrap)),
            bootstrap == 100 ==> r == Err::<Self, TorError>(
                TorError::InvalidRuntimeStatusTransition,
            ),
            r matches Ok(s) ==> s@ == (RuntimeStatus::Starting, bootstrap),
    {
        Self::try_from_parts(RuntimeStatus::Starting, bootstrap)
    }

    /// The running state: `Running`, bootstrap `100`.
    pub fn running() -> (s: Self)
        ensures
            s@ == (RuntimeStatus::Running, 100u8),
    {
        TorState { status: RuntimeStatus::Running, bootstrap: 100 }
    }

    /// The failed state: `Failed`, bootstrap `0`.
    pub fn failed() -> (s: Self)
        ensures
            s@ == (RuntimeStatus::Failed, 0u8),
    {
        TorState { status: RuntimeStatus::Failed, bootstrap: 0 }
    }

    /// The lifecycle status.
    pub fn status(&self) -> (s: RuntimeStatus)
        ensures
            s == self@.0,
            valid_state(self@.0, self@.1),
    {
        proof {
            use_type_invariant(self);
        }
        self.status
    }

    /// The bootstrap progress, always in `0..=100`.
    pub fn bootstrap(&self) -> (b: u8)
        ensures
            b == self@.1,
            b <= 100,
            valid_state(self@.0, self@.1),
    {
        proof {
            use_type_invariant(self);
        }
        self.bootstrap
    }

    /// Whether two states are the same.
    pub fn same_as(&self, other: &TorState) -> (b: bool)
        ensures
            b == (self@ == other@),
    {
        self.status == other.status && self.bootstrap == other.bootstrap
    }

    /// Whether the status is `Running`.
    pub fn is_running(&self) -> (b: bool)
        ensures
            b == (self@.0 is Running),
    {
        matches!(self.status, RuntimeStatus::Running)
    }

    /// Whether the status is `Starting` or `Running`.
    pub fn is_active(&self) -> (b: bool)
        ensures
            b == (self@.0 is Starting || self@.0 is Running),
    {
        matches!(self.status, RuntimeStatus::Starting | RuntimeStatus::Running)
    }

    /// Builds a state from its parts, refusing invalid pairs.
    pub fn try_from_parts(status: RuntimeStatus, bootstrap: u8) -> (r: Result<Self, TorError>)
        ensures
            match r {
                Ok(s) => state_from_parts(status, bootstrap) == Ok::<(RuntimeStatus, u8), TorError>(s@),
                Err(e) => state_from_parts(status, bootstrap) == Err::<(RuntimeStatus, u8), TorError>(e),
            },
    {
        if bootstrap > 100 {
            return Err(TorError::InvalidBootstrap(bootstrap));
        }
        if matches!(status, RuntimeStatus::Stopped | RuntimeStatus::Failed) && bootstrap != 0 {
            return Err(TorError::InvalidRuntimeStatusTransition);
        }
        if matches!(status, RuntimeStatus::Running) && bootstrap != 100 {
            return Err(TorError::InvalidRuntimeStatusTransition);
        }
        if matches!(status, RuntimeStatus::Starting) && bootstrap >= 100 {
            return Err(TorError::InvalidRuntimeStatusTransition);
        }
        Ok(TorState { status, bootstrap })
    }
}

impl Default for TorState {
    fn default() -> (s: Self)
        ensures
            s@ == (RuntimeStatus::Stopped, 0u8),
    {
        Self::stopped()
    }
}

} // verus!
