//! The operational runtime snapshot: `TorState` plus ControlPort availability.
use vstd::prelude::*;

use crate::domain::{ControlAvailability, RuntimeStatus, TorError, TorEvent, TorState};
use crate::state::{transition, TorStateReducer};

verus! {

/// ControlPort availability: of the port itself and of bootstrap observation
/// through it.
#[derive(Debug, Clone, Copy, PartialEq, Eq, Structural)]
pub struct TorControlRuntime {
    port: ControlAvailability,
    bootstrap_observation: ControlAvailability,
}

impl View for TorControlRuntime {
    type V = (ControlAvailability, ControlAvailability);

    closed spec fn view(&self) -> (ControlAvailability, ControlAvailability) {
        (self.port, self.bootstrap_observation)
    }
}

/// The availability both capabilities take at a session boundary: a
/// configured port becomes `Unavailable`, an unconfigured one stays
/// `Unconfigured`.
pub open spec fn boundary_availability(port: ControlAvailability) -> ControlAvailability {
    if port is Unconfigured {
        ControlAvailability::Unconfigured
    } else {
        ControlAvailability::Unavailable
    }
}

/// The initial availability of both capabilities.
pub open spec fn initial_availability(configured: bool) -> ControlAvailability {
    if configured {
        ControlAvailability::Unavailable
    } else {
        ControlAvailability::Unconfigured
    }
}

impl TorControlRuntime {
    /// Both capabilities `Unavailable` when configured, else `Unconfigured`.
    pub fn new(configured: bool) -> (c: Self)
        ensures
            c@ == (initial_availability(configured), initial_availability(configured)),
    {
        let availability = if configured {
            ControlAvailability::Unavailable
        } else {
            ControlAvailability::Unconfigured
        };
        Self { port: availability, bootstrap_observation: availability }
    }

    /// Availability of the ControlPort.
    pub fn port(&self) -> (a: ControlAvailability)
        ensures
            a == self@.0,
    {
        self.port
    }

    /// Availability of bootstrap observation through the ControlPort.
    pub fn bootstrap_observation(&self) -> (a: ControlAvailability)
        ensures
            a == self@.1,
    {
        self.bootstrap_observation
    }

    /// Resets both capabilities at a session boundary.
    pub fn reset_for_session_boundary(&mut self)
        ensures
            final(self)@ == (
                boundary_availability(old(self)@.0),
                boundary_availability(old(self)@.0),
            ),
    {
        let reset = if self.port.is_configured() {
            ControlAvailability::Unavailable
        } else {
            ControlAvailability::Unconfigured
        };
        self.port = reset;
        self.bootstrap_observation = reset;
    }
}

/// The abstract snapshot: the `TorState` pair, the port availability and the
/// bootstrap-observation availability.
pub type SnapshotModel = ((RuntimeStatus, u8), ControlAvailability, ControlAvailability);

/// `TorState` together with ControlPort availability.
#[derive(Debug, Clone, Copy, PartialEq, Eq, Structural)]
pub struct TorRuntimeSnapshot {
    tor: TorState,
    control: TorControlRuntime,
}

impl View for TorRuntimeSnapshot {
    type V = SnapshotModel;

    closed spec fn view(&self) -> SnapshotModel {
        (self.tor@, self.control@.0, self.control@.1)
    }
}

/// The control part of the snapshot after `event`.
pub open spec fn control_transition(
    port: ControlAvailability,
    observation: ControlAvailability,
    event: TorEvent,
) -> (ControlAvailability, ControlAvailability) {
    match event {
        TorEvent::ControlAvailabilityChanged(a) => (a, observation),
        TorEvent::BootstrapObservationAvailabilityChanged(a) => (port, a),
        TorEvent::Stopped => (boundary_availability(port), boundary_availability(port)),
        TorEvent::StartFailed(_) => (boundary_availability(port), boundary_availability(port)),
        TorEvent::Crashed(_) => (boundary_availability(port), boundary_availability(port)),
        _ => (port, observation),
    }
}

/// The snapshot after `event`, or the error that refuses it (only the
/// `TorState` part can refuse an event).
pub open spec fn snapshot_transition(s: SnapshotModel, event: TorEvent) -> Result<
    SnapshotModel,
    TorError,
> {
    match transition(s.0, event) {
        Ok(tor) => {
            let c = control_transition(s.1, s.2, event);
            Ok((tor, c.0, c.1))
        },
        Err(e) => Err(e),
    }
}

impl TorRuntimeSnapshot {
    /// A stopped runtime whose control capabilities are `Unavailable` when a
    /// ControlPort is configured and `Unconfigured` otherwise.
    pub fn new(control_configured: bool) -> (s: Self)
        ensures
            s@ == (
                (RuntimeStatus::Stopped, 0u8),
                initial_availability(control_configured),
                initial_availability(control_configured),
            ),
    {
        Self { tor: TorState::default(), control: TorControlRuntime::new(control_configured) }
    }

    /// The lifecycle state.
    pub fn tor(&self) -> (t: TorState)
        ensures
            t@ == self@.0,
    {
        self.tor
    }

    /// The control availability.
    pub fn control(&self) -> (c: TorControlRuntime)
        ensures
            c@ == (self@.1, self@.2),
    {
        self.control
    }

    /// Whether two snapshots are the same.
    pub fn same_as(&self, other: &TorRuntimeSnapshot) -> (b: bool)
        ensures
            b == (self@ == other@),
    {
        self.tor.same_as(&other.tor) && self.control.port == other.control.port
            && self.control.bootstrap_observation == other.control.bootstrap_observation
    }

    /// Whether a ControlPort is configured.
    pub fn control_configured(&self) -> (b: bool)
        ensures
            b == !(self@.1 is Unconfigured),
    {
        self.control.port().is_configured()
    }

    /// Whether the ControlPort is available.
    pub fn control_available(&self) -> (b: bool)
        ensures
            b == (self@.1 is Available),
    {
        self.control.port().is_available()
    }

    /// Whether bootstrap observation through the ControlPort is available.
    pub fn bootstrap_observation_available(&self) -> (b: bool)
        ensures
            b == (self@.2 is Available),
    {
        self.control.bootstrap_observation().is_available()
    }

    /// Whether a new identity can be requested: Tor is starting or running and
    /// the ControlPort is available.
    pub fn new_identity_available(&self) -> (b: bool)
        ensures
            b == ((self@.0.0 is Starting || self@.0.0 is Running) && self@.1 is Available),
    {
        self.tor.is_active() && self.control_available()
    }

    /// Whether bootstrap progress is being observed through the ControlPort:
    /// Tor is starting and observation is available.
    pub fn uses_control_bootstrap_observation(&self) -> (b: bool)
        ensures
            b == (self@.0.0 is Starting && self@.2 is Available),
    {
        matches!(self.tor.status(), RuntimeStatus::Starting)
            && self.bootstrap_observation_available()
    }
}

/// Reduces events into `TorRuntimeSnapshot`.
pub struct TorRuntimeSnapshotReducer;

impl TorRuntimeSnapshotReducer {
    /// Applies one event. On error the snapshot is left unchanged.
    pub fn apply_event(state: &mut TorRuntimeSnapshot, event: &TorEvent) -> (r: Result<
        (),
        TorError,
    >)
        ensures
            match snapshot_transition(old(state)@, *event) {
                Ok(next) => r is Ok && final(state)@ == next,
                Err(e) => r == Err::<(), TorError>(e) && final(state)@ == old(state)@,
            },
    {
        TorStateReducer::apply_event(&mut state.tor, event)?;
        match event {
            TorEvent::ControlAvailabilityChanged(availability) => {
                state.control.port = *availability;
            },
            TorEvent::BootstrapObservationAvailabilityChanged(availability) => {
                state.control.bootstrap_observation = *availability;
            },
            TorEvent::Stopped | TorEvent::StartFailed(_) | TorEvent::Crashed(_) => {
                state.control.reset_for_session_boundary();
            },
            TorEvent::Started
            | TorEvent::IdentityRenewed
            | TorEvent::LogLine(_)
            | TorEvent::Bootstrap(_)
            | TorEvent::Warning(_)
            | TorEvent::Error(_) => {},
        }
        Ok(())
    }
}

/// The `TorState` part of the snapshot evolves exactly as `TorState` does on
/// its own, whatever the control part holds.
pub proof fn lemma_snapshot_projects_to_state(s: SnapshotModel, event: TorEvent)
    ensures
        snapshot_transition(s, event) is Ok <==> transition(s.0, event) is Ok,
        snapshot_transition(s, event) matches Ok(n) ==> transition(s.0, event) == Ok::<
            (RuntimeStatus, u8),
            TorError,
        >(n.0),
        snapshot_transition(s, event) matches Err(e) ==> transition(s.0, event) == Err::<
            (RuntimeStatus, u8),
            TorError,
        >(e),
{
}

/// The control part of the snapshot evolves independently of the `TorState`
/// part: two snapshots with the same control part end with the same control
/// part after any event that both accept.
pub proof fn lemma_control_independent_of_state(
    s1: SnapshotModel,
    s2: SnapshotModel,
    event: TorEvent,
)
    requires
        s1.1 == s2.1,
        s1.2 == s2.2,
        snapshot_transition(s1, event) is Ok,
        snapshot_transition(s2, event) is Ok,
    ensures
        snapshot_transition(s1, event)->Ok_0.1 == snapshot_transition(s2, event)->Ok_0.1,
        snapshot_transition(s1, event)->Ok_0.2 == snapshot_transition(s2, event)->Ok_0.2,
{
}

/// When a session ends (Tor stops, fails to start or crashes), neither control
/// capability is left available, both agree, and whether a port is configured
/// is kept.
pub proof fn lemma_session_end_resets_control(s: SnapshotModel, event: TorEvent)
    requires
        event is Stopped || event is StartFailed || event is Crashed,
    ensures
        snapshot_transition(s, event) matches Ok(n) && {
            &&& n.1 == n.2
            &&& !(n.1 is Available)
            &&& (n.1 is Unconfigured <==> s.1 is Unconfigured)
            &&& n.0 == (if event is Stopped {
                (RuntimeStatus::Stopped, 0u8)
            } else {
                (RuntimeStatus::Failed, 0u8)
            })
        },
{
}

} // verus!
