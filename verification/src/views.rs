//! The read-only views of runtime state that the desktop frontend receives,
//! decoupled from the runtime's invariant-bearing types.
use vstd::prelude::*;

use crate::domain::{ControlAvailability, RuntimeStatus, TorState};
use crate::runtime_state::{SnapshotModel, TorControlRuntime, TorRuntimeSnapshot};

verus! {

/// Lifecycle status as the frontend sees it.
#[derive(Debug, Clone, Copy, PartialEq, Eq, Structural)]
pub enum RuntimeStatusView {
    Stopped,
    Starting,
    Running,
    Failed,
}

/// ControlPort availability as the frontend sees it.
#[derive(Debug, Clone, Copy, PartialEq, Eq, Structural)]
pub enum ControlAvailabilityView {
    Unconfigured,
    Unavailable,
    Available,
}

/// Lifecycle state as the frontend sees it.
#[derive(Debug, Clone, Copy, PartialEq, Eq, Structural)]
pub struct TorStateView {
    pub status: RuntimeStatusView,
    pub bootstrap: u8,
}

/// ControlPort availability of the port and of bootstrap observation.
#[derive(Debug, Clone, Copy, PartialEq, Eq, Structural)]
pub struct TorControlRuntimeView {
    pub port: ControlAvailabilityView,
    pub bootstrap_observation: ControlAvailabilityView,
}

/// The runtime snapshot with its derived capabilities spelled out.
#[derive(Debug, Clone, Copy, PartialEq, Eq, Structural)]
pub struct TorRuntimeSnapshotView {
    pub tor: TorStateView,
    pub control: TorControlRuntimeView,
    pub control_configured: bool,
    pub control_available: bool,
    pub bootstrap_observation_available: bool,
    pub new_identity_available: bool,
    pub uses_control_bootstrap_observation: bool,
}

/// The view of a status.
pub open spec fn status_view(s: RuntimeStatus) -> RuntimeStatusView {
    match s {
        RuntimeStatus::Stopped => RuntimeStatusView::Stopped,
        RuntimeStatus::Starting => RuntimeStatusView::Starting,
        RuntimeStatus::Running => RuntimeStatusView::Running,
        RuntimeStatus::Failed => RuntimeStatusView::Failed,
    }
}

/// The view of an availability.
pub open spec fn availability_view(a: ControlAvailability) -> ControlAvailabilityView {
    match a {
        ControlAvailability::Unconfigured => ControlAvailabilityView::Unconfigured,
        ControlAvailability::Unavailable => ControlAvailabilityView::Unavailable,
        ControlAvailability::Available => ControlAvailabilityView::Available,
    }
}

/// The view of a lifecycle state.
pub open spec fn state_view(s: (RuntimeStatus, u8)) -> TorStateView {
    TorStateView { status: status_view(s.0), bootstrap: s.1 }
}

/// The view of the control availabilities.
pub open spec fn control_runtime_view(c: (ControlAvailability, ControlAvailability)) -> TorControlRuntimeView {
    TorControlRuntimeView { port: availability_view(c.0), bootstrap_observation: availability_view(c.1) }
}

/// The view of a snapshot: its parts and the capabilities derived from them.
pub open spec fn snapshot_view(s: SnapshotModel) -> TorRuntimeSnapshotView {
    TorRuntimeSnapshotView {
        tor: state_view(s.0),
        control: control_runtime_view((s.1, s.2)),
        control_configured: !(s.1 is Unconfigured),
        control_available: s.1 is Available,
        bootstrap_observation_available: s.2 is Available,
        new_identity_available: (s.0.0 is Starting || s.0.0 is Running) && s.1 is Available,
        uses_control_bootstrap_observation: s.0.0 is Starting && s.2 is Available,
    }
}

/// The view shows each status and availability under its own name, and its
/// capabilities are those of the snapshot: a new identity can be requested
/// exactly while Tor is starting or running and the ControlPort is available;
/// bootstrap is observed through the ControlPort exactly while Tor is starting
/// and observation is available. The capabilities agree with the view's own
/// status and availability fields.
pub proof fn lemma_snapshot_view_capabilities(s: SnapshotModel)
    ensures
        ({
            let r = snapshot_view(s);
            &&& (r.tor.status == RuntimeStatusView::Stopped) == (s.0.0 is Stopped)
            &&& (r.tor.status == RuntimeStatusView::Starting) == (s.0.0 is Starting)
            &&& (r.tor.status == RuntimeStatusView::Running) == (s.0.0 is Running)
            &&& (r.tor.status == RuntimeStatusView::Failed) == (s.0.0 is Failed)
            &&& r.tor.bootstrap == s.0.1
            &&& (r.control.port == ControlAvailabilityView::Unconfigured) == (s.1 is Unconfigured)
            &&& (r.control.port == ControlAvailabilityView::Unavailable) == (s.1 is Unavailable)
            &&& (r.control.port == ControlAvailabilityView::Available) == (s.1 is Available)
            &&& (r.control.bootstrap_observation == ControlAvailabilityView::Unconfigured) == (
            s.2 is Unconfigured)
            &&& (r.control.bootstrap_observation == ControlAvailabilityView::Unavailable) == (
            s.2 is Unavailable)
            &&& (r.control.bootstrap_observation == ControlAvailabilityView::Available) == (
            s.2 is Available)
            &&& r.control_configured == !(s.1 is Unconfigured)
            &&& r.control_available == (s.1 is Available)
            &&& r.bootstrap_observation_available == (s.2 is Available)
            &&& r.new_identity_available == ((s.0.0 is Starting || s.0.0 is Running)
                && s.1 is Available)
            &&& r.uses_control_bootstrap_observation == (s.0.0 is Starting && s.2 is Available)
            &&& r.new_identity_available == ((r.tor.status == RuntimeStatusView::Starting
                || r.tor.status == RuntimeStatusView::Running) && r.control_available)
            &&& r.uses_control_bootstrap_observation == (r.tor.status
                == RuntimeStatusView::Starting && r.bootstrap_observation_available)
            &&& r.control_available == (r.control.port == ControlAvailabilityView::Available)
        }),
{
}

impl From<RuntimeStatus> for RuntimeStatusView {
    fn from(value: RuntimeStatus) -> (r: Self)
        ensures
            r == status_view(value),
    {
        match value {
            RuntimeStatus::Stopped => RuntimeStatusView::Stopped,
            RuntimeStatus::Starting => RuntimeStatusView::Starting,
            RuntimeStatus::Running => RuntimeStatusView::Running,
            RuntimeStatus::Failed => RuntimeStatusView::Failed,
        }
    }
}

impl vstd::std_specs::convert::FromSpecImpl<RuntimeStatus> for RuntimeStatusView {
    open spec fn obeys_from_spec() -> bool {
        true
    }

    open spec fn from_spec(v: RuntimeStatus) -> RuntimeStatusView {
        status_view(v)
    }
}

impl From<ControlAvailability> for ControlAvailabilityView {
    fn from(value: ControlAvailability) -> (r: Self)
        ensures
            r == availability_view(value),
    {
        match value {
            ControlAvailability::Unconfigured => ControlAvailabilityView::Unconfigured,
            ControlAvailability::Unavailable => ControlAvailabilityView::Unavailable,
            ControlAvailability::Available => ControlAvailabilityView::Available,
        }
    }
}

impl vstd::std_specs::convert::FromSpecImpl<ControlAvailability> for ControlAvailabilityView {
    open spec fn obeys_from_spec() -> bool {
        true
    }

    open spec fn from_spec(v: ControlAvailability) -> ControlAvailabilityView {
        availability_view(v)
    }
}

impl From<TorState> for TorStateView {
    fn from(value: TorState) -> (r: Self)
        ensures
            r == state_view(value@),
    {
        TorStateView {
            status: RuntimeStatusView::from(value.status()),
            bootstrap: value.bootstrap(),
        }
    }
}

impl vstd::std_specs::convert::FromSpecImpl<TorState> for TorStateView {
    open spec fn obeys_from_spec() -> bool {
        true
    }

    open spec fn from_spec(v: TorState) -> TorStateView {
        state_view(v@)
    }
}

impl From<TorControlRuntime> for TorControlRuntimeView {
    fn from(value: TorControlRuntime) -> (r: Self)
        ensures
            r == control_runtime_view(value@),
    {
        TorControlRuntimeView {
            port: ControlAvailabilityView::from(value.port()),
            bootstrap_observation: ControlAvailabilityView::from(value.bootstrap_observation()),
        }
    }
}

impl vstd::std_specs::convert::FromSpecImpl<TorControlRuntime> for TorControlRuntimeView {
    open spec fn obeys_from_spec() -> bool {
        true
    }

    open spec fn from_spec(v: TorControlRuntime) -> TorControlRuntimeView {
        control_runtime_view(v@)
    }
}

impl From<TorRuntimeSnapshot> for TorRuntimeSnapshotView {
    fn from(value: TorRuntimeSnapshot) -> (r: Self)
        ensures
            r == snapshot_view(value@),
    {
        TorRuntimeSnapshotView {
            tor: TorStateView::from(value.tor()),
            control: TorControlRuntimeView::from(value.control()),
            control_configured: value.control_configured(),
            control_available: value.control_available(),
            bootstrap_observation_available: value.bootstrap_observation_available(),
            new_identity_available: value.new_identity_available(),
            uses_control_bootstrap_observation: value.uses_control_bootstrap_observation(),
        }
    }
}

impl vstd::std_specs::convert::FromSpecImpl<TorRuntimeSnapshot> for TorRuntimeSnapshotView {
    open spec fn obeys_from_spec() -> bool {
        true
    }

    open spec fn from_spec(v: TorRuntimeSnapshot) -> TorRuntimeSnapshotView {
        snapshot_view(v@)
    }
}

} // verus!
