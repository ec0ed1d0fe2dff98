//! Decisions of the ControlPort bootstrap observer.
//!
//! While a session with a configured ControlPort runs, the observer polls
//! `GETINFO status/bootstrap-phase`. Each poll result is handed to
//! `BootstrapObserverState::on_poll`, which says which events to publish and
//! what to do next; the caller performs the polling, the sleeping and the
//! reconnecting.
use vstd::prelude::*;
use vstd::string::*;

use crate::control::{control_error_text, TorBootstrapPhase, TorControlError};
use crate::domain::{event_views, ControlAvailability, EventView, TorEvent};

verus! {

/// Milliseconds between two bootstrap polls.
pub const CONTROL_BOOTSTRAP_POLL_INTERVAL_MS: u64 = 250;

/// Milliseconds an auxiliary task is given to finish once asked to stop.
pub const AUX_TASK_SHUTDOWN_TIMEOUT_MS: u64 = 1000;

/// Whether `progress` moves past the last reported progress (any progress
/// does when none was reported yet).
pub open spec fn forward_progress(last: Option<u8>, progress: u8) -> bool {
    match last {
        None => true,
        Some(previous) => progress > previous,
    }
}

/// The bootstrap event for a polled phase: reported only when it moves the
/// progress forward.
pub fn bootstrap_phase_event(last_progress: Option<u8>, phase: &TorBootstrapPhase) -> (r: Option<
    TorEvent,
>)
    ensures
        forward_progress(last_progress, phase@.0) ==> r == Some(TorEvent::Bootstrap(phase@.0)),
        !forward_progress(last_progress, phase@.0) ==> r is None,
{
    let progress = phase.progress();
    let forward = match last_progress {
        None => true,
        Some(previous) => progress > previous,
    };
    if forward {
        Some(TorEvent::Bootstrap(progress))
    } else {
        None
    }
}

/// What the observer does after a poll.
#[derive(Debug, Clone, Copy, PartialEq, Eq, Structural)]
pub enum ObserverAction {
    /// Wait one poll interval and poll again.
    PollAgain,
    /// Bootstrap is complete: the observer ends.
    Finish,
    /// The poll failed: drop the connection, wait one poll interval, and poll
    /// again over a new connection.
    Reconnect,
}

/// The abstract observer state: the last progress reported, the last warning
/// published since the last successful poll, and the last availability
/// published for the ControlPort and for bootstrap observation.
pub struct ObserverModel {
    pub last_progress: Option<u8>,
    pub last_warning: Option<Seq<char>>,
    pub control: ControlAvailability,
    pub observer: ControlAvailability,
}

/// The warning published when a poll fails with `error`.
pub open spec fn observation_warning(error: TorControlError) -> Seq<char> {
    "bootstrap observation via ControlPort is unavailable: "@ + control_error_text(error)
}

/// `[e]` when `cond` holds, else nothing.
pub open spec fn emit_if(cond: bool, e: EventView) -> Seq<EventView> {
    if cond {
        seq![e]
    } else {
        Seq::empty()
    }
}

/// The events of a successful poll that reports `progress`: availability
/// changes first (ControlPort, then observation), then the bootstrap progress
/// if it moved forward.
pub open spec fn success_events(m: ObserverModel, progress: u8) -> Seq<EventView> {
    emit_if(
        m.control != ControlAvailability::Available,
        EventView::ControlAvailabilityChanged(ControlAvailability::Available),
    ) + emit_if(
        m.observer != ControlAvailability::Available,
        EventView::BootstrapObservationAvailabilityChanged(ControlAvailability::Available),
    ) + emit_if(forward_progress(m.last_progress, progress), EventView::Bootstrap(progress))
}

/// The state after a successful poll that reports `progress`.
pub open spec fn success_state(m: ObserverModel, progress: u8) -> ObserverModel {
    ObserverModel {
        last_progress: if forward_progress(m.last_progress, progress) {
            Some(progress)
        } else {
            m.last_progress
        },
        last_warning: None,
        control: ControlAvailability::Available,
        observer: ControlAvailability::Available,
    }
}

/// The events of a failed poll: availability changes first (ControlPort,
/// then observation), then the warning unless it repeats the last one.
pub open spec fn failure_events(m: ObserverModel, error: TorControlError) -> Seq<EventView> {
    emit_if(
        m.control != ControlAvailability::Unavailable,
        EventView::ControlAvailabilityChanged(ControlAvailability::Unavailable),
    ) + emit_if(
        m.observer != ControlAvailability::Unavailable,
        EventView::BootstrapObservationAvailabilityChanged(ControlAvailability::Unavailable),
    ) + emit_if(
        m.last_warning != Some(observation_warning(error)),
        EventView::Warning(observation_warning(error)),
    )
}

/// The state after a failed poll.
pub open spec fn failure_state(m: ObserverModel, error: TorControlError) -> ObserverModel {
    ObserverModel {
        last_progress: m.last_progress,
        last_warning: Some(observation_warning(error)),
        control: ControlAvailability::Unavailable,
        observer: ControlAvailability::Unavailable,
    }
}

/// The events, next state and action of one poll result.
pub open spec fn poll_step(m: ObserverModel, result: Result<TorBootstrapPhase, TorControlError>) -> (
    Seq<EventView>,
    ObserverModel,
    ObserverAction,
) {
    match result {
        Ok(phase) => (
            success_events(m, phase@.0),
            success_state(m, phase@.0),
            if phase@.0 == 100 {
                ObserverAction::Finish
            } else {
                ObserverAction::PollAgain
            },
        ),
        Err(error) => (failure_events(m, error), failure_state(m, error), ObserverAction::Reconnect),
    }
}

/// The state of one bootstrap observer.
pub struct BootstrapObserverState {
    last_progress: Option<u8>,
    last_warning: Option<String>,
    last_control_availability: ControlAvailability,
    last_observer_availability: ControlAvailability,
}

impl View for BootstrapObserverState {
    type V = ObserverModel;

    closed spec fn view(&self) -> ObserverModel {
        ObserverModel {
            last_progress: self.last_progress,
            last_warning: match self.last_warning {
                Some(w) => Some(w@),
                None => None,
            },
            control: self.last_control_availability,
            observer: self.last_observer_availability,
        }
    }
}

impl BootstrapObserverState {
    /// A fresh observer: nothing reported, both availabilities `Unavailable`.
    pub fn new() -> (s: Self)
        ensures
            s@ == (ObserverModel {
                last_progress: None,
                last_warning: None,
                control: ControlAvailability::Unavailable,
                observer: ControlAvailability::Unavailable,
            }),
    {
        BootstrapObserverState {
            last_progress: None,
            last_warning: None,
            last_control_availability: ControlAvailability::Unavailable,
            last_observer_availability: ControlAvailability::Unavailable,
        }
    }

    /// Handles one poll result: returns the events to publish, in order, and
    /// what to do next.
    pub fn on_poll(&mut self, result: Result<TorBootstrapPhase, TorControlError>) -> (r: (
        Vec<TorEvent>,
        ObserverAction,
    ))
        ensures
            event_views(r.0@) == poll_step(old(self)@, result).0,
            final(self)@ == poll_step(old(self)@, result).1,
            r.1 == poll_step(old(self)@, result).2,
    {
        let ghost m = self@;
        let mut events: Vec<TorEvent> = Vec::new();
        match result {
            Ok(phase) => {
                let progress = phase.progress();
                self.last_warning = None;
                if self.last_control_availability != ControlAvailability::Available {
                    events.push(TorEvent::ControlAvailabilityChanged(ControlAvailability::Available));
                    self.last_control_availability = ControlAvailability::Available;
                }
                if self.last_observer_availability != ControlAvailability::Available {
                    events.push(
                        TorEvent::BootstrapObservationAvailabilityChanged(
                            ControlAvailability::Available,
                        ),
                    );
                    self.last_observer_availability = ControlAvailability::Available;
                }
                match bootstrap_phase_event(self.last_progress, &phase) {
                    Some(event) => {
                        self.last_progress = Some(progress);
                        events.push(event);
                    },
                    None => {},
                }
                proof {
                    assert(event_views(events@) =~= success_events(m, progress));
                    assert(self@ == success_state(m, progress));
                }
                let action = if progress == 100 {
                    ObserverAction::Finish
                } else {
                    ObserverAction::PollAgain
                };
                (events, action)
            },
            Err(error) => {
                let warning = String::from_str(
                    "bootstrap observation via ControlPort is unavailable: ",
                ).concat(error.message().as_str());
                if self.last_control_availability != ControlAvailability::Unavailable {
                    events.push(
                        TorEvent::ControlAvailabilityChanged(ControlAvailability::Unavailable),
                    );
                    self.last_control_availability = ControlAvailability::Unavailable;
                }
                if self.last_observer_availability != ControlAvailability::Unavailable {
                    events.push(
                        TorEvent::BootstrapObservationAvailabilityChanged(
                            ControlAvailability::Unavailable,
                        ),
                    );
                    self.last_observer_availability = ControlAvailability::Unavailable;
                }
                let repeated = match &self.last_warning {
                    Some(last) => *last == warning,
                    None => false,
                };
                if !repeated {
                    events.push(TorEvent::Warning(warning.clone()));
                }
                self.last_warning = Some(warning);
                proof {
                    assert(event_views(events@) =~= failure_events(m, error));
                    assert(self@ == failure_state(m, error));
                }
                (events, ObserverAction::Reconnect)
            },
        }
    }
}

/// Reported bootstrap progress only moves forward: a poll reports a progress
/// only when it exceeds the last one reported, and the progress remembered
/// afterwards never decreases.
pub proof fn lemma_progress_only_moves_forward(
    m: ObserverModel,
    result: Result<TorBootstrapPhase, TorControlError>,
    p: u8,
)
    ensures
        poll_step(m, result).0.contains(EventView::Bootstrap(p)) ==> forward_progress(
            m.last_progress,
            p,
        ) && poll_step(m, result).1.last_progress == Some(p),
        m.last_progress matches Some(old_p) ==> poll_step(m, result).1.last_progress matches Some(
            new_p,
        ) && new_p >= old_p,
{
    let events = poll_step(m, result).0;
    if events.contains(EventView::Bootstrap(p)) {
        let i = choose|i: int| 0 <= i < events.len() && events[i] == EventView::Bootstrap(p);
        match result {
            Ok(phase) => {
                assert(events[i] is Bootstrap ==> events[i] == EventView::Bootstrap(phase@.0));
            },
            Err(error) => {
                assert(!(events[i] is Bootstrap));
            },
        }
    }
}

/// A successful poll that moves progress forward (the first progress seen, or
/// one above the last reported) publishes it as its last event and remembers
/// it; one that does not publishes no progress and remembers the old one.
/// Either way both availabilities become `Available` and the last warning is
/// forgotten.
pub proof fn lemma_forward_progress_is_published(m: ObserverModel, phase: TorBootstrapPhase)
    ensures
        (m.last_progress is None || (m.last_progress matches Some(p) && p < phase@.0)) ==> {
            let step = poll_step(m, Ok(phase));
            &&& step.0.contains(EventView::Bootstrap(phase@.0))
            &&& step.0.last() == EventView::Bootstrap(phase@.0)
            &&& step.1.last_progress == Some(phase@.0)
        },
        !(m.last_progress is None || (m.last_progress matches Some(p) && p < phase@.0)) ==> {
            let step = poll_step(m, Ok(phase));
            &&& forall|i: int| 0 <= i < step.0.len() ==> !(#[trigger] step.0[i] is Bootstrap)
            &&& step.1.last_progress == m.last_progress
        },
        poll_step(m, Ok(phase)).1.control == ControlAvailability::Available,
        poll_step(m, Ok(phase)).1.observer == ControlAvailability::Available,
        poll_step(m, Ok(phase)).1.last_warning is None,
{
    let events = poll_step(m, Ok(phase)).0;
    let progress = phase@.0;
    if m.last_progress is None || (m.last_progress matches Some(p) && p < progress) {
        assert(forward_progress(m.last_progress, progress));
        assert(events.len() > 0);
        assert(events[events.len() - 1] == EventView::Bootstrap(progress));
        assert(events.contains(EventView::Bootstrap(progress)));
    } else {
        assert(!forward_progress(m.last_progress, progress));
        assert forall|i: int| 0 <= i < events.len() implies !(#[trigger] events[i] is Bootstrap) by {
        }
    }
}

/// An availability change is published only when it differs from the last
/// one published, and the state then remembers it: the same availability is
/// never published twice in a row.
pub proof fn lemma_availability_published_on_change(
    m: ObserverModel,
    result: Result<TorBootstrapPhase, TorControlError>,
    a: ControlAvailability,
)
    ensures
        poll_step(m, result).0.contains(EventView::ControlAvailabilityChanged(a)) ==> m.control
            != a && poll_step(m, result).1.control == a,
        poll_step(m, result).0.contains(EventView::BootstrapObservationAvailabilityChanged(a))
            ==> m.observer != a && poll_step(m, result).1.observer == a,
        poll_step(poll_step(m, result).1, result).0.len() <= 1,
{
    let events = poll_step(m, result).0;
    if events.contains(EventView::ControlAvailabilityChanged(a)) {
        let i = choose|i: int|
            0 <= i < events.len() && events[i] == EventView::ControlAvailabilityChanged(a);
        assert(events[i] == EventView::ControlAvailabilityChanged(a));
    }
    if events.contains(EventView::BootstrapObservationAvailabilityChanged(a)) {
        let i = choose|i: int|
            0 <= i < events.len() && events[i] == EventView::BootstrapObservationAvailabilityChanged(
                a,
            );
        assert(events[i] == EventView::BootstrapObservationAvailabilityChanged(a));
    }
}

/// A failure that repeats the previous failure publishes nothing: the
/// availabilities are already `Unavailable` and the warning is the same.
pub proof fn lemma_repeated_failure_is_silent(m: ObserverModel, error: TorControlError)
    ensures
        poll_step(failure_state(m, error), Err(error)).0 == Seq::<EventView>::empty(),
        poll_step(failure_state(m, error), Err(error)).1 == failure_state(m, error),
{
    assert(poll_step(failure_state(m, error), Err(error)).0 =~= Seq::<EventView>::empty());
}

/// Observation ends exactly when a poll reports complete bootstrap.
pub proof fn lemma_finishes_at_completion(
    m: ObserverModel,
    result: Result<TorBootstrapPhase, TorControlError>,
)
    ensures
        poll_step(m, result).2 == ObserverAction::Finish <==> (result matches Ok(phase)
            && phase@.0 == 100),
        poll_step(m, result).2 == ObserverAction::Reconnect <==> result is Err,
{
}

} // verus!
