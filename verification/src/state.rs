//! The reducer that turns runtime events into `TorState`.
use vstd::prelude::*;

use crate::domain::{
    state_from_parts, valid_state, ControlAvailability, RuntimeStatus, TorError, TorEvent, TorState,
};

verus! {

/// The state after `event` in state `s`, or the error that refuses it.
///
/// `Started` moves to `Starting(0)`, `Stopped` to `Stopped`, `StartFailed` and
/// `Crashed` to `Failed`, `Bootstrap(100)` to `Running`, `Bootstrap(b)` to
/// `Starting(b)` (refused when `b > 100`); other events keep the state.
pub open spec fn transition(s: (RuntimeStatus, u8), event: TorEvent) -> Result<
    (RuntimeStatus, u8),
    TorError,
> {
    match event {
        TorEvent::Started => state_from_parts(RuntimeStatus::Starting, 0),
        TorEvent::Stopped => Ok((RuntimeStatus::Stopped, 0u8)),
        TorEvent::StartFailed(_) => Ok((RuntimeStatus::Failed, 0u8)),
        TorEvent::Crashed(_) => Ok((RuntimeStatus::Failed, 0u8)),
        TorEvent::Bootstrap(b) => if b == 100 {
            Ok((RuntimeStatus::Running, 100u8))
        } else {
            state_from_parts(RuntimeStatus::Starting, b)
        },
        _ => Ok(s),
    }
}

/// The state after the events of `events` in order, starting from `s`, or the
/// first error.
pub open spec fn reduce_from(s: (RuntimeStatus, u8), events: Seq<TorEvent>) -> Result<
    (RuntimeStatus, u8),
    TorError,
>
    decreases events.len(),
{
    if events.len() == 0 {
        Ok(s)
    } else {
        match transition(s, events[0]) {
            Ok(next) => reduce_from(next, events.drop_first()),
            Err(e) => Err(e),
        }
    }
}

/// Reduces events into `TorState`.
pub struct TorStateReducer;

impl TorStateReducer {
    /// Applies one event. On error the state is left unchanged.
    pub fn apply_event(state: &mut TorState, event: &TorEvent) -> (r: Result<(), TorError>)
        ensures
            match transition(old(state)@, *event) {
                Ok(next) => r is Ok && final(state)@ == next,
                Err(e) => r == Err::<(), TorError>(e) && final(state)@ == old(state)@,
            },
    {
        match event {
            TorEvent::Started => {
                *state = TorState::starting(0)?;
            },
            TorEvent::Stopped => {
                *state = TorState::stopped();
            },
            TorEvent::StartFailed(_) | TorEvent::Crashed(_) => {
                *state = TorState::failed();
            },
            TorEvent::Bootstrap(bootstrap) => {
                *state = if *bootstrap == 100 {
                    TorState::running()
                } else {
                    TorState::starting(*bootstrap)?
                };
            },
            TorEvent::Warning(_) | TorEvent::Error(_) | TorEvent::LogLine(_)
            | TorEvent::ControlAvailabilityChanged(_)
            | TorEvent::BootstrapObservationAvailabilityChanged(_)
            | TorEvent::IdentityRenewed => {},
        }
        Ok(())
    }

    /// Applies `events` in order to the stopped state, stopping at the first
    /// error.
    pub fn reduce_events(events: Vec<TorEvent>) -> (r: Result<TorState, TorError>)
        ensures
            match reduce_from((RuntimeStatus::Stopped, 0u8), events@) {
                Ok(s) => r matches Ok(state) && state@ == s,
                Err(e) => r == Err::<TorState, TorError>(e),
            },
    {
        let mut state = TorState::default();
        let n = events.len();
        let mut i: usize = 0;
        assert(events@.subrange(0, n as int) =~= events@);
        while i < n
            invariant
                n == events@.len(),
                i <= n,
                reduce_from((RuntimeStatus::Stopped, 0u8), events@) == reduce_from(
                    state@,
                    events@.subrange(i as int, n as int),
                ),
            decreases n - i,
        {
            let ghost rest = events@.subrange(i as int, n as int);
            assert(rest[0] == events@[i as int]);
            assert(rest.drop_first() =~= events@.subrange(i + 1, n as int));
            Self::apply_event(&mut state, &events[i])?;
            i = i + 1;
        }
        Ok(state)
    }
}

/// Applies one event to `state`; see `TorStateReducer::apply_event`.
pub fn apply_event(state: &mut TorState, event: &TorEvent) -> (r: Result<(), TorError>)
    ensures
        match transition(old(state)@, *event) {
            Ok(next) => r is Ok && final(state)@ == next,
            Err(e) => r == Err::<(), TorError>(e) && final(state)@ == old(state)@,
        },
{
    TorStateReducer::apply_event(state, event)
}

/// Reduces `events` from the stopped state; see `TorStateReducer::reduce_events`.
pub fn reduce_events(events: Vec<TorEvent>) -> (r: Result<TorState, TorError>)
    ensures
        match reduce_from((RuntimeStatus::Stopped, 0u8), events@) {
            Ok(s) => r matches Ok(state) && state@ == s,
            Err(e) => r == Err::<TorState, TorError>(e),
        },
{
    TorStateReducer::reduce_events(events)
}

/// Every event keeps a valid state valid.
pub proof fn lemma_transition_preserves_validity(s: (RuntimeStatus, u8), event: TorEvent)
    requires
        valid_state(s.0, s.1),
    ensures
        transition(s, event) matches Ok(next) ==> valid_state(next.0, next.1),
{
}

/// The only event that is refused is `Bootstrap(b)` with `b > 100`; it is
/// refused with `InvalidBootstrap(b)`.
pub proof fn lemma_transition_refuses_only_out_of_range_bootstrap(
    s: (RuntimeStatus, u8),
    event: TorEvent,
)
    ensures
        transition(s, event) is Err <==> (event matches TorEvent::Bootstrap(b) && b > 100),
        event matches TorEvent::Bootstrap(b) ==> (b > 100 ==> transition(s, event) == Err::<
            (RuntimeStatus, u8),
            TorError,
        >(TorError::InvalidBootstrap(b))),
{
}

/// Whatever the state, `Stopped` leads to the stopped state, a failure or
/// crash to the failed state, and `Bootstrap(100)` to the running state.
pub proof fn lemma_transition_targets(s: (RuntimeStatus, u8), message: String)
    ensures
        transition(s, TorEvent::Stopped) == Ok::<(RuntimeStatus, u8), TorError>(
            (RuntimeStatus::Stopped, 0u8),
        ),
        transition(s, TorEvent::StartFailed(message)) == Ok::<(RuntimeStatus, u8), TorError>(
            (RuntimeStatus::Failed, 0u8),
        ),
        transition(s, TorEvent::Crashed(message)) == Ok::<(RuntimeStatus, u8), TorError>(
            (RuntimeStatus::Failed, 0u8),
        ),
        transition(s, TorEvent::Bootstrap(100)) == Ok::<(RuntimeStatus, u8), TorError>(
            (RuntimeStatus::Running, 100u8),
        ),
        transition(s, TorEvent::Started) == Ok::<(RuntimeStatus, u8), TorError>(
            (RuntimeStatus::Starting, 0u8),
        ),
{
}

/// Reducing `a + b` is reducing `a`, then reducing `b` from where `a` left
/// off; an error in `a` is the error of the whole.
pub proof fn lemma_reduce_concat(s: (RuntimeStatus, u8), a: Seq<TorEvent>, b: Seq<TorEvent>)
    ensures
        reduce_from(s, a + b) == match reduce_from(s, a) {
            Ok(mid) => reduce_from(mid, b),
            Err(e) => Err(e),
        },
    decreases a.len(),
{
    if a.len() == 0 {
        assert(a + b =~= b);
    } else {
        assert((a + b)[0] == a[0]);
        assert((a + b).drop_first() =~= a.drop_first() + b);
        match transition(s, a[0]) {
            Ok(next) => {
                lemma_reduce_concat(next, a.drop_first(), b);
            },
            Err(e) => {},
        }
    }
}

/// Only `Started`, `Stopped`, `StartFailed`, `Crashed` and `Bootstrap`
/// change the lifecycle state: warnings, errors, log lines, identity
/// renewals and availability changes leave any state exactly as it was.
pub proof fn lemma_other_events_keep_state(
    s: (RuntimeStatus, u8),
    message: String,
    availability: ControlAvailability,
)
    ensures
        transition(s, TorEvent::Warning(message)) == Ok::<(RuntimeStatus, u8), TorError>(s),
        transition(s, TorEvent::Error(message)) == Ok::<(RuntimeStatus, u8), TorError>(s),
        transition(s, TorEvent::LogLine(message)) == Ok::<(RuntimeStatus, u8), TorError>(s),
        transition(s, TorEvent::IdentityRenewed) == Ok::<(RuntimeStatus, u8), TorError>(s),
        transition(s, TorEvent::ControlAvailabilityChanged(availability)) == Ok::<
            (RuntimeStatus, u8),
            TorError,
        >(s),
        transition(s, TorEvent::BootstrapObservationAvailabilityChanged(availability)) == Ok::<
            (RuntimeStatus, u8),
            TorError,
        >(s),
{
}

/// Bootstrap progress below `100` puts any state into `Starting` with that
/// progress; no event other than `Bootstrap(100)` reaches `Running`, and only
/// `StartFailed` and `Crashed` reach `Failed`.
pub proof fn lemma_bootstrap_and_status_targets(s: (RuntimeStatus, u8), event: TorEvent, b: u8)
    requires
        valid_state(s.0, s.1),
    ensures
        b < 100 ==> transition(s, TorEvent::Bootstrap(b)) == Ok::<(RuntimeStatus, u8), TorError>(
            (RuntimeStatus::Starting, b),
        ),
        transition(s, event) matches Ok(n) && n.0 == RuntimeStatus::Running && s.0
            != RuntimeStatus::Running ==> event == TorEvent::Bootstrap(100),
        transition(s, event) matches Ok(n) && n.0 == RuntimeStatus::Failed && s.0
            != RuntimeStatus::Failed ==> (event is StartFailed || event is Crashed),
        transition(s, event) matches Ok(n) && n.0 == RuntimeStatus::Stopped && s.0
            != RuntimeStatus::Stopped ==> event is Stopped,
{
}

} // verus!
