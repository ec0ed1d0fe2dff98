//! The activity feed: runtime events turned into entries that the desktop
//! frontend lists. Raw log lines are not listed; bootstrap progress entries
//! share one coalescing key so that the feed shows the latest of them.
use vstd::prelude::*;
use vstd::string::*;

use crate::control::opt_text;
use crate::domain::{ControlAvailability, EventView, TorEvent};
use crate::text::{decimal, decimal_string};

verus! {

/// How an activity entry is presented.
#[derive(Debug, Clone, Copy, PartialEq, Eq, Structural)]
pub enum RuntimeActivityToneView {
    Neutral,
    Success,
    Warning,
    Danger,
    Info,
}

/// What an activity entry is about.
#[derive(Debug, Clone, Copy, PartialEq, Eq, Structural)]
pub enum RuntimeActivityKindView {
    Lifecycle,
    Bootstrap,
    Control,
    Identity,
    Warning,
    Error,
}

/// One entry of the activity feed.
#[derive(Debug, Clone, PartialEq, Eq)]
pub struct TorRuntimeActivityView {
    pub id: u64,
    pub timestamp_ms: u128,
    pub kind: RuntimeActivityKindView,
    pub tone: RuntimeActivityToneView,
    pub title: String,
    pub details: Option<String>,
    pub coalesce_key: Option<String>,
}

/// The presentation of an entry: kind, tone, title, details and coalescing
/// key, the texts by their characters.
pub struct ActivityParts {
    pub kind: RuntimeActivityKindView,
    pub tone: RuntimeActivityToneView,
    pub title: Seq<char>,
    pub details: Option<Seq<char>>,
    pub coalesce_key: Option<Seq<char>>,
}

/// The coalescing key of bootstrap progress entries.
pub open spec fn bootstrap_key() -> Seq<char> {
    "bootstrap"@
}

/// An entry without details or coalescing key.
pub open spec fn plain(
    kind: RuntimeActivityKindView,
    tone: RuntimeActivityToneView,
    title: Seq<char>,
) -> ActivityParts {
    ActivityParts { kind, tone, title, details: None, coalesce_key: None }
}

/// An entry whose details are `message`.
pub open spec fn detailed(
    kind: RuntimeActivityKindView,
    tone: RuntimeActivityToneView,
    title: Seq<char>,
    message: Seq<char>,
) -> ActivityParts {
    ActivityParts { kind, tone, title, details: Some(message), coalesce_key: None }
}

/// The title and tone of a ControlPort availability change.
pub open spec fn port_change(a: ControlAvailability) -> (Seq<char>, RuntimeActivityToneView) {
    match a {
        ControlAvailability::Available => (
            "ControlPort became available"@,
            RuntimeActivityToneView::Success,
        ),
        ControlAvailability::Unavailable => (
            "ControlPort became unavailable"@,
            RuntimeActivityToneView::Warning,
        ),
        ControlAvailability::Unconfigured => (
            "ControlPort is unconfigured"@,
            RuntimeActivityToneView::Neutral,
        ),
    }
}

/// The title and tone of a bootstrap-observation availability change.
pub open spec fn observation_change(a: ControlAvailability) -> (
    Seq<char>,
    RuntimeActivityToneView,
) {
    match a {
        ControlAvailability::Available => (
            "Bootstrap observation became available"@,
            RuntimeActivityToneView::Success,
        ),
        ControlAvailability::Unavailable => (
            "Bootstrap observation became unavailable"@,
            RuntimeActivityToneView::Warning,
        ),
        ControlAvailability::Unconfigured => (
            "Bootstrap observation is unconfigured"@,
            RuntimeActivityToneView::Neutral,
        ),
    }
}

/// The entry an event becomes; `None` for raw log lines.
pub open spec fn activity_parts(event: EventView) -> Option<ActivityParts> {
    match event {
        EventView::Started => Some(
            plain(RuntimeActivityKindView::Lifecycle, RuntimeActivityToneView::Success, "Tor started"@),
        ),
        EventView::Stopped => Some(
            plain(RuntimeActivityKindView::Lifecycle, RuntimeActivityToneView::Neutral, "Tor stopped"@),
        ),
        EventView::IdentityRenewed => Some(
            plain(
                RuntimeActivityKindView::Identity,
                RuntimeActivityToneView::Success,
                "New identity requested"@,
            ),
        ),
        EventView::StartFailed(m) => Some(
            detailed(
                RuntimeActivityKindView::Error,
                RuntimeActivityToneView::Danger,
                "Tor failed to start"@,
                m,
            ),
        ),
        EventView::Crashed(m) => Some(
            detailed(RuntimeActivityKindView::Error, RuntimeActivityToneView::Danger, "Tor crashed"@, m),
        ),
        EventView::Bootstrap(p) => Some(
            ActivityParts {
                kind: RuntimeActivityKindView::Bootstrap,
                tone: if p == 100 {
                    RuntimeActivityToneView::Success
                } else {
                    RuntimeActivityToneView::Info
                },
                title: "Bootstrap: "@ + decimal(p as nat) + "%"@,
                details: None,
                coalesce_key: Some(bootstrap_key()),
            },
        ),
        EventView::ControlAvailabilityChanged(a) => Some(
            plain(RuntimeActivityKindView::Control, port_change(a).1, port_change(a).0),
        ),
        EventView::BootstrapObservationAvailabilityChanged(a) => Some(
            plain(RuntimeActivityKindView::Control, observation_change(a).1, observation_change(a).0),
        ),
        EventView::Warning(m) => Some(
            detailed(
                RuntimeActivityKindView::Warning,
                RuntimeActivityToneView::Warning,
                "Runtime warning"@,
                m,
            ),
        ),
        EventView::Error(m) => Some(
            detailed(RuntimeActivityKindView::Error, RuntimeActivityToneView::Danger, "Runtime error"@, m),
        ),
        EventView::LogLine(_) => None,
    }
}

/// The presentation of an entry.
pub open spec fn parts_of(a: TorRuntimeActivityView) -> ActivityParts {
    ActivityParts {
        kind: a.kind,
        tone: a.tone,
        title: a.title@,
        details: opt_text(a.details),
        coalesce_key: opt_text(a.coalesce_key),
    }
}

impl TorRuntimeActivityView {
    /// An entry with the given parts.
    fn new(
        id: u64,
        timestamp_ms: u128,
        kind: RuntimeActivityKindView,
        tone: RuntimeActivityToneView,
        title: &str,
        details: Option<String>,
        coalesce_key: Option<String>,
    ) -> (a: Self)
        ensures
            a.id == id,
            a.timestamp_ms == timestamp_ms,
            a.kind == kind,
            a.tone == tone,
            a.title@ == title@,
            a.details == details,
            a.coalesce_key == coalesce_key,
    {
        TorRuntimeActivityView {
            id,
            timestamp_ms,
            kind,
            tone,
            title: String::from_str(title),
            details,
            coalesce_key,
        }
    }
}

/// Milliseconds since the Unix epoch, `None` when the clock is set before it
/// (std's `SystemTime::now` and `SystemTime::duration_since`).
///
/// Trusted, and nothing is claimed of the result: it is read from the clock.
#[verifier::external_body]
fn unix_time_ms() -> (r: Option<u128>) {
    std::time::SystemTime::now().duration_since(std::time::UNIX_EPOCH).ok().map(|d| d.as_millis())
}

/// The time stamp for a clock reading: the milliseconds since the Unix
/// epoch, or `0` when the clock read earlier than the epoch.
pub fn timestamp_from_reading(reading: Option<u128>) -> (ms: u128)
    ensures
        ms == match reading {
            Some(m) => m,
            None => 0u128,
        },
{
    match reading {
        Some(ms) => ms,
        None => 0,
    }
}

/// The current time in milliseconds since the Unix epoch; `0` when the clock
/// reads earlier than the epoch. The reading comes from the clock, so no
/// clause can say which value it is; `timestamp_from_reading` states what is
/// made of it.
fn current_timestamp_ms() -> (ms: u128) {
    timestamp_from_reading(unix_time_ms())
}

/// The activity entry for `event`, numbered `id` and stamped `timestamp_ms`;
/// `None` for raw log lines.
pub fn runtime_activity_from_event_at(event: &TorEvent, id: u64, timestamp_ms: u128) -> (r: Option<
    TorRuntimeActivityView,
>)
    ensures
        match r {
            Some(a) => {
                &&& activity_parts(event@) == Some(parts_of(a))
                &&& a.id == id
                &&& a.timestamp_ms == timestamp_ms
            },
            None => activity_parts(event@) is None,
        },
{
    let ts = timestamp_ms;
    let r = match event {
        TorEvent::Started => Some(
            TorRuntimeActivityView::new(
                id,
                ts,
                RuntimeActivityKindView::Lifecycle,
                RuntimeActivityToneView::Success,
                "Tor started",
                None,
                None,
            ),
        ),
        TorEvent::Stopped => Some(
            TorRuntimeActivityView::new(
                id,
                ts,
                RuntimeActivityKindView::Lifecycle,
                RuntimeActivityToneView::Neutral,
                "Tor stopped",
                None,
                None,
            ),
        ),
        TorEvent::IdentityRenewed => Some(
            TorRuntimeActivityView::new(
                id,
                ts,
                RuntimeActivityKindView::Identity,
                RuntimeActivityToneView::Success,
                "New identity requested",
                None,
                None,
            ),
        ),
        TorEvent::StartFailed(message) => Some(
            TorRuntimeActivityView::new(
                id,
                ts,
                RuntimeActivityKindView::Error,
                RuntimeActivityToneView::Danger,
                "Tor failed to start",
                Some(message.clone()),
                None,
            ),
        ),
        TorEvent::Crashed(message) => Some(
            TorRuntimeActivityView::new(
                id,
                ts,
                RuntimeActivityKindView::Error,
                RuntimeActivityToneView::Danger,
                "Tor crashed",
                Some(message.clone()),
                None,
            ),
        ),
        TorEvent::Bootstrap(progress) => {
            let tone = if *progress == 100 {
                RuntimeActivityToneView::Success
            } else {
                RuntimeActivityToneView::Info
            };
            let title = String::from_str("Bootstrap: ").concat(
                decimal_string(*progress as u64).as_str(),
            ).concat("%");
            Some(
                TorRuntimeActivityView::new(
                    id,
                    ts,
                    RuntimeActivityKindView::Bootstrap,
                    tone,
                    title.as_str(),
                    None,
                    Some(String::from_str("bootstrap")),
                ),
            )
        },
        TorEvent::ControlAvailabilityChanged(availability) => {
            let (title, tone) = match availability {
                ControlAvailability::Available => (
                    "ControlPort became available",
                    RuntimeActivityToneView::Success,
                ),
                ControlAvailability::Unavailable => (
                    "ControlPort became unavailable",
                    RuntimeActivityToneView::Warning,
                ),
                ControlAvailability::Unconfigured => (
                    "ControlPort is unconfigured",
                    RuntimeActivityToneView::Neutral,
                ),
            };
            Some(
                TorRuntimeActivityView::new(
                    id,
                    ts,
                    RuntimeActivityKindView::Control,
                    tone,
                    title,
                    None,
                    None,
                ),
            )
        },
        TorEvent::BootstrapObservationAvailabilityChanged(availability) => {
            let (title, tone) = match availability {
                ControlAvailability::Available => (
                    "Bootstrap observation became available",
                    RuntimeActivityToneView::Success,
                ),
                ControlAvailability::Unavailable => (
                    "Bootstrap observation became unavailable",
                    RuntimeActivityToneView::Warning,
                ),
                ControlAvailability::Unconfigured => (
                    "Bootstrap observation is unconfigured",
                    RuntimeActivityToneView::Neutral,
                ),
            };
            Some(
                TorRuntimeActivityView::new(
                    id,
                    ts,
                    RuntimeActivityKindView::Control,
                    tone,
                    title,
                    None,
                    None,
                ),
            )
        },
        TorEvent::Warning(message) => Some(
            TorRuntimeActivityView::new(
                id,
                ts,
                RuntimeActivityKindView::Warning,
                RuntimeActivityToneView::Warning,
                "Runtime warning",
                Some(message.clone()),
                None,
            ),
        ),
        TorEvent::Error(message) => Some(
            TorRuntimeActivityView::new(
                id,
                ts,
                RuntimeActivityKindView::Error,
                RuntimeActivityToneView::Danger,
                "Runtime error",
                Some(message.clone()),
                None,
            ),
        ),
        TorEvent::LogLine(_) => None,
    };
    r
}

/// The activity entry for `event`, numbered `id` and stamped with the current
/// time; `None` for raw log lines. Everything but the time stamp is as
/// `runtime_activity_from_event_at` gives it.
pub fn runtime_activity_from_event(event: &TorEvent, id: u64) -> (r: Option<TorRuntimeActivityView>)
    ensures
        match r {
            Some(a) => activity_parts(event@) == Some(parts_of(a)) && a.id == id,
            None => activity_parts(event@) is None,
        },
{
    runtime_activity_from_event_at(event, id, current_timestamp_ms())
}

/// The number of the next activity entry: one more than the previous,
/// staying at the largest number once reached.
pub fn next_activity_id(previous: u64) -> (id: u64)
    ensures
        id == if previous == u64::MAX {
            previous as int
        } else {
            previous + 1
        },
{
    previous.saturating_add(1)
}

/// A ControlPort or bootstrap-observation availability change becomes a
/// plain `Control` entry whose tone tells the new availability (`Success`
/// when available, `Warning` when unavailable, `Neutral` when unconfigured)
/// and whose title names it ("... became available", "... became
/// unavailable", "... is unconfigured"); different availabilities never share
/// a title.
pub proof fn lemma_availability_entries(a: ControlAvailability, b: ControlAvailability)
    ensures
        activity_parts(EventView::ControlAvailabilityChanged(a)) == Some(
            plain(RuntimeActivityKindView::Control, port_change(a).1, port_change(a).0),
        ),
        activity_parts(EventView::BootstrapObservationAvailabilityChanged(a)) == Some(
            plain(RuntimeActivityKindView::Control, observation_change(a).1, observation_change(a).0),
        ),
        (port_change(a).1 == RuntimeActivityToneView::Success) == (a is Available),
        (port_change(a).1 == RuntimeActivityToneView::Warning) == (a is Unavailable),
        (port_change(a).1 == RuntimeActivityToneView::Neutral) == (a is Unconfigured),
        (observation_change(a).1 == RuntimeActivityToneView::Success) == (a is Available),
        (observation_change(a).1 == RuntimeActivityToneView::Warning) == (a is Unavailable),
        (observation_change(a).1 == RuntimeActivityToneView::Neutral) == (a is Unconfigured),
        (port_change(a).0 == "ControlPort became available"@) == (a is Available),
        (port_change(a).0 == "ControlPort became unavailable"@) == (a is Unavailable),
        (port_change(a).0 == "ControlPort is unconfigured"@) == (a is Unconfigured),
        (observation_change(a).0 == "Bootstrap observation became available"@) == (a is Available),
        (observation_change(a).0 == "Bootstrap observation became unavailable"@) == (
        a is Unavailable),
        (observation_change(a).0 == "Bootstrap observation is unconfigured"@) == (
        a is Unconfigured),
        port_change(a).0 == port_change(b).0 ==> a == b,
        observation_change(a).0 == observation_change(b).0 ==> a == b,
{
    reveal_strlit("ControlPort became available");
    reveal_strlit("ControlPort became unavailable");
    reveal_strlit("ControlPort is unconfigured");
    reveal_strlit("Bootstrap observation became available");
    reveal_strlit("Bootstrap observation became unavailable");
    reveal_strlit("Bootstrap observation is unconfigured");
    assert("ControlPort became available"@.len() == 28);
    assert("ControlPort became unavailable"@.len() == 30);
    assert("ControlPort is unconfigured"@.len() == 27);
    assert("Bootstrap observation became available"@.len() == 38);
    assert("Bootstrap observation became unavailable"@.len() == 40);
    assert("Bootstrap observation is unconfigured"@.len() == 37);
}

/// Entries of bootstrap progress, and only they, share the coalescing key
/// `"bootstrap"`, so the feed keeps only the latest progress; raw log lines
/// never become entries.
pub proof fn lemma_only_bootstrap_coalesces(event: EventView)
    ensures
        activity_parts(event) matches Some(p) ==> (p.coalesce_key is Some <==> event is Bootstrap),
        event is Bootstrap ==> (activity_parts(event) matches Some(p) && p.coalesce_key == Some(
            bootstrap_key(),
        )),
        activity_parts(event) is None <==> event is LogLine,
{
}

} // verus!
