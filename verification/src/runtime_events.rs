//! The delivery policy of the internal runtime event pipeline.
//!
//! The pipeline is bounded so that a noisy log cannot grow memory without
//! limit. Raw log lines are the only events that may be dropped when it is
//! full; every state-bearing or operator-visible event waits for room.
use vstd::prelude::*;

use crate::domain::TorEvent;

verus! {

/// Capacity of the internal runtime event queue.
pub const RUNTIME_EVENT_QUEUE_CAPACITY: usize = 1024;

/// Capacity of the queue of commands sent to the supervisor.
pub const COMMAND_QUEUE_CAPACITY: usize = 32;

/// Capacity of the queue of configuration updates sent to the supervisor.
pub const CONFIG_QUEUE_CAPACITY: usize = 8;

/// Capacity of the broadcast of events to subscribers.
pub const EVENT_BROADCAST_CAPACITY: usize = 256;

/// How an event enters a full queue.
#[derive(Debug, Clone, Copy, PartialEq, Eq, Structural)]
pub enum Delivery {
    /// Dropped when the queue is full.
    DropWhenFull,
    /// Waits until the queue has room.
    WaitForCapacity,
}

/// Whether an event may be dropped on overload: only raw log lines may.
pub fn is_lossy(event: &TorEvent) -> (b: bool)
    ensures
        b == (*event is LogLine),
{
    matches!(event, TorEvent::LogLine(_))
}

/// How an event is delivered: raw log lines are dropped when the queue is
/// full, every other event waits for room.
pub fn delivery(event: &TorEvent) -> (d: Delivery)
    ensures
        d == Delivery::DropWhenFull <==> *event is LogLine,
{
    if is_lossy(event) {
        Delivery::DropWhenFull
    } else {
        Delivery::WaitForCapacity
    }
}

} // verus!
