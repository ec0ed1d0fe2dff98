//! Decisions of the state store, which folds runtime events into the current
//! snapshot and publishes what changed.
use vstd::prelude::*;

use crate::domain::{TorEvent, TorState};
use crate::runtime_state::{
    snapshot_transition, SnapshotModel, TorRuntimeSnapshot, TorRuntimeSnapshotReducer,
};

verus! {

/// What the store publishes after one event: the new lifecycle state when it
/// changed, the new snapshot when anything changed. Every event itself is
/// forwarded to subscribers whatever this holds.
pub struct StorePublication {
    pub tor: Option<TorState>,
    pub snapshot: Option<TorRuntimeSnapshot>,
}

/// The snapshot after `event` when the event is accepted and changes it.
pub open spec fn store_change(s: SnapshotModel, event: TorEvent) -> Option<SnapshotModel> {
    match snapshot_transition(s, event) {
        Ok(next) => if next != s {
            Some(next)
        } else {
            None
        },
        Err(_) => None,
    }
}

/// Folds one event into the current snapshot. A refused event, or one that
/// changes nothing, leaves the snapshot as it was and publishes nothing.
pub fn store_event(current: &mut TorRuntimeSnapshot, event: &TorEvent) -> (p: StorePublication)
    ensures
        match store_change(old(current)@, *event) {
            Some(next) => {
                &&& final(current)@ == next
                &&& p.snapshot matches Some(s) && s@ == next
                &&& p.tor is Some <==> next.0 != old(current)@.0
                &&& p.tor matches Some(t) ==> t@ == next.0
            },
            None => {
                &&& final(current)@ == old(current)@
                &&& p.snapshot is None
                &&& p.tor is None
            },
        },
{
    let mut next = *current;
    match TorRuntimeSnapshotReducer::apply_event(&mut next, event) {
        Ok(()) => {
            if next.same_as(current) {
                StorePublication { tor: None, snapshot: None }
            } else {
                let tor_changed = !next.tor().same_as(&current.tor());
                *current = next;
                StorePublication {
                    tor: if tor_changed {
                        Some(next.tor())
                    } else {
                        None
                    },
                    snapshot: Some(next),
                }
            }
        },
        Err(_) => StorePublication { tor: None, snapshot: None },
    }
}

} // verus!
