//! How long the monitor waits.

use vstd::prelude::*;

use crate::clock::Instant;
use crate::monitor::{MonitorView, Request};
use crate::phase::AutoPhase;

verus! {

impl MonitorView {
    /// Whether something is due at `due`: the next look of an identification, the end of
    /// Xiaomi's time, the second write or the verification of an attempt, a detachment, a
    /// planned look at the nodes, or the end of an outage. Nothing is due in a settled
    /// session or where nothing is negotiated on that account alone.
    pub open spec fn is_due(self, due: Instant) -> bool {
        ||| match self.tracker.phase {
            AutoPhase::IdentifyingPublic { next_check, .. } => next_check == due,
            AutoPhase::WaitingNative(deadline) => deadline == due,
            AutoPhase::EnablingPublic(deadline) => deadline == due,
            AutoPhase::VerifyingPublic(deadline) => deadline == due,
            AutoPhase::Settled => false,
            AutoPhase::Idle => false,
        }
        ||| self.tracker.detach_deadline == Some(due)
        ||| self.tracker.uevent_recheck_deadline == Some(due)
        ||| self.tracker.charger_detach_deadline == Some(due)
    }
}

/// A wait lasts without limit exactly where nothing is due.
pub proof fn nothing_due_is_waited_for_without_limit(monitor: MonitorView, now: Instant)
    requires
        monitor.request(now) is Wait,
    ensures
        monitor.request(now) == (Request::Wait { timeout_ms: -1i32 }) <==> forall|due: Instant|
            !monitor.is_due(due),
{
    let t = monitor.tracker;
    match t.phase {
        AutoPhase::IdentifyingPublic { next_check, .. } => {
            assert(monitor.is_due(next_check));
        },
        AutoPhase::WaitingNative(deadline) => {
            assert(monitor.is_due(deadline));
        },
        AutoPhase::EnablingPublic(deadline) => {
            assert(monitor.is_due(deadline));
        },
        AutoPhase::VerifyingPublic(deadline) => {
            assert(monitor.is_due(deadline));
        },
        _ => {},
    }
    if t.detach_deadline is Some {
        assert(monitor.is_due(t.detach_deadline->0));
    }
    if t.uevent_recheck_deadline is Some {
        assert(monitor.is_due(t.uevent_recheck_deadline->0));
    }
    if t.charger_detach_deadline is Some {
        assert(monitor.is_due(t.charger_detach_deadline->0));
    }
}

/// A wait lasts until what is due first: not at all where that is due already, and else
/// the whole milliseconds that are left, but at least one and at most what a wait can
/// express.
pub proof fn what_is_due_first_ends_the_wait(monitor: MonitorView, due: Instant, now: Instant)
    requires
        monitor.request(now) is Wait,
        monitor.is_due(due),
        forall|other: Instant| #[trigger] monitor.is_due(other) ==> due.nanos <= other.nanos,
    ensures
        monitor.request(now) matches Request::Wait { timeout_ms } && {
            let left = (due.nanos - now.nanos) / 1_000_000;
            timeout_ms == if due.nanos <= now.nanos {
                0
            } else if left < 1 {
                1
            } else if left > 2_147_483_647 {
                2_147_483_647
            } else {
                left
            }
        },
{
    let t = monitor.tracker;
    match t.phase {
        AutoPhase::IdentifyingPublic { next_check, .. } => {
            assert(monitor.is_due(next_check));
        },
        AutoPhase::WaitingNative(deadline) => {
            assert(monitor.is_due(deadline));
        },
        AutoPhase::EnablingPublic(deadline) => {
            assert(monitor.is_due(deadline));
        },
        AutoPhase::VerifyingPublic(deadline) => {
            assert(monitor.is_due(deadline));
        },
        _ => {},
    }
    if t.detach_deadline is Some {
        assert(monitor.is_due(t.detach_deadline->0));
    }
    if t.uevent_recheck_deadline is Some {
        assert(monitor.is_due(t.uevent_recheck_deadline->0));
    }
    if t.charger_detach_deadline is Some {
        assert(monitor.is_due(t.charger_detach_deadline->0));
    }
}

} // verus!
