//! The monitor waits without polling, and wakes when something is due.

use vstd::prelude::*;

use crate::clock::Instant;
use crate::monitor::{MonitorView, Request};
use crate::readings::ReadingsView;

verus! {

impl MonitorView {
    /// Whether `due` is one of the deadlines that are set.
    pub open spec fn has_deadline(self, due: Instant) -> bool {
        ||| self.tracker.phase.deadline() == Some(due)
        ||| self.tracker.detach_deadline == Some(due)
        ||| self.tracker.uevent_recheck_deadline == Some(due)
        ||| self.tracker.charger_detach_deadline == Some(due)
    }
}

/// A wait lasts until something happens exactly where no deadline is set.
pub proof fn waits_without_deadline_are_unlimited(monitor: MonitorView, now: Instant)
    requires
        monitor.stage is Waiting,
    ensures
        monitor.request(now) == (Request::Wait { timeout_ms: -1i32 }) <==> forall|due: Instant|
            !monitor.has_deadline(due),
{
    let t = monitor.tracker;
    if t.phase.deadline() is Some {
        assert(monitor.has_deadline(t.phase.deadline()->0));
    }
    if t.detach_deadline is Some {
        assert(monitor.has_deadline(t.detach_deadline->0));
    }
    if t.uevent_recheck_deadline is Some {
        assert(monitor.has_deadline(t.uevent_recheck_deadline->0));
    }
    if t.charger_detach_deadline is Some {
        assert(monitor.has_deadline(t.charger_detach_deadline->0));
    }
}

/// No wait outlasts a deadline by as much as a millisecond, and none begins where
/// a deadline is due.
pub proof fn waits_end_by_every_deadline(monitor: MonitorView, due: Instant, now: Instant)
    requires
        monitor.stage is Waiting,
        monitor.has_deadline(due),
    ensures
        monitor.request(now) matches Request::Wait { timeout_ms } && {
            &&& timeout_ms >= 0
            &&& now.reached(due) ==> timeout_ms == 0
            &&& !now.reached(due) ==> now.nanos + timeout_ms * 1_000_000 < due.nanos + 1_000_000
        },
{
}

/// A wait is no wait only where a deadline is due.
pub proof fn only_due_deadlines_end_a_wait_at_once(monitor: MonitorView, now: Instant)
    requires
        monitor.stage is Waiting,
        monitor.request(now) == (Request::Wait { timeout_ms: 0i32 }),
    ensures
        exists|due: Instant| #[trigger] monitor.has_deadline(due) && now.reached(due),
{
    assert(monitor.has_deadline(monitor.next_deadline()->0));
}

/// A stable session is not polled: where the nodes of a settled session show that
/// it charges, with no swap pending, no detachment under observation and no
/// second look planned, nothing is due afterwards, whatever was observed before.
pub proof fn stable_session_is_not_polled(
    monitor: MonitorView,
    text: Seq<char>,
    now: Instant,
)
    requires
        monitor.stage is SettledOnline,
        monitor.tracker.phase is Settled,
        (ReadingsView { usb_online: text, ..monitor.readings }).is_charging(),
        !monitor.tracker.upstream_native_pending,
        monitor.tracker.detach_deadline is None,
        monitor.tracker.uevent_recheck_deadline is None,
    ensures
        monitor.after_reading(text, now).next_deadline() is None,
{
    reveal(MonitorView::after_reading);
}

} // verus!
