//! A charger that is swapped behind an adapter is noticed, and has to pass
//! Xiaomi's protocol first like any other.

use vstd::prelude::*;

use crate::clock::{Instant, DETACH_DEBOUNCE_MS};
use crate::monitor::{Event, MonitorView, Stage};
use crate::phase::AutoPhase;
use crate::readings::ReadingsView;
use crate::tracker::Tracker;

verus! {

/// The detection of a swap is armed in every stable session, Xiaomi's as well as
/// a public one, however much of the budget is used: where the battery charges
/// and no swap is pending, it is armed unless a lost public PPS is retried.
pub proof fn every_stable_session_arms_the_detection(
    tracker: Tracker,
    readings: ReadingsView,
    now: Instant,
)
    requires
        readings.is_charging(),
        !tracker.upstream_native_pending,
    ensures
        tracker.after_settled(readings, now).charger_detach_armed <==> !tracker.retry_failed(
            readings,
        ),
        readings.is_verified() ==> tracker.after_settled(readings, now).charger_detach_armed,
{
}

/// An upstream charger that is seen offline at `lost` and still at `still` counts
/// as gone then, exactly where the debounce time lies between the two; until it
/// counts nothing but its deadline is noted.
pub proof fn upstream_detachment_counts_after_its_debounce(
    tracker: Tracker,
    first: ReadingsView,
    lost: Instant,
    second: ReadingsView,
    still: Instant,
)
    requires
        tracker.upstream_offline(first),
        tracker.upstream_offline(second),
        tracker.charger_detach_deadline is None,
        lost.can_schedule(),
    ensures
        ({
            let noted = tracker.after_settled(first, lost);
            &&& noted == Tracker {
                charger_detach_deadline: Some(lost.after(DETACH_DEBOUNCE_MS)),
                ..tracker
            }
            &&& noted.upstream_gone(second, still) <==> still.nanos >= lost.nanos
                + DETACH_DEBOUNCE_MS * 1_000_000
            &&& !noted.upstream_gone(second, still) ==> noted.after_settled(second, still) == noted
        }),
{
    first.charging_is_not_offline();
    second.charging_is_not_offline();
}

/// An outage that a reading contradicts is over: the next one has to last its
/// whole time again.
pub proof fn contradicted_outage_begins_anew(
    tracker: Tracker,
    readings: ReadingsView,
    now: Instant,
)
    requires
        !readings.is_offline(),
    ensures
        tracker.after_settled(readings, now).charger_detach_deadline is None,
{
}

/// A charger that counts as gone opens a new session with a whole budget, out of
/// reach until the replacement had its time with Xiaomi's protocol.
pub proof fn swap_opens_a_new_session(tracker: Tracker, readings: ReadingsView, now: Instant)
    requires
        tracker.upstream_gone(readings, now),
    ensures
        tracker.after_settled(readings, now) == (Tracker {
            public_retry_count: 0,
            public_retry_attempted: true,
            upstream_native_pending: true,
            charger_detach_armed: false,
            usb_detach_uevent_seen: false,
            charger_detach_deadline: None,
            ..tracker
        }),
{
    readings.charging_is_not_offline();
}

/// When the replacement charges, its negotiation begins like that of a fresh
/// attachment.
pub proof fn replacement_charger_is_negotiated_like_a_fresh_one(
    tracker: Tracker,
    readings: ReadingsView,
    now: Instant,
)
    requires
        tracker.upstream_native_pending,
    ensures
        readings.is_charging() ==> {
            &&& tracker.after_settled(readings, now).phase == AutoPhase::attached_at(now)
            &&& !tracker.after_settled(readings, now).upstream_native_pending
        },
        !readings.is_charging() ==> {
            &&& tracker.after_settled(readings, now).phase == tracker.phase
            &&& tracker.after_settled(readings, now).upstream_native_pending
        },
{
}

/// Whether a swap that newly is pending was warranted: the nodes of a settled
/// session, an uevent before them, and the time since all show that the upstream
/// charger is gone.
pub open spec fn swap_is_warranted(before: MonitorView, after: MonitorView, now: Instant) -> bool {
    after.tracker.upstream_native_pending && !before.tracker.upstream_native_pending ==> {
        &&& before.tracker.phase is Settled
        &&& before.tracker.charger_detach_armed
        &&& before.tracker.usb_detach_uevent_seen
        &&& after.readings.is_offline()
        &&& before.tracker.charger_detach_deadline matches Some(deadline) && now.reached(deadline)
    }
}

/// Whether a swap that no longer is pending ended as it should: either with a
/// fresh negotiation of a charger that charges, or with the session it belonged
/// to.
pub open spec fn swap_ends_well(before: MonitorView, after: MonitorView, now: Instant) -> bool {
    before.tracker.upstream_native_pending && !after.tracker.upstream_native_pending ==> {
        ||| after.readings.is_charging() && after.tracker.phase == AutoPhase::attached_at(now)
        ||| after.tracker == after.tracker.renewed()
    }
}

proof fn lemma_reading_swaps(monitor: MonitorView, time: Instant, text: Seq<char>, now: Instant)
    requires
        monitor.wf(time),
    ensures
        swap_is_warranted(monitor, monitor.after_reading(text, now), now),
        swap_ends_well(monitor, monitor.after_reading(text, now), now),
{
    reveal(MonitorView::after_reading);
}

proof fn lemma_done_swaps(monitor: MonitorView, time: Instant, now: Instant)
    requires
        monitor.wf(time),
    ensures
        swap_is_warranted(monitor, monitor.after_done(now), now),
        swap_ends_well(monitor, monitor.after_done(now), now),
{
}

/// No event makes the monitor believe in a swap without the whole evidence, and
/// none ends a pending swap but the replacement charger's charging or the end of
/// the session.
pub proof fn swaps_are_warranted_and_end_well(
    monitor: MonitorView,
    time: Instant,
    event: Event,
    now: Instant,
)
    requires
        monitor.wf(time),
    ensures
        swap_is_warranted(monitor, monitor.next(event, now), now),
        swap_ends_well(monitor, monitor.next(event, now), now),
{
    match event {
        Event::Content(text) => {
            assert(monitor.next(event, now) == monitor.after_reading(text@, now));
            lemma_reading_swaps(monitor, time, text@, now);
        },
        Event::Failed => {
            if monitor.stage.fails() {
                assert(monitor.next(event, now) == monitor.at(Stage::Ended { failed: true }));
            } else {
                assert(monitor.next(event, now) == monitor.after_reading(Seq::empty(), now));
                lemma_reading_swaps(monitor, time, Seq::empty(), now);
            }
        },
        Event::Done => {
            assert(monitor.next(event, now) == monitor.after_done(now));
            lemma_done_swaps(monitor, time, now);
        },
        _ => {
            crate::laws::order::wakeups_change_no_negotiation(monitor, event, now);
        },
    }
}

/// While a swap is pending, public PPS is not enabled.
pub proof fn pending_swap_excludes_public(
    monitor: MonitorView,
    time: Instant,
    event: Event,
    now: Instant,
)
    requires
        monitor.wf(time),
        now.reached(time),
        monitor.tracker.upstream_native_pending,
    ensures
        !monitor.attempts_public(event, now),
{
    if monitor.attempts_public(event, now) {
        crate::laws::negotiation::public_is_enabled_only_where_it_may(monitor, time, event, now);
    }
}

} // verus!
