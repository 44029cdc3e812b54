//! A detachment counts only where it lasts, and then leaves nothing behind.

use vstd::prelude::*;

use crate::clock::{Instant, DETACH_DEBOUNCE_MS};
use crate::monitor::{Event, MonitorView, Request, Stage};
use crate::tracker::{ChargingMode, Tracker};

verus! {

/// A detachment that is over before it counts changes nothing, and the next one
/// has to last its whole time again.
pub proof fn brief_detachment_changes_nothing(tracker: Tracker, lost: Instant, found: Instant)
    requires
        tracker.attached,
        tracker.attachment_change(false, lost) is Unchanged,
    ensures
        tracker.after_attachment(false, lost).after_attachment(true, found) == (Tracker {
            detach_deadline: None,
            ..tracker
        }),
{
}

/// A detachment that is seen at `lost` and still seen at `still` counts then,
/// exactly where the debounce time lies between the two; until it counts nothing
/// but its deadline is noted.
pub proof fn detachment_counts_after_its_debounce(
    tracker: Tracker,
    lost: Instant,
    still: Instant,
)
    requires
        tracker.attached,
        tracker.detach_deadline is None,
        lost.can_schedule(),
    ensures
        tracker.attachment_change(false, lost) is Unchanged,
        tracker.after_attachment(false, lost) == (Tracker {
            detach_deadline: Some(lost.after(DETACH_DEBOUNCE_MS)),
            ..tracker
        }),
        tracker.after_attachment(false, lost).attachment_change(false, still) is Detached
            <==> still.nanos >= lost.nanos + DETACH_DEBOUNCE_MS * 1_000_000,
        !(tracker.after_attachment(false, lost).attachment_change(false, still) is Detached)
            ==> tracker.after_attachment(false, lost).after_attachment(false, still)
            == tracker.after_attachment(false, lost),
{
}

/// An attachment after a complete detachment is a fresh one: what is known then
/// is what a new monitor would know of the port, with its charging session.
pub proof fn attachment_after_detachment_is_fresh(tracker: Tracker, lost: Instant, found: Instant)
    requires
        tracker.steady(),
        tracker.attachment_change(false, lost) is Detached,
    ensures
        tracker.after_attachment(false, lost).detached() == Tracker::fresh(
            tracker.mode,
            false,
            lost,
        ),
        tracker.after_attachment(false, lost).detached().after_attachment(true, found) == (
        Tracker {
            charging_session_active: tracker.mode.monitors_uevents(),
            ..Tracker::fresh(tracker.mode, true, found)
        }),
{
}

/// In the automatic mode, a detachment that counts undoes public PPS before
/// anything else: the write is asked for, and once it is done the monitor waits,
/// knowing no more than a new one does of an empty port.
pub proof fn detachment_undoes_public(
    monitor: MonitorView,
    time: Instant,
    now: Instant,
    done: Instant,
    later: Instant,
)
    requires
        monitor.wf(time),
        monitor.stage is Attachment,
        monitor.tracker.mode is Automatic,
        monitor.tracker.attachment_change(false, now) is Detached,
    ensures
        monitor.after_reading("Nothing attached"@, now).request(done) == Request::SetPdVerified(
            false,
        ),
        monitor.after_reading("Nothing attached"@, now).after_done(done) == (MonitorView {
            tracker: Tracker::fresh(ChargingMode::Automatic, false, now),
            stage: Stage::Waiting,
            ..monitor
        }),
        monitor.after_reading("Nothing attached"@, now).after_done(done).request(later)
            == (Request::Wait { timeout_ms: -1i32 }),
{
    reveal(MonitorView::after_reading);
}

proof fn lemma_reading_resets(monitor: MonitorView, text: Seq<char>, now: Instant)
    requires
        !(monitor.stage is ResettingVerified),
        monitor.after_reading(text, now).stage is ResettingVerified,
    ensures
        monitor.stage is Attachment,
        monitor.tracker.mode is Automatic,
        text == "Nothing attached"@,
        monitor.tracker.attachment_change(false, now) is Detached,
{
    reveal(MonitorView::after_reading);
}

proof fn lemma_done_resets_nothing(monitor: MonitorView, now: Instant)
    ensures
        !(monitor.after_done(now).stage is ResettingVerified),
{
}

proof fn lemma_nothing_attached_is_some_text()
    ensures
        "Nothing attached"@ != Seq::<char>::empty(),
{
    reveal_strlit("Nothing attached");
    assert("Nothing attached"@.len() == 16);
}

/// The port is unverified only after a detachment that counted in the automatic
/// mode.
pub proof fn port_is_reset_only_after_detachment(
    monitor: MonitorView,
    event: Event,
    now: Instant,
)
    requires
        !(monitor.stage is ResettingVerified),
        monitor.next(event, now).stage is ResettingVerified,
    ensures
        monitor.stage is Attachment,
        monitor.tracker.mode is Automatic,
        event matches Event::Content(text) && text@ == "Nothing attached"@,
        monitor.tracker.attachment_change(false, now) is Detached,
{
    match event {
        Event::Content(text) => {
            assert(monitor.next(event, now) == monitor.after_reading(text@, now));
            lemma_reading_resets(monitor, text@, now);
        },
        Event::Failed => {
            if !monitor.stage.fails() {
                assert(monitor.next(event, now) == monitor.after_reading(Seq::empty(), now));
                lemma_reading_resets(monitor, Seq::empty(), now);
                lemma_nothing_attached_is_some_text();
            }
        },
        Event::Done => {
            assert(monitor.next(event, now) == monitor.after_done(now));
            lemma_done_resets_nothing(monitor, now);
        },
        _ => {
            crate::laws::order::wakeups_change_no_negotiation(monitor, event, now);
        },
    }
}

/// A reconfiguration is a new start: what is known after it is what a new monitor
/// would know, with the charging session that the mode and the port call for. It
/// does not matter what was known before.
pub proof fn reconfiguration_is_a_new_start(
    monitor: MonitorView,
    uevent_ready: bool,
    text: Seq<char>,
    now: Instant,
)
    requires
        monitor.stage == (Stage::ConfiguredAttachment { uevent_ready }),
    ensures
        ({
            let attached = text != "Nothing attached"@;
            let mode = monitor.tracker.mode;
            monitor.after_reading(text, now).tracker == Tracker {
                charging_session_active: mode.monitors_uevents() && attached,
                ..Tracker::fresh(mode, attached, now)
            }
        }),
{
    reveal(MonitorView::after_reading);
}

} // verus!
