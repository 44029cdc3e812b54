//! Public PPS is enabled wherever it may be.

use vstd::prelude::*;

use crate::clock::Instant;
use crate::laws::trace::Occurrence;
use crate::monitor::{Event, MonitorView, Request, Stage};
use crate::readings::ReadingsView;
use crate::tracker::Tracker;

verus! {

impl Event {
    /// Whether an event is the answer with which this text is read.
    pub open spec fn is_text(self, text: Seq<char>) -> bool {
        self matches Event::Content(content) && content@ == text
    }

    /// Whether an event is an answer with which another text than this is read.
    pub open spec fn is_other_text(self, text: Seq<char>) -> bool {
        self matches Event::Content(content) && content@ != text
    }
}

impl MonitorView {
    /// Whether the first `n` of some events wake the monitor for a pass: neither a
    /// stop nor a reconfiguration is there, and every queued uevent is taken where
    /// there are any to take.
    pub open spec fn is_woken_by(self, trace: Seq<Occurrence>, n: int) -> bool {
        &&& self.stage is Waiting
        &&& 1 <= n <= trace.len()
        &&& trace[0].event matches Event::Woken { stop, config, uevent } && !stop && !config && {
            if uevent && self.tracker.uevent_registered {
                &&& n >= 2
                &&& forall|i: int| 1 <= i < n - 1 ==> (#[trigger] trace[i]).event is Uevent
                &&& trace[n - 1].event is Drained
            } else {
                n == 1
            }
        }
    }

    /// The same monitor at another stage, apart from what uevents change.
    pub open spec fn differs_by_uevents(self, after: MonitorView) -> bool {
        &&& after.readings == self.readings
        &&& after.tracker == Tracker {
            usb_detach_uevent_seen: after.tracker.usb_detach_uevent_seen,
            uevent_recheck_deadline: after.tracker.uevent_recheck_deadline,
            ..self.tracker
        }
    }
}

proof fn lemma_step_differs_by_uevents(monitor: MonitorView, event: Event, now: Instant)
    requires
        event is Woken || event is Uevent || event is Drained,
    ensures
        monitor.differs_by_uevents(monitor.next(event, now)),
        monitor.stage is Waiting && (event matches Event::Woken { stop, config, uevent } && !stop
            && !config) ==> monitor.next(event, now).stage == (if event->uevent
            && monitor.tracker.uevent_registered {
            Stage::Draining
        } else {
            Stage::Attachment
        }),
        monitor.stage is Draining && event is Uevent ==> monitor.next(event, now).stage
            is Draining,
        monitor.stage is Draining && event is Drained ==> monitor.next(event, now).stage
            is Attachment,
{
    match event {
        Event::Woken { stop, config, uevent } => {
            assert(monitor.next(event, now) == monitor.after_woken(stop, config, uevent, now));
        },
        Event::Uevent(data) => {
            assert(monitor.next(event, now) == monitor.after_uevent(data@));
        },
        _ => {
            assert(monitor.next(event, now) == monitor.after_drained(now));
        },
    }
}

proof fn lemma_waking(
    monitor: MonitorView,
    start: Instant,
    trace: Seq<Occurrence>,
    n: int,
    k: int,
)
    requires
        monitor.wf(start),
        crate::laws::trace::is_timeline(start, trace),
        monitor.is_woken_by(trace, n),
        1 <= k <= n,
    ensures
        monitor.differs_by_uevents(monitor.after_first(trace, k)),
        monitor.after_first(trace, k).stage == (if k < n {
            Stage::Draining
        } else {
            Stage::Attachment
        }),
    decreases k,
{
    let before = monitor.after_first(trace, k - 1);
    crate::laws::trace::events_lead_from_state_to_state(monitor, start, trace, k - 1);
    if k > 1 {
        lemma_waking(monitor, start, trace, n, k - 1);
    }
    lemma_step_differs_by_uevents(before, trace[k - 1].event, trace[k - 1].now);
}

/// Every wakeup without a stop or a reconfiguration leads to a look at the port,
/// with the negotiation as it was, however many uevents are taken before.
pub proof fn wakeups_lead_to_the_port(
    monitor: MonitorView,
    start: Instant,
    trace: Seq<Occurrence>,
    n: int,
)
    requires
        monitor.wf(start),
        crate::laws::trace::is_timeline(start, trace),
        monitor.is_woken_by(trace, n),
    ensures
        monitor.after_first(trace, n).stage is Attachment,
        monitor.differs_by_uevents(monitor.after_first(trace, n)),
{
    lemma_waking(monitor, start, trace, n, n);
}

proof fn lemma_port_is_attached(monitor: MonitorView, time: Instant, event: Event, now: Instant)
    requires
        monitor.wf(time),
        monitor.stage is Attachment,
        !(monitor.tracker.phase is Idle),
        event.is_other_text("Nothing attached"@),
    ensures
        monitor.next(event, now).tracker == (Tracker { detach_deadline: None, ..monitor.tracker }),
        monitor.tracker.phase is IdentifyingPublic ==> monitor.next(event, now).stage
            is IdentifyVerified,
        monitor.tracker.phase is WaitingNative ==> monitor.next(event, now).stage
            is NativeVerified,
        monitor.tracker.phase is Settled ==> monitor.next(event, now).stage is SettledVerified,
{
    reveal(MonitorView::after_reading);
    let text = event->Content_0@;
    assert(monitor.next(event, now) == monitor.after_port(text, now));
}

proof fn lemma_negotiation_reaches_its_nodes(
    monitor: MonitorView,
    start: Instant,
    trace: Seq<Occurrence>,
    n: int,
)
    requires
        monitor.wf(start),
        crate::laws::trace::is_timeline(start, trace),
        monitor.is_woken_by(trace, n),
        !(monitor.tracker.phase is Idle),
        n < trace.len(),
        trace[n].event.is_other_text("Nothing attached"@),
    ensures
        ({
            let after = monitor.after_first(trace, n + 1);
            &&& after.tracker == Tracker {
                detach_deadline: None,
                usb_detach_uevent_seen: after.tracker.usb_detach_uevent_seen,
                uevent_recheck_deadline: after.tracker.uevent_recheck_deadline,
                ..monitor.tracker
            }
            &&& monitor.tracker.phase is IdentifyingPublic ==> after.stage is IdentifyVerified
            &&& monitor.tracker.phase is WaitingNative ==> after.stage is NativeVerified
            &&& monitor.tracker.phase is Settled ==> after.stage is SettledVerified
        }),
{
    wakeups_lead_to_the_port(monitor, start, trace, n);
    crate::laws::trace::events_lead_from_state_to_state(monitor, start, trace, n);
    lemma_port_is_attached(
        monitor.after_first(trace, n),
        crate::laws::trace::time_after(start, trace.take(n)),
        trace[n].event,
        trace[n].now,
    );
}

/// Whether the monitor asks for the port to be verified, and the budget paid for it
/// once more than before.
pub open spec fn takes_public(before: MonitorView, after: MonitorView) -> bool {
    &&& forall|now: Instant| (#[trigger] after.request(now)) == Request::SetPdVerified(true)
    &&& after.tracker.public_retry_count == before.tracker.public_retry_count + 1
}

/// How a pass through an identification reads on.
pub open spec fn identification_goes_on(
    before: MonitorView,
    event: Event,
    now: Instant,
    after: MonitorView,
) -> bool {
    &&& before.stage is IdentifyVerified && event.is_other_text("1"@)
        && before.tracker.identity_due(now) ==> {
        &&& after.stage is IdentifyUsbType
        &&& after.tracker == before.tracker
        &&& !after.readings.is_verified()
    }
    &&& before.stage is IdentifyUsbType && event.is_text("PD_PPS"@) ==> {
        &&& after.stage is IdentifySvid
        &&& after.tracker == before.tracker
        &&& after.readings == ReadingsView { usb_type: "PD_PPS"@, ..before.readings }
    }
    &&& before.stage is IdentifySvid && before.tracker.phase is IdentifyingPublic
        && event.is_text("0000"@) && before.readings.is_unverified_pps()
        && before.tracker.has_budget() ==> takes_public(before, after)
}

/// How a pass through a native negotiation reads on.
pub open spec fn negotiation_goes_on(
    before: MonitorView,
    event: Event,
    now: Instant,
    after: MonitorView,
) -> bool {
    &&& before.stage is NativeVerified && event.is_other_text("1"@)
        && before.tracker.native_overdue(now) ==> {
        &&& after.stage is NativeUsbType
        &&& after.tracker == before.tracker
    }
    &&& before.stage is NativeUsbType && event.is_text("PD_PPS"@) && before.tracker.has_budget()
        ==> takes_public(before, after)
}

impl Tracker {
    /// Whether a settled session has an attempt to take.
    pub open spec fn has_free_attempt(self) -> bool {
        &&& self.phase is Settled
        &&& !self.public_retry_attempted
        &&& !self.upstream_native_pending
        &&& self.has_budget()
    }
}

/// How a pass through a settled session reads on: a look that does not find the
/// charger swapped, which only one that shows it offline does, leaves a free attempt
/// as it is and leads to another look for public PPS.
pub open spec fn settled_look_goes_on(
    before: MonitorView,
    event: Event,
    after: MonitorView,
) -> bool {
    &&& before.stage is SettledVerified && event is Content ==> {
        &&& after.stage is SettledUsbType
        &&& after.tracker == before.tracker
    }
    &&& before.stage is SettledUsbType && event is Content ==> {
        &&& after.stage is SettledBattery
        &&& after.tracker == before.tracker
        &&& after.readings.usb_type == event->Content_0@
    }
    &&& before.stage is SettledBattery && (event is Content || event is Failed) ==> {
        &&& after.stage is SettledOnline
        &&& after.tracker == before.tracker
        &&& after.readings.usb_type == before.readings.usb_type
    }
    &&& before.looks(event) && before.tracker.has_free_attempt() ==> {
        &&& after.readings.usb_type == before.readings.usb_type
        &&& after.tracker.upstream_native_pending ==> after.readings.is_offline()
    }
    &&& before.looks(event) && before.tracker.has_free_attempt()
        && !after.tracker.upstream_native_pending ==> {
        &&& after.stage is RetryVerified
        &&& after.tracker.has_free_attempt()
        &&& after.tracker.public_retry_count == before.tracker.public_retry_count
    }
}

/// How the look for public PPS in a settled session reads on.
pub open spec fn retry_goes_on(before: MonitorView, event: Event, after: MonitorView) -> bool {
    &&& before.stage is RetryVerified && event.is_other_text("1"@) ==> {
        &&& after.stage is RetryUsbType
        &&& after.tracker == before.tracker
        &&& !after.readings.is_verified()
    }
    &&& before.stage is RetryUsbType && event.is_text("PD_PPS"@) && !before.readings.is_verified()
        && before.tracker.has_budget() ==> takes_public(before, after)
}

proof fn lemma_identification_goes_on(monitor: MonitorView, event: Event, now: Instant)
    ensures
        identification_goes_on(monitor, event, now, monitor.next(event, now)),
{
    reveal(MonitorView::after_reading);
    if monitor.stage.subject() is Identification {
        if let Event::Content(text) = event {
            assert(monitor.next(event, now) == monitor.after_identification(text@, now));
        }
    }
}

proof fn lemma_negotiation_goes_on(monitor: MonitorView, event: Event, now: Instant)
    ensures
        negotiation_goes_on(monitor, event, now, monitor.next(event, now)),
{
    reveal(MonitorView::after_reading);
    if monitor.stage.subject() is Native {
        if let Event::Content(text) = event {
            assert(monitor.next(event, now) == monitor.after_native(text@, now));
        }
    }
}

proof fn lemma_settled_look_goes_on(monitor: MonitorView, event: Event, now: Instant)
    ensures
        settled_look_goes_on(monitor, event, monitor.next(event, now)),
{
    reveal(MonitorView::after_reading);
    if monitor.stage.subject() is Settled {
        match event {
            Event::Content(text) => {
                assert(monitor.next(event, now) == monitor.after_settled(text@, now));
            },
            Event::Failed => {
                if !monitor.stage.fails() {
                    assert(monitor.next(event, now) == monitor.after_settled(Seq::empty(), now));
                }
            },
            _ => {},
        }
    }
}

proof fn lemma_retry_goes_on(monitor: MonitorView, event: Event, now: Instant)
    ensures
        retry_goes_on(monitor, event, monitor.next(event, now)),
{
    reveal(MonitorView::after_reading);
    if monitor.stage.subject() is Public {
        if let Event::Content(text) = event {
            assert(monitor.next(event, now) == monitor.after_public(text@));
        }
    }
}

proof fn lemma_pass_goes_on(monitor: MonitorView, start: Instant, trace: Seq<Occurrence>, n: int)
    requires
        monitor.wf(start),
        crate::laws::trace::is_timeline(start, trace),
        0 <= n < trace.len(),
    ensures
        ({
            let before = monitor.after_first(trace, n);
            let after = monitor.after_first(trace, n + 1);
            &&& identification_goes_on(before, trace[n].event, trace[n].now, after)
            &&& negotiation_goes_on(before, trace[n].event, trace[n].now, after)
            &&& settled_look_goes_on(before, trace[n].event, after)
            &&& retry_goes_on(before, trace[n].event, after)
        }),
{
    let before = monitor.after_first(trace, n);
    crate::laws::trace::events_lead_from_state_to_state(monitor, start, trace, n);
    lemma_identification_goes_on(before, trace[n].event, trace[n].now);
    lemma_negotiation_goes_on(before, trace[n].event, trace[n].now);
    lemma_settled_look_goes_on(before, trace[n].event, trace[n].now);
    lemma_retry_goes_on(before, trace[n].event, trace[n].now);
}

/// An attachment that shows itself as a public charger is taken early: a pass
/// through an identification that reads something attached, not before the next look
/// is due an unverified port, PPS and no vendor's SVID asks for the port to be
/// verified where the budget allows it.
pub proof fn public_charger_is_taken_early(
    monitor: MonitorView,
    start: Instant,
    trace: Seq<Occurrence>,
    n: int,
)
    requires
        monitor.wf(start),
        crate::laws::trace::is_timeline(start, trace),
        monitor.is_woken_by(trace, n),
        n + 4 <= trace.len(),
        monitor.tracker.has_budget(),
        trace[n].event.is_other_text("Nothing attached"@),
        trace[n + 1].event.is_other_text("1"@),
        monitor.tracker.identity_due(trace[n + 1].now),
        trace[n + 2].event.is_text("PD_PPS"@),
        trace[n + 3].event.is_text("0000"@),
    ensures
        takes_public(monitor, monitor.after_first(trace, n + 4)),
{
    lemma_negotiation_reaches_its_nodes(monitor, start, trace, n);
    lemma_pass_goes_on(monitor, start, trace, n + 1);
    lemma_pass_goes_on(monitor, start, trace, n + 2);
    lemma_pass_goes_on(monitor, start, trace, n + 3);
}

/// PPS that is there at the end of Xiaomi's time is taken: a pass through a native
/// negotiation that reads something attached, at or after the deadline an unverified
/// port, and PPS asks for the port to be verified where the budget allows it.
pub proof fn public_is_taken_after_the_native_time(
    monitor: MonitorView,
    start: Instant,
    trace: Seq<Occurrence>,
    n: int,
)
    requires
        monitor.wf(start),
        crate::laws::trace::is_timeline(start, trace),
        monitor.is_woken_by(trace, n),
        n + 3 <= trace.len(),
        monitor.tracker.has_budget(),
        trace[n].event.is_other_text("Nothing attached"@),
        trace[n + 1].event.is_other_text("1"@),
        monitor.tracker.native_overdue(trace[n + 1].now),
        trace[n + 2].event.is_text("PD_PPS"@),
    ensures
        takes_public(monitor, monitor.after_first(trace, n + 3)),
{
    lemma_negotiation_reaches_its_nodes(monitor, start, trace, n);
    lemma_pass_goes_on(monitor, start, trace, n + 1);
    lemma_pass_goes_on(monitor, start, trace, n + 2);
}

/// PPS that appears in a settled session whose attempt is free is taken: a pass that
/// reads something attached, completes its look without finding the charger swapped,
/// and then reads an unverified port and PPS asks for the port to be verified where
/// the budget allows it. The battery and the supply need not be readable.
pub proof fn public_is_taken_in_a_settled_session(
    monitor: MonitorView,
    start: Instant,
    trace: Seq<Occurrence>,
    n: int,
)
    requires
        monitor.wf(start),
        crate::laws::trace::is_timeline(start, trace),
        monitor.is_woken_by(trace, n),
        n + 7 <= trace.len(),
        monitor.tracker.phase is Settled,
        !monitor.tracker.public_retry_attempted,
        monitor.tracker.has_budget(),
        trace[n].event.is_other_text("Nothing attached"@),
        trace[n + 1].event is Content,
        trace[n + 2].event is Content,
        trace[n + 3].event is Content || trace[n + 3].event is Failed,
        trace[n + 4].event is Content || trace[n + 4].event is Failed,
        !monitor.after_first(trace, n + 5).tracker.upstream_native_pending,
        trace[n + 5].event.is_other_text("1"@),
        trace[n + 6].event.is_text("PD_PPS"@),
    ensures
        takes_public(monitor, monitor.after_first(trace, n + 7)),
{
    lemma_free_attempt_is_free(monitor, start);
    lemma_negotiation_reaches_its_nodes(monitor, start, trace, n);
    lemma_pass_goes_on(monitor, start, trace, n + 1);
    lemma_pass_goes_on(monitor, start, trace, n + 2);
    lemma_pass_goes_on(monitor, start, trace, n + 3);
    lemma_pass_goes_on(monitor, start, trace, n + 4);
    lemma_pass_goes_on(monitor, start, trace, n + 5);
    lemma_pass_goes_on(monitor, start, trace, n + 6);
}

/// PPS that both looks of a pass through a settled session read is taken: whatever
/// else the first look reads, it does not find the charger swapped.
pub proof fn public_that_stays_is_taken_in_a_settled_session(
    monitor: MonitorView,
    start: Instant,
    trace: Seq<Occurrence>,
    n: int,
)
    requires
        monitor.wf(start),
        crate::laws::trace::is_timeline(start, trace),
        monitor.is_woken_by(trace, n),
        n + 7 <= trace.len(),
        monitor.tracker.phase is Settled,
        !monitor.tracker.public_retry_attempted,
        monitor.tracker.has_budget(),
        trace[n].event.is_other_text("Nothing attached"@),
        trace[n + 1].event is Content,
        trace[n + 2].event.is_text("PD_PPS"@),
        trace[n + 3].event is Content || trace[n + 3].event is Failed,
        trace[n + 4].event is Content || trace[n + 4].event is Failed,
        trace[n + 5].event.is_other_text("1"@),
        trace[n + 6].event.is_text("PD_PPS"@),
    ensures
        takes_public(monitor, monitor.after_first(trace, n + 7)),
{
    lemma_free_attempt_is_free(monitor, start);
    lemma_negotiation_reaches_its_nodes(monitor, start, trace, n);
    lemma_pass_goes_on(monitor, start, trace, n + 1);
    lemma_pass_goes_on(monitor, start, trace, n + 2);
    lemma_pass_goes_on(monitor, start, trace, n + 3);
    lemma_pass_goes_on(monitor, start, trace, n + 4);
    reveal_strlit("PD_PPS");
    reveal_strlit("Unknown");
    assert("PD_PPS"@.len() != "Unknown"@.len());
    public_is_taken_in_a_settled_session(monitor, start, trace, n);
}

proof fn lemma_free_attempt_is_free(monitor: MonitorView, time: Instant)
    requires
        monitor.wf(time),
        !monitor.tracker.public_retry_attempted,
        monitor.stage is Waiting,
    ensures
        !monitor.tracker.upstream_native_pending,
{
}

} // verus!
