//! A charger counts as swapped only after an outage that nothing interrupted.

use vstd::prelude::*;

use crate::clock::{Instant, DETACH_DEBOUNCE_MS};
use crate::laws::trace::Occurrence;
use crate::monitor::{Event, MonitorView, Stage};
use crate::readings::ReadingsView;

verus! {

impl MonitorView {
    /// Whether an event completes a look at the nodes of a settled session.
    pub open spec fn looks(self, event: Event) -> bool {
        self.stage is SettledOnline && (event is Content || event is Failed)
    }

    /// Whether an event leaves an outage of the upstream charger as it is: the
    /// session is settled, public PPS is not enabled, and a look that is completed
    /// shows the charger offline.
    #[verifier::opaque]
    pub open spec fn bears_out_outage(self, event: Event, now: Instant) -> bool {
        &&& self.tracker.phase is Settled
        &&& !self.attempts_public(event, now)
        &&& self.looks(event) ==> self.next(event, now).readings.is_offline()
    }

    /// Whether an event makes the monitor believe that the upstream charger is
    /// being swapped.
    pub open spec fn believes_in_swap(self, event: Event, now: Instant) -> bool {
        &&& !self.tracker.upstream_native_pending
        &&& self.next(event, now).tracker.upstream_native_pending
    }

    /// Whether the upstream charger was offline from one of some events on: that
    /// one completed a look after an uevent had told of the outage, and none since
    /// the look, which itself showed the charger offline, contradicts the outage.
    pub open spec fn offline_since(self, trace: Seq<Occurrence>, first: int) -> bool {
        &&& 0 <= first < trace.len()
        &&& self.run(trace.take(first)).looks(trace[first].event)
        &&& self.run(trace.take(first)).tracker.usb_detach_uevent_seen
        &&& forall|i: int|
            first <= i < trace.len() ==> (#[trigger] self.run(trace.take(i))).bears_out_outage(
                trace[i].event,
                trace[i].now,
            )
    }
}

impl MonitorView {
    /// Whether one of the first `n` of some events, that at `heard`, is an uevent
    /// which tells that the USB supply went offline, taken in a settled session in
    /// which the detection of a swap was armed, and it has counted ever since.
    pub open spec fn heard_since(self, trace: Seq<Occurrence>, n: int, heard: int) -> bool {
        &&& 0 <= heard < n
        &&& self.after_first(trace, heard).tracker.capturing()
        &&& trace[heard].event matches Event::Uevent(data) && crate::uevent::usb_offline(data@)
        &&& forall|i: int|
            heard < i <= n ==> (#[trigger] self.after_first(
                trace,
                i,
            )).tracker.usb_detach_uevent_seen
    }
}

/// How one event changes whether an uevent told that the USB supply went offline:
/// nothing but such an uevent, taken while it counts, does.
pub open spec fn hearing_after(before: MonitorView, event: Event, after: MonitorView) -> bool {
    after.tracker.usb_detach_uevent_seen && !before.tracker.usb_detach_uevent_seen ==> {
        &&& before.tracker.capturing()
        &&& event matches Event::Uevent(data) && crate::uevent::usb_offline(data@)
    }
}

proof fn lemma_reading_hears_nothing(
    monitor: MonitorView,
    event: Event,
    text: Seq<char>,
    now: Instant,
)
    ensures
        hearing_after(monitor, event, monitor.after_reading(text, now)),
{
    reveal(MonitorView::after_reading);
}

/// Only an uevent that tells of it counts as evidence that the USB supply went
/// offline, and only in a settled session in which the detection is armed.
pub proof fn only_uevents_tell_of_an_outage(monitor: MonitorView, event: Event, now: Instant)
    ensures
        hearing_after(monitor, event, monitor.next(event, now)),
{
    match event {
        Event::Content(text) => {
            assert(monitor.next(event, now) == monitor.after_reading(text@, now));
            lemma_reading_hears_nothing(monitor, event, text@, now);
        },
        Event::Failed => {
            if monitor.stage.fails() {
                assert(monitor.next(event, now) == monitor.at(Stage::Ended { failed: true }));
            } else {
                assert(monitor.next(event, now) == monitor.after_reading(Seq::empty(), now));
                lemma_reading_hears_nothing(monitor, event, Seq::empty(), now);
            }
        },
        Event::Done => {
            assert(monitor.next(event, now) == monitor.after_done(now));
        },
        Event::Woken { stop, config, uevent } => {
            assert(monitor.next(event, now) == monitor.after_woken(stop, config, uevent, now));
        },
        Event::Mode(mode) => {
            assert(monitor.next(event, now) == monitor.after_mode(mode));
        },
        Event::Uevent(data) => {
            assert(monitor.next(event, now) == monitor.after_uevent(data@));
        },
        Event::Drained => {
            assert(monitor.next(event, now) == monitor.after_drained(now));
        },
        _ => {},
    }
}

proof fn lemma_state_hears(
    monitor: MonitorView,
    start: Instant,
    trace: Seq<Occurrence>,
    n: int,
)
    requires
        monitor.wf(start),
        crate::laws::trace::is_timeline(start, trace),
        0 <= n < trace.len(),
    ensures
        hearing_after(
            monitor.after_first(trace, n),
            trace[n].event,
            monitor.after_first(trace, n + 1),
        ),
{
    crate::laws::trace::events_lead_from_state_to_state(monitor, start, trace, n);
    only_uevents_tell_of_an_outage(
        monitor.after_first(trace, n),
        trace[n].event,
        trace[n].now,
    );
}

proof fn lemma_outage_was_heard_of(
    monitor: MonitorView,
    start: Instant,
    trace: Seq<Occurrence>,
    n: int,
)
    requires
        monitor.wf(start),
        !monitor.tracker.usb_detach_uevent_seen,
        crate::laws::trace::is_timeline(start, trace),
        0 <= n <= trace.len(),
        monitor.after_first(trace, n).tracker.usb_detach_uevent_seen,
    ensures
        exists|heard: int| #[trigger] monitor.heard_since(trace, n, heard),
    decreases n,
{
    if n == 0 {
        crate::laws::trace::last_event_comes_last(monitor, trace.take(0));
    } else {
        lemma_state_hears(monitor, start, trace, n - 1);
        if monitor.after_first(trace, n - 1).tracker.usb_detach_uevent_seen {
            lemma_outage_was_heard_of(monitor, start, trace, n - 1);
            let heard = choose|heard: int| #[trigger] monitor.heard_since(trace, n - 1, heard);
            assert(monitor.heard_since(trace, n, heard));
        } else {
            assert(monitor.heard_since(trace, n, n - 1));
        }
    }
}

/// How one event changes what is observed of an outage. An outage that is observed
/// afterwards was observed before or begins with a look at this event, after an
/// uevent told of it, and a look bears it out; a swap becomes pending at a look that
/// finds the outage complete.
pub open spec fn outage_after(
    before: MonitorView,
    look: bool,
    after: MonitorView,
    now: Instant,
) -> bool {
    let observed = before.tracker.charger_detach_deadline;
    &&& after.tracker.charger_detach_deadline matches Some(deadline) ==> {
        &&& before.tracker.phase is Settled
        &&& before.stage is Enabling || !(after.stage is Enabling)
        &&& look ==> after.readings.is_offline()
        &&& observed == Some(deadline) || (look && before.tracker.usb_detach_uevent_seen
            && deadline == now.after(DETACH_DEBOUNCE_MS))
    }
    &&& after.tracker.upstream_native_pending && !before.tracker.upstream_native_pending ==> {
        &&& look
        &&& before.tracker.phase is Settled
        &&& !(after.stage is Enabling)
        &&& after.readings.is_offline()
        &&& observed matches Some(deadline) && now.reached(deadline)
    }
}

proof fn lemma_reading_outage(monitor: MonitorView, time: Instant, text: Seq<char>, now: Instant)
    requires
        monitor.wf(time),
    ensures
        outage_after(
            monitor,
            monitor.stage is SettledOnline,
            monitor.after_reading(text, now),
            now,
        ),
{
    reveal(MonitorView::after_reading);
    if monitor.stage is SettledOnline {
        let readings = ReadingsView { usb_online: text, ..monitor.readings };
        readings.charging_is_not_offline();
    }
}

proof fn lemma_done_outage(monitor: MonitorView, time: Instant, now: Instant)
    requires
        monitor.wf(time),
    ensures
        outage_after(monitor, false, monitor.after_done(now), now),
{
}

proof fn lemma_failure_outage(monitor: MonitorView, time: Instant, now: Instant)
    requires
        monitor.wf(time),
        monitor.stage.fails(),
    ensures
        outage_after(monitor, false, monitor.at(Stage::Ended { failed: true }), now),
        !(monitor.stage is SettledOnline),
{
}

/// No event prolongs an outage that it contradicts, and none makes the monitor
/// believe in a swap but a look that finds an outage complete.
pub proof fn events_bear_out_or_end_an_outage(
    monitor: MonitorView,
    time: Instant,
    event: Event,
    now: Instant,
)
    requires
        monitor.wf(time),
    ensures
        outage_after(monitor, monitor.looks(event), monitor.next(event, now), now),
{
    match event {
        Event::Content(text) => {
            assert(monitor.next(event, now) == monitor.after_reading(text@, now));
            lemma_reading_outage(monitor, time, text@, now);
        },
        Event::Failed => {
            if monitor.stage.fails() {
                assert(monitor.next(event, now) == monitor.at(Stage::Ended { failed: true }));
                lemma_failure_outage(monitor, time, now);
            } else {
                assert(monitor.next(event, now) == monitor.after_reading(Seq::empty(), now));
                lemma_reading_outage(monitor, time, Seq::empty(), now);
            }
        },
        Event::Done => {
            assert(monitor.next(event, now) == monitor.after_done(now));
            lemma_done_outage(monitor, time, now);
        },
        _ => {
            crate::laws::order::wakeups_change_no_negotiation(monitor, event, now);
        },
    }
}

proof fn lemma_offline_still(monitor: MonitorView, trace: Seq<Occurrence>, first: int)
    requires
        trace.len() > 0,
        monitor.offline_since(trace.drop_last(), first),
        monitor.run(trace.drop_last()).bears_out_outage(trace.last().event, trace.last().now),
    ensures
        monitor.offline_since(trace, first),
{
    let before = trace.drop_last();
    assert(trace.take(first) =~= before.take(first));
    assert forall|i: int| first <= i < trace.len() implies (#[trigger] monitor.run(
        trace.take(i),
    )).bears_out_outage(trace[i].event, trace[i].now) by {
        if i < before.len() {
            assert(trace.take(i) =~= before.take(i));
            assert(monitor.run(before.take(i)).bears_out_outage(before[i].event, before[i].now));
        } else {
            assert(trace.take(i) =~= before);
        }
    }
}

proof fn lemma_outage_began(monitor: MonitorView, start: Instant, trace: Seq<Occurrence>)
    requires
        monitor.wf(start),
        monitor.tracker.charger_detach_deadline is None,
        crate::laws::trace::is_timeline(start, trace),
    ensures
        monitor.run(trace).tracker.charger_detach_deadline matches Some(deadline) ==> exists|
            first: int,
        | #[trigger]
            monitor.offline_since(trace, first) && trace[first].now.can_schedule() && deadline
                == trace[first].now.after(DETACH_DEBOUNCE_MS),
    decreases trace.len(),
{
    crate::laws::trace::last_event_comes_last(monitor, trace);
    if trace.len() > 0 {
        let before = trace.drop_last();
        let last = trace.last();
        let state = monitor.run(before);
        lemma_outage_began(monitor, start, before);
        crate::laws::trace::every_trace_keeps_the_monitor_well_formed(monitor, start, before);
        events_bear_out_or_end_an_outage(
            state,
            crate::laws::trace::time_after(start, before),
            last.event,
            last.now,
        );
        if let Some(deadline) = monitor.run(trace).tracker.charger_detach_deadline {
            assert(state.bears_out_outage(last.event, last.now)) by {
                reveal(MonitorView::bears_out_outage);
            }
            if state.tracker.charger_detach_deadline == Some(deadline) {
                let first = choose|first: int| #[trigger]
                    monitor.offline_since(before, first) && before[first].now.can_schedule()
                        && deadline == before[first].now.after(DETACH_DEBOUNCE_MS);
                lemma_offline_still(monitor, trace, first);
                assert(trace[first] == before[first]);
            } else {
                let first = before.len() as int;
                assert(trace.take(first) =~= before);
                assert(monitor.offline_since(trace, first));
            }
        }
    }
}

/// However events follow on one another, an upstream charger counts as gone only
/// where it was offline for the whole debounce time: every look at the nodes of
/// the settled session since some look that long ago, and that look too, showed it
/// offline, and meanwhile the session stayed settled and nothing was enabled. Before
/// that look an uevent told that the USB supply went offline, in an armed session,
/// unless one had already done so at the start.
pub proof fn swaps_follow_an_uninterrupted_outage(
    monitor: MonitorView,
    start: Instant,
    trace: Seq<Occurrence>,
)
    requires
        monitor.wf(start),
        monitor.tracker.charger_detach_deadline is None,
        crate::laws::trace::is_timeline(start, trace),
        trace.len() > 0,
        monitor.run(trace.drop_last()).believes_in_swap(trace.last().event, trace.last().now),
    ensures
        exists|first: int| #[trigger]
            monitor.offline_since(trace, first) && trace.last().now.nanos
                >= trace[first].now.nanos + DETACH_DEBOUNCE_MS * 1_000_000 && (
            !monitor.tracker.usb_detach_uevent_seen ==> exists|heard: int| #[trigger]
                monitor.heard_since(trace, first, heard)),
{
    let before = trace.drop_last();
    let last = trace.last();
    let state = monitor.run(before);
    lemma_outage_began(monitor, start, before);
    crate::laws::trace::every_trace_keeps_the_monitor_well_formed(monitor, start, before);
    events_bear_out_or_end_an_outage(
        state,
        crate::laws::trace::time_after(start, before),
        last.event,
        last.now,
    );
    let deadline = state.tracker.charger_detach_deadline->0;
    let first = choose|first: int| #[trigger]
        monitor.offline_since(before, first) && before[first].now.can_schedule() && deadline
            == before[first].now.after(DETACH_DEBOUNCE_MS);
    assert(state.bears_out_outage(last.event, last.now)) by {
        reveal(MonitorView::bears_out_outage);
    }
    lemma_offline_still(monitor, trace, first);
    assert(trace[first] == before[first]);
    if !monitor.tracker.usb_detach_uevent_seen {
        lemma_outage_was_heard_of(monitor, start, trace, first);
    }
}

} // verus!
