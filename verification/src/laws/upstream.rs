//! What uevents and the looks at a settled session lead to.

use vstd::prelude::*;

use crate::clock::Instant;
use crate::laws::plain::{begins_at, has_time, is_later, reads_charging, reads_offline};
use crate::laws::trace::Occurrence;
use crate::monitor::{Event, MonitorView, Request};
use crate::readings::{Node, ReadingsView};
use crate::report::{Notice, Outcome};
use crate::tracker::{ChargingMode, Tracker};

verus! {

/// In every settled session whose detection is armed, an uevent that tells that the USB
/// supply went offline counts afterwards, whatever was read of the charger.
pub proof fn offline_uevent_counts_in_every_armed_session(
    monitor: MonitorView,
    data: Vec<u8>,
    now: Instant,
)
    requires
        monitor.request(now) == Request::ReceiveUevent,
        monitor.tracker.phase is Settled,
        monitor.tracker.charger_detach_armed,
        crate::uevent::usb_offline(data@),
    ensures
        monitor.next(Event::Uevent(data), now).tracker == (Tracker {
            usb_detach_uevent_seen: true,
            ..monitor.tracker
        }),
        monitor.next(Event::Uevent(data), now).request(now) == Request::ReceiveUevent,
{
    let event = Event::Uevent(data);
    assert(monitor.next(event, now) == monitor.after_uevent(data@));
}

/// An uevent that tells nothing of the sort, or one outside such a session, changes
/// nothing. Whatever an uevent tells, the next is taken and nothing is told.
pub proof fn other_uevents_change_nothing(monitor: MonitorView, data: Vec<u8>, now: Instant)
    ensures
        !(monitor.tracker.phase is Settled && monitor.tracker.charger_detach_armed
            && crate::uevent::usb_offline(data@)) ==> monitor.next(Event::Uevent(data), now)
            == monitor,
        monitor.next(Event::Uevent(data), now).stage == monitor.stage,
        monitor.outcome(Event::Uevent(data), now) == (Outcome { session: None, notice: None }),
{
    let event = Event::Uevent(data);
    assert(monitor.next(event, now) == monitor.after_uevent(data@));
}

/// Whether a plan to read the nodes once more that is due at `now` is dropped, and any
/// other stays.
pub open spec fn drops_due_plan(
    before: Option<Instant>,
    now: Instant,
    after: Option<Instant>,
) -> bool {
    after == if before matches Some(due) && now.nanos >= due.nanos {
        None
    } else {
        before
    }
}

/// When no uevent is left, the port is read next. In a settled session whose detection
/// is armed the nodes are to be read once more 250 ms later, unless that is planned
/// already; a plan that is due is dropped. Nothing else changes.
pub proof fn drained_uevents_plan_another_look(monitor: MonitorView, now: Instant)
    requires
        monitor.request(now) == Request::ReceiveUevent,
        has_time(now),
    ensures
        ({
            let t = monitor.tracker;
            let after = monitor.next(Event::Drained, now);
            &&& after.request(now) == Request::Read(Node::TypecMode) && after.stage is Attachment
            &&& after.tracker == Tracker {
                uevent_recheck_deadline: after.tracker.uevent_recheck_deadline,
                ..t
            }
            &&& if t.phase is Settled && t.charger_detach_armed && t.uevent_recheck_deadline
                is None {
                after.tracker.uevent_recheck_deadline matches Some(due) && is_later(now, 250, due)
            } else {
                drops_due_plan(
                    t.uevent_recheck_deadline,
                    now,
                    after.tracker.uevent_recheck_deadline,
                )
            }
            &&& monitor.outcome(Event::Drained, now) == Outcome { session: None, notice: None }
        }),
{
    assert(monitor.next(Event::Drained, now) == monitor.after_drained(now));
}

/// A wakeup without uevents to take drops a plan to read the nodes once more that is
/// due, because the pass that it begins reads them, and changes nothing else.
pub proof fn wakeup_drops_a_due_plan(monitor: MonitorView, uevent: bool, now: Instant)
    requires
        monitor.request(now) is Wait,
        !(uevent && monitor.tracker.uevent_registered),
    ensures
        ({
            let event = Event::Woken { stop: false, config: false, uevent };
            let after = monitor.next(event, now);
            &&& after.tracker == Tracker {
                uevent_recheck_deadline: after.tracker.uevent_recheck_deadline,
                ..monitor.tracker
            }
            &&& drops_due_plan(
                monitor.tracker.uevent_recheck_deadline,
                now,
                after.tracker.uevent_recheck_deadline,
            )
        }),
{
    let event = Event::Woken { stop: false, config: false, uevent };
    assert(monitor.next(event, now) == monitor.after_woken(false, false, uevent, now));
}

/// A look at a settled session reads the verification, the USB type, the battery and the
/// supply, one after the other; nothing is known or told before the last of them.
pub proof fn settled_session_is_read_in_order(monitor: MonitorView, text: String, now: Instant)
    ensures
        ({
            let after = monitor.next(Event::Content(text), now);
            let stage = monitor.stage;
            &&& stage is SettledVerified ==> after.stage is SettledUsbType
            &&& stage is SettledUsbType ==> after.stage is SettledBattery
            &&& stage is SettledBattery ==> after.stage is SettledOnline
            &&& stage is SettledVerified || stage is SettledUsbType || stage is SettledBattery
                ==> after.tracker == monitor.tracker && monitor.outcome(
                Event::Content(text),
                now,
            ) == Outcome { session: None, notice: None }
        }),
{
    reveal(MonitorView::after_reading);
    let event = Event::Content(text);
    if monitor.stage is SettledVerified || monitor.stage is SettledUsbType || monitor.stage
        is SettledBattery {
        assert(monitor.next(event, now) == monitor.after_settled(text@, now));
        assert(monitor.outcome(event, now) == monitor.reading_outcome(text@, now));
    }
}

impl MonitorView {
    /// What is read once the supply reads `text`.
    pub open spec fn read_with(self, text: Seq<char>) -> ReadingsView {
        ReadingsView {
            verified: self.readings.verified,
            usb_type: self.readings.usb_type,
            battery_status: self.readings.battery_status,
            usb_online: text,
            adapter_svid: self.readings.adapter_svid,
        }
    }
}

proof fn lemma_look(monitor: MonitorView, text: String, now: Instant)
    requires
        monitor.stage is SettledOnline,
    ensures
        ({
            let read = monitor.read_with(text@);
            let after = monitor.next(Event::Content(text), now);
            &&& after == monitor.having_read(read).knowing(
                monitor.tracker.after_settled(read, now),
            ).to_phase(now)
            &&& monitor.outcome(Event::Content(text), now) == Outcome {
                session: None,
                notice: monitor.tracker.settled_notice(read, now),
            }
        }),
{
    reveal(MonitorView::after_reading);
    let event = Event::Content(text);
    assert(monitor.next(event, now) == monitor.after_settled(text@, now));
    assert(monitor.outcome(event, now) == monitor.reading_outcome(text@, now));
    monitor.read_with(text@).charging_is_not_offline();
}

/// While a swap is pending, a look that finds the battery charging begins a negotiation
/// with the replacement, like that of a fresh attachment, and its first look comes in the
/// same pass. The swap is over, the detection is not armed, the budget stays, and it is
/// told.
pub proof fn replacement_begins_a_negotiation(monitor: MonitorView, text: String, now: Instant)
    requires
        monitor.stage is SettledOnline,
        monitor.tracker.phase is Settled,
        monitor.tracker.upstream_native_pending,
        reads_charging(monitor.read_with(text@)),
        has_time(now),
    ensures
        ({
            let t = monitor.tracker;
            let after = monitor.next(Event::Content(text), now);
            &&& begins_at(after.tracker.phase, now)
            &&& after.stage is IdentifyVerified
            &&& after.request(now) == Request::Read(Node::PdVerified)
            &&& after.tracker == Tracker {
                phase: after.tracker.phase,
                upstream_native_pending: false,
                charger_detach_armed: false,
                usb_detach_uevent_seen: false,
                charger_detach_deadline: None,
                ..t
            }
            &&& monitor.outcome(Event::Content(text), now) == Outcome {
                session: None,
                notice: Some(Notice::UpstreamAttached),
            }
        }),
{
    lemma_look(monitor, text, now);
}

/// A look that finds the battery charging without a pending swap ends any outage. Where
/// it finds a public PPS lost that was enabled, with fewer than two attempts made, the
/// attempt is free again and the detection not armed; else the detection is armed, and an
/// uevent counts on where it was armed before. A free attempt has public PPS looked for in
/// the same pass. What is new is told.
pub proof fn charging_session_is_armed_or_retried(
    monitor: MonitorView,
    text: String,
    now: Instant,
)
    requires
        monitor.stage is SettledOnline,
        monitor.tracker.phase is Settled,
        !monitor.tracker.upstream_native_pending,
        reads_charging(monitor.read_with(text@)),
    ensures
        ({
            let t = monitor.tracker;
            let lost = t.public_retry_attempted && monitor.readings.verified != "1"@
                && monitor.readings.usb_type == "PD_PPS"@ && t.public_retry_count < 2;
            let after = monitor.next(Event::Content(text), now);
            let told = monitor.outcome(Event::Content(text), now);
            &&& lost ==> {
                &&& after.tracker == Tracker {
                    public_retry_attempted: false,
                    charger_detach_armed: false,
                    usb_detach_uevent_seen: false,
                    charger_detach_deadline: None,
                    ..t
                }
                &&& told == Outcome {
                    session: None,
                    notice: Some(
                        if t.charger_detach_armed {
                            Notice::RetryAllowed
                        } else {
                            Notice::ArmedAndRetryAllowed
                        },
                    ),
                }
            }
            &&& !lost ==> {
                &&& after.tracker == Tracker {
                    charger_detach_armed: true,
                    usb_detach_uevent_seen: t.charger_detach_armed && t.usb_detach_uevent_seen,
                    charger_detach_deadline: None,
                    ..t
                }
                &&& told == Outcome {
                    session: None,
                    notice: if t.charger_detach_armed {
                        None
                    } else {
                        Some(Notice::DetectionArmed)
                    },
                }
            }
            &&& if lost || !t.public_retry_attempted {
                after.stage is RetryVerified
            } else {
                after.stage is Waiting
            }
        }),
{
    lemma_look(monitor, text, now);
    monitor.read_with(text@).charging_is_not_offline();
}

/// A look that finds the charger offline in an armed session, after an uevent told of it,
/// notes that it counts as gone after 1500 ms; until then further such looks change
/// nothing. A look when that time is over opens a new session: no attempt was made in it,
/// but its attempt is out of reach because a swap is pending, the detection is not armed
/// and the evidence is used up. That is told.
pub proof fn offline_charger_is_gone_after_its_time(
    monitor: MonitorView,
    text: String,
    now: Instant,
)
    requires
        monitor.stage is SettledOnline,
        monitor.tracker.phase is Settled,
        monitor.tracker.charger_detach_armed,
        monitor.tracker.usb_detach_uevent_seen,
        reads_offline(monitor.read_with(text@)),
        has_time(now),
    ensures
        ({
            let t = monitor.tracker;
            let after = monitor.next(Event::Content(text), now);
            let told = monitor.outcome(Event::Content(text), now);
            if t.charger_detach_deadline matches Some(due) && now.nanos >= due.nanos {
                &&& after.tracker == Tracker {
                    public_retry_count: 0,
                    public_retry_attempted: true,
                    upstream_native_pending: true,
                    charger_detach_armed: false,
                    usb_detach_uevent_seen: false,
                    charger_detach_deadline: None,
                    ..t
                }
                &&& after.stage is Waiting
                &&& told == Outcome { session: None, notice: Some(Notice::UpstreamDetached) }
            } else {
                &&& after.tracker == Tracker {
                    charger_detach_deadline: after.tracker.charger_detach_deadline,
                    ..t
                }
                &&& after.tracker.charger_detach_deadline matches Some(due)
                    && if t.charger_detach_deadline is Some {
                    t.charger_detach_deadline == Some(due)
                } else {
                    is_later(now, 1_500, due)
                }
                &&& if t.public_retry_attempted {
                    after.stage is Waiting
                } else {
                    after.stage is RetryVerified
                }
                &&& told == Outcome { session: None, notice: None }
            }
        }),
{
    lemma_look(monitor, text, now);
    monitor.read_with(text@).charging_is_not_offline();
}

/// Any other look ends an outage, and the evidence of an uevent too unless the supply
/// still reads 0. Nothing else changes, and nothing is told. A free attempt has public PPS
/// looked for in the same pass.
pub proof fn other_looks_end_an_outage(monitor: MonitorView, text: String, now: Instant)
    requires
        monitor.stage is SettledOnline,
        monitor.tracker.phase is Settled,
        !reads_charging(monitor.read_with(text@)),
        !(monitor.tracker.charger_detach_armed && monitor.tracker.usb_detach_uevent_seen
            && reads_offline(monitor.read_with(text@))),
    ensures
        ({
            let t = monitor.tracker;
            let after = monitor.next(Event::Content(text), now);
            &&& after.tracker == Tracker {
                charger_detach_deadline: None,
                usb_detach_uevent_seen: t.usb_detach_uevent_seen && text@ == "0"@,
                ..t
            }
            &&& if t.public_retry_attempted {
                after.stage is Waiting
            } else {
                after.stage is RetryVerified
            }
            &&& monitor.outcome(Event::Content(text), now) == Outcome {
                session: None,
                notice: None,
            }
        }),
{
    lemma_look(monitor, text, now);
}

impl MonitorView {
    /// Whether an event lets an outage of the upstream charger last: every look at the
    /// settled session reads it offline, the port reads as attached, no PPS is found and
    /// no mode is taken.
    pub open spec fn lets_outage_last(self, event: Event) -> bool {
        &&& !(event is Mode)
        &&& self.stage is Attachment ==> !event.is_text("Nothing attached"@)
        &&& self.stage is RetryUsbType ==> !event.is_text("PD_PPS"@)
        &&& self.stage is SettledOnline ==> !(event is Failed) && (event is Content
            ==> reads_offline(self.read_with(event->Content_0@)))
    }

    /// Whether an uevent told of an outage in an armed session that is watched, which
    /// counts no later than 1500 ms after `time` where it is observed, or a swap is already
    /// pending because of it, with a budget that nothing was taken from.
    pub open spec fn heard_of_outage(self, time: Instant) -> bool {
        let t = self.tracker;
        let stage = self.stage;
        &&& t.mode is Automatic && t.attached && t.phase is Settled
        &&& stage is Waiting || stage is Pausing || stage is Stopping || stage is TakingMode
            || stage is Draining || stage is Attachment || stage is SettledVerified || stage
            is SettledUsbType || stage is SettledBattery || stage is SettledOnline || stage
            is RetryVerified || stage is RetryUsbType || stage is Ended
        &&& if t.upstream_native_pending {
            t.public_retry_count == 0 && t.public_retry_attempted
        } else {
            &&& t.charger_detach_armed && t.usb_detach_uevent_seen
            &&& t.charger_detach_deadline matches Some(due) ==> due.nanos <= time.nanos
                + 1_500_000_000
        }
    }

    /// Whether the outage counts no later than 1500 ms after `first`.
    pub open spec fn counts_since(self, first: Instant) -> bool {
        self.tracker.upstream_native_pending || (
        self.tracker.charger_detach_deadline matches Some(due) && due.nanos <= first.nanos
            + 1_500_000_000)
    }
}

/// How one event that lets an outage last leads on.
#[verifier::opaque]
pub open spec fn outage_lasts(
    before: MonitorView,
    event: Event,
    now: Instant,
    after: MonitorView,
) -> bool {
    &&& after.heard_of_outage(now)
    &&& forall|first: Instant|
        #![trigger before.counts_since(first)]
        before.counts_since(first) ==> after.counts_since(first)
    &&& before.stage is SettledOnline && event is Content ==> {
        &&& after.counts_since(now)
        &&& forall|first: Instant|
            #![trigger before.counts_since(first)]
            before.counts_since(first) && now.nanos >= first.nanos + 1_500_000_000
                ==> after.tracker.upstream_native_pending
    }
}

proof fn lemma_look_lets_outage_last(
    monitor: MonitorView,
    time: Instant,
    event: Event,
    now: Instant,
)
    requires
        monitor.heard_of_outage(time),
        now.nanos >= time.nanos,
        monitor.lets_outage_last(event),
        monitor.stage is SettledOnline,
        event is Content,
        has_time(now),
    ensures
        outage_lasts(monitor, event, now, monitor.next(event, now)),
{
    reveal(outage_lasts);
    let text = event->Content_0;
    monitor.read_with(text@).charging_is_not_offline();
    if monitor.tracker.charger_detach_armed && monitor.tracker.usb_detach_uevent_seen {
        offline_charger_is_gone_after_its_time(monitor, text, now);
    } else {
        other_looks_end_an_outage(monitor, text, now);
    }
}

proof fn lemma_reading_lets_outage_last(
    monitor: MonitorView,
    time: Instant,
    event: Event,
    now: Instant,
)
    requires
        monitor.heard_of_outage(time),
        now.nanos >= time.nanos,
        monitor.lets_outage_last(event),
        !(monitor.stage is SettledOnline),
        event is Content,
    ensures
        outage_lasts(monitor, event, now, monitor.next(event, now)),
{
    reveal(MonitorView::after_reading);
    reveal(outage_lasts);
    let text = event->Content_0;
    if monitor.stage is Attachment {
        crate::laws::port::attached_port_stays_attached(monitor, text, now);
    } else if monitor.stage is RetryVerified || monitor.stage is RetryUsbType {
        assert(monitor.next(event, now) == monitor.after_public(text@));
    } else if monitor.stage is SettledVerified || monitor.stage is SettledUsbType || monitor.stage
        is SettledBattery {
        assert(monitor.next(event, now) == monitor.after_settled(text@, now));
    } else {
        assert(monitor.next(event, now) == monitor);
    }
}

proof fn lemma_other_events_let_outage_last(
    monitor: MonitorView,
    time: Instant,
    event: Event,
    now: Instant,
)
    requires
        monitor.heard_of_outage(time),
        now.nanos >= time.nanos,
        monitor.lets_outage_last(event),
        !(event is Content),
    ensures
        outage_lasts(monitor, event, now, monitor.next(event, now)),
{
    reveal(MonitorView::after_reading);
    reveal(outage_lasts);
    match event {
        Event::Failed => {
            if monitor.stage.fails() {
                assert(monitor.next(event, now) == monitor.at(
                    crate::monitor::Stage::Ended { failed: true },
                ));
            } else if monitor.stage is SettledBattery {
                assert(monitor.next(event, now) == monitor.after_settled(Seq::empty(), now));
            } else {
                assert(monitor.next(event, now) == monitor);
            }
        },
        Event::Done => {
            assert(monitor.next(event, now) == monitor.after_done(now));
        },
        Event::Woken { stop, config, uevent } => {
            assert(monitor.next(event, now) == monitor.after_woken(stop, config, uevent, now));
        },
        Event::Uevent(data) => {
            assert(monitor.next(event, now) == monitor.after_uevent(data@));
        },
        Event::Drained => {
            assert(monitor.next(event, now) == monitor.after_drained(now));
        },
        _ => {},
    }
}

proof fn lemma_outage_lasts(
    monitor: MonitorView,
    start: Instant,
    trace: Seq<Occurrence>,
    n: int,
)
    requires
        crate::laws::trace::is_timeline(start, trace),
        0 <= n < trace.len(),
        monitor.after_first(trace, n).heard_of_outage(
            crate::laws::trace::time_after(start, trace.take(n)),
        ),
        monitor.after_first(trace, n).lets_outage_last(trace[n].event),
    ensures
        outage_lasts(
            monitor.after_first(trace, n),
            trace[n].event,
            trace[n].now,
            monitor.after_first(trace, n + 1),
        ),
{
    let state = monitor.after_first(trace, n);
    let time = crate::laws::trace::time_after(start, trace.take(n));
    crate::laws::trace::timeline_begins_with_timelines(start, trace, n);
    crate::laws::trace::state_follows_on_state(monitor, trace, n);
    if !(trace[n].event is Content) {
        lemma_other_events_let_outage_last(state, time, trace[n].event, trace[n].now);
    } else if state.stage is SettledOnline {
        lemma_look_lets_outage_last(state, time, trace[n].event, trace[n].now);
    } else {
        lemma_reading_lets_outage_last(state, time, trace[n].event, trace[n].now);
    }
}

proof fn lemma_outage_goes_on(
    monitor: MonitorView,
    start: Instant,
    trace: Seq<Occurrence>,
    first: int,
    n: int,
)
    requires
        crate::laws::trace::is_timeline(start, trace),
        1 <= first < n <= trace.len(),
        monitor.after_first(trace, 1).heard_of_outage(trace[0].now),
        forall|i: int|
            1 <= i < n ==> (#[trigger] monitor.after_first(trace, i)).lets_outage_last(
                trace[i].event,
            ),
        monitor.after_first(trace, first).stage is SettledOnline,
        trace[first].event is Content,
    ensures
        monitor.after_first(trace, n).heard_of_outage(trace[n - 1].now),
        monitor.after_first(trace, n).counts_since(trace[first].now),
    decreases n,
{
    reveal(outage_lasts);
    lemma_outage_stays_heard_of(monitor, start, trace, n - 1);
    assert(crate::laws::trace::time_after(start, trace.take(n - 1)) == trace[n - 2].now);
    lemma_outage_lasts(monitor, start, trace, n - 1);
    if n - 1 > first {
        lemma_outage_goes_on(monitor, start, trace, first, n - 1);
    }
}

proof fn lemma_outage_stays_heard_of(
    monitor: MonitorView,
    start: Instant,
    trace: Seq<Occurrence>,
    n: int,
)
    requires
        crate::laws::trace::is_timeline(start, trace),
        1 <= n <= trace.len(),
        monitor.after_first(trace, 1).heard_of_outage(trace[0].now),
        forall|i: int|
            1 <= i < n ==> (#[trigger] monitor.after_first(trace, i)).lets_outage_last(
                trace[i].event,
            ),
    ensures
        monitor.after_first(trace, n).heard_of_outage(trace[n - 1].now),
    decreases n,
{
    reveal(outage_lasts);
    if n > 1 {
        lemma_outage_stays_heard_of(monitor, start, trace, n - 1);
        lemma_outage_lasts(monitor, start, trace, n - 1);
    }
}

/// In every armed session, Xiaomi's as well as a public one, an uevent that tells that
/// the USB supply went offline, followed by looks that all read the charger offline over
/// 1500 ms, leads to a pending swap with a whole budget: however the events in between
/// follow on one another, as long as they let the outage last. An outage that is observed
/// already counts no later than one that begins with the uevent.
pub proof fn lasting_outage_leads_to_a_swap(
    monitor: MonitorView,
    start: Instant,
    trace: Seq<Occurrence>,
    first: int,
    last: int,
)
    requires
        crate::laws::trace::is_timeline(start, trace),
        monitor.stage is Draining,
        monitor.tracker.mode == ChargingMode::Automatic,
        monitor.tracker.attached,
        monitor.tracker.phase is Settled,
        monitor.tracker.charger_detach_armed,
        !monitor.tracker.upstream_native_pending,
        monitor.tracker.charger_detach_deadline matches Some(due) ==> due.nanos
            <= trace[0].now.nanos + 1_500_000_000,
        0 < first < last < trace.len(),
        trace[0].event matches Event::Uevent(data) && crate::uevent::usb_offline(data@),
        forall|i: int|
            1 <= i <= last ==> (#[trigger] monitor.after_first(trace, i)).lets_outage_last(
                trace[i].event,
            ),
        monitor.after_first(trace, first).stage is SettledOnline,
        trace[first].event is Content,
        monitor.after_first(trace, last).stage is SettledOnline,
        trace[last].event is Content,
        trace[last].now.nanos >= trace[first].now.nanos + 1_500_000_000,
    ensures
        ({
            let after = monitor.after_first(trace, last + 1).tracker;
            &&& after.upstream_native_pending
            &&& after.public_retry_count == 0
            &&& after.public_retry_attempted
            &&& after.phase is Settled
        }),
{
    let data = trace[0].event->Uevent_0;
    crate::laws::trace::state_follows_on_state(monitor, trace, 0);
    offline_uevent_counts_in_every_armed_session(monitor, data, trace[0].now);
    assert(trace[0].event == Event::Uevent(data));
    other_uevents_change_nothing(monitor, data, trace[0].now);
    assert(monitor.after_first(trace, 1).heard_of_outage(trace[0].now));
    lemma_outage_goes_on(monitor, start, trace, first, last);
    lemma_outage_lasts(monitor, start, trace, last);
    reveal(outage_lasts);
    assert(monitor.after_first(trace, last).counts_since(trace[first].now));
}

} // verus!
