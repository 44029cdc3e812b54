//! Xiaomi's protocol has its time in every course of events.

use vstd::prelude::*;

use crate::clock::Instant;
use crate::clock::{NATIVE_NEGOTIATION_TIMEOUT_MS, PUBLIC_IDENTITY_SETTLE_MS};
use crate::laws::trace::Occurrence;
use crate::monitor::{Event, MonitorView, Stage, Subject};
use crate::phase::AutoPhase;

verus! {

impl AutoPhase {
    /// Whether the negotiation with the charger is not over.
    pub open spec fn negotiates(self) -> bool {
        self is IdentifyingPublic || self is WaitingNative
    }
}

/// How one event that begins no charger session leads on from a state in which no
/// swap is pending: none is pending afterwards, and a negotiation that goes on has
/// the deadlines that it had.
pub open spec fn negotiation_after(before: MonitorView, after: MonitorView) -> bool {
    &&& !after.tracker.upstream_native_pending
    &&& match after.tracker.phase {
        AutoPhase::IdentifyingPublic { identity_deadline, native_deadline, .. } => {
            before.tracker.phase matches AutoPhase::IdentifyingPublic {
                identity_deadline: identity_before,
                native_deadline: native_before,
                ..
            } && identity_deadline == identity_before && native_deadline == native_before
        },
        AutoPhase::WaitingNative(deadline) => {
            ||| before.tracker.phase == after.tracker.phase
            ||| before.tracker.phase matches AutoPhase::IdentifyingPublic { native_deadline, .. }
                && deadline == native_deadline
        },
        _ => true,
    }
}

proof fn lemma_reading_negotiates(monitor: MonitorView, text: Seq<char>, now: Instant)
    requires
        !monitor.tracker.upstream_native_pending,
        !monitor.reading_begins_session(text, now),
    ensures
        negotiation_after(monitor, monitor.after_reading(text, now)),
{
    reveal(MonitorView::after_reading);
    match monitor.stage.subject() {
        Subject::Port => {
            assert(monitor.after_reading(text, now) == monitor.after_port(text, now));
        },
        Subject::Settled => {
            assert(monitor.after_reading(text, now) == monitor.after_settled(text, now));
        },
        Subject::Identification => {
            assert(monitor.after_reading(text, now) == monitor.after_identification(text, now));
        },
        Subject::Native => {
            assert(monitor.after_reading(text, now) == monitor.after_native(text, now));
        },
        Subject::Public => {
            assert(monitor.after_reading(text, now) == monitor.after_public(text));
        },
        Subject::Nothing => {},
    }
}

proof fn lemma_done_negotiates(monitor: MonitorView, now: Instant)
    requires
        !monitor.tracker.upstream_native_pending,
        !(monitor.stage is ResettingVerified),
    ensures
        negotiation_after(monitor, monitor.after_done(now)),
{
}

/// No event but one that begins a charger session begins a negotiation or sets the
/// deadlines of one, unless a swap is pending.
pub proof fn negotiations_begin_with_sessions(monitor: MonitorView, event: Event, now: Instant)
    requires
        !monitor.tracker.upstream_native_pending,
        !monitor.begins_session(event, now),
    ensures
        negotiation_after(monitor, monitor.next(event, now)),
{
    match event {
        Event::Content(text) => {
            assert(monitor.next(event, now) == monitor.after_reading(text@, now));
            lemma_reading_negotiates(monitor, text@, now);
        },
        Event::Failed => {
            if monitor.stage.fails() {
                assert(monitor.next(event, now) == monitor.at(Stage::Ended { failed: true }));
            } else {
                assert(monitor.next(event, now) == monitor.after_reading(Seq::empty(), now));
                crate::laws::budget::lemma_failure_begins_no_session(monitor, now);
                lemma_reading_negotiates(monitor, Seq::empty(), now);
            }
        },
        Event::Done => {
            assert(monitor.next(event, now) == monitor.after_done(now));
            lemma_done_negotiates(monitor, now);
        },
        _ => {
            crate::laws::order::wakeups_change_no_negotiation(monitor, event, now);
        },
    }
}

impl MonitorView {
    /// Whether none of the first `n` of some events begins a charger session.
    pub open spec fn stays_in_session(self, trace: Seq<Occurrence>, n: int) -> bool {
        forall|i: int|
            0 <= i < n ==> !(#[trigger] self.after_first(trace, i)).begins_session(
                trace[i].event,
                trace[i].now,
            )
    }
}

/// As long as no charger session begins, a negotiation that is not over is the one
/// that it was at first.
pub proof fn negotiation_is_that_of_its_attachment(
    monitor: MonitorView,
    start: Instant,
    trace: Seq<Occurrence>,
    n: int,
    attached: Instant,
)
    requires
        monitor.wf(start),
        crate::laws::trace::is_timeline(start, trace),
        crate::laws::negotiation::negotiating_since(monitor.tracker.phase, attached),
        0 <= n <= trace.len(),
        monitor.stays_in_session(trace, n),
    ensures
        !monitor.after_first(trace, n).tracker.upstream_native_pending,
        monitor.after_first(trace, n).tracker.phase.negotiates()
            ==> crate::laws::negotiation::negotiating_since(
            monitor.after_first(trace, n).tracker.phase,
            attached,
        ),
    decreases n,
{
    if n == 0 {
        crate::laws::trace::events_lead_from_state_to_state(monitor, start, trace, 0);
        lemma_negotiation_excludes_swap(monitor, start);
    } else {
        let before = monitor.after_first(trace, n - 1);
        negotiation_is_that_of_its_attachment(monitor, start, trace, n - 1, attached);
        crate::laws::trace::events_lead_from_state_to_state(monitor, start, trace, n - 1);
        negotiations_begin_with_sessions(before, trace[n - 1].event, trace[n - 1].now);
    }
}

proof fn lemma_negotiation_excludes_swap(monitor: MonitorView, time: Instant)
    requires
        monitor.wf(time),
        monitor.tracker.phase.negotiates(),
    ensures
        !monitor.tracker.upstream_native_pending,
{
}

/// Xiaomi's protocol has its time in every course of events: until another charger
/// session begins, the negotiation of what was attached at `attached` leads to
/// public PPS not before the charger has settled, and not before the whole
/// negotiation time is over unless the charger shows that it has no vendor's SVID.
pub proof fn native_protocol_has_its_time_in_every_course(
    monitor: MonitorView,
    start: Instant,
    trace: Seq<Occurrence>,
    n: int,
    attached: Instant,
)
    requires
        monitor.wf(start),
        crate::laws::trace::is_timeline(start, trace),
        attached.can_schedule(),
        crate::laws::negotiation::negotiating_since(monitor.tracker.phase, attached),
        0 <= n < trace.len(),
        monitor.stays_in_session(trace, n),
        monitor.after_first(trace, n).tracker.phase.negotiates(),
        monitor.after_first(trace, n).attempts_public(trace[n].event, trace[n].now),
    ensures
        trace[n].now.nanos >= attached.nanos + PUBLIC_IDENTITY_SETTLE_MS * 1_000_000,
        monitor.after_first(trace, n + 1).readings.has_public_svid() || trace[n].now.nanos
            >= attached.nanos + NATIVE_NEGOTIATION_TIMEOUT_MS * 1_000_000,
{
    negotiation_is_that_of_its_attachment(monitor, start, trace, n, attached);
    crate::laws::trace::timeline_begins_with_timelines(start, trace, n);
    crate::laws::trace::events_lead_from_state_to_state(monitor, start, trace, n);
    crate::laws::negotiation::native_protocol_has_its_time(
        monitor.after_first(trace, n),
        crate::laws::trace::time_after(start, trace.take(n)),
        trace[n].event,
        trace[n].now,
        attached,
    );
}

} // verus!
