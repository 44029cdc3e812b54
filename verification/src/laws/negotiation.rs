//! Xiaomi's protocol comes first, and public PPS is enabled only where it may be.

use vstd::prelude::*;

use crate::clock::Instant;
use crate::clock::{
    NATIVE_NEGOTIATION_TIMEOUT_MS, PUBLIC_IDENTITY_SETTLE_MS, PUBLIC_IDENTITY_WINDOW_MS,
};
use crate::laws::trace::Occurrence;
use crate::monitor::{Event, MonitorView, Request, Stage, Subject};
use crate::phase::AutoPhase;
use crate::readings::ReadingsView;
use crate::report::Notice;
use crate::tracker::{PhaseWork, Tracker};

verus! {

/// Whether what was read and the time allow the monitor to enable public PPS: the
/// port is not verified and PPS is negotiated, no upstream swap waits for its
/// charger, and besides
/// - in an identification, the adapter has no vendor's SVID and has settled since
///   it was attached;
/// - in a native negotiation, the time for it is over;
/// - in a settled session, no attempt is taken.
pub open spec fn may_enable_public(before: Tracker, readings: ReadingsView, now: Instant) -> bool {
    &&& readings.is_unverified_pps()
    &&& !before.upstream_native_pending
    &&& match before.phase {
        AutoPhase::IdentifyingPublic { identity_deadline, .. } => {
            &&& readings.has_public_svid()
            &&& now.nanos >= identity_deadline.nanos - (PUBLIC_IDENTITY_WINDOW_MS
                - PUBLIC_IDENTITY_SETTLE_MS) * 1_000_000
        },
        AutoPhase::WaitingNative(deadline) => now.reached(deadline),
        AutoPhase::Settled => !before.public_retry_attempted,
        _ => false,
    }
}

proof fn lemma_reading_attempt(monitor: MonitorView, time: Instant, text: Seq<char>, now: Instant)
    requires
        monitor.wf(time),
        now.reached(time),
        !(monitor.stage is Enabling),
        monitor.after_reading(text, now).stage is Enabling,
    ensures
        may_enable_public(monitor.tracker, monitor.after_reading(text, now).readings, now),
{
    reveal(MonitorView::after_reading);
}

/// The monitor never enables public PPS where it may not: a verified charger is
/// never taken from Xiaomi's protocol, and a charger of another vendor or one
/// that is not identified has the whole native negotiation time.
pub proof fn public_is_enabled_only_where_it_may(
    monitor: MonitorView,
    time: Instant,
    event: Event,
    now: Instant,
)
    requires
        monitor.wf(time),
        now.reached(time),
        monitor.attempts_public(event, now),
    ensures
        may_enable_public(monitor.tracker, monitor.next(event, now).readings, now),
{
    match event {
        Event::Content(text) => {
            assert(monitor.next(event, now) == monitor.after_reading(text@, now));
            lemma_reading_attempt(monitor, time, text@, now);
        },
        Event::Failed => {
            if !monitor.stage.fails() {
                assert(monitor.next(event, now) == monitor.after_reading(Seq::empty(), now));
                lemma_reading_attempt(monitor, time, Seq::empty(), now);
            }
        },
        Event::Done => {
            assert(monitor.next(event, now) == monitor.after_done(now));
        },
        _ => {
            crate::laws::order::wakeups_change_no_negotiation(monitor, event, now);
        },
    }
}

/// Whether the deadlines of a negotiation are those of the attachment that it
/// began with: they are set when something is attached, and after that only
/// handed on.
pub open spec fn deadlines_handed_on(before: AutoPhase, after: AutoPhase, now: Instant) -> bool {
    match after {
        AutoPhase::IdentifyingPublic { identity_deadline, native_deadline, .. } => {
            ||| after == AutoPhase::attached_at(now)
            ||| before matches AutoPhase::IdentifyingPublic {
                identity_deadline: identity_before,
                native_deadline: native_before,
                ..
            } && identity_deadline == identity_before && native_deadline == native_before
        },
        AutoPhase::WaitingNative(deadline) => {
            ||| before == after
            ||| before matches AutoPhase::IdentifyingPublic { native_deadline, .. } && deadline
                == native_deadline
        },
        _ => true,
    }
}

proof fn lemma_reading_deadlines(monitor: MonitorView, text: Seq<char>, now: Instant)
    ensures
        deadlines_handed_on(
            monitor.tracker.phase,
            monitor.after_reading(text, now).tracker.phase,
            now,
        ),
{
    reveal(MonitorView::after_reading);
    match monitor.stage.subject() {
        Subject::Port => {
            assert(monitor.after_reading(text, now) == monitor.after_port(text, now));
        },
        Subject::Settled => {
            assert(monitor.after_reading(text, now) == monitor.after_settled(text, now));
        },
        Subject::Identification => {
            assert(monitor.after_reading(text, now) == monitor.after_identification(text, now));
        },
        Subject::Native => {
            assert(monitor.after_reading(text, now) == monitor.after_native(text, now));
        },
        Subject::Public => {
            assert(monitor.after_reading(text, now) == monitor.after_public(text));
        },
        Subject::Nothing => {},
    }
}

/// A negotiation keeps the deadlines of its attachment: no event prolongs or
/// shortens Xiaomi's time.
pub proof fn negotiations_keep_their_deadlines(monitor: MonitorView, event: Event, now: Instant)
    ensures
        deadlines_handed_on(monitor.tracker.phase, monitor.next(event, now).tracker.phase, now),
{
    let after = monitor.next(event, now);
    match event {
        Event::Content(text) => {
            assert(deadlines_handed_on(monitor.tracker.phase, after.tracker.phase, now)) by {
                lemma_reading_deadlines(monitor, text@, now);
            }
        },
        Event::Failed => {
            assert(deadlines_handed_on(monitor.tracker.phase, after.tracker.phase, now)) by {
                lemma_reading_deadlines(monitor, Seq::empty(), now);
            }
        },
        Event::Done => {
            assert(deadlines_handed_on(monitor.tracker.phase, after.tracker.phase, now)) by {
                lemma_done_deadlines(monitor, now);
            }
        },
        _ => {
            assert(deadlines_handed_on(monitor.tracker.phase, after.tracker.phase, now)) by {
                crate::laws::order::wakeups_change_no_negotiation(monitor, event, now);
            }
        },
    }
}

proof fn lemma_done_deadlines(monitor: MonitorView, now: Instant)
    ensures
        deadlines_handed_on(monitor.tracker.phase, monitor.after_done(now).tracker.phase, now),
{
}

/// Whether a phase belongs to the negotiation of what was attached at `attached`.
pub open spec fn negotiating_since(phase: AutoPhase, attached: Instant) -> bool {
    match phase {
        AutoPhase::IdentifyingPublic { identity_deadline, native_deadline, .. } => {
            &&& identity_deadline == attached.after(PUBLIC_IDENTITY_WINDOW_MS)
            &&& native_deadline == attached.after(NATIVE_NEGOTIATION_TIMEOUT_MS)
        },
        AutoPhase::WaitingNative(deadline) => deadline == attached.after(
            NATIVE_NEGOTIATION_TIMEOUT_MS,
        ),
        _ => false,
    }
}

/// Xiaomi's protocol has its time: in the negotiation of what was attached at
/// `attached`, public PPS is not enabled before the charger has settled, and not
/// before the whole negotiation time is over unless the charger shows that it has
/// no vendor's SVID. The negotiation goes on as that of the same attachment until
/// it is over or something else is attached.
pub proof fn native_protocol_has_its_time(
    monitor: MonitorView,
    time: Instant,
    event: Event,
    now: Instant,
    attached: Instant,
)
    requires
        monitor.wf(time),
        now.reached(time),
        attached.can_schedule(),
        negotiating_since(monitor.tracker.phase, attached),
    ensures
        ({
            let after = monitor.next(event, now);
            let phase = after.tracker.phase;
            &&& monitor.attempts_public(event, now) ==> {
                &&& now.nanos >= attached.nanos + PUBLIC_IDENTITY_SETTLE_MS * 1_000_000
                &&& after.readings.has_public_svid() || now.nanos >= attached.nanos
                    + NATIVE_NEGOTIATION_TIMEOUT_MS * 1_000_000
            }
            &&& phase is IdentifyingPublic || phase is WaitingNative ==> negotiating_since(
                phase,
                attached,
            ) || phase == AutoPhase::attached_at(now)
        }),
{
    negotiations_keep_their_deadlines(monitor, event, now);
    if monitor.attempts_public(event, now) {
        public_is_enabled_only_where_it_may(monitor, time, event, now);
    }
}

/// The looks at a charger's identity end with the identity window: from then on a
/// look leads either to public PPS or to Xiaomi's negotiation time.
pub proof fn identification_ends_with_its_window(
    tracker: Tracker,
    readings: ReadingsView,
    now: Instant,
)
    requires
        tracker.phase is IdentifyingPublic,
        now.reached(tracker.phase->identity_deadline),
    ensures
        tracker.after_identity(readings, now) == (if tracker.enables_early(readings) {
            tracker.attempting()
        } else {
            Tracker {
                phase: AutoPhase::WaitingNative(tracker.phase->native_deadline),
                ..tracker
            }
        }),
{
}

/// Where Xiaomi's authentication succeeds, the negotiation is over at once: no
/// attempt is taken and nothing is written.
pub proof fn verified_charger_is_left_alone(
    monitor: MonitorView,
    text: Seq<char>,
    now: Instant,
    later: Instant,
)
    requires
        monitor.stage is IdentifyVerified || monitor.stage is NativeVerified,
        text == "1"@,
    ensures
        monitor.after_reading(text, now).tracker == monitor.tracker.settled(),
        monitor.after_reading(text, now).request(later) is Wait,
        monitor.reading_outcome(text, now).notice == Some(Notice::NativeVerified),
{
    reveal(MonitorView::after_reading);
}

/// Public PPS is reported as active where the port is verified and PPS is
/// negotiated, both read after the attempt, and nowhere else.
pub proof fn success_is_reported_only_when_verified(
    monitor: MonitorView,
    event: Event,
    now: Instant,
)
    ensures
        monitor.outcome(event, now).notice == Some(Notice::PublicConfirmed) <==> {
            &&& monitor.stage is VerifyUsbType
            &&& monitor.readings.is_verified()
            &&& event matches Event::Content(text) && text@ == "PD_PPS"@
        },
{
}

/// The port is written only for public PPS, which is enabled and asserted once
/// more, and to undo it after a detachment.
pub proof fn port_is_written_only_for_public(monitor: MonitorView, now: Instant)
    ensures
        monitor.request(now) == Request::SetPdVerified(true) <==> monitor.stage is Enabling
            || monitor.stage is Reasserting,
        monitor.request(now) == Request::SetPdVerified(false) <==> monitor.stage
            is ResettingVerified,
{
}

/// The port is written in the automatic mode only.
pub proof fn only_the_automatic_mode_writes(monitor: MonitorView, time: Instant, now: Instant)
    requires
        monitor.wf(time),
        monitor.request(now) is SetPdVerified,
    ensures
        monitor.tracker.mode is Automatic,
{
}

/// A failed attempt is recovered from: where PPS is still there without
/// verification and the budget allows it, the next turn of the settled session
/// enables public PPS again; without budget it leaves the charger alone.
pub proof fn failed_attempt_is_recovered_from(
    tracker: Tracker,
    readings: ReadingsView,
    now: Instant,
)
    requires
        tracker.public_retry_attempted,
        readings.is_unverified_pps(),
    ensures
        tracker.after_verification(readings).phase_work_spec(now) == (if tracker.has_budget() {
            PhaseWork::Retry
        } else {
            PhaseWork::Nothing
        }),
        tracker.has_budget() ==> tracker.after_verification(readings).retries(readings),
{
}

impl MonitorView {
    /// Whether an event makes the monitor assert public PPS once more.
    pub open spec fn reasserts_public(self, event: Event, now: Instant) -> bool {
        !(self.stage is Reasserting) && self.next(event, now).stage is Reasserting
    }

    /// How often a sequence of events makes the monitor assert public PPS once
    /// more.
    pub open spec fn reassertions(self, trace: Seq<Occurrence>) -> nat
        decreases trace.len(),
    {
        if trace.len() == 0 {
            0
        } else {
            let before = trace.drop_last();
            let last = trace.last();
            self.reassertions(before) + if self.run(before).reasserts_public(last.event, last.now) {
                1nat
            } else {
                0nat
            }
        }
    }

    /// How many assertions are owed to the attempt that is under way.
    pub open spec fn owed(self) -> nat {
        if self.owes_reassertion() {
            1
        } else {
            0
        }
    }

    /// Whether an attempt is under way that was not asserted once more.
    pub open spec fn owes_reassertion(self) -> bool {
        self.stage is Enabling || (self.tracker.phase is EnablingPublic && !(self.stage
            is Reasserting || self.stage is Ended))
    }
}

/// How one event changes what is owed of an attempt: it is asserted once more only
/// when its delay is over, and from then on nothing is owed until another attempt
/// begins.
#[verifier::opaque]
pub open spec fn owed_after(before: MonitorView, after: MonitorView, now: Instant) -> bool {
    &&& after.stage is Reasserting && !(before.stage is Reasserting) ==> {
        &&& before.owes_reassertion()
        &&& !after.owes_reassertion()
        &&& before.tracker.phase matches AutoPhase::EnablingPublic(deadline) && now.reached(
            deadline,
        )
    }
    &&& after.owes_reassertion() ==> before.owes_reassertion() || after.stage is Enabling
}

proof fn lemma_reading_owes(monitor: MonitorView, time: Instant, text: Seq<char>, now: Instant)
    requires
        monitor.wf(time),
    ensures
        owed_after(monitor, monitor.after_reading(text, now), now),
{
    reveal(MonitorView::after_reading);
    reveal(owed_after);
}

proof fn lemma_done_owes(monitor: MonitorView, time: Instant, now: Instant)
    requires
        monitor.wf(time),
    ensures
        owed_after(monitor, monitor.after_done(now), now),
{
    reveal(owed_after);
}

proof fn lemma_failure_owes(monitor: MonitorView, now: Instant)
    ensures
        owed_after(monitor, monitor.at(Stage::Ended { failed: true }), now),
{
    reveal(owed_after);
}

proof fn lemma_wakeup_owes(monitor: MonitorView, event: Event, now: Instant)
    requires
        !(event is Content || event is Failed || event is Done),
    ensures
        owed_after(monitor, monitor.next(event, now), now),
{
    crate::laws::order::wakeups_change_no_negotiation(monitor, event, now);
    reveal(owed_after);
}

/// An attempt is asserted once more only when its delay is over, and only once.
pub proof fn attempt_is_reasserted_when_due(
    monitor: MonitorView,
    time: Instant,
    event: Event,
    now: Instant,
)
    requires
        monitor.wf(time),
    ensures
        owed_after(monitor, monitor.next(event, now), now),
{
    match event {
        Event::Content(text) => {
            assert(monitor.next(event, now) == monitor.after_reading(text@, now));
            lemma_reading_owes(monitor, time, text@, now);
        },
        Event::Failed => {
            if monitor.stage.fails() {
                assert(monitor.next(event, now) == monitor.at(Stage::Ended { failed: true }));
                lemma_failure_owes(monitor, now);
            } else {
                assert(monitor.next(event, now) == monitor.after_reading(Seq::empty(), now));
                lemma_reading_owes(monitor, time, Seq::empty(), now);
            }
        },
        Event::Done => {
            assert(monitor.next(event, now) == monitor.after_done(now));
            lemma_done_owes(monitor, time, now);
        },
        _ => {
            lemma_wakeup_owes(monitor, event, now);
        },
    }
}

/// However events follow on one another, every attempt, one that was under way
/// at the start too, is asserted once more at most once.
pub proof fn attempts_are_reasserted_at_most_once(
    monitor: MonitorView,
    start: Instant,
    trace: Seq<Occurrence>,
)
    requires
        monitor.wf(start),
        crate::laws::trace::is_timeline(start, trace),
    ensures
        monitor.reassertions(trace) + monitor.run(trace).owed() <= monitor.owed()
            + monitor.attempts(trace),
    decreases trace.len(),
{
    crate::laws::trace::last_event_comes_last(monitor, trace);
    if trace.len() > 0 {
        let before = trace.drop_last();
        attempts_are_reasserted_at_most_once(monitor, start, before);
        crate::laws::trace::every_trace_keeps_the_monitor_well_formed(monitor, start, before);
        reveal(owed_after);
        attempt_is_reasserted_when_due(
            monitor.run(before),
            crate::laws::trace::time_after(start, before),
            trace.last().event,
            trace.last().now,
        );
    }
}

} // verus!
