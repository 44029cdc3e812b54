//! An attempt to enable public PPS, from its first write to its end.

use vstd::prelude::*;

use crate::clock::Instant;
use crate::laws::plain::{has_time, is_later};
use crate::laws::trace::Occurrence;
use crate::monitor::{Event, MonitorView, Request};
use crate::phase::AutoPhase;
use crate::readings::Node;
use crate::report::{Notice, Outcome};
use crate::tracker::Tracker;

verus! {

/// Whenever the write that enables public PPS is done, whatever phase it began in, the
/// attempt awaits its second write, 500 ms later. Nothing else changes, nothing is told,
/// and the monitor waits.
pub proof fn enabled_public_awaits_its_second_write(monitor: MonitorView, done: Instant)
    requires
        monitor.stage is Enabling,
        has_time(done),
    ensures
        ({
            let after = monitor.next(Event::Done, done);
            &&& after.tracker.phase matches AutoPhase::EnablingPublic(due) && is_later(
                done,
                500,
                due,
            )
            &&& after.tracker == Tracker { phase: after.tracker.phase, ..monitor.tracker }
            &&& after.request(done) is Wait
            &&& monitor.outcome(Event::Done, done) == Outcome { session: None, notice: None }
        }),
{
    assert(monitor.next(Event::Done, done) == monitor.after_done(done));
    assert(monitor.outcome(Event::Done, done) == monitor.done_outcome());
}

/// Whenever the second write is done, the attempt awaits its verification, 1500 ms
/// later. Nothing else changes, it is told, and the monitor waits.
pub proof fn reasserted_public_awaits_its_verification(monitor: MonitorView, done: Instant)
    requires
        monitor.stage is Reasserting,
        has_time(done),
    ensures
        ({
            let after = monitor.next(Event::Done, done);
            &&& after.tracker.phase matches AutoPhase::VerifyingPublic(due) && is_later(
                done,
                1_500,
                due,
            )
            &&& after.tracker == Tracker { phase: after.tracker.phase, ..monitor.tracker }
            &&& after.request(done) is Wait
            &&& monitor.outcome(Event::Done, done) == Outcome {
                session: None,
                notice: Some(Notice::PublicReasserted),
            }
        }),
{
    assert(monitor.next(Event::Done, done) == monitor.after_done(done));
    assert(monitor.outcome(Event::Done, done) == monitor.done_outcome());
}

/// Every verification of an attempt, whatever it reads, reads the verification and then
/// the USB type, and ends in the settled phase, with the monitor waiting. The attempt
/// stays taken, unless it failed with PPS there on an unverified port and fewer than two
/// attempts were made. It is told whether public PPS is active: on a verified port with
/// PPS, and nowhere else.
pub proof fn verification_settles_the_session(
    monitor: MonitorView,
    verified: String,
    now: Instant,
    usb_type: String,
    then: Instant,
)
    requires
        monitor.stage is VerifyVerified,
    ensures
        ({
            let t = monitor.tracker;
            let halfway = monitor.next(Event::Content(verified), now);
            let after = halfway.next(Event::Content(usb_type), then);
            let pps = usb_type@ == "PD_PPS"@;
            &&& halfway.request(now) == Request::Read(Node::UsbRealType)
            &&& halfway.tracker == t
            &&& monitor.outcome(Event::Content(verified), now) == Outcome {
                session: None,
                notice: None,
            }
            &&& after.request(then) is Wait
            &&& after.tracker == Tracker {
                phase: AutoPhase::Settled,
                public_retry_attempted: t.public_retry_attempted && !(verified@ != "1"@ && pps
                    && t.public_retry_count < 2),
                ..t
            }
            &&& halfway.outcome(Event::Content(usb_type), then) == Outcome {
                session: None,
                notice: Some(
                    if verified@ == "1"@ && pps {
                        Notice::PublicConfirmed
                    } else {
                        Notice::PublicNotConfirmed
                    },
                ),
            }
        }),
{
    reveal(MonitorView::after_reading);
    let first = Event::Content(verified);
    let second = Event::Content(usb_type);
    let halfway = monitor.next(first, now);
    assert(halfway == monitor.after_public(verified@));
    assert(monitor.outcome(first, now) == monitor.reading_outcome(verified@, now));
    assert(halfway.next(second, then) == halfway.after_public(usb_type@));
    assert(halfway.outcome(second, then) == halfway.reading_outcome(usb_type@, then));
}

/// The look for public PPS in a settled session reads the verification and then the USB
/// type. An unverified port with PPS has public PPS enabled where fewer than two attempts
/// were made: the attempt is counted and taken, no swap is pending and no outage observed
/// any more, and it is told. Anything else changes nothing, and the monitor waits.
pub proof fn public_is_looked_for_in_a_settled_session(
    monitor: MonitorView,
    verified: String,
    now: Instant,
    usb_type: String,
    then: Instant,
)
    requires
        monitor.stage is RetryVerified,
    ensures
        ({
            let t = monitor.tracker;
            let halfway = monitor.next(Event::Content(verified), now);
            let after = halfway.next(Event::Content(usb_type), then);
            let told = halfway.outcome(Event::Content(usb_type), then);
            &&& halfway.request(now) == Request::Read(Node::UsbRealType)
            &&& halfway.tracker == t
            &&& monitor.outcome(Event::Content(verified), now) == Outcome {
                session: None,
                notice: None,
            }
            &&& if verified@ != "1"@ && usb_type@ == "PD_PPS"@ && t.public_retry_count < 2 {
                &&& after.request(then) == Request::SetPdVerified(true)
                &&& after.tracker == Tracker {
                    public_retry_count: (t.public_retry_count + 1) as u8,
                    public_retry_attempted: true,
                    upstream_native_pending: false,
                    charger_detach_deadline: None,
                    ..t
                }
                &&& told == Outcome { session: None, notice: Some(Notice::PublicAppeared) }
            } else {
                &&& after.request(then) is Wait
                &&& after.tracker == t
                &&& told == Outcome { session: None, notice: None }
            }
        }),
{
    reveal(MonitorView::after_reading);
    let first = Event::Content(verified);
    let second = Event::Content(usb_type);
    let halfway = monitor.next(first, now);
    assert(halfway == monitor.after_public(verified@));
    assert(monitor.outcome(first, now) == monitor.reading_outcome(verified@, now));
    assert(halfway.next(second, then) == halfway.after_public(usb_type@));
    assert(halfway.outcome(second, then) == halfway.reading_outcome(usb_type@, then));
}

proof fn lemma_attempt_is_watched(monitor: MonitorView, time: Instant)
    requires
        monitor.wf(time),
        monitor.stage is Enabling || monitor.stage is Reasserting,
    ensures
        monitor.tracker.attached,
        monitor.tracker.mode is Automatic,
{
}

/// Every attempt is written a second time: after the write that enables public PPS was
/// done, the first pass that reads something attached asks for the port to be verified
/// once more where 500 ms have gone by since, and else for nothing but to wait.
pub proof fn every_attempt_is_written_twice(
    monitor: MonitorView,
    start: Instant,
    trace: Seq<Occurrence>,
    n: int,
)
    requires
        monitor.wf(start),
        crate::laws::trace::is_timeline(start, trace),
        monitor.stage is Enabling,
        1 < n < trace.len(),
        trace[0].event is Done,
        monitor.next(Event::Done, trace[0].now).is_woken_by(trace.skip(1), n - 1),
        trace[n].event.is_other_text("Nothing attached"@),
    ensures
        ({
            let after = monitor.after_first(trace, n + 1);
            if trace[n].now.nanos >= trace[0].now.nanos + 500_000_000 {
                forall|now: Instant| (#[trigger] after.request(now)) == Request::SetPdVerified(true)
            } else {
                after.stage is Waiting
            }
        }),
{
    lemma_attempt_is_watched(monitor, start);
    crate::laws::trace::timeline_begins_with_timelines(start, trace, 0);
    enabled_public_awaits_its_second_write(monitor, trace[0].now);
    lemma_pass_after_a_write(monitor, start, trace, n);
}

proof fn lemma_pass_after_a_write(
    monitor: MonitorView,
    start: Instant,
    trace: Seq<Occurrence>,
    n: int,
)
    requires
        monitor.wf(start),
        crate::laws::trace::is_timeline(start, trace),
        1 < n < trace.len(),
        trace[0].event is Done,
        monitor.next(Event::Done, trace[0].now).is_woken_by(trace.skip(1), n - 1),
        monitor.next(Event::Done, trace[0].now).tracker.attached,
        monitor.next(Event::Done, trace[0].now).tracker.mode is Automatic,
        trace[n].event.is_other_text("Nothing attached"@),
    ensures
        crate::laws::port::goes_on(
            monitor.next(Event::Done, trace[0].now).tracker.phase,
            trace[n].now,
            monitor.after_first(trace, n + 1).stage,
        ),
{
    let first = trace[0].now;
    let enabled = monitor.next(Event::Done, first);
    let rest = trace.skip(1);
    crate::laws::trace::timeline_begins_with_timelines(start, trace, 0);
    crate::laws::order::every_event_keeps_the_monitor_well_formed(
        monitor,
        start,
        Event::Done,
        first,
    );
    crate::laws::trace::timeline_goes_on(start, trace);
    crate::laws::progress::wakeups_lead_to_the_port(enabled, first, rest, n - 1);
    crate::laws::trace::events_lead_from_state_to_state(enabled, first, rest, n - 1);
    crate::laws::port::attached_port_stays_attached(
        enabled.after_first(rest, n - 1),
        rest[n - 1].event->Content_0,
        rest[n - 1].now,
    );
    crate::laws::trace::first_event_comes_first(monitor, trace, n + 1);
}

/// Every second write is followed by a verification: after it was done, the first pass
/// that reads something attached reads the verification where 1500 ms have gone by since,
/// and else asks for nothing but to wait.
pub proof fn every_attempt_is_verified(
    monitor: MonitorView,
    start: Instant,
    trace: Seq<Occurrence>,
    n: int,
)
    requires
        monitor.wf(start),
        crate::laws::trace::is_timeline(start, trace),
        monitor.stage is Reasserting,
        1 < n < trace.len(),
        trace[0].event is Done,
        monitor.next(Event::Done, trace[0].now).is_woken_by(trace.skip(1), n - 1),
        trace[n].event.is_other_text("Nothing attached"@),
    ensures
        ({
            let after = monitor.after_first(trace, n + 1);
            if trace[n].now.nanos >= trace[0].now.nanos + 1_500_000_000 {
                &&& after.stage is VerifyVerified
                &&& forall|now: Instant|
                    (#[trigger] after.request(now)) == Request::Read(Node::PdVerified)
            } else {
                after.stage is Waiting
            }
        }),
{
    lemma_attempt_is_watched(monitor, start);
    crate::laws::trace::timeline_begins_with_timelines(start, trace, 0);
    reasserted_public_awaits_its_verification(monitor, trace[0].now);
    lemma_pass_after_a_write(monitor, start, trace, n);
}

} // verus!
