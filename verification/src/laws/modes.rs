//! The mode that was taken is the mode in force.

use vstd::prelude::*;

use crate::clock::Instant;
use crate::laws::plain::{has_time, starts_at};
use crate::laws::trace::Occurrence;
use crate::monitor::{Event, MonitorView, Request, Stage};
use crate::readings::Node;
use crate::report::{Notice, Outcome};
use crate::session::SessionUpdate;
use crate::tracker::{ChargingMode, Tracker};

verus! {

/// A mode that is taken comes into force at once where uevents are monitored as it
/// calls for, and else once their monitoring was switched. Either way the port is read
/// next, and nothing but the mode and the monitoring has changed.
pub proof fn taken_mode_comes_into_force(
    monitor: MonitorView,
    mode: ChargingMode,
    now: Instant,
    done: Instant,
)
    requires
        monitor.request(now) == Request::TakeMode,
    ensures
        ({
            let on = mode != ChargingMode::Native;
            let taken = monitor.next(Event::Mode(mode), now);
            let switched = taken.next(Event::Done, done);
            let configured = if on == monitor.tracker.uevent_registered {
                taken
            } else {
                switched
            };
            &&& monitor.outcome(Event::Mode(mode), now) == Outcome { session: None, notice: None }
            &&& on != monitor.tracker.uevent_registered ==> {
                &&& taken.request(done) == Request::MonitorUevents(on)
                &&& taken.outcome(Event::Done, done) == Outcome {
                    session: None,
                    notice: Some(Notice::UeventMonitoring(on)),
                }
            }
            &&& configured.request(done) == Request::Read(Node::TypecMode)
            &&& configured.stage == Stage::ConfiguredAttachment {
                uevent_ready: monitor.stage->TakingMode_uevent_ready,
            }
            &&& configured.tracker == Tracker { mode, uevent_registered: on, ..monitor.tracker }
            &&& configured.readings == monitor.readings
        }),
{
    let taken = monitor.next(Event::Mode(mode), now);
    assert(taken == monitor.after_mode(mode));
    assert(taken.next(Event::Done, done) == taken.after_done(done));
    assert(taken.outcome(Event::Done, done) == taken.done_outcome());
}

/// Under a mode that came into force everything begins anew, as it would in a monitor
/// that starts in that mode and finds the port as it is. A charging session is active
/// exactly where something is attached in another mode than the native one; it is
/// published where it begins, and where there is none. Uevents that are ready are
/// taken next where they are monitored.
pub proof fn new_mode_begins_anew(monitor: MonitorView, text: String, now: Instant)
    requires
        monitor.stage is ConfiguredAttachment,
        has_time(now),
    ensures
        ({
            let attached = text@ != "Nothing attached"@;
            let mode = monitor.tracker.mode;
            let active = attached && mode != ChargingMode::Native;
            let after = monitor.next(Event::Content(text), now);
            &&& starts_at(after.tracker, mode, attached, now)
            &&& after.tracker.charging_session_active == active
            &&& monitor.outcome(Event::Content(text), now) == Outcome {
                session: if !active {
                    Some(SessionUpdate { active: false, generation_advance: 0 })
                } else if monitor.tracker.charging_session_active {
                    None
                } else {
                    Some(SessionUpdate { active: true, generation_advance: 1 })
                },
                notice: Some(Notice::ModeChanged(mode)),
            }
            &&& after.request(now) == if mode != ChargingMode::Native
                && monitor.stage->ConfiguredAttachment_uevent_ready {
                Request::ReceiveUevent
            } else {
                Request::Read(Node::TypecMode)
            }
            &&& after.stage is Draining || after.stage is Attachment
        }),
{
    reveal(MonitorView::after_reading);
    let event = Event::Content(text);
    assert(monitor.next(event, now) == monitor.after_port(text@, now));
    assert(monitor.outcome(event, now) == monitor.port_outcome(text@, now));
}

impl MonitorView {
    /// The mode that was taken last: the one that is known, or the one that comes into
    /// force once the monitoring of uevents was switched.
    pub open spec fn taken_mode(self) -> ChargingMode {
        match self.stage {
            Stage::SwitchingUevents { mode, .. } => mode,
            _ => self.tracker.mode,
        }
    }
}

/// How one event changes the mode: taking one is the only thing that does, and
/// afterwards it is exactly the one that was taken, unless the monitor ends.
#[verifier::opaque]
pub open spec fn mode_after(before: MonitorView, event: Event, after: MonitorView) -> bool {
    after.stage is Ended || after.taken_mode() == (if event is Mode && before.stage is TakingMode {
        event->Mode_0
    } else {
        before.taken_mode()
    })
}

proof fn lemma_reading_keeps_the_mode(
    monitor: MonitorView,
    event: Event,
    text: Seq<char>,
    now: Instant,
)
    requires
        !(event is Mode),
    ensures
        mode_after(monitor, event, monitor.after_reading(text, now)),
{
    reveal(MonitorView::after_reading);
    reveal(mode_after);
}

proof fn lemma_other_events_and_the_mode(monitor: MonitorView, event: Event, now: Instant)
    requires
        !(event is Content || event is Failed),
    ensures
        mode_after(monitor, event, monitor.next(event, now)),
{
    reveal(mode_after);
    match event {
        Event::Done => {
            assert(monitor.next(event, now) == monitor.after_done(now));
        },
        Event::Mode(mode) => {
            assert(monitor.next(event, now) == monitor.after_mode(mode));
        },
        Event::Woken { stop, config, uevent } => {
            assert(monitor.next(event, now) == monitor.after_woken(stop, config, uevent, now));
        },
        Event::Uevent(data) => {
            assert(monitor.next(event, now) == monitor.after_uevent(data@));
        },
        Event::Drained => {
            assert(monitor.next(event, now) == monitor.after_drained(now));
        },
        _ => {},
    }
}

proof fn lemma_failure_and_the_mode(monitor: MonitorView)
    ensures
        mode_after(monitor, Event::Failed, monitor.at(Stage::Ended { failed: true })),
{
    reveal(mode_after);
}

/// Taking a mode is the only thing that changes the mode, and afterwards it is exactly
/// the one that was taken, unless the monitor ends.
pub proof fn only_a_taken_mode_changes_the_mode(monitor: MonitorView, event: Event, now: Instant)
    ensures
        mode_after(monitor, event, monitor.next(event, now)),
{
    match event {
        Event::Content(text) => {
            assert(monitor.next(event, now) == monitor.after_reading(text@, now));
            lemma_reading_keeps_the_mode(monitor, event, text@, now);
        },
        Event::Failed => {
            if monitor.stage.fails() {
                assert(monitor.next(event, now) == monitor.at(Stage::Ended { failed: true }));
                lemma_failure_and_the_mode(monitor);
            } else {
                assert(monitor.next(event, now) == monitor.after_reading(Seq::empty(), now));
                lemma_reading_keeps_the_mode(monitor, event, Seq::empty(), now);
            }
        },
        _ => {
            lemma_other_events_and_the_mode(monitor, event, now);
        },
    }
}

proof fn lemma_mode_stays_taken(
    monitor: MonitorView,
    start: Instant,
    trace: Seq<Occurrence>,
    n: int,
)
    requires
        monitor.wf(start),
        crate::laws::trace::is_timeline(start, trace),
        0 <= n < trace.len(),
    ensures
        mode_after(
            monitor.after_first(trace, n),
            trace[n].event,
            monitor.after_first(trace, n + 1),
        ),
{
    crate::laws::trace::events_lead_from_state_to_state(monitor, start, trace, n);
    only_a_taken_mode_changes_the_mode(
        monitor.after_first(trace, n),
        trace[n].event,
        trace[n].now,
    );
}

proof fn lemma_end_stays(monitor: MonitorView, start: Instant, trace: Seq<Occurrence>, n: int)
    requires
        monitor.wf(start),
        crate::laws::trace::is_timeline(start, trace),
        0 <= n < trace.len(),
        monitor.after_first(trace, n).stage is Ended,
    ensures
        monitor.after_first(trace, n + 1).stage is Ended,
{
    crate::laws::trace::events_lead_from_state_to_state(monitor, start, trace, n);
    crate::laws::order::stray_events_change_nothing(
        monitor.after_first(trace, n),
        trace[n].event,
        trace[n].now,
    );
}

proof fn lemma_writes_need_the_mode(monitor: MonitorView, time: Instant, now: Instant)
    requires
        monitor.wf(time),
        monitor.request(now) is SetPdVerified,
    ensures
        monitor.taken_mode() is Automatic,
        !(monitor.stage is Ended),
{
}

/// Once another mode than the automatic one was taken, the port is not written until
/// the automatic mode is taken again, however events follow on one another.
pub proof fn port_is_left_alone_once_another_mode_is_taken(
    monitor: MonitorView,
    start: Instant,
    trace: Seq<Occurrence>,
    n: int,
    now: Instant,
)
    requires
        monitor.wf(start),
        crate::laws::trace::is_timeline(start, trace),
        monitor.stage is TakingMode,
        1 <= n <= trace.len(),
        trace[0].event matches Event::Mode(mode) && mode != ChargingMode::Automatic,
        forall|i: int|
            1 <= i < n ==> !((#[trigger] trace[i]).event matches Event::Mode(mode) && mode
                == ChargingMode::Automatic),
    ensures
        !(monitor.after_first(trace, n).request(now) is SetPdVerified),
{
    lemma_other_mode_stays(monitor, start, trace, n);
    crate::laws::trace::events_lead_from_state_to_state(monitor, start, trace, n);
    if monitor.after_first(trace, n).request(now) is SetPdVerified {
        lemma_writes_need_the_mode(
            monitor.after_first(trace, n),
            crate::laws::trace::time_after(start, trace.take(n)),
            now,
        );
    }
}

proof fn lemma_other_mode_stays(
    monitor: MonitorView,
    start: Instant,
    trace: Seq<Occurrence>,
    n: int,
)
    requires
        monitor.wf(start),
        crate::laws::trace::is_timeline(start, trace),
        monitor.stage is TakingMode,
        1 <= n <= trace.len(),
        trace[0].event matches Event::Mode(mode) && mode != ChargingMode::Automatic,
        forall|i: int|
            1 <= i < n ==> !((#[trigger] trace[i]).event matches Event::Mode(mode) && mode
                == ChargingMode::Automatic),
    ensures
        monitor.after_first(trace, n).stage is Ended || monitor.after_first(trace, n).taken_mode()
            != ChargingMode::Automatic,
    decreases n,
{
    reveal(mode_after);
    lemma_mode_stays_taken(monitor, start, trace, n - 1);
    if n == 1 {
        crate::laws::trace::last_event_comes_last(monitor, trace.take(0));
    } else {
        lemma_other_mode_stays(monitor, start, trace, n - 1);
        if monitor.after_first(trace, n - 1).stage is Ended {
            lemma_end_stays(monitor, start, trace, n - 1);
        }
    }
}

} // verus!
