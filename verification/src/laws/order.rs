//! A monitor stays in order, whatever happens to it.

use vstd::prelude::*;

use crate::clock::Instant;
use crate::monitor::{Event, MonitorView, Request, Stage};
use crate::report::Outcome;
use crate::tracker::{ChargingMode, Tracker};

verus! {

/// A monitor that has seen nothing is in order.
pub proof fn initial_monitor_is_well_formed(mode: ChargingMode, time: Instant)
    ensures
        MonitorView::initial(mode).wf(time),
{
}

proof fn lemma_port_reading_keeps(
    monitor: MonitorView,
    time: Instant,
    text: Seq<char>,
    now: Instant,
)
    requires
        monitor.wf(time),
        now.can_schedule(),
        now.reached(time),
    ensures
        monitor.after_port(text, now).wf(now),
{
}

proof fn lemma_settled_reading_keeps(
    monitor: MonitorView,
    time: Instant,
    text: Seq<char>,
    now: Instant,
)
    requires
        monitor.wf(time),
        now.can_schedule(),
        now.reached(time),
    ensures
        monitor.after_settled(text, now).wf(now),
{
}

proof fn lemma_identification_reading_keeps(
    monitor: MonitorView,
    time: Instant,
    text: Seq<char>,
    now: Instant,
)
    requires
        monitor.wf(time),
        now.can_schedule(),
        now.reached(time),
    ensures
        monitor.after_identification(text, now).wf(now),
{
}

proof fn lemma_native_reading_keeps(
    monitor: MonitorView,
    time: Instant,
    text: Seq<char>,
    now: Instant,
)
    requires
        monitor.wf(time),
        now.can_schedule(),
        now.reached(time),
    ensures
        monitor.after_native(text, now).wf(now),
{
}

proof fn lemma_public_reading_keeps(
    monitor: MonitorView,
    time: Instant,
    text: Seq<char>,
    now: Instant,
)
    requires
        monitor.wf(time),
        now.can_schedule(),
        now.reached(time),
    ensures
        monitor.after_public(text).wf(now),
{
}

proof fn lemma_reading_keeps(monitor: MonitorView, time: Instant, text: Seq<char>, now: Instant)
    requires
        monitor.wf(time),
        now.can_schedule(),
        now.reached(time),
    ensures
        monitor.after_reading(text, now).wf(now),
{
    reveal(MonitorView::after_reading);
    lemma_port_reading_keeps(monitor, time, text, now);
    lemma_settled_reading_keeps(monitor, time, text, now);
    lemma_identification_reading_keeps(monitor, time, text, now);
    lemma_native_reading_keeps(monitor, time, text, now);
    lemma_public_reading_keeps(monitor, time, text, now);
}

proof fn lemma_done_keeps(monitor: MonitorView, time: Instant, now: Instant)
    requires
        monitor.wf(time),
        now.can_schedule(),
        now.reached(time),
    ensures
        monitor.after_done(now).wf(now),
{
}

proof fn lemma_failure_keeps(monitor: MonitorView, time: Instant, now: Instant)
    requires
        monitor.wf(time),
    ensures
        monitor.at(Stage::Ended { failed: true }).wf(now),
{
}

proof fn lemma_waking_keeps(
    monitor: MonitorView,
    time: Instant,
    stop: bool,
    config: bool,
    uevent: bool,
    now: Instant,
)
    requires
        monitor.wf(time),
        now.can_schedule(),
        now.reached(time),
    ensures
        monitor.after_woken(stop, config, uevent, now).wf(now),
{
}

proof fn lemma_time_keeps(monitor: MonitorView, time: Instant, now: Instant)
    requires
        monitor.wf(time),
        now.reached(time),
    ensures
        monitor.wf(now),
{
}

/// Every event leaves a monitor in order, as long as the clock does not run back.
pub proof fn every_event_keeps_the_monitor_well_formed(
    monitor: MonitorView,
    time: Instant,
    event: Event,
    now: Instant,
)
    requires
        monitor.wf(time),
        now.can_schedule(),
        now.reached(time),
    ensures
        monitor.next(event, now).wf(now),
{
    lemma_time_keeps(monitor, time, now);
    match event {
        Event::Content(text) => {
            lemma_reading_keeps(monitor, time, text@, now);
        },
        Event::Failed => {
            lemma_reading_keeps(monitor, time, Seq::empty(), now);
            lemma_failure_keeps(monitor, time, now);
        },
        Event::Done => {
            lemma_done_keeps(monitor, time, now);
        },
        Event::Woken { stop, config, uevent } => {
            lemma_waking_keeps(monitor, time, stop, config, uevent, now);
        },
        Event::NotRunning => {},
        Event::WaitFailed { .. } => {},
        Event::Mode(_) => {},
        Event::Uevent(_) => {},
        Event::Drained => {},
    }
}

/// Being woken, failing to wait, learning the mode and taking uevents leave the
/// negotiation, the budget and the charging session as they are, and lead to no
/// write of the port.
pub proof fn wakeups_change_no_negotiation(monitor: MonitorView, event: Event, now: Instant)
    requires
        !(event is Content || event is Failed || event is Done),
    ensures
        ({
            let after = monitor.next(event, now);
            &&& after.readings == monitor.readings
            &&& after.tracker == Tracker {
                mode: after.tracker.mode,
                usb_detach_uevent_seen: after.tracker.usb_detach_uevent_seen,
                uevent_recheck_deadline: after.tracker.uevent_recheck_deadline,
                ..monitor.tracker
            }
            &&& after.stage == monitor.stage || after.stage is Stopping || after.stage is Pausing
                || after.stage is TakingMode || after.stage is SwitchingUevents || after.stage
                is ConfiguredAttachment || after.stage is Draining || after.stage is Attachment
                || after.stage is Ended
        }),
{
    match event {
        Event::Woken { stop, config, uevent } => {
            assert(monitor.next(event, now) == monitor.after_woken(stop, config, uevent, now));
        },
        Event::Mode(mode) => {
            assert(monitor.next(event, now) == monitor.after_mode(mode));
        },
        Event::Uevent(data) => {
            assert(monitor.next(event, now) == monitor.after_uevent(data@));
        },
        Event::Drained => {
            assert(monitor.next(event, now) == monitor.after_drained(now));
        },
        _ => {},
    }
}

impl Stage {
    /// Whether an event answers what the stage waits for.
    pub open spec fn expects(self, event: Event) -> bool {
        match self {
            Stage::Waiting => event is NotRunning || event is Woken || event is WaitFailed,
            Stage::Pausing => event is Done,
            Stage::Stopping => event is Done || event is Failed,
            Stage::SwitchingUevents { .. } => event is Done || event is Failed,
            Stage::ResettingVerified => event is Done || event is Failed,
            Stage::Enabling => event is Done || event is Failed,
            Stage::Reasserting => event is Done || event is Failed,
            Stage::TakingMode { .. } => event is Mode || event is Failed,
            Stage::Draining => event is Uevent || event is Drained,
            Stage::Ended { .. } => false,
            _ => event is Content || event is Failed,
        }
    }

    /// How far a stage is from waiting, at most.
    pub open spec fn distance(self) -> nat {
        match self {
            Stage::Ended { .. } => 0,
            Stage::Waiting => 1,
            Stage::Pausing => 2,
            Stage::Stopping => 2,
            Stage::ResettingVerified => 2,
            Stage::Enabling => 2,
            Stage::Reasserting => 2,
            Stage::InitialBattery => 2,
            Stage::VerifyUsbType => 2,
            Stage::InitialAttachment => 3,
            Stage::RetryUsbType => 3,
            Stage::NativeUsbType => 3,
            Stage::IdentifySvid => 3,
            Stage::VerifyVerified => 3,
            Stage::RetryVerified => 4,
            Stage::NativeVerified => 4,
            Stage::IdentifyUsbType => 4,
            Stage::IdentifyVerified => 5,
            Stage::SettledOnline => 6,
            Stage::SettledBattery => 7,
            Stage::SettledUsbType => 8,
            Stage::SettledVerified => 9,
            Stage::Attachment => 10,
            Stage::Draining => 11,
            Stage::ConfiguredAttachment { .. } => 12,
            Stage::SwitchingUevents { .. } => 13,
            Stage::TakingMode { .. } => 14,
        }
    }
}

/// An event that does not answer what the monitor waits for changes nothing and
/// tells nothing.
pub proof fn stray_events_change_nothing(monitor: MonitorView, event: Event, now: Instant)
    requires
        !monitor.stage.expects(event),
    ensures
        monitor.next(event, now) == monitor,
        monitor.outcome(event, now) == Outcome::quiet(),
{
    reveal(MonitorView::after_reading);
    match event {
        Event::Content(text) => {
            assert(monitor.next(event, now) == monitor.after_reading(text@, now));
        },
        Event::Failed => {
            assert(monitor.next(event, now) == monitor.after_reading(Seq::empty(), now));
        },
        Event::Done => {
            assert(monitor.next(event, now) == monitor.after_done(now));
        },
        _ => {},
    }
}

/// A failure of what the monitor cannot do without ends it with that failure; a
/// node that it can do without counts as empty where it cannot be read.
pub proof fn failures_end_or_count_as_empty(
    monitor: MonitorView,
    event: Event,
    now: Instant,
    later: Instant,
)
    requires
        event is Failed,
        monitor.stage.expects(event),
    ensures
        monitor.stage.node() matches Some(node) && !node.required() ==> monitor.next(event, now)
            == monitor.after_reading(Seq::empty(), now),
        !(monitor.stage.node() matches Some(node) && !node.required()) ==> {
            &&& monitor.next(event, now).tracker == monitor.tracker
            &&& monitor.next(event, now).request(later) == (Request::Exit { failed: true })
        },
{
}

/// A stop ends the monitor before anything else is done, and so does the end of
/// the daemon.
pub proof fn stop_comes_first(
    monitor: MonitorView,
    config: bool,
    uevent: bool,
    now: Instant,
    done: Instant,
    later: Instant,
)
    requires
        monitor.stage is Waiting,
    ensures
        monitor.next(Event::Woken { stop: true, config, uevent }, now).request(now)
            == Request::ClearStop,
        monitor.next(Event::Woken { stop: true, config, uevent }, now).next(
            Event::Done,
            done,
        ).request(later) == (Request::Exit { failed: false }),
        monitor.next(Event::NotRunning, now).request(later) == (Request::Exit { failed: false }),
{
    let stopping = monitor.next(Event::Woken { stop: true, config, uevent }, now);
    assert(stopping == monitor.at(Stage::Stopping));
    assert(stopping.next(Event::Done, done) == stopping.after_done(done));
}

proof fn lemma_reading_approaches(
    monitor: MonitorView,
    time: Instant,
    text: Seq<char>,
    now: Instant,
)
    requires
        monitor.wf(time),
        monitor.stage.node() is Some,
    ensures
        monitor.after_reading(text, now).stage.distance() < monitor.stage.distance(),
{
    reveal(MonitorView::after_reading);
}

proof fn lemma_done_approaches(monitor: MonitorView, time: Instant, now: Instant)
    requires
        monitor.wf(time),
        monitor.stage.expects(Event::Done),
    ensures
        monitor.after_done(now).stage.distance() < monitor.stage.distance(),
{
}

/// Every turn ends: each answer, but for a queued uevent, brings the monitor
/// nearer to its next wait or its end.
pub proof fn answers_lead_back_to_waiting(
    monitor: MonitorView,
    time: Instant,
    event: Event,
    now: Instant,
)
    requires
        monitor.wf(time),
        monitor.stage.expects(event),
        !(monitor.stage is Waiting),
        !(event is Uevent),
    ensures
        monitor.next(event, now).stage.distance() < monitor.stage.distance(),
{
    match event {
        Event::Content(text) => {
            assert(monitor.next(event, now) == monitor.after_reading(text@, now));
            lemma_reading_approaches(monitor, time, text@, now);
        },
        Event::Failed => {
            if monitor.stage.fails() {
                assert(monitor.next(event, now) == monitor.at(Stage::Ended { failed: true }));
            } else {
                assert(monitor.next(event, now) == monitor.after_reading(Seq::empty(), now));
                lemma_reading_approaches(monitor, time, Seq::empty(), now);
            }
        },
        Event::Done => {
            assert(monitor.next(event, now) == monitor.after_done(now));
            lemma_done_approaches(monitor, time, now);
        },
        _ => {},
    }
}

} // verus!
