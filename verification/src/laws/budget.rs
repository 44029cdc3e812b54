//! Public PPS is enabled a bounded number of times.

use vstd::prelude::*;

use crate::clock::Instant;
use crate::laws::trace::Occurrence;
use crate::monitor::{Event, MonitorView, Stage};
use crate::readings::ReadingsView;
use crate::rules::MAX_PUBLIC_RETRIES_PER_UPSTREAM_SESSION;

verus! {

impl MonitorView {
    /// Whether an event makes the monitor enable public PPS.
    pub open spec fn attempts_public(self, event: Event, now: Instant) -> bool {
        !(self.stage is Enabling) && self.next(event, now).stage is Enabling
    }

    /// Whether a reading begins a new charger session: the port's state at the
    /// start or under a new mode, an attachment, a detachment, or the end of an
    /// upstream charger's stay.
    pub open spec fn reading_begins_session(self, text: Seq<char>, now: Instant) -> bool {
        let t = self.tracker;
        let attached = text != "Nothing attached"@;
        match self.stage {
            Stage::InitialAttachment => true,
            Stage::ConfiguredAttachment { .. } => true,
            Stage::Attachment => {
                let change = t.attachment_change(attached, now);
                change is Attached || (change is Detached && !(t.mode is Automatic))
            },
            Stage::SettledOnline => t.upstream_gone(
                ReadingsView { usb_online: text, ..self.readings },
                now,
            ),
            _ => false,
        }
    }

    /// Whether an event begins a new charger session.
    pub open spec fn begins_session(self, event: Event, now: Instant) -> bool {
        match event {
            Event::Content(text) => self.reading_begins_session(text@, now),
            Event::Done => self.stage is ResettingVerified,
            _ => false,
        }
    }
}

/// What becomes of the number of attempts.
pub open spec fn budget_after(before: u8, renewed: bool, attempted: bool) -> int {
    if renewed {
        0
    } else if attempted {
        before + 1
    } else {
        before as int
    }
}

proof fn lemma_reading_budget(monitor: MonitorView, time: Instant, text: Seq<char>, now: Instant)
    requires
        monitor.wf(time),
    ensures
        ({
            let renewed = monitor.reading_begins_session(text, now);
            let attempted = !(monitor.stage is Enabling) && monitor.after_reading(
                text,
                now,
            ).stage is Enabling;
            &&& !(renewed && attempted)
            &&& attempted ==> monitor.tracker.has_budget()
            &&& monitor.after_reading(text, now).tracker.public_retry_count == budget_after(
                monitor.tracker.public_retry_count,
                renewed,
                attempted,
            )
        }),
{
    reveal(MonitorView::after_reading);
    if monitor.stage is SettledOnline {
        ReadingsView { usb_online: text, ..monitor.readings }.charging_is_not_offline();
    }
}

pub(crate) proof fn lemma_failure_begins_no_session(monitor: MonitorView, now: Instant)
    requires
        !monitor.stage.fails(),
    ensures
        !monitor.reading_begins_session(Seq::empty(), now),
{
    reveal_strlit("0");
    assert("0"@.len() == 1);
}

proof fn lemma_done_budget(monitor: MonitorView, now: Instant)
    ensures
        monitor.after_done(now).tracker.public_retry_count == budget_after(
            monitor.tracker.public_retry_count,
            monitor.stage is ResettingVerified,
            false,
        ),
        !(monitor.stage is Enabling) ==> !(monitor.after_done(now).stage is Enabling),
{
}

/// An event renews the budget where it begins a new charger session, takes one
/// attempt from it where it makes the monitor enable public PPS, which no event
/// does without budget, and else leaves it alone.
pub proof fn events_keep_the_budget(
    monitor: MonitorView,
    time: Instant,
    event: Event,
    now: Instant,
)
    requires
        monitor.wf(time),
    ensures
        !(monitor.begins_session(event, now) && monitor.attempts_public(event, now)),
        monitor.attempts_public(event, now) ==> monitor.tracker.has_budget(),
        monitor.next(event, now).tracker.public_retry_count == budget_after(
            monitor.tracker.public_retry_count,
            monitor.begins_session(event, now),
            monitor.attempts_public(event, now),
        ),
{
    match event {
        Event::Content(text) => {
            assert(monitor.next(event, now) == monitor.after_reading(text@, now));
            lemma_reading_budget(monitor, time, text@, now);
        },
        Event::Failed => {
            if monitor.stage.fails() {
                assert(monitor.next(event, now) == monitor.at(Stage::Ended { failed: true }));
            } else {
                assert(monitor.next(event, now) == monitor.after_reading(Seq::empty(), now));
                lemma_failure_begins_no_session(monitor, now);
                lemma_reading_budget(monitor, time, Seq::empty(), now);
            }
        },
        Event::Done => {
            assert(monitor.next(event, now) == monitor.after_done(now));
            lemma_done_budget(monitor, now);
        },
        _ => {
            crate::laws::order::wakeups_change_no_negotiation(monitor, event, now);
        },
    }
}

impl MonitorView {
    /// How often a sequence of events makes the monitor enable public PPS.
    pub open spec fn attempts(self, trace: Seq<Occurrence>) -> nat
        decreases trace.len(),
    {
        if trace.len() == 0 {
            0
        } else {
            let before = trace.drop_last();
            let last = trace.last();
            self.attempts(before) + if self.run(before).attempts_public(last.event, last.now) {
                1nat
            } else {
                0nat
            }
        }
    }

    /// How many new charger sessions a sequence of events begins.
    pub open spec fn sessions_begun(self, trace: Seq<Occurrence>) -> nat
        decreases trace.len(),
    {
        if trace.len() == 0 {
            0
        } else {
            let before = trace.drop_last();
            let last = trace.last();
            self.sessions_begun(before) + if self.run(before).begins_session(last.event, last.now) {
                1nat
            } else {
                0nat
            }
        }
    }
}

/// However events follow on one another, public PPS is enabled at most as often
/// as what is left of the budget, and the whole budget for every new charger
/// session that begins, allow.
pub proof fn attempts_are_bounded(monitor: MonitorView, start: Instant, trace: Seq<Occurrence>)
    requires
        monitor.wf(start),
        crate::laws::trace::is_timeline(start, trace),
    ensures
        monitor.attempts(trace) <= MAX_PUBLIC_RETRIES_PER_UPSTREAM_SESSION * (
        monitor.sessions_begun(trace) + 1) - monitor.tracker.public_retry_count,
{
    lemma_attempts_are_paid_for(monitor, start, trace);
    crate::laws::trace::every_trace_keeps_the_monitor_well_formed(monitor, start, trace);
}

proof fn lemma_attempts_are_paid_for(monitor: MonitorView, start: Instant, trace: Seq<Occurrence>)
    requires
        monitor.wf(start),
        crate::laws::trace::is_timeline(start, trace),
    ensures
        monitor.attempts(trace) <= MAX_PUBLIC_RETRIES_PER_UPSTREAM_SESSION
            * monitor.sessions_begun(trace) + monitor.run(trace).tracker.public_retry_count
            - monitor.tracker.public_retry_count,
    decreases trace.len(),
{
    crate::laws::trace::last_event_comes_last(monitor, trace);
    if trace.len() > 0 {
        let before = trace.drop_last();
        lemma_attempts_are_paid_for(monitor, start, before);
        crate::laws::trace::every_trace_keeps_the_monitor_well_formed(monitor, start, before);
        events_keep_the_budget(
            monitor.run(before),
            crate::laws::trace::time_after(start, before),
            trace.last().event,
            trace.last().now,
        );
    }
}

} // verus!
