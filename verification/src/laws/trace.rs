//! Sequences of events.

use vstd::prelude::*;

use crate::clock::Instant;
use crate::monitor::{Event, MonitorView};

verus! {

/// An event and the reading of the clock that came with it.
pub struct Occurrence {
    pub event: Event,
    pub now: Instant,
}

/// When the last of some occurrences came that began after `start`.
pub open spec fn time_after(start: Instant, trace: Seq<Occurrence>) -> Instant {
    if trace.len() == 0 {
        start
    } else {
        trace.last().now
    }
}

/// Whether the clock did not run back from `start` on, and never came near its
/// end.
pub open spec fn is_timeline(start: Instant, trace: Seq<Occurrence>) -> bool
    decreases trace.len(),
{
    trace.len() == 0 || {
        &&& is_timeline(start, trace.drop_last())
        &&& trace.last().now.reached(time_after(start, trace.drop_last()))
        &&& trace.last().now.can_schedule()
    }
}

impl MonitorView {
    /// The monitor after a sequence of events.
    #[verifier::opaque]
    pub open spec fn run(self, trace: Seq<Occurrence>) -> MonitorView
        decreases trace.len(),
    {
        if trace.len() == 0 {
            self
        } else {
            self.run(trace.drop_last()).next(trace.last().event, trace.last().now)
        }
    }

    /// The monitor after the first `n` of some events.
    pub open spec fn after_first(self, trace: Seq<Occurrence>, n: int) -> MonitorView {
        self.run(trace.take(n))
    }
}

/// A sequence of events leads where its last event leads from where those before
/// it lead.
pub proof fn last_event_comes_last(monitor: MonitorView, trace: Seq<Occurrence>)
    ensures
        trace.len() == 0 ==> monitor.run(trace) == monitor,
        trace.len() > 0 ==> monitor.run(trace) == monitor.run(trace.drop_last()).next(
            trace.last().event,
            trace.last().now,
        ),
{
    reveal(MonitorView::run);
}

/// A sequence of events leaves a monitor in order.
pub proof fn every_trace_keeps_the_monitor_well_formed(
    monitor: MonitorView,
    start: Instant,
    trace: Seq<Occurrence>,
)
    requires
        monitor.wf(start),
        is_timeline(start, trace),
    ensures
        monitor.run(trace).wf(time_after(start, trace)),
    decreases trace.len(),
{
    last_event_comes_last(monitor, trace);
    if trace.len() > 0 {
        every_trace_keeps_the_monitor_well_formed(monitor, start, trace.drop_last());
        crate::laws::order::every_event_keeps_the_monitor_well_formed(
            monitor.run(trace.drop_last()),
            time_after(start, trace.drop_last()),
            trace.last().event,
            trace.last().now,
        );
    }
}

/// Each of some events leads from the state that those before it lead to.
pub proof fn state_follows_on_state(monitor: MonitorView, trace: Seq<Occurrence>, n: int)
    requires
        0 <= n < trace.len(),
    ensures
        monitor.after_first(trace, 0) == monitor,
        monitor.after_first(trace, n + 1) == monitor.after_first(trace, n).next(
            trace[n].event,
            trace[n].now,
        ),
{
    last_event_comes_last(monitor, trace.take(0));
    last_event_comes_last(monitor, trace.take(n + 1));
    assert(trace.take(n + 1).drop_last() =~= trace.take(n));
}

/// On its way the clock does not run back either.
pub proof fn timeline_begins_with_timelines(start: Instant, trace: Seq<Occurrence>, n: int)
    requires
        is_timeline(start, trace),
        0 <= n <= trace.len(),
    ensures
        is_timeline(start, trace.take(n)),
        n < trace.len() ==> trace[n].now.can_schedule() && trace[n].now.reached(
            time_after(start, trace.take(n)),
        ),
    decreases trace.len(),
{
    if n == trace.len() {
        assert(trace.take(n) =~= trace);
    } else if n == trace.len() - 1 {
        assert(trace.take(n) =~= trace.drop_last());
    } else {
        timeline_begins_with_timelines(start, trace.drop_last(), n);
        assert(trace.drop_last().take(n) =~= trace.take(n));
    }
}

/// On its way through some events a monitor is in order, and every event leads from
/// one state to the next.
pub proof fn events_lead_from_state_to_state(
    monitor: MonitorView,
    start: Instant,
    trace: Seq<Occurrence>,
    n: int,
)
    requires
        monitor.wf(start),
        is_timeline(start, trace),
        0 <= n <= trace.len(),
    ensures
        monitor.after_first(trace, 0) == monitor,
        monitor.after_first(trace, n).wf(time_after(start, trace.take(n))),
        n < trace.len() ==> monitor.after_first(trace, n + 1) == monitor.after_first(
            trace,
            n,
        ).next(trace[n].event, trace[n].now),
{
    timeline_begins_with_timelines(start, trace, n);
    every_trace_keeps_the_monitor_well_formed(monitor, start, trace.take(n));
    last_event_comes_last(monitor, trace.take(0));
    if n < trace.len() {
        last_event_comes_last(monitor, trace.take(n + 1));
        assert(trace.take(n + 1).drop_last() =~= trace.take(n));
    }
}

/// What is left of a timeline after its first occurrence is a timeline from there on.
pub proof fn timeline_goes_on(start: Instant, trace: Seq<Occurrence>)
    requires
        is_timeline(start, trace),
        trace.len() > 0,
    ensures
        is_timeline(trace[0].now, trace.skip(1)),
    decreases trace.len(),
{
    let rest = trace.skip(1);
    if rest.len() > 0 {
        timeline_goes_on(start, trace.drop_last());
        assert(rest.drop_last() =~= trace.drop_last().skip(1));
    }
}

/// The first `n` of some events lead where the first leads, and from there on the others
/// of them.
pub proof fn first_event_comes_first(monitor: MonitorView, trace: Seq<Occurrence>, n: int)
    requires
        1 <= n <= trace.len(),
    ensures
        monitor.after_first(trace, n) == monitor.next(trace[0].event, trace[0].now).after_first(
            trace.skip(1),
            n - 1,
        ),
    decreases n,
{
    let second = monitor.next(trace[0].event, trace[0].now);
    last_event_comes_last(monitor, trace.take(n));
    last_event_comes_last(second, trace.skip(1).take(n - 1));
    assert(trace.take(n).drop_last() =~= trace.take(n - 1));
    if n == 1 {
        last_event_comes_last(monitor, trace.take(0));
    } else {
        first_event_comes_first(monitor, trace, n - 1);
        assert(trace.skip(1).take(n - 1).drop_last() =~= trace.skip(1).take(n - 2));
    }
}

} // verus!
