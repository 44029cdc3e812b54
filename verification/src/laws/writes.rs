//! What leads to a write of the port, in every course of events.

use vstd::prelude::*;

use crate::clock::{Instant, PUBLIC_REASSERT_DELAY_MS};
use crate::laws::trace::Occurrence;
use crate::monitor::{Event, MonitorView, Request, Stage};
use crate::phase::AutoPhase;
use crate::tracker::ChargingMode;

verus! {

impl MonitorView {
    /// Whether the automatic mode is neither in force nor about to be.
    pub open spec fn is_manual(self) -> bool {
        &&& !(self.tracker.mode is Automatic)
        &&& !(self.stage matches Stage::SwitchingUevents { mode, .. } && mode is Automatic)
    }
}

impl Event {
    /// Whether an event brings the automatic mode.
    pub open spec fn brings_automatic(self) -> bool {
        self matches Event::Mode(mode) && mode is Automatic
    }
}

proof fn lemma_reading_stays_manual(monitor: MonitorView, text: Seq<char>, now: Instant)
    requires
        monitor.is_manual(),
    ensures
        monitor.after_reading(text, now).is_manual(),
{
    reveal(MonitorView::after_reading);
}

proof fn lemma_done_stays_manual(monitor: MonitorView, now: Instant)
    requires
        monitor.is_manual(),
    ensures
        monitor.after_done(now).is_manual(),
{
}

/// Nothing but the mode itself brings the automatic mode into force.
pub proof fn only_the_mode_brings_the_automatic_mode(
    monitor: MonitorView,
    event: Event,
    now: Instant,
)
    requires
        monitor.is_manual(),
        !event.brings_automatic(),
    ensures
        monitor.next(event, now).is_manual(),
{
    match event {
        Event::Content(text) => {
            assert(monitor.next(event, now) == monitor.after_reading(text@, now));
            lemma_reading_stays_manual(monitor, text@, now);
        },
        Event::Failed => {
            if monitor.stage.fails() {
                assert(monitor.next(event, now) == monitor.at(Stage::Ended { failed: true }));
            } else {
                assert(monitor.next(event, now) == monitor.after_reading(Seq::empty(), now));
                lemma_reading_stays_manual(monitor, Seq::empty(), now);
            }
        },
        Event::Done => {
            assert(monitor.next(event, now) == monitor.after_done(now));
            lemma_done_stays_manual(monitor, now);
        },
        Event::Mode(mode) => {
            assert(monitor.next(event, now) == monitor.after_mode(mode));
        },
        Event::Woken { stop, config, uevent } => {
            assert(monitor.next(event, now) == monitor.after_woken(stop, config, uevent, now));
        },
        Event::Uevent(data) => {
            assert(monitor.next(event, now) == monitor.after_uevent(data@));
        },
        Event::Drained => {
            assert(monitor.next(event, now) == monitor.after_drained(now));
        },
        _ => {},
    }
}

/// While the automatic mode is not in force and no event brings it, the port is
/// never written, however events follow on one another.
pub proof fn port_is_left_alone_outside_the_automatic_mode(
    monitor: MonitorView,
    start: Instant,
    trace: Seq<Occurrence>,
    n: int,
    now: Instant,
)
    requires
        monitor.wf(start),
        crate::laws::trace::is_timeline(start, trace),
        monitor.is_manual(),
        0 <= n <= trace.len(),
        forall|i: int| 0 <= i < n ==> !(#[trigger] trace[i]).event.brings_automatic(),
    ensures
        monitor.after_first(trace, n).is_manual(),
        !(monitor.after_first(trace, n).request(now) is SetPdVerified),
    decreases n,
{
    crate::laws::trace::events_lead_from_state_to_state(monitor, start, trace, n);
    if n > 0 {
        port_is_left_alone_outside_the_automatic_mode(monitor, start, trace, n - 1, now);
        crate::laws::trace::events_lead_from_state_to_state(monitor, start, trace, n - 1);
        only_the_mode_brings_the_automatic_mode(
            monitor.after_first(trace, n - 1),
            trace[n - 1].event,
            trace[n - 1].now,
        );
    }
    if monitor.after_first(trace, n).request(now) is SetPdVerified {
        crate::laws::negotiation::only_the_automatic_mode_writes(
            monitor.after_first(trace, n),
            crate::laws::trace::time_after(start, trace.take(n)),
            now,
        );
    }
}

/// How one event changes the attempt that is under way: it begins when the write
/// that enables public PPS is done.
#[verifier::opaque]
pub open spec fn attempt_after(
    before: MonitorView,
    event: Event,
    after: MonitorView,
    now: Instant,
) -> bool {
    after.tracker.phase is EnablingPublic ==> {
        ||| after.tracker.phase == before.tracker.phase
        ||| {
            &&& before.stage is Enabling
            &&& event is Done
            &&& after.tracker.phase == AutoPhase::EnablingPublic(
                now.after(PUBLIC_REASSERT_DELAY_MS),
            )
        }
    }
}

proof fn lemma_reading_begins_no_attempt(
    monitor: MonitorView,
    event: Event,
    text: Seq<char>,
    now: Instant,
)
    ensures
        attempt_after(monitor, event, monitor.after_reading(text, now), now),
{
    reveal(MonitorView::after_reading);
    reveal(attempt_after);
}

proof fn lemma_done_begins_attempt(monitor: MonitorView, now: Instant)
    ensures
        attempt_after(monitor, Event::Done, monitor.after_done(now), now),
{
    reveal(attempt_after);
}

proof fn lemma_failure_begins_no_attempt(monitor: MonitorView, now: Instant)
    ensures
        attempt_after(monitor, Event::Failed, monitor.at(Stage::Ended { failed: true }), now),
{
    reveal(attempt_after);
}

proof fn lemma_wakeup_begins_no_attempt(monitor: MonitorView, event: Event, now: Instant)
    requires
        !(event is Content || event is Failed || event is Done),
    ensures
        attempt_after(monitor, event, monitor.next(event, now), now),
{
    crate::laws::order::wakeups_change_no_negotiation(monitor, event, now);
    reveal(attempt_after);
}

/// The time of an attempt is set when its write is done, and by nothing else.
pub proof fn attempt_begins_when_its_write_is_done(
    monitor: MonitorView,
    event: Event,
    now: Instant,
)
    ensures
        attempt_after(monitor, event, monitor.next(event, now), now),
{
    match event {
        Event::Content(text) => {
            assert(monitor.next(event, now) == monitor.after_reading(text@, now));
            lemma_reading_begins_no_attempt(monitor, event, text@, now);
        },
        Event::Failed => {
            if monitor.stage.fails() {
                assert(monitor.next(event, now) == monitor.at(Stage::Ended { failed: true }));
                lemma_failure_begins_no_attempt(monitor, now);
            } else {
                assert(monitor.next(event, now) == monitor.after_reading(Seq::empty(), now));
                lemma_reading_begins_no_attempt(monitor, event, Seq::empty(), now);
            }
        },
        Event::Done => {
            assert(monitor.next(event, now) == monitor.after_done(now));
            lemma_done_begins_attempt(monitor, now);
        },
        _ => {
            lemma_wakeup_begins_no_attempt(monitor, event, now);
        },
    }
}

impl MonitorView {
    /// Whether the write that the activation at `first` asks for is outstanding
    /// after `n` events.
    pub open spec fn enabling_since(self, trace: Seq<Occurrence>, n: int, first: int) -> bool {
        &&& 0 <= first < n
        &&& self.activates(trace, first)
        &&& forall|i: int|
            first < i <= n ==> (#[trigger] self.after_first(trace, i)).stage is Enabling
    }

    /// Whether the attempt that the activation at `first` began and whose write was
    /// done at `done` is under way after `n` events.
    pub open spec fn under_way(
        self,
        trace: Seq<Occurrence>,
        n: int,
        first: int,
        done: int,
    ) -> bool {
        &&& done < n
        &&& self.enabling_since(trace, done, first)
        &&& trace[done].event is Done
        &&& trace[done].now.can_schedule()
        &&& forall|i: int|
            done < i <= n ==> (#[trigger] self.after_first(trace, i)).tracker.phase
                == AutoPhase::EnablingPublic(trace[done].now.after(PUBLIC_REASSERT_DELAY_MS))
    }

    /// Whether one of some events, that at `n`, makes the monitor assert public PPS
    /// once more for an attempt that is under way, no earlier than its delay after
    /// the write that began it.
    #[verifier::opaque]
    pub open spec fn reasserts(self, trace: Seq<Occurrence>, n: int) -> bool {
        &&& 0 <= n < trace.len()
        &&& self.after_first(trace, n).reasserts_public(trace[n].event, trace[n].now)
        &&& exists|first: int, done: int| #[trigger]
            self.under_way(trace, n, first, done) && trace[n].now.nanos >= trace[done].now.nanos
                + PUBLIC_REASSERT_DELAY_MS * 1_000_000
    }

    /// Whether the monitor has asked for the port to be verified ever since one of
    /// the first `n` of some events, that at `asked`.
    pub open spec fn asks_since(self, trace: Seq<Occurrence>, n: int, asked: int) -> bool {
        &&& 0 <= asked < n
        &&& forall|i: int, now: Instant|
            asked < i <= n ==> (#[trigger] self.after_first(trace, i).request(now))
                == Request::SetPdVerified(true)
    }
}

proof fn lemma_life_begins(mode: ChargingMode, start: Instant, trace: Seq<Occurrence>)
    requires
        crate::laws::trace::is_timeline(start, trace),
    ensures
        MonitorView::initial(mode).after_first(trace, 0).stage is InitialAttachment,
        MonitorView::initial(mode).after_first(trace, 0).tracker.phase is Idle,
{
    crate::laws::order::initial_monitor_is_well_formed(mode, start);
    crate::laws::trace::events_lead_from_state_to_state(
        MonitorView::initial(mode),
        start,
        trace,
        0,
    );
}

proof fn lemma_writes_are_begun(
    mode: ChargingMode,
    start: Instant,
    trace: Seq<Occurrence>,
    n: int,
)
    requires
        crate::laws::trace::is_timeline(start, trace),
        0 <= n < trace.len(),
    ensures
        ({
            let monitor = MonitorView::initial(mode);
            let before = monitor.after_first(trace, n);
            let after = monitor.after_first(trace, n + 1);
            &&& attempt_after(before, trace[n].event, after, trace[n].now)
            &&& after.stage is Enabling && !(before.stage is Enabling) ==> monitor.activates(
                trace,
                n,
            )
        }),
{
    let monitor = MonitorView::initial(mode);
    let before = monitor.after_first(trace, n);
    crate::laws::order::initial_monitor_is_well_formed(mode, start);
    crate::laws::trace::events_lead_from_state_to_state(monitor, start, trace, n);
    attempt_begins_when_its_write_is_done(before, trace[n].event, trace[n].now);
    if before.attempts_public(trace[n].event, trace[n].now) {
        crate::laws::activation::attempts_rest_on_what_their_turn_read(mode, start, trace, n);
    }
}

proof fn lemma_write_was_asked_for(
    mode: ChargingMode,
    start: Instant,
    trace: Seq<Occurrence>,
    n: int,
)
    requires
        crate::laws::trace::is_timeline(start, trace),
        0 <= n <= trace.len(),
        MonitorView::initial(mode).after_first(trace, n).stage is Enabling,
    ensures
        exists|first: int| #[trigger]
            MonitorView::initial(mode).enabling_since(trace, n, first),
    decreases n,
{
    let monitor = MonitorView::initial(mode);
    lemma_life_begins(mode, start, trace);
    if n > 0 {
        lemma_writes_are_begun(mode, start, trace, n - 1);
        if monitor.after_first(trace, n - 1).stage is Enabling {
            lemma_write_was_asked_for(mode, start, trace, n - 1);
            let first = choose|first: int| #[trigger] monitor.enabling_since(trace, n - 1, first);
            assert(monitor.enabling_since(trace, n, first));
        } else {
            assert(monitor.enabling_since(trace, n, n - 1));
        }
    }
}

proof fn lemma_attempt_was_begun(
    mode: ChargingMode,
    start: Instant,
    trace: Seq<Occurrence>,
    n: int,
)
    requires
        crate::laws::trace::is_timeline(start, trace),
        0 <= n <= trace.len(),
        MonitorView::initial(mode).after_first(trace, n).tracker.phase is EnablingPublic,
    ensures
        exists|first: int, done: int| #[trigger]
            MonitorView::initial(mode).under_way(trace, n, first, done),
    decreases n,
{
    let monitor = MonitorView::initial(mode);
    lemma_life_begins(mode, start, trace);
    if n > 0 {
        let before = monitor.after_first(trace, n - 1);
        crate::laws::trace::timeline_begins_with_timelines(start, trace, n - 1);
        lemma_writes_are_begun(mode, start, trace, n - 1);
        reveal(attempt_after);
        if monitor.after_first(trace, n).tracker.phase == before.tracker.phase {
            lemma_attempt_was_begun(mode, start, trace, n - 1);
            let (first, done) = choose|first: int, done: int| #[trigger]
                monitor.under_way(trace, n - 1, first, done);
            assert(monitor.under_way(trace, n, first, done));
        } else {
            lemma_write_was_asked_for(mode, start, trace, n - 1);
            let first = choose|first: int| #[trigger] monitor.enabling_since(trace, n - 1, first);
            assert(monitor.under_way(trace, n, first, n - 1));
        }
    }
}

/// In the whole life of a monitor, public PPS is asserted once more only for an
/// attempt that began with an activation and is under way, and no earlier than the
/// delay after its write was done.
pub proof fn reassertions_follow_their_activation(
    mode: ChargingMode,
    start: Instant,
    trace: Seq<Occurrence>,
    n: int,
)
    requires
        crate::laws::trace::is_timeline(start, trace),
        0 <= n < trace.len(),
        MonitorView::initial(mode).after_first(trace, n).reasserts_public(
            trace[n].event,
            trace[n].now,
        ),
    ensures
        MonitorView::initial(mode).reasserts(trace, n),
{
    reveal(MonitorView::reasserts);
    reveal(crate::laws::negotiation::owed_after);
    let monitor = MonitorView::initial(mode);
    crate::laws::order::initial_monitor_is_well_formed(mode, start);
    crate::laws::trace::events_lead_from_state_to_state(monitor, start, trace, n);
    crate::laws::negotiation::attempt_is_reasserted_when_due(
        monitor.after_first(trace, n),
        crate::laws::trace::time_after(start, trace.take(n)),
        trace[n].event,
        trace[n].now,
    );
    lemma_attempt_was_begun(mode, start, trace, n);
    let (first, done) = choose|first: int, done: int| #[trigger]
        monitor.under_way(trace, n, first, done);
    assert(monitor.after_first(trace, n).tracker.phase == AutoPhase::EnablingPublic(
        trace[done].now.after(PUBLIC_REASSERT_DELAY_MS),
    ));
}

proof fn lemma_reassertion_is_begun(
    mode: ChargingMode,
    start: Instant,
    trace: Seq<Occurrence>,
    n: int,
)
    requires
        crate::laws::trace::is_timeline(start, trace),
        0 <= n < trace.len(),
        !(MonitorView::initial(mode).after_first(trace, n).stage is Reasserting),
        MonitorView::initial(mode).after_first(trace, n + 1).stage is Reasserting,
    ensures
        MonitorView::initial(mode).reasserts(trace, n),
{
    let monitor = MonitorView::initial(mode);
    crate::laws::order::initial_monitor_is_well_formed(mode, start);
    crate::laws::trace::events_lead_from_state_to_state(monitor, start, trace, n);
    reassertions_follow_their_activation(mode, start, trace, n);
}

proof fn lemma_reassertion_was_asked_for(
    mode: ChargingMode,
    start: Instant,
    trace: Seq<Occurrence>,
    n: int,
)
    requires
        crate::laws::trace::is_timeline(start, trace),
        0 <= n <= trace.len(),
        MonitorView::initial(mode).after_first(trace, n).stage is Reasserting,
    ensures
        exists|asked: int| #[trigger]
            MonitorView::initial(mode).asks_since(trace, n, asked) && MonitorView::initial(
                mode,
            ).reasserts(trace, asked),
    decreases n,
{
    let monitor = MonitorView::initial(mode);
    lemma_life_begins(mode, start, trace);
    if n > 0 {
        if monitor.after_first(trace, n - 1).stage is Reasserting {
            lemma_reassertion_was_asked_for(mode, start, trace, n - 1);
            let asked = choose|asked: int| #[trigger]
                monitor.asks_since(trace, n - 1, asked) && monitor.reasserts(trace, asked);
            assert(monitor.asks_since(trace, n, asked));
        } else {
            lemma_reassertion_is_begun(mode, start, trace, n - 1);
            assert(monitor.asks_since(trace, n, n - 1));
        }
    }
}

/// In the whole life of a monitor, wherever it asks for the port to be verified, it
/// has done so since an activation, which rests on what its turn read, or since the
/// assertion once more of an attempt that began with one, at least the delay after
/// that attempt's write.
pub proof fn every_write_is_an_activation_or_its_reassertion(
    mode: ChargingMode,
    start: Instant,
    trace: Seq<Occurrence>,
    n: int,
    now: Instant,
)
    requires
        crate::laws::trace::is_timeline(start, trace),
        0 <= n <= trace.len(),
        MonitorView::initial(mode).after_first(trace, n).request(now) == Request::SetPdVerified(
            true,
        ),
    ensures
        exists|asked: int| #[trigger]
            MonitorView::initial(mode).asks_since(trace, n, asked) && (MonitorView::initial(
                mode,
            ).activates(trace, asked) || MonitorView::initial(mode).reasserts(trace, asked)),
{
    let monitor = MonitorView::initial(mode);
    crate::laws::negotiation::port_is_written_only_for_public(monitor.after_first(trace, n), now);
    if monitor.after_first(trace, n).stage is Enabling {
        lemma_write_was_asked_for(mode, start, trace, n);
        let first = choose|first: int| #[trigger] monitor.enabling_since(trace, n, first);
        assert(monitor.asks_since(trace, n, first));
    } else {
        lemma_reassertion_was_asked_for(mode, start, trace, n);
    }
}

} // verus!
