//! What the broadcast worker sees of the charging session.

use vstd::prelude::*;

use crate::clock::Instant;
use crate::monitor::{Event, MonitorView, Stage};
use crate::report::Outcome;
use crate::session::SessionUpdate;

verus! {

/// What is shared with the broadcast worker.
pub struct SharedSession {
    pub active: bool,
    pub generation: u32,
}

impl SharedSession {
    /// What is shared after an update, if there is one, was published.
    pub open spec fn updated(self, update: Option<SessionUpdate>) -> SharedSession {
        match update {
            Some(update) => SharedSession {
                active: update.active,
                generation: ((self.generation + update.generation_advance) % (u32::MAX + 1)) as u32,
            },
            None => self,
        }
    }
}

/// Whether an outcome tells the worker how the monitor's own session changed:
/// nothing, that it began, or that there is none.
pub open spec fn tells_truly(before: bool, after: bool, outcome: Outcome) -> bool {
    match outcome.session {
        None => after == before,
        Some(update) => if after {
            !before && update == SessionUpdate::started()
        } else {
            update == SessionUpdate::stopped()
        },
    }
}

proof fn lemma_reading_tells(monitor: MonitorView, time: Instant, text: Seq<char>, now: Instant)
    requires
        monitor.wf(time),
    ensures
        tells_truly(
            monitor.tracker.charging_session_active,
            monitor.after_reading(text, now).tracker.charging_session_active,
            monitor.reading_outcome(text, now),
        ),
{
    reveal(MonitorView::after_reading);
}

proof fn lemma_done_tells(monitor: MonitorView, now: Instant)
    ensures
        tells_truly(
            monitor.tracker.charging_session_active,
            monitor.after_done(now).tracker.charging_session_active,
            monitor.done_outcome(),
        ),
{
}

/// Every outcome tells the worker how the monitor's own session changed.
pub proof fn outcomes_tell_truly(
    monitor: MonitorView,
    time: Instant,
    event: Event,
    now: Instant,
)
    requires
        monitor.wf(time),
    ensures
        tells_truly(
            monitor.tracker.charging_session_active,
            monitor.next(event, now).tracker.charging_session_active,
            monitor.outcome(event, now),
        ),
{
    match event {
        Event::Content(text) => {
            assert(monitor.next(event, now) == monitor.after_reading(text@, now));
            assert(monitor.outcome(event, now) == monitor.reading_outcome(text@, now));
            lemma_reading_tells(monitor, time, text@, now);
        },
        Event::Failed => {
            if monitor.stage.fails() {
                assert(monitor.next(event, now) == monitor.at(Stage::Ended { failed: true }));
            } else {
                assert(monitor.next(event, now) == monitor.after_reading(Seq::empty(), now));
                assert(monitor.outcome(event, now) == monitor.reading_outcome(Seq::empty(), now));
                lemma_reading_tells(monitor, time, Seq::empty(), now);
            }
        },
        Event::Done => {
            assert(monitor.next(event, now) == monitor.after_done(now));
            assert(monitor.outcome(event, now) == monitor.done_outcome());
            lemma_done_tells(monitor, now);
        },
        _ => {
            crate::laws::order::wakeups_change_no_negotiation(monitor, event, now);
        },
    }
}

/// Where every update is published, the shared flag is the monitor's own, and the
/// generation grows by one exactly when a session begins.
pub proof fn shared_session_is_the_monitors_own(
    shared: SharedSession,
    monitor: MonitorView,
    time: Instant,
    event: Event,
    now: Instant,
)
    requires
        monitor.wf(time),
        shared.active == monitor.tracker.charging_session_active,
    ensures
        ({
            let published = shared.updated(monitor.outcome(event, now).session);
            let active = monitor.next(event, now).tracker.charging_session_active;
            &&& published.active == active
            &&& published.generation == if active && !shared.active {
                if shared.generation == u32::MAX {
                    0
                } else {
                    shared.generation + 1
                }
            } else {
                shared.generation as int
            }
        }),
{
    outcomes_tell_truly(monitor, time, event, now);
}

/// While the monitor waits, a charging session is active only where something is
/// attached in a mode that is monitored.
pub proof fn sessions_need_an_attachment(monitor: MonitorView, time: Instant)
    requires
        monitor.wf(time),
        monitor.stage is Waiting,
        monitor.tracker.charging_session_active,
    ensures
        monitor.tracker.attached,
        monitor.tracker.mode.monitors_uevents(),
{
}

} // verus!
