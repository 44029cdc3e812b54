//! What a look at the port leads to.

use vstd::prelude::*;

use crate::clock::Instant;
use crate::laws::plain::{begins_at, has_time, is_later, knows_no_charger, starts_at};
use crate::monitor::{Event, MonitorView, Request, Stage};
use crate::phase::AutoPhase;
use crate::readings::Node;
use crate::report::{Notice, Outcome};
use crate::session::SessionUpdate;
use crate::tracker::{ChargingMode, Tracker};

verus! {

/// The first look at the port starts the monitor with what is attached. The battery is
/// read next where something is attached in another mode than the native one; else the
/// monitor waits. Nothing is told.
pub proof fn first_look_starts_the_monitor(monitor: MonitorView, text: String, now: Instant)
    requires
        monitor.stage is InitialAttachment,
        has_time(now),
    ensures
        ({
            let attached = text@ != "Nothing attached"@;
            let mode = monitor.tracker.mode;
            let after = monitor.next(Event::Content(text), now);
            &&& starts_at(after.tracker, mode, attached, now)
            &&& !after.tracker.charging_session_active
            &&& if attached && mode != ChargingMode::Native {
                after.request(now) == Request::Read(Node::BatteryStatus) && after.stage
                    is InitialBattery
            } else {
                after.request(now) is Wait
            }
            &&& monitor.outcome(Event::Content(text), now) == Outcome {
                session: None,
                notice: None,
            }
        }),
{
    reveal(MonitorView::after_reading);
    let event = Event::Content(text);
    assert(monitor.next(event, now) == monitor.after_port(text@, now));
    assert(monitor.outcome(event, now) == monitor.port_outcome(text@, now));
}

/// The charging session of a start is active exactly where the battery charges, and is
/// published then; nothing else changes, and the monitor waits.
pub proof fn charging_battery_starts_a_session(monitor: MonitorView, text: String, now: Instant)
    requires
        monitor.stage is InitialBattery,
        !monitor.tracker.charging_session_active,
    ensures
        ({
            let charging = text@ == "Charging"@;
            let after = monitor.next(Event::Content(text), now);
            &&& after.tracker == Tracker { charging_session_active: charging, ..monitor.tracker }
            &&& after.request(now) is Wait
            &&& monitor.outcome(Event::Content(text), now) == Outcome {
                session: if charging {
                    Some(SessionUpdate { active: true, generation_advance: 1 })
                } else {
                    None
                },
                notice: None,
            }
        }),
{
    reveal(MonitorView::after_reading);
    let event = Event::Content(text);
    assert(monitor.next(event, now) == monitor.after_port(text@, now));
    assert(monitor.outcome(event, now) == monitor.port_outcome(text@, now));
}

/// Whether a stage is where a pass through a watched negotiation goes on: an
/// identification, a native negotiation and a settled session have their nodes read,
/// an attempt is asserted once more or verified when that is due, and else the monitor
/// waits.
pub open spec fn goes_on(phase: AutoPhase, now: Instant, stage: Stage) -> bool {
    match phase {
        AutoPhase::IdentifyingPublic { .. } => stage is IdentifyVerified,
        AutoPhase::WaitingNative(_) => stage is NativeVerified,
        AutoPhase::EnablingPublic(due) => if now.nanos >= due.nanos {
            stage is Reasserting
        } else {
            stage is Waiting
        },
        AutoPhase::VerifyingPublic(due) => if now.nanos >= due.nanos {
            stage is VerifyVerified
        } else {
            stage is Waiting
        },
        AutoPhase::Settled => stage is SettledVerified,
        AutoPhase::Idle => stage is Waiting,
    }
}

/// A look that finds something attached where something was attached ends a detachment
/// that was being observed. It changes nothing else in the automatic mode, where the
/// pass goes on as the phase calls for; in any other mode nothing stays known of an
/// upstream charger, and the monitor waits.
pub proof fn attached_port_stays_attached(monitor: MonitorView, text: String, now: Instant)
    requires
        monitor.stage is Attachment,
        monitor.tracker.attached,
        text@ != "Nothing attached"@,
    ensures
        ({
            let t = monitor.tracker;
            let after = monitor.next(Event::Content(text), now);
            &&& t.mode == ChargingMode::Automatic ==> after.tracker == Tracker {
                detach_deadline: None,
                ..t
            } && goes_on(t.phase, now, after.stage)
            &&& t.mode != ChargingMode::Automatic ==> after.tracker == Tracker {
                detach_deadline: None,
                upstream_native_pending: false,
                uevent_recheck_deadline: None,
                charger_detach_armed: false,
                usb_detach_uevent_seen: false,
                charger_detach_deadline: None,
                ..t
            } && after.stage is Waiting
            &&& monitor.outcome(Event::Content(text), now) == Outcome {
                session: None,
                notice: None,
            }
        }),
{
    reveal(MonitorView::after_reading);
    let event = Event::Content(text);
    assert(monitor.next(event, now) == monitor.after_port(text@, now));
    assert(monitor.outcome(event, now) == monitor.port_outcome(text@, now));
}

/// A look that finds something attached where nothing was is a fresh attachment: no
/// charger is known, and in the automatic mode a negotiation begins, with its first
/// look in the same pass. A charging session is active afterwards in every mode but the
/// native one, and is published where it begins.
pub proof fn fresh_attachment_begins_a_negotiation(
    monitor: MonitorView,
    text: String,
    now: Instant,
)
    requires
        monitor.stage is Attachment,
        !monitor.tracker.attached,
        text@ != "Nothing attached"@,
        has_time(now),
    ensures
        ({
            let t = monitor.tracker;
            let after = monitor.next(Event::Content(text), now);
            let automatic = t.mode == ChargingMode::Automatic;
            &&& after.tracker.attached
            &&& after.tracker.mode == t.mode
            &&& after.tracker.uevent_registered == t.uevent_registered
            &&& after.tracker.detach_deadline is None
            &&& knows_no_charger(after.tracker)
            &&& if automatic {
                begins_at(after.tracker.phase, now) && after.stage is IdentifyVerified
            } else {
                after.tracker.phase == t.phase && after.stage is Waiting
            }
            &&& after.tracker.charging_session_active == (t.charging_session_active || t.mode
                != ChargingMode::Native)
            &&& monitor.outcome(Event::Content(text), now) == Outcome {
                session: if t.mode != ChargingMode::Native && !t.charging_session_active {
                    Some(SessionUpdate { active: true, generation_advance: 1 })
                } else {
                    None
                },
                notice: if automatic {
                    Some(Notice::Attached)
                } else {
                    None
                },
            }
        }),
{
    reveal(MonitorView::after_reading);
    let event = Event::Content(text);
    assert(monitor.next(event, now) == monitor.after_port(text@, now));
    assert(monitor.outcome(event, now) == monitor.port_outcome(text@, now));
}

/// A look that finds nothing attached where something was does not count at first: it
/// only notes that it will after 1500 ms, and until then further such looks change
/// nothing. The negotiation goes on meanwhile.
pub proof fn detachment_does_not_count_at_first(monitor: MonitorView, text: String, now: Instant)
    requires
        monitor.stage is Attachment,
        monitor.tracker.mode == ChargingMode::Automatic,
        monitor.tracker.attached,
        text@ == "Nothing attached"@,
        monitor.tracker.detach_deadline matches Some(due) ==> now.nanos < due.nanos,
        has_time(now),
    ensures
        ({
            let t = monitor.tracker;
            let after = monitor.next(Event::Content(text), now);
            &&& after.tracker.detach_deadline matches Some(due) && if t.detach_deadline is Some {
                t.detach_deadline == Some(due)
            } else {
                is_later(now, 1_500, due)
            }
            &&& after.tracker == Tracker {
                detach_deadline: after.tracker.detach_deadline,
                ..t
            }
            &&& goes_on(t.phase, now, after.stage)
            &&& monitor.outcome(Event::Content(text), now) == Outcome {
                session: None,
                notice: None,
            }
        }),
{
    reveal(MonitorView::after_reading);
    let event = Event::Content(text);
    assert(monitor.next(event, now) == monitor.after_port(text@, now));
    assert(monitor.outcome(event, now) == monitor.port_outcome(text@, now));
}

/// In the automatic mode, a detachment that lasted has the port unverified first; once
/// that is written no charger is known, nothing is negotiated, the charging session is
/// over, which is published and told, and the monitor waits.
pub proof fn lasting_detachment_unverifies_the_port(
    monitor: MonitorView,
    text: String,
    now: Instant,
    done: Instant,
)
    requires
        monitor.stage is Attachment,
        monitor.tracker.mode == ChargingMode::Automatic,
        monitor.tracker.attached,
        text@ == "Nothing attached"@,
        monitor.tracker.detach_deadline matches Some(due) && now.nanos >= due.nanos,
    ensures
        ({
            let t = monitor.tracker;
            let gone = monitor.next(Event::Content(text), now);
            let after = gone.next(Event::Done, done);
            &&& gone.request(done) == Request::SetPdVerified(false)
            &&& !gone.tracker.attached
            &&& monitor.outcome(Event::Content(text), now) == Outcome {
                session: None,
                notice: None,
            }
            &&& after.request(done) is Wait
            &&& after.tracker.phase is Idle
            &&& !after.tracker.attached
            &&& after.tracker.detach_deadline is None
            &&& knows_no_charger(after.tracker)
            &&& !after.tracker.charging_session_active
            &&& after.tracker.mode == t.mode
            &&& after.tracker.uevent_registered == t.uevent_registered
            &&& gone.outcome(Event::Done, done) == Outcome {
                session: Some(SessionUpdate { active: false, generation_advance: 0 }),
                notice: Some(Notice::Detached),
            }
        }),
{
    reveal(MonitorView::after_reading);
    let event = Event::Content(text);
    let gone = monitor.next(event, now);
    assert(gone == monitor.after_port(text@, now));
    assert(monitor.outcome(event, now) == monitor.port_outcome(text@, now));
    assert(gone.next(Event::Done, done) == gone.after_done(done));
    assert(gone.outcome(Event::Done, done) == gone.done_outcome());
}

/// In any other mode a detachment counts after the same time, with nothing written: no
/// charger is known, the charging session is over, which is published, and the monitor
/// waits.
pub proof fn lasting_detachment_elsewhere_writes_nothing(
    monitor: MonitorView,
    text: String,
    now: Instant,
)
    requires
        monitor.stage is Attachment,
        monitor.tracker.mode != ChargingMode::Automatic,
        monitor.tracker.attached,
        text@ == "Nothing attached"@,
        has_time(now),
    ensures
        ({
            let t = monitor.tracker;
            let after = monitor.next(Event::Content(text), now);
            let told = monitor.outcome(Event::Content(text), now);
            &&& after.request(now) is Wait
            &&& after.tracker.mode == t.mode
            &&& after.tracker.uevent_registered == t.uevent_registered
            &&& if t.detach_deadline matches Some(due) && now.nanos >= due.nanos {
                &&& !after.tracker.attached
                &&& after.tracker.detach_deadline is None
                &&& after.tracker.phase is Idle
                &&& knows_no_charger(after.tracker)
                &&& !after.tracker.charging_session_active
                &&& told == Outcome {
                    session: Some(SessionUpdate { active: false, generation_advance: 0 }),
                    notice: None,
                }
            } else {
                &&& after.tracker.attached
                &&& after.tracker.phase == t.phase
                &&& after.tracker.detach_deadline matches Some(due) && if t.detach_deadline
                    is Some {
                    t.detach_deadline == Some(due)
                } else {
                    is_later(now, 1_500, due)
                }
                &&& after.tracker.charging_session_active == t.charging_session_active
                &&& after.tracker.public_retry_count == t.public_retry_count
                &&& after.tracker.public_retry_attempted == t.public_retry_attempted
                &&& told == Outcome { session: None, notice: None }
            }
        }),
{
    reveal(MonitorView::after_reading);
    let event = Event::Content(text);
    assert(monitor.next(event, now) == monitor.after_port(text@, now));
    assert(monitor.outcome(event, now) == monitor.port_outcome(text@, now));
}

/// A look that finds nothing attached where nothing was changes nothing but that
/// nothing stays known of an upstream charger, and the monitor waits.
pub proof fn empty_port_stays_empty(monitor: MonitorView, text: String, now: Instant)
    requires
        monitor.stage is Attachment,
        !monitor.tracker.attached,
        text@ == "Nothing attached"@,
    ensures
        monitor.next(Event::Content(text), now).tracker == (Tracker {
            upstream_native_pending: false,
            uevent_recheck_deadline: None,
            charger_detach_armed: false,
            usb_detach_uevent_seen: false,
            charger_detach_deadline: None,
            ..monitor.tracker
        }),
        monitor.next(Event::Content(text), now).request(now) is Wait,
        monitor.outcome(Event::Content(text), now) == (Outcome { session: None, notice: None }),
{
    reveal(MonitorView::after_reading);
    let event = Event::Content(text);
    assert(monitor.next(event, now) == monitor.after_port(text@, now));
    assert(monitor.outcome(event, now) == monitor.port_outcome(text@, now));
}

/// Two looks that find nothing attached, with none between that finds something, lead
/// to a detachment exactly where 1500 ms lie between them.
pub proof fn detachment_takes_its_time(
    monitor: MonitorView,
    first: String,
    lost: Instant,
    between: MonitorView,
    second: String,
    still: Instant,
)
    requires
        monitor.stage is Attachment,
        monitor.tracker.mode == ChargingMode::Automatic,
        monitor.tracker.attached,
        monitor.tracker.detach_deadline is None,
        has_time(lost),
        has_time(still),
        first@ == "Nothing attached"@,
        second@ == "Nothing attached"@,
        between.stage is Attachment,
        between.tracker.mode == ChargingMode::Automatic,
        between.tracker.attached,
        between.tracker.detach_deadline == monitor.next(
            Event::Content(first),
            lost,
        ).tracker.detach_deadline,
    ensures
        between.next(Event::Content(second), still).request(still) == Request::SetPdVerified(false)
            <==> still.nanos >= lost.nanos + 1_500_000_000,
{
    detachment_does_not_count_at_first(monitor, first, lost);
    let due = between.tracker.detach_deadline->0;
    if still.nanos >= due.nanos {
        lasting_detachment_unverifies_the_port(between, second, still, still);
    } else {
        detachment_does_not_count_at_first(between, second, still);
    }
}

} // verus!
