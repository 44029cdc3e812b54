//! What a look at a charger under negotiation leads to.

use vstd::prelude::*;

use crate::clock::Instant;
use crate::laws::plain::has_time;
use crate::monitor::{Event, MonitorView, Request};
use crate::phase::AutoPhase;
use crate::readings::Node;
use crate::report::{Notice, Outcome};
use crate::tracker::Tracker;

verus! {

/// A charger under negotiation that reads as verified settles the session at once:
/// nothing but the phase changes, nothing more is read, nothing is written, and it is
/// told that Xiaomi's authentication succeeded.
pub proof fn verified_charger_settles(monitor: MonitorView, text: String, now: Instant)
    requires
        monitor.stage is IdentifyVerified || monitor.stage is NativeVerified,
        text@ == "1"@,
    ensures
        ({
            let after = monitor.next(Event::Content(text), now);
            &&& after.tracker == Tracker { phase: AutoPhase::Settled, ..monitor.tracker }
            &&& after.request(now) is Wait
            &&& monitor.outcome(Event::Content(text), now) == Outcome {
                session: None,
                notice: Some(Notice::NativeVerified),
            }
        }),
{
    reveal(MonitorView::after_reading);
    let event = Event::Content(text);
    assert(monitor.next(event, now) == monitor.after_reading(text@, now));
    assert(monitor.outcome(event, now) == monitor.reading_outcome(text@, now));
}

/// A fresh attachment that reads as unverified has its USB type and then its SVID read
/// where its next look is due; before that the monitor waits. Nothing changes in what is
/// known, and nothing is told.
pub proof fn unverified_attachment_is_looked_at_when_due(
    monitor: MonitorView,
    verified: String,
    now: Instant,
    usb_type: String,
    then: Instant,
)
    requires
        monitor.stage is IdentifyVerified,
        monitor.tracker.phase is IdentifyingPublic,
        verified@ != "1"@,
    ensures
        ({
            let due = monitor.tracker.phase->next_check;
            let after = monitor.next(Event::Content(verified), now);
            let typed = after.next(Event::Content(usb_type), then);
            &&& after.tracker == monitor.tracker
            &&& monitor.outcome(Event::Content(verified), now) == Outcome {
                session: None,
                notice: None,
            }
            &&& if now.nanos >= due.nanos {
                &&& after.request(now) == Request::Read(Node::UsbRealType)
                &&& typed.request(then) == Request::Read(Node::AdapterSvid)
                &&& typed.tracker == monitor.tracker
                &&& after.outcome(Event::Content(usb_type), then) == Outcome {
                    session: None,
                    notice: None,
                }
            } else {
                after.request(now) is Wait
            }
        }),
{
    reveal(MonitorView::after_reading);
    let event = Event::Content(verified);
    let after = monitor.next(event, now);
    assert(after == monitor.after_identification(verified@, now));
    assert(monitor.outcome(event, now) == monitor.reading_outcome(verified@, now));
    if now.nanos >= monitor.tracker.phase->next_check.nanos {
        let second = Event::Content(usb_type);
        assert(after.next(second, then) == after.after_identification(usb_type@, then));
        assert(after.outcome(second, then) == after.reading_outcome(usb_type@, then));
    }
}

/// A look that reads an unverified port, PPS and the SVID 0000 has public PPS enabled
/// where fewer than two attempts were made, whatever else is known: the attempt is
/// counted and taken, no swap is pending and no outage observed any more, and it is
/// told.
pub proof fn public_charger_is_identified(monitor: MonitorView, text: String, now: Instant)
    requires
        monitor.stage is IdentifySvid,
        monitor.tracker.phase is IdentifyingPublic,
        monitor.readings.verified != "1"@,
        monitor.readings.usb_type == "PD_PPS"@,
        text@ == "0000"@,
        monitor.tracker.public_retry_count < 2,
    ensures
        ({
            let t = monitor.tracker;
            let after = monitor.next(Event::Content(text), now);
            &&& after.request(now) == Request::SetPdVerified(true)
            &&& after.tracker == Tracker {
                public_retry_count: (t.public_retry_count + 1) as u8,
                public_retry_attempted: true,
                upstream_native_pending: false,
                charger_detach_deadline: None,
                ..t
            }
            &&& monitor.outcome(Event::Content(text), now) == Outcome {
                session: None,
                notice: Some(Notice::PublicIdentified),
            }
        }),
{
    reveal(MonitorView::after_reading);
    let event = Event::Content(text);
    assert(monitor.next(event, now) == monitor.after_identification(text@, now));
    assert(monitor.outcome(event, now) == monitor.reading_outcome(text@, now));
}

/// A look that reads a vendor's SVID, one that is neither empty nor 0000, ends the looks:
/// Xiaomi's protocol has the rest of its time, which stays as it was. It is told.
pub proof fn vendor_charger_waits_for_its_protocol(
    monitor: MonitorView,
    text: String,
    now: Instant,
)
    requires
        monitor.stage is IdentifySvid,
        monitor.tracker.phase is IdentifyingPublic,
        text@.len() > 0,
        text@ != "0000"@,
    ensures
        ({
            let after = monitor.next(Event::Content(text), now);
            &&& after.request(now) is Wait
            &&& after.tracker == Tracker {
                phase: AutoPhase::WaitingNative(monitor.tracker.phase->native_deadline),
                ..monitor.tracker
            }
            &&& monitor.outcome(Event::Content(text), now) == Outcome {
                session: None,
                notice: Some(Notice::VendorIdentified),
            }
        }),
{
    reveal(MonitorView::after_reading);
    let event = Event::Content(text);
    assert(monitor.next(event, now) == monitor.after_identification(text@, now));
    assert(monitor.outcome(event, now) == monitor.reading_outcome(text@, now));
}

/// A look within the identity window that neither enables public PPS nor reads a
/// vendor's SVID leaves the identification going on, with its next look at the earlier
/// of 100 ms later and the end of the window; after the window it leaves Xiaomi's
/// protocol the rest of its time. Its other deadlines stay, and so does everything
/// else; nothing is told.
pub proof fn unclear_charger_is_looked_at_again(monitor: MonitorView, text: String, now: Instant)
    requires
        monitor.stage is IdentifySvid,
        monitor.tracker.phase is IdentifyingPublic,
        has_time(now),
        text@.len() == 0 || text@ == "0000"@,
        !(text@ == "0000"@ && monitor.readings.verified != "1"@ && monitor.readings.usb_type
            == "PD_PPS"@ && monitor.tracker.public_retry_count < 2),
    ensures
        ({
            let after = monitor.next(Event::Content(text), now);
            let window = monitor.tracker.phase->identity_deadline;
            let native = monitor.tracker.phase->native_deadline;
            &&& after.request(now) is Wait
            &&& after.tracker == Tracker { phase: after.tracker.phase, ..monitor.tracker }
            &&& if now.nanos < window.nanos {
                after.tracker.phase matches AutoPhase::IdentifyingPublic {
                    next_check,
                    identity_deadline,
                    native_deadline,
                } && {
                    &&& next_check.nanos == if now.nanos + 100_000_000 <= window.nanos {
                        now.nanos + 100_000_000
                    } else {
                        window.nanos as int
                    }
                    &&& identity_deadline == window
                    &&& native_deadline == native
                }
            } else {
                after.tracker.phase == AutoPhase::WaitingNative(native)
            }
            &&& monitor.outcome(Event::Content(text), now) == Outcome {
                session: None,
                notice: None,
            }
        }),
{
    reveal(MonitorView::after_reading);
    reveal_strlit("0000");
    assert("0000"@.len() == 4);
    let event = Event::Content(text);
    assert(monitor.next(event, now) == monitor.after_identification(text@, now));
    assert(monitor.outcome(event, now) == monitor.reading_outcome(text@, now));
}

/// A native negotiation that reads as unverified has the USB type read where its time
/// is over; before that the monitor waits. Nothing changes in what is known, and nothing
/// is told.
pub proof fn unverified_negotiation_has_its_time(
    monitor: MonitorView,
    text: String,
    now: Instant,
)
    requires
        monitor.stage is NativeVerified,
        monitor.tracker.phase is WaitingNative,
        text@ != "1"@,
    ensures
        ({
            let due = monitor.tracker.phase->WaitingNative_0;
            let after = monitor.next(Event::Content(text), now);
            &&& after.tracker == monitor.tracker
            &&& if now.nanos >= due.nanos {
                after.request(now) == Request::Read(Node::UsbRealType) && after.stage
                    is NativeUsbType
            } else {
                after.request(now) is Wait
            }
            &&& monitor.outcome(Event::Content(text), now) == Outcome {
                session: None,
                notice: None,
            }
        }),
{
    reveal(MonitorView::after_reading);
    let event = Event::Content(text);
    assert(monitor.next(event, now) == monitor.after_native(text@, now));
    assert(monitor.outcome(event, now) == monitor.reading_outcome(text@, now));
}

/// When Xiaomi's time is over, PPS has public PPS enabled where fewer than two attempts
/// were made: the attempt is counted and taken, no swap is pending and no outage observed
/// any more. Anything else settles the session as it is, with no attempt taken. Either is
/// told.
pub proof fn overdue_negotiation_falls_back_or_settles(
    monitor: MonitorView,
    text: String,
    now: Instant,
)
    requires
        monitor.stage is NativeUsbType,
    ensures
        ({
            let t = monitor.tracker;
            let after = monitor.next(Event::Content(text), now);
            let told = monitor.outcome(Event::Content(text), now);
            if text@ == "PD_PPS"@ && t.public_retry_count < 2 {
                &&& after.request(now) == Request::SetPdVerified(true)
                &&& after.tracker == Tracker {
                    public_retry_count: (t.public_retry_count + 1) as u8,
                    public_retry_attempted: true,
                    upstream_native_pending: false,
                    charger_detach_deadline: None,
                    ..t
                }
                &&& told == Outcome { session: None, notice: Some(Notice::PublicFallback) }
            } else {
                &&& after.request(now) is Wait
                &&& after.tracker == Tracker { phase: AutoPhase::Settled, ..t }
                &&& told == Outcome { session: None, notice: Some(Notice::NotForced) }
            }
        }),
{
    reveal(MonitorView::after_reading);
    let event = Event::Content(text);
    assert(monitor.next(event, now) == monitor.after_native(text@, now));
    assert(monitor.outcome(event, now) == monitor.reading_outcome(text@, now));
}

} // verus!
