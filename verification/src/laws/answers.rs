//! What is asked for, and what becomes of the answers.

use vstd::prelude::*;

use crate::clock::Instant;
use crate::monitor::{Event, MonitorView, Request, Stage, Subject};
use crate::readings::{Node, ReadingsView};
use crate::report::{Notice, Outcome};
use crate::tracker::ChargingMode;

verus! {

/// A new monitor asks for the port's state first. It knows the mode, that uevents
/// are monitored in every mode but the native one, and nothing else, and it has read
/// nothing.
pub proof fn new_monitor_asks_for_the_port(mode: ChargingMode, now: Instant)
    ensures
        ({
            let monitor = MonitorView::initial(mode);
            &&& monitor.request(now) == Request::Read(Node::TypecMode)
            &&& monitor.tracker.mode == mode
            &&& monitor.tracker.uevent_registered == (mode != ChargingMode::Native)
            &&& !monitor.tracker.attached
            &&& !monitor.tracker.charging_session_active
            &&& monitor.tracker.phase is Idle
            &&& monitor.tracker.detach_deadline is None
            &&& crate::laws::plain::knows_no_charger(monitor.tracker)
            &&& monitor.readings.verified.len() == 0
            &&& monitor.readings.usb_type.len() == 0
            &&& monitor.readings.battery_status.len() == 0
            &&& monitor.readings.usb_online.len() == 0
            &&& monitor.readings.adapter_svid.len() == 0
        }),
{
}

/// Whether what was read is kept as the content of the node that was asked for: one
/// of the charger's nodes changes nothing else that is kept, and what is asked about
/// the port, or about the battery before anything is negotiated, is not kept at all.
#[verifier::opaque]
pub open spec fn kept_under_its_node(
    before: MonitorView,
    text: Seq<char>,
    kept: ReadingsView,
    now: Instant,
) -> bool {
    let asked = before.request(now);
    let r = before.readings;
    &&& asked == Request::Read(Node::PdVerified) ==> kept == ReadingsView { verified: text, ..r }
    &&& asked == Request::Read(Node::UsbRealType) ==> kept == ReadingsView { usb_type: text, ..r }
    &&& asked == Request::Read(Node::BatteryStatus) && !(before.stage is InitialBattery) ==> kept
        == ReadingsView { battery_status: text, ..r }
    &&& asked == Request::Read(Node::UsbOnline) ==> kept == ReadingsView { usb_online: text, ..r }
    &&& asked == Request::Read(Node::AdapterSvid) ==> kept == ReadingsView {
        adapter_svid: text,
        ..r
    }
    &&& asked == Request::Read(Node::TypecMode) ==> kept == r
    &&& before.stage is InitialBattery ==> kept == r
}

proof fn lemma_kept(monitor: MonitorView, text: Seq<char>, now: Instant)
    ensures
        kept_under_its_node(monitor, text, monitor.after_reading(text, now).readings, now),
        !(monitor.request(now) is Read) ==> monitor.after_reading(text, now) == monitor,
{
    reveal(MonitorView::after_reading);
    reveal(kept_under_its_node);
    match monitor.stage.subject() {
        Subject::Port => {
            assert(monitor.after_reading(text, now) == monitor.after_port(text, now));
        },
        Subject::Settled => {
            assert(monitor.after_reading(text, now) == monitor.after_settled(text, now));
        },
        Subject::Identification => {
            assert(monitor.after_reading(text, now) == monitor.after_identification(text, now));
        },
        Subject::Native => {
            assert(monitor.after_reading(text, now) == monitor.after_native(text, now));
        },
        Subject::Public => {
            assert(monitor.after_reading(text, now) == monitor.after_public(text));
        },
        Subject::Nothing => {},
    }
}

/// What is read is kept as the content of the node that was asked for, and where
/// nothing is to be read a content changes nothing.
pub proof fn answers_are_kept_under_their_node(monitor: MonitorView, text: String, now: Instant)
    ensures
        kept_under_its_node(
            monitor,
            text@,
            monitor.next(Event::Content(text), now).readings,
            now,
        ),
        !(monitor.request(now) is Read) ==> monitor.next(Event::Content(text), now) == monitor,
{
    lemma_kept(monitor, text@, now);
}

/// The stages of a reading ask for these nodes.
pub proof fn readings_ask_for_these_nodes(monitor: MonitorView, now: Instant)
    ensures
        ({
            let stage = monitor.stage;
            &&& monitor.request(now) == Request::Read(Node::TypecMode) <==> stage
                is InitialAttachment || stage is ConfiguredAttachment || stage is Attachment
            &&& monitor.request(now) == Request::Read(Node::PdVerified) <==> stage
                is SettledVerified || stage is IdentifyVerified || stage is NativeVerified || stage
                is VerifyVerified || stage is RetryVerified
            &&& monitor.request(now) == Request::Read(Node::UsbRealType) <==> stage
                is SettledUsbType || stage is IdentifyUsbType || stage is NativeUsbType || stage
                is VerifyUsbType || stage is RetryUsbType
            &&& monitor.request(now) == Request::Read(Node::BatteryStatus) <==> stage
                is InitialBattery || stage is SettledBattery
            &&& monitor.request(now) == Request::Read(Node::UsbOnline) <==> stage is SettledOnline
            &&& monitor.request(now) == Request::Read(Node::AdapterSvid) <==> stage is IdentifySvid
        }),
{
}

/// What is asked for besides: to wait, to pause for a second after a failed wait, to
/// clear the stop event, to take the mode, to switch the monitoring of uevents to what
/// the new mode calls for, to take an uevent, to write the port, and to leave.
pub proof fn other_stages_ask_for_this(monitor: MonitorView, now: Instant)
    ensures
        ({
            let stage = monitor.stage;
            &&& monitor.request(now) is Wait <==> stage is Waiting
            &&& monitor.request(now) == (Request::Pause { millis: 1_000 }) <==> stage is Pausing
            &&& monitor.request(now) == Request::ClearStop <==> stage is Stopping
            &&& monitor.request(now) == Request::TakeMode <==> stage is TakingMode
            &&& monitor.request(now) == Request::ReceiveUevent <==> stage is Draining
            &&& monitor.request(now) == Request::SetPdVerified(true) <==> stage is Enabling
                || stage is Reasserting
            &&& monitor.request(now) == Request::SetPdVerified(false) <==> stage
                is ResettingVerified
            &&& forall|failed: bool|
                monitor.request(now) == (Request::Exit { failed }) <==> stage == (Stage::Ended {
                    failed,
                })
            &&& forall|on: bool|
                monitor.request(now) == Request::MonitorUevents(on) <==> (stage matches
                    Stage::SwitchingUevents { mode, .. } && on == (mode != ChargingMode::Native))
        }),
{
}

/// A failure of a read of the port's state, its verification or the USB type, of a
/// write, of taking the mode, of switching uevents or of clearing the stop event ends
/// the monitor with that failure, and nothing is forgotten or published. One of a read
/// of the battery, the supply or the SVID is the same as an empty content, in what it
/// leads to and in what it tells. Any other failure changes nothing.
pub proof fn failures_end_the_monitor_or_read_as_empty(
    monitor: MonitorView,
    empty: String,
    now: Instant,
)
    requires
        empty@ == Seq::<char>::empty(),
    ensures
        ({
            let asked = monitor.request(now);
            let after = monitor.next(Event::Failed, now);
            let told = monitor.outcome(Event::Failed, now);
            if asked == Request::Read(Node::TypecMode) || asked == Request::Read(Node::PdVerified)
                || asked == Request::Read(Node::UsbRealType) || asked is SetPdVerified || asked
                is TakeMode || asked is MonitorUevents || asked is ClearStop {
                &&& after.request(now) == Request::Exit { failed: true }
                &&& after.tracker == monitor.tracker
                &&& after.readings == monitor.readings
                &&& told == Outcome { session: None, notice: None }
            } else if asked is Read {
                &&& after == monitor.next(Event::Content(empty), now)
                &&& told == monitor.outcome(Event::Content(empty), now)
            } else {
                &&& after == monitor
                &&& told == Outcome { session: None, notice: None }
            }
        }),
{
    reveal(MonitorView::after_reading);
    let event = Event::Content(empty);
    assert(monitor.next(event, now) == monitor.after_reading(Seq::empty(), now));
    assert(monitor.outcome(event, now) == monitor.reading_outcome(Seq::empty(), now));
}

/// A wait that ends because the daemon stops running ends the monitor, and so does a
/// stop event once it is cleared. A stop comes before a reconfiguration, and that
/// before everything else. None of them tells anything or changes what is known.
pub proof fn waits_end_in_this_order(
    monitor: MonitorView,
    stop: bool,
    config: bool,
    uevent: bool,
    now: Instant,
)
    requires
        monitor.request(now) is Wait,
    ensures
        ({
            let woken = monitor.next(Event::Woken { stop, config, uevent }, now);
            let gone = monitor.next(Event::NotRunning, now);
            &&& gone.request(now) == Request::Exit { failed: false }
            &&& gone.tracker == monitor.tracker
            &&& stop ==> woken.request(now) == Request::ClearStop && woken.tracker
                == monitor.tracker && woken.next(Event::Done, now).request(now) == Request::Exit {
                failed: false,
            }
            &&& !stop && config ==> woken.request(now) == Request::TakeMode && woken.tracker
                == monitor.tracker && woken.stage == Stage::TakingMode { uevent_ready: uevent }
            &&& !stop && !config && uevent && monitor.tracker.uevent_registered ==> woken.request(
                now,
            ) == Request::ReceiveUevent && woken.tracker == monitor.tracker
            &&& !stop && !config && !(uevent && monitor.tracker.uevent_registered)
                ==> woken.request(now) == Request::Read(Node::TypecMode) && woken.stage
                is Attachment
            &&& woken.readings == monitor.readings
            &&& monitor.outcome(Event::Woken { stop, config, uevent }, now) == Outcome {
                session: None,
                notice: None,
            }
            &&& monitor.outcome(Event::NotRunning, now) == Outcome { session: None, notice: None }
        }),
{
    let woken = monitor.next(Event::Woken { stop, config, uevent }, now);
    assert(woken == monitor.after_woken(stop, config, uevent, now));
    if stop {
        assert(woken.next(Event::Done, now) == woken.after_done(now));
    }
}

/// A failed wait is told and followed by a pause and another wait; a transient one is
/// followed by another wait at once, with nothing told. What is known stays.
pub proof fn failed_waits_are_repeated(monitor: MonitorView, now: Instant)
    requires
        monitor.request(now) is Wait,
    ensures
        ({
            let failed = monitor.next(Event::WaitFailed { transient: false }, now);
            let transient = Event::WaitFailed { transient: true };
            &&& failed.request(now) == Request::Pause { millis: 1_000 }
            &&& monitor.outcome(Event::WaitFailed { transient: false }, now) == Outcome {
                session: None,
                notice: Some(Notice::WaitFailed),
            }
            &&& failed.next(Event::Done, now) == monitor
            &&& failed.outcome(Event::Done, now) == Outcome { session: None, notice: None }
            &&& monitor.next(transient, now) == monitor
            &&& monitor.outcome(transient, now) == Outcome { session: None, notice: None }
        }),
{
    let failed = monitor.next(Event::WaitFailed { transient: false }, now);
    assert(failed.next(Event::Done, now) == failed.after_done(now));
    assert(failed.outcome(Event::Done, now) == failed.done_outcome());
}

} // verus!
