use pd_verified_monitor::clock::Instant;
use pd_verified_monitor::monitor::{Event, Monitor, Request, Stage};
use pd_verified_monitor::phase::AutoPhase;
use pd_verified_monitor::readings::Node;
use pd_verified_monitor::report::Notice;
use pd_verified_monitor::session::{
    start_charging_session, stop_charging_session, SessionUpdate,
};
use pd_verified_monitor::tracker::{ChargingMode, Tracker};

const OFFLINE: &[u8] = b"POWER_SUPPLY_NAME=usb\0POWER_SUPPLY_ONLINE=0\0";

const STARTED: SessionUpdate = SessionUpdate {
    active: true,
    generation_advance: 1,
};

const STOPPED: SessionUpdate = SessionUpdate {
    active: false,
    generation_advance: 0,
};

fn at(millis: u64) -> Instant {
    Instant {
        nanos: millis * 1_000_000,
    }
}

/// A device whose nodes a test sets. A node without content cannot be read.
struct Device {
    mode: ChargingMode,
    typec: Option<&'static str>,
    battery: Option<&'static str>,
    online: Option<&'static str>,
    verified: Option<&'static str>,
    usb_type: Option<&'static str>,
    svid: Option<&'static str>,
    uevents: Vec<&'static [u8]>,
    writes: Vec<bool>,
    write_fails: bool,
    monitored: Vec<bool>,
    reads: Vec<Node>,
    notices: Vec<Notice>,
    sessions: Vec<SessionUpdate>,
}

fn charger(verified: &'static str, usb_type: &'static str, svid: &'static str) -> Device {
    Device {
        mode: ChargingMode::Automatic,
        typec: Some("Sink attached"),
        battery: Some("Charging"),
        online: Some("1"),
        verified: Some(verified),
        usb_type: Some(usb_type),
        svid: Some(svid),
        uevents: Vec::new(),
        writes: Vec::new(),
        write_fails: false,
        monitored: Vec::new(),
        reads: Vec::new(),
        notices: Vec::new(),
        sessions: Vec::new(),
    }
}

impl Device {
    fn read(&mut self, node: Node) -> Event {
        self.reads.push(node);
        let content = match node {
            Node::TypecMode => self.typec,
            Node::BatteryStatus => self.battery,
            Node::UsbOnline => self.online,
            Node::PdVerified => self.verified,
            Node::UsbRealType => self.usb_type,
            Node::AdapterSvid => self.svid,
        };
        match content {
            Some(text) => Event::Content(text.to_string()),
            None => Event::Failed,
        }
    }

    fn step(&mut self, monitor: &mut Monitor, event: Event, now: Instant) {
        let outcome = monitor.step(event, now);
        if let Some(notice) = outcome.notice {
            self.notices.push(notice);
        }
        if let Some(session) = outcome.session {
            self.sessions.push(session);
        }
    }

    /// Answers every request at `now`, up to the next wait or the end.
    fn settle(&mut self, monitor: &mut Monitor, now: Instant) -> Request {
        loop {
            let request = monitor.request(now);
            let event = match request {
                Request::Read(node) => self.read(node),
                Request::SetPdVerified(value) => {
                    if self.write_fails {
                        Event::Failed
                    } else {
                        self.writes.push(value);
                        Event::Done
                    }
                }
                Request::TakeMode => Event::Mode(self.mode),
                Request::MonitorUevents(on) => {
                    self.monitored.push(on);
                    Event::Done
                }
                Request::ReceiveUevent => match self.uevents.pop() {
                    Some(data) => Event::Uevent(data.to_vec()),
                    None => Event::Drained,
                },
                Request::ClearStop => Event::Done,
                Request::Pause { .. } => Event::Done,
                Request::Wait { .. } => return request,
                Request::Exit { .. } => return request,
            };
            self.step(monitor, event, now);
        }
    }

    fn start(&mut self, millis: u64) -> Monitor {
        let mut monitor = Monitor::new(self.mode);
        self.settle(&mut monitor, at(millis));
        monitor
    }

    /// One turn in which nothing is ready.
    fn turn(&mut self, monitor: &mut Monitor, millis: u64) -> Request {
        self.wake(monitor, millis, false, false, false)
    }

    fn wake(
        &mut self,
        monitor: &mut Monitor,
        millis: u64,
        stop: bool,
        config: bool,
        uevent: bool,
    ) -> Request {
        self.step(
            monitor,
            Event::Woken {
                stop,
                config,
                uevent,
            },
            at(millis),
        );
        self.settle(monitor, at(millis))
    }
}

/// A public session that is settled, armed and used one attempt.
fn settled_public() -> (Device, Monitor) {
    let mut device = charger("0", "PD_PPS", "0000");
    let mut monitor = device.start(0);
    device.turn(&mut monitor, 400);
    device.turn(&mut monitor, 900);
    device.verified = Some("1");
    device.turn(&mut monitor, 2_400);
    device.turn(&mut monitor, 2_500);
    (device, monitor)
}

/// The charger behind the adapter goes away at `millis`.
fn unplug_upstream(device: &mut Device, monitor: &mut Monitor, millis: u64) {
    device.battery = Some("Discharging");
    device.online = Some("0");
    device.verified = Some("0");
    device.usb_type = Some("Unknown");
    device.uevents.push(OFFLINE);
    device.wake(monitor, millis, false, false, true);
}

#[test]
fn fresh_attachment_is_identified_first() {
    let mut device = charger("0", "PD_PPS", "0000");
    let mut monitor = device.start(0);
    assert_eq!(
        monitor.tracker.phase,
        AutoPhase::IdentifyingPublic {
            next_check: at(400),
            identity_deadline: at(1_000),
            native_deadline: at(4_000),
        }
    );
    assert_eq!(device.sessions, vec![STARTED]);
    assert_eq!(
        monitor.request(at(100)),
        Request::Wait { timeout_ms: 300 }
    );
    device.turn(&mut monitor, 399);
    assert!(device.writes.is_empty());
}

#[test]
fn public_charger_is_enabled_early_and_verified() {
    let mut device = charger("0", "PD_PPS", "0000");
    let mut monitor = device.start(0);
    device.turn(&mut monitor, 400);
    assert_eq!(device.writes, vec![true]);
    assert_eq!(monitor.tracker.phase, AutoPhase::EnablingPublic(at(900)));
    assert_eq!(monitor.tracker.public_retry_count, 1);
    device.turn(&mut monitor, 899);
    assert_eq!(device.writes, vec![true]);
    device.turn(&mut monitor, 900);
    assert_eq!(device.writes, vec![true, true]);
    assert_eq!(monitor.tracker.phase, AutoPhase::VerifyingPublic(at(2_400)));
    device.verified = Some("1");
    device.turn(&mut monitor, 2_400);
    assert_eq!(monitor.tracker.phase, AutoPhase::Settled);
    assert_eq!(device.writes, vec![true, true]);
    assert_eq!(
        device.notices,
        vec![
            Notice::PublicIdentified,
            Notice::PublicReasserted,
            Notice::PublicConfirmed,
        ]
    );
}

#[test]
fn verified_charger_is_never_written() {
    let mut device = charger("1", "PD_PPS", "0000");
    let mut monitor = device.start(0);
    device.turn(&mut monitor, 100);
    assert_eq!(monitor.tracker.phase, AutoPhase::Settled);
    for millis in [400, 1_000, 4_000, 60_000] {
        device.turn(&mut monitor, millis);
    }
    assert!(device.writes.is_empty());
    assert_eq!(
        device.notices,
        vec![Notice::NativeVerified, Notice::DetectionArmed]
    );
    assert_eq!(monitor.tracker.public_retry_count, 0);
}

#[test]
fn vendor_charger_has_the_whole_native_time() {
    let mut device = charger("0", "PD_PPS", "2717");
    let mut monitor = device.start(0);
    device.turn(&mut monitor, 400);
    assert_eq!(monitor.tracker.phase, AutoPhase::WaitingNative(at(4_000)));
    device.turn(&mut monitor, 3_999);
    assert!(device.writes.is_empty());
    device.turn(&mut monitor, 4_000);
    assert_eq!(device.writes, vec![true]);
    assert_eq!(
        device.notices,
        vec![Notice::VendorIdentified, Notice::PublicFallback]
    );
}

#[test]
fn vendor_charger_that_verifies_in_time_stays_native() {
    let mut device = charger("0", "PD_PPS", "2717");
    let mut monitor = device.start(0);
    device.turn(&mut monitor, 400);
    device.verified = Some("1");
    device.turn(&mut monitor, 3_000);
    assert_eq!(monitor.tracker.phase, AutoPhase::Settled);
    assert!(device.writes.is_empty());
    assert_eq!(
        device.notices,
        vec![Notice::VendorIdentified, Notice::NativeVerified]
    );
}

#[test]
fn identification_is_repeated_within_its_window() {
    let mut device = charger("0", "PD", "");
    let mut monitor = device.start(0);
    device.turn(&mut monitor, 400);
    assert_eq!(
        monitor.tracker.phase,
        AutoPhase::IdentifyingPublic {
            next_check: at(500),
            identity_deadline: at(1_000),
            native_deadline: at(4_000),
        }
    );
    device.turn(&mut monitor, 950);
    assert_eq!(
        monitor.tracker.phase,
        AutoPhase::IdentifyingPublic {
            next_check: at(1_000),
            identity_deadline: at(1_000),
            native_deadline: at(4_000),
        }
    );
    device.turn(&mut monitor, 1_000);
    assert_eq!(monitor.tracker.phase, AutoPhase::WaitingNative(at(4_000)));
}

#[test]
fn charger_without_pps_is_not_forced() {
    let mut device = charger("0", "PD", "0000");
    let mut monitor = device.start(0);
    device.turn(&mut monitor, 1_000);
    device.turn(&mut monitor, 4_000);
    assert_eq!(monitor.tracker.phase, AutoPhase::Settled);
    assert!(device.writes.is_empty());
    assert_eq!(device.notices, vec![Notice::NotForced]);
}

#[test]
fn public_pps_that_appears_later_is_enabled() {
    let mut device = charger("0", "PD", "0000");
    let mut monitor = device.start(0);
    device.turn(&mut monitor, 1_000);
    device.turn(&mut monitor, 4_000);
    device.usb_type = Some("PD_PPS");
    device.turn(&mut monitor, 9_000);
    assert_eq!(device.writes, vec![true]);
    assert_eq!(
        device.notices,
        vec![
            Notice::NotForced,
            Notice::DetectionArmed,
            Notice::PublicAppeared,
        ]
    );
}

#[test]
fn success_needs_both_verification_and_pps() {
    let mut device = charger("0", "PD_PPS", "0000");
    let mut monitor = device.start(0);
    device.turn(&mut monitor, 400);
    device.turn(&mut monitor, 900);
    device.verified = Some("1");
    device.usb_type = Some("PD");
    device.turn(&mut monitor, 2_400);
    assert_eq!(
        device.notices,
        vec![
            Notice::PublicIdentified,
            Notice::PublicReasserted,
            Notice::PublicNotConfirmed,
        ]
    );
    assert!(monitor.tracker.public_retry_attempted);
}

#[test]
fn attempts_stop_with_the_budget() {
    let mut device = charger("0", "PD_PPS", "0000");
    let mut monitor = device.start(0);
    let mut millis: u64 = 0;
    while millis < 120_000 {
        millis += 100;
        device.uevents.push(OFFLINE);
        device.wake(&mut monitor, millis, false, false, true);
    }
    // Two attempts, each asserted once more.
    assert_eq!(device.writes, vec![true, true, true, true]);
    assert_eq!(monitor.tracker.public_retry_count, 2);
    assert_eq!(monitor.tracker.phase, AutoPhase::Settled);
}

#[test]
fn lost_public_pps_is_retried_once() {
    let (mut device, mut monitor) = settled_public();
    assert!(monitor.tracker.charger_detach_armed);
    device.verified = Some("0");
    device.turn(&mut monitor, 5_000);
    assert_eq!(device.writes, vec![true, true, true]);
    assert_eq!(monitor.tracker.public_retry_count, 2);
    assert!(device.notices.contains(&Notice::RetryAllowed));
    assert!(device.notices.contains(&Notice::PublicAppeared));
}

#[test]
fn lost_public_pps_that_was_not_armed_is_noticed_as_both() {
    let mut device = charger("0", "PD_PPS", "0000");
    let mut monitor = device.start(0);
    device.turn(&mut monitor, 400);
    device.turn(&mut monitor, 900);
    device.verified = Some("1");
    device.turn(&mut monitor, 2_400);
    assert!(!monitor.tracker.charger_detach_armed);
    device.verified = Some("0");
    device.turn(&mut monitor, 2_500);
    assert_eq!(
        device.notices,
        vec![
            Notice::PublicIdentified,
            Notice::PublicReasserted,
            Notice::PublicConfirmed,
            Notice::ArmedAndRetryAllowed,
            Notice::PublicAppeared,
        ]
    );
    assert!(!monitor.tracker.charger_detach_armed);
    assert_eq!(monitor.tracker.public_retry_count, 2);

    // Where it was armed before, only the retry is new.
    let (mut device, mut monitor) = settled_public();
    device.verified = Some("0");
    device.turn(&mut monitor, 5_000);
    assert_eq!(
        device.notices[device.notices.len() - 2..],
        [Notice::RetryAllowed, Notice::PublicAppeared]
    );
}

#[test]
fn passes_with_uevents_take_public_pps_too() {
    let mut device = charger("0", "PD_PPS", "2717");
    let mut monitor = device.start(0);
    device.turn(&mut monitor, 400);
    device.uevents.push(OFFLINE);
    device.uevents.push(b"ACTION=change\0");
    device.wake(&mut monitor, 4_000, false, false, true);
    assert!(device.uevents.is_empty());
    assert_eq!(device.writes, vec![true]);

    // A settled session whose attempt is free, with unreadable supply nodes.
    let mut device = charger("0", "PD", "2717");
    let mut monitor = device.start(0);
    device.turn(&mut monitor, 400);
    device.turn(&mut monitor, 4_000);
    assert!(device.writes.is_empty());
    device.battery = None;
    device.online = None;
    device.usb_type = Some("PD_PPS");
    device.uevents.push(OFFLINE);
    device.wake(&mut monitor, 5_000, false, false, true);
    assert_eq!(device.writes, vec![true]);
    assert_eq!(monitor.tracker.public_retry_count, 1);
}

#[test]
fn uevents_of_other_supplies_are_no_evidence() {
    let (mut device, mut monitor) = settled_public();
    device.battery = Some("Discharging");
    device.online = Some("0");
    device.verified = Some("0");
    device.usb_type = Some("Unknown");
    for millis in [10_000, 12_000, 20_000] {
        device
            .uevents
            .push(b"POWER_SUPPLY_NAME=battery\0POWER_SUPPLY_ONLINE=0\0");
        device
            .uevents
            .push(b"POWER_SUPPLY_NAME=usb\0POWER_SUPPLY_ONLINE=1\0");
        device.wake(&mut monitor, millis, false, false, true);
    }
    assert!(!monitor.tracker.usb_detach_uevent_seen);
    assert!(!monitor.tracker.upstream_native_pending);

    // With the right one the outage counts from there.
    device.uevents.push(OFFLINE);
    device.wake(&mut monitor, 30_000, false, false, true);
    device.turn(&mut monitor, 31_500);
    assert!(monitor.tracker.upstream_native_pending);
}

#[test]
fn brief_detachment_is_ignored() {
    let (mut device, mut monitor) = settled_public();
    let before = monitor.tracker;
    device.typec = Some("Nothing attached");
    device.turn(&mut monitor, 5_000);
    assert_eq!(monitor.tracker.detach_deadline, Some(at(6_500)));
    device.turn(&mut monitor, 6_499);
    device.typec = Some("Sink attached");
    device.turn(&mut monitor, 6_500);
    assert_eq!(monitor.tracker, before);
    assert_eq!(device.writes, vec![true, true]);
}

#[test]
fn lasting_detachment_undoes_everything() {
    let (mut device, mut monitor) = settled_public();
    device.typec = Some("Nothing attached");
    device.turn(&mut monitor, 5_000);
    let request = device.turn(&mut monitor, 6_500);
    assert_eq!(request, Request::Wait { timeout_ms: -1 });
    assert_eq!(device.writes, vec![true, true, false]);
    assert_eq!(
        monitor.tracker,
        Tracker::new(ChargingMode::Automatic, false, at(0))
    );
    assert_eq!(device.sessions, vec![STARTED, STOPPED]);
    assert_eq!(device.notices.last(), Some(&Notice::Detached));
    device.typec = Some("Sink attached");
    device.verified = Some("0");
    device.turn(&mut monitor, 10_000);
    assert_eq!(device.notices.last(), Some(&Notice::Attached));
    assert_eq!(device.sessions, vec![STARTED, STOPPED, STARTED]);
    let mut fresh = Tracker::new(ChargingMode::Automatic, true, at(10_000));
    fresh.charging_session_active = true;
    assert_eq!(monitor.tracker, fresh);
}

#[test]
fn detachment_in_another_mode_writes_nothing() {
    let mut device = charger("0", "PD_PPS", "0000");
    device.mode = ChargingMode::Other;
    let mut monitor = device.start(0);
    assert_eq!(monitor.tracker.phase, AutoPhase::Idle);
    device.typec = Some("Nothing attached");
    device.turn(&mut monitor, 5_000);
    device.turn(&mut monitor, 6_500);
    assert!(!monitor.tracker.attached);
    assert!(device.writes.is_empty());
    assert!(device.notices.is_empty());
    assert_eq!(device.sessions, vec![STARTED, STOPPED]);
}

#[test]
fn native_sessions_arm_the_swap_detection_too() {
    let mut device = charger("1", "PD_PPS", "2717");
    let mut monitor = device.start(0);
    device.turn(&mut monitor, 100);
    device.turn(&mut monitor, 200);
    assert!(monitor.tracker.charger_detach_armed);
    assert_eq!(monitor.tracker.public_retry_count, 0);
}

#[test]
fn upstream_swap_begins_with_native_negotiation() {
    let (mut device, mut monitor) = settled_public();
    unplug_upstream(&mut device, &mut monitor, 10_000);
    assert!(monitor.tracker.usb_detach_uevent_seen);
    assert_eq!(monitor.tracker.uevent_recheck_deadline, Some(at(10_250)));
    assert_eq!(monitor.tracker.charger_detach_deadline, Some(at(11_500)));
    device.turn(&mut monitor, 11_499);
    assert!(!monitor.tracker.upstream_native_pending);
    device.turn(&mut monitor, 11_500);
    assert!(monitor.tracker.upstream_native_pending);
    assert_eq!(monitor.tracker.public_retry_count, 0);
    assert_eq!(device.notices.last(), Some(&Notice::UpstreamDetached));

    // PPS alone does not enable public PPS while the swap is pending.
    device.usb_type = Some("PD_PPS");
    device.turn(&mut monitor, 12_000);
    assert_eq!(device.writes, vec![true, true]);

    device.battery = Some("Charging");
    device.online = Some("1");
    device.turn(&mut monitor, 13_000);
    assert_eq!(device.notices.last(), Some(&Notice::UpstreamAttached));
    assert_eq!(
        monitor.tracker.phase,
        AutoPhase::IdentifyingPublic {
            next_check: at(13_400),
            identity_deadline: at(14_000),
            native_deadline: at(17_000),
        }
    );
    assert_eq!(device.writes, vec![true, true]);
    device.turn(&mut monitor, 13_400);
    assert_eq!(device.writes, vec![true, true, true]);
    assert_eq!(monitor.tracker.public_retry_count, 1);
}

#[test]
fn contradicted_outage_is_no_swap() {
    let (mut device, mut monitor) = settled_public();
    unplug_upstream(&mut device, &mut monitor, 10_000);
    device.usb_type = Some("PD");
    device.turn(&mut monitor, 11_000);
    assert_eq!(monitor.tracker.charger_detach_deadline, None);
    assert!(monitor.tracker.usb_detach_uevent_seen);
    device.usb_type = Some("Unknown");
    device.turn(&mut monitor, 11_600);
    assert_eq!(monitor.tracker.charger_detach_deadline, Some(at(13_100)));
    assert!(!monitor.tracker.upstream_native_pending);
    device.online = Some("1");
    device.turn(&mut monitor, 12_000);
    assert!(!monitor.tracker.usb_detach_uevent_seen);
}

#[test]
fn return_of_the_charger_ends_the_outage() {
    let (mut device, mut monitor) = settled_public();
    unplug_upstream(&mut device, &mut monitor, 10_000);
    assert_eq!(monitor.tracker.charger_detach_deadline, Some(at(11_500)));
    device.battery = Some("Charging");
    device.online = Some("1");
    device.verified = Some("1");
    device.usb_type = Some("PD_PPS");
    let request = device.turn(&mut monitor, 10_500);
    assert!(monitor.tracker.charger_detach_armed);
    assert!(monitor.tracker.usb_detach_uevent_seen);
    assert_eq!(monitor.tracker.charger_detach_deadline, None);
    assert_eq!(request, Request::Wait { timeout_ms: -1 });

    // The next outage has to last its whole time.
    unplug_upstream(&mut device, &mut monitor, 12_000);
    assert!(!monitor.tracker.upstream_native_pending);
    assert_eq!(monitor.tracker.charger_detach_deadline, Some(at(13_500)));
    assert_eq!(monitor.tracker.public_retry_count, 1);
    device.turn(&mut monitor, 13_499);
    assert!(!monitor.tracker.upstream_native_pending);
    device.turn(&mut monitor, 13_500);
    assert!(monitor.tracker.upstream_native_pending);
    assert_eq!(monitor.tracker.public_retry_count, 0);
}

#[test]
fn long_return_of_the_charger_does_not_spoil_the_next_outage() {
    let (mut device, mut monitor) = settled_public();
    unplug_upstream(&mut device, &mut monitor, 10_000);
    device.battery = Some("Charging");
    device.online = Some("1");
    device.verified = Some("1");
    device.usb_type = Some("PD_PPS");
    device.turn(&mut monitor, 10_500);
    for millis in [20_000, 600_000, 3_600_000] {
        let request = device.turn(&mut monitor, millis);
        assert_eq!(request, Request::Wait { timeout_ms: -1 });
    }
    device.battery = Some("Discharging");
    device.online = Some("0");
    device.verified = Some("0");
    device.usb_type = Some("Unknown");
    let request = device.turn(&mut monitor, 3_700_000);
    assert!(!monitor.tracker.upstream_native_pending);
    assert_eq!(request, Request::Wait { timeout_ms: 1_500 });
}

#[test]
fn activation_ends_the_outage() {
    let mut device = charger("0", "PD", "0000");
    let mut monitor = device.start(0);
    device.turn(&mut monitor, 1_000);
    device.turn(&mut monitor, 4_000);
    device.turn(&mut monitor, 5_000);
    unplug_upstream(&mut device, &mut monitor, 10_000);
    assert_eq!(monitor.tracker.charger_detach_deadline, Some(at(11_500)));

    // PPS is there again when the same turn looks a second time.
    device.step(
        &mut monitor,
        Event::Woken {
            stop: false,
            config: false,
            uevent: false,
        },
        at(11_000),
    );
    while monitor.stage != Stage::RetryUsbType {
        match monitor.request(at(11_000)) {
            Request::Read(node) => {
                let event = device.read(node);
                device.step(&mut monitor, event, at(11_000));
            }
            request => panic!("unexpected {:?}", request),
        }
    }
    device.usb_type = Some("PD_PPS");
    device.settle(&mut monitor, at(11_000));
    assert_eq!(device.writes, vec![true]);
    assert_eq!(monitor.tracker.phase, AutoPhase::EnablingPublic(at(11_500)));
    assert_eq!(monitor.tracker.charger_detach_deadline, None);
}

#[test]
fn outage_without_uevent_is_no_swap() {
    let (mut device, mut monitor) = settled_public();
    device.battery = Some("Discharging");
    device.online = Some("0");
    device.verified = Some("0");
    device.usb_type = Some("Unknown");
    for millis in [10_000, 12_000, 20_000] {
        device.turn(&mut monitor, millis);
    }
    assert!(!monitor.tracker.upstream_native_pending);
    assert_eq!(monitor.tracker.charger_detach_deadline, None);
}

#[test]
fn uevents_count_only_in_an_armed_session() {
    let mut device = charger("0", "PD", "2717");
    let mut monitor = device.start(0);
    device.uevents.push(OFFLINE);
    device.wake(&mut monitor, 100, false, false, true);
    assert!(device.uevents.is_empty());
    assert!(!monitor.tracker.usb_detach_uevent_seen);
    assert_eq!(monitor.tracker.uevent_recheck_deadline, None);
}

#[test]
fn planned_recheck_is_dropped_when_due() {
    let (mut device, mut monitor) = settled_public();
    device.wake(&mut monitor, 10_000, false, false, true);
    assert_eq!(monitor.tracker.uevent_recheck_deadline, Some(at(10_250)));
    device.wake(&mut monitor, 10_100, false, false, true);
    assert_eq!(monitor.tracker.uevent_recheck_deadline, Some(at(10_250)));
    let request = device.turn(&mut monitor, 10_250);
    assert_eq!(monitor.tracker.uevent_recheck_deadline, None);
    assert_eq!(request, Request::Wait { timeout_ms: -1 });
}

#[test]
fn reconfiguration_begins_anew() {
    let (mut device, mut monitor) = settled_public();
    device.mode = ChargingMode::Native;
    device.wake(&mut monitor, 5_000, false, true, true);
    assert_eq!(device.monitored, vec![false]);
    assert_eq!(
        device.notices[device.notices.len() - 2..],
        [
            Notice::UeventMonitoring(false),
            Notice::ModeChanged(ChargingMode::Native),
        ]
    );
    assert_eq!(
        monitor.tracker,
        Tracker::new(ChargingMode::Native, true, at(5_000))
    );
    assert_eq!(device.sessions, vec![STARTED, STOPPED]);

    device.mode = ChargingMode::Automatic;
    device.verified = Some("0");
    device.wake(&mut monitor, 6_000, false, true, false);
    assert_eq!(device.monitored, vec![false, true]);
    let mut expected = Tracker::new(ChargingMode::Automatic, true, at(6_000));
    expected.charging_session_active = true;
    assert_eq!(monitor.tracker, expected);
    assert_eq!(device.sessions, vec![STARTED, STOPPED, STARTED]);
}

#[test]
fn reconfiguration_keeps_a_session_that_goes_on() {
    let (mut device, mut monitor) = settled_public();
    device.mode = ChargingMode::Other;
    device.wake(&mut monitor, 5_000, false, true, false);
    assert!(device.monitored.is_empty());
    assert!(monitor.tracker.charging_session_active);
    assert_eq!(device.sessions, vec![STARTED]);
}

#[test]
fn native_mode_is_left_alone() {
    let mut device = charger("0", "PD_PPS", "0000");
    device.mode = ChargingMode::Native;
    let mut monitor = device.start(0);
    assert!(!monitor.tracker.uevent_registered);
    assert_eq!(device.reads, vec![Node::TypecMode]);
    device.wake(&mut monitor, 100, false, false, true);
    assert_eq!(device.reads, vec![Node::TypecMode, Node::TypecMode]);
    assert!(device.sessions.is_empty());
    assert!(device.writes.is_empty());
}

#[test]
fn session_starts_only_while_charging() {
    let mut device = charger("1", "PD_PPS", "0000");
    device.battery = Some("Discharging");
    let monitor = device.start(0);
    assert!(!monitor.tracker.charging_session_active);
    assert!(device.sessions.is_empty());
}

#[test]
fn unreadable_battery_counts_as_empty() {
    let mut device = charger("1", "PD_PPS", "0000");
    device.battery = None;
    device.online = None;
    let mut monitor = device.start(0);
    device.turn(&mut monitor, 100);
    let request = device.turn(&mut monitor, 200);
    assert_eq!(request, Request::Wait { timeout_ms: -1 });
    assert!(!monitor.tracker.charger_detach_armed);
    assert_eq!(monitor.readings.battery_status, "");
}

#[test]
fn unreadable_svid_is_no_vendor() {
    let mut device = charger("0", "PD_PPS", "0000");
    device.svid = None;
    let mut monitor = device.start(0);
    device.turn(&mut monitor, 1_000);
    assert_eq!(monitor.tracker.phase, AutoPhase::WaitingNative(at(4_000)));
    assert!(device.writes.is_empty());
}

#[test]
fn unreadable_required_nodes_end_the_monitor() {
    let failed = Request::Exit { failed: true };
    let mut device = charger("0", "PD_PPS", "0000");
    device.typec = None;
    let mut monitor = Monitor::new(ChargingMode::Automatic);
    assert_eq!(device.settle(&mut monitor, at(0)), failed);

    let mut device = charger("0", "PD_PPS", "0000");
    let mut monitor = device.start(0);
    device.verified = None;
    assert_eq!(device.turn(&mut monitor, 10), failed);

    let mut device = charger("0", "PD_PPS", "0000");
    let mut monitor = device.start(0);
    device.usb_type = None;
    assert_eq!(device.turn(&mut monitor, 400), failed);
}

#[test]
fn failed_writes_end_the_monitor() {
    let mut device = charger("0", "PD_PPS", "0000");
    let mut monitor = device.start(0);
    device.write_fails = true;
    assert_eq!(
        device.turn(&mut monitor, 400),
        Request::Exit { failed: true }
    );
    assert_eq!(monitor.stage, Stage::Ended { failed: true });
}

#[test]
fn port_is_written_in_the_automatic_mode_only() {
    let mut device = charger("0", "PD_PPS", "0000");
    device.mode = ChargingMode::Other;
    let mut monitor = device.start(0);
    let mut millis: u64 = 0;
    for mode in [
        ChargingMode::Native,
        ChargingMode::Other,
        ChargingMode::Native,
        ChargingMode::Other,
    ] {
        for typec in ["Sink attached", "Nothing attached"] {
            device.typec = Some(typec);
            for _ in 0..6 {
                millis += 1_000;
                device.uevents.push(OFFLINE);
                device.wake(&mut monitor, millis, false, false, true);
            }
        }
        device.mode = mode;
        millis += 1_000;
        device.wake(&mut monitor, millis, false, true, true);
        assert_eq!(device.notices.last(), Some(&Notice::ModeChanged(mode)));
    }
    assert!(device.writes.is_empty());

    device.typec = Some("Sink attached");
    device.mode = ChargingMode::Automatic;
    device.wake(&mut monitor, millis + 1_000, false, true, false);
    device.turn(&mut monitor, millis + 1_400);
    assert_eq!(device.writes, vec![true]);
}

#[test]
fn writes_follow_what_their_turn_read() {
    let mut device = charger("0", "PD_PPS", "0000");
    let mut monitor = device.start(0);
    device.reads.clear();
    device.turn(&mut monitor, 400);
    assert_eq!(device.writes, vec![true]);
    assert_eq!(
        device.reads,
        vec![
            Node::TypecMode,
            Node::PdVerified,
            Node::UsbRealType,
            Node::AdapterSvid,
        ]
    );

    // However often the monitor is woken, the write is repeated once, after its
    // delay.
    for millis in [500, 600, 700, 800, 899] {
        device.uevents.push(OFFLINE);
        device.wake(&mut monitor, millis, false, false, true);
    }
    assert_eq!(device.writes, vec![true]);
    for millis in [900, 901, 1_500, 2_399] {
        device.turn(&mut monitor, millis);
    }
    assert_eq!(device.writes, vec![true, true]);

    let mut device = charger("0", "PD_PPS", "2717");
    let mut monitor = device.start(0);
    device.turn(&mut monitor, 400);
    device.reads.clear();
    device.turn(&mut monitor, 4_000);
    assert_eq!(device.writes, vec![true]);
    assert_eq!(
        device.reads,
        vec![Node::TypecMode, Node::PdVerified, Node::UsbRealType]
    );
}

#[test]
fn wakeups_do_not_shorten_the_native_time() {
    let mut device = charger("0", "PD_PPS", "2717");
    let mut monitor = device.start(1_000);
    let mut millis: u64 = 1_000;
    while millis < 4_990 {
        millis += 10;
        device.uevents.push(OFFLINE);
        device.wake(&mut monitor, millis, false, false, true);
    }
    device.typec = Some("Nothing attached");
    device.turn(&mut monitor, 4_998);
    device.typec = Some("Sink attached");
    device.turn(&mut monitor, 4_999);
    assert!(device.writes.is_empty());
    assert_eq!(monitor.tracker.phase, AutoPhase::WaitingNative(at(5_000)));
    device.turn(&mut monitor, 5_000);
    assert_eq!(device.writes, vec![true]);
}

#[test]
fn stop_and_the_end_of_the_daemon_come_first() {
    let (mut device, mut monitor) = settled_public();
    let reads = device.reads.len();
    assert_eq!(
        device.wake(&mut monitor, 5_000, true, true, true),
        Request::Exit { failed: false }
    );
    assert_eq!(device.reads.len(), reads);

    let (mut device, mut monitor) = settled_public();
    device.step(&mut monitor, Event::NotRunning, at(5_000));
    assert_eq!(
        device.settle(&mut monitor, at(5_000)),
        Request::Exit { failed: false }
    );
}

#[test]
fn failed_waits_are_repeated() {
    let (mut device, mut monitor) = settled_public();
    let count = device.notices.len();
    device.step(
        &mut monitor,
        Event::WaitFailed { transient: true },
        at(5_000),
    );
    assert_eq!(monitor.request(at(5_000)), Request::Wait { timeout_ms: -1 });
    assert_eq!(device.notices.len(), count);
    device.step(
        &mut monitor,
        Event::WaitFailed { transient: false },
        at(5_000),
    );
    assert_eq!(device.notices.last(), Some(&Notice::WaitFailed));
    assert_eq!(
        monitor.request(at(5_000)),
        Request::Pause { millis: 1_000 }
    );
    assert_eq!(
        device.settle(&mut monitor, at(6_000)),
        Request::Wait { timeout_ms: -1 }
    );
}

#[test]
fn stray_answers_are_ignored() {
    let (mut device, mut monitor) = settled_public();
    let before = monitor.tracker;
    let notices = device.notices.len();
    for event in [
        Event::Content("1".to_string()),
        Event::Done,
        Event::Failed,
        Event::Mode(ChargingMode::Native),
        Event::Uevent(OFFLINE.to_vec()),
        Event::Drained,
    ] {
        device.step(&mut monitor, event, at(9_000));
    }
    assert_eq!(monitor.tracker, before);
    assert_eq!(monitor.stage, Stage::Waiting);
    assert_eq!(device.notices.len(), notices);
}

#[test]
fn settled_session_is_read_in_order() {
    let (mut device, mut monitor) = settled_public();
    device.reads.clear();
    device.turn(&mut monitor, 5_000);
    assert_eq!(
        device.reads,
        vec![
            Node::TypecMode,
            Node::PdVerified,
            Node::UsbRealType,
            Node::BatteryStatus,
            Node::UsbOnline,
        ]
    );
}

#[test]
fn required_nodes_are_the_three_without_default() {
    assert!(Node::TypecMode.required());
    assert!(Node::PdVerified.required());
    assert!(Node::UsbRealType.required());
    assert!(!Node::BatteryStatus.required());
    assert!(!Node::UsbOnline.required());
    assert!(!Node::AdapterSvid.required());
}

#[test]
fn sessions_are_published_as_they_change() {
    let mut active = false;
    assert_eq!(start_charging_session(&mut active), Some(STARTED));
    assert!(active);
    assert_eq!(start_charging_session(&mut active), None);
    assert!(active);
    assert_eq!(stop_charging_session(&mut active), STOPPED);
    assert!(!active);
    assert_eq!(stop_charging_session(&mut active), STOPPED);
}

#[test]
fn modes_decide_about_uevents() {
    assert!(!ChargingMode::Native.monitors_uevents());
    assert!(ChargingMode::Automatic.monitors_uevents());
    assert!(ChargingMode::Other.monitors_uevents());
}
