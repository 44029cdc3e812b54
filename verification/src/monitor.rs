//! The monitor as a machine that asks for one thing at a time. Its caller
//! performs what [`Monitor::request`] asks for and hands the answer to
//! [`Monitor::step`], together with a reading of the clock that was taken after
//! the answer came.

use vstd::prelude::*;

use crate::clock::Instant;
use crate::clock::{
    PUBLIC_REASSERT_DELAY_MS, PUBLIC_VERIFY_DELAY_MS, UEVENT_RECHECK_MS, WAIT_FAILURE_PAUSE_MS,
};
use crate::phase::{epoll_timeout, AutoPhase};
use crate::readings::{Node, Readings, ReadingsView};
use crate::report::{Notice, Outcome};
use crate::rules::is_attached;
use crate::session::SessionUpdate;
use crate::tracker::{AttachmentChange, ChargingMode, PhaseWork, Tracker};

verus! {

/// What the monitor waits for.
#[derive(Clone, Copy, PartialEq, Eq, Structural, Debug)]
pub enum Stage {
    /// The port's state at the start.
    InitialAttachment,
    /// The battery's state at the start.
    InitialBattery,
    /// Something to happen.
    Waiting,
    /// The end of the pause after a failed wait.
    Pausing,
    /// The stop event to be cleared.
    Stopping,
    /// The configured mode.
    TakingMode { uevent_ready: bool },
    /// The monitoring of uevents to be switched for the new mode.
    SwitchingUevents { mode: ChargingMode, uevent_ready: bool },
    /// The port's state under the new mode.
    ConfiguredAttachment { uevent_ready: bool },
    /// The next queued uevent.
    Draining,
    /// The port's state.
    Attachment,
    /// The port to be unverified after a detachment.
    ResettingVerified,
    /// The nodes of a settled session, one after the other.
    SettledVerified,
    SettledUsbType,
    SettledBattery,
    SettledOnline,
    /// The nodes of an identification, one after the other.
    IdentifyVerified,
    IdentifyUsbType,
    IdentifySvid,
    /// The nodes of a native negotiation, one after the other.
    NativeVerified,
    NativeUsbType,
    /// The port to be verified, to enable public PPS.
    Enabling,
    /// The port to be verified once more.
    Reasserting,
    /// The nodes of a verification, one after the other.
    VerifyVerified,
    VerifyUsbType,
    /// The nodes of a retry, one after the other.
    RetryVerified,
    RetryUsbType,
    /// Nothing any more.
    Ended { failed: bool },
}

/// What the monitor asks for.
#[derive(Clone, Copy, PartialEq, Eq, Structural, Debug)]
pub enum Request {
    /// Read a node. Answered by [`Event::Content`] or [`Event::Failed`].
    Read(Node),
    /// Write the verification of the port. Answered by [`Event::Done`] or
    /// [`Event::Failed`].
    SetPdVerified(bool),
    /// Unless the daemon stops running, wait for an event, at most so many
    /// milliseconds, or without limit where the timeout is negative. Answered by
    /// [`Event::NotRunning`], [`Event::Woken`] or [`Event::WaitFailed`].
    Wait { timeout_ms: i32 },
    /// Sleep. Answered by [`Event::Done`].
    Pause { millis: u64 },
    /// Clear the stop event. Answered by [`Event::Done`] or [`Event::Failed`].
    ClearStop,
    /// Clear the configuration event and load the mode. Answered by
    /// [`Event::Mode`] or [`Event::Failed`].
    TakeMode,
    /// Switch the monitoring of uevents. Answered by [`Event::Done`] or
    /// [`Event::Failed`].
    MonitorUevents(bool),
    /// Take a queued uevent, without waiting for one. Answered by
    /// [`Event::Uevent`] or [`Event::Drained`].
    ReceiveUevent,
    /// Leave, with the error of the failed request where there is one.
    Exit { failed: bool },
}

/// What a request is answered with.
#[derive(Debug)]
pub enum Event {
    /// The content of the node.
    Content(String),
    /// It is done.
    Done,
    /// It failed.
    Failed,
    /// The daemon stops running.
    NotRunning,
    /// The wait is over, because these are ready or because time is up.
    Woken { stop: bool, config: bool, uevent: bool },
    /// The wait failed. A transient failure calls for nothing but another wait.
    WaitFailed { transient: bool },
    /// The configured mode.
    Mode(ChargingMode),
    /// A uevent's bytes.
    Uevent(Vec<u8>),
    /// No uevent is queued.
    Drained,
}

/// What the node that is to be read belongs to.
#[derive(Clone, Copy, PartialEq, Eq, Structural, Debug)]
pub enum Subject {
    Port,
    Settled,
    Identification,
    Native,
    Public,
    Nothing,
}

impl Stage {
    /// What the node that is to be read belongs to.
    pub open spec fn subject_spec(self) -> Subject {
        match self {
            Stage::InitialAttachment
            | Stage::InitialBattery
            | Stage::ConfiguredAttachment { .. }
            | Stage::Attachment => Subject::Port,
            Stage::SettledVerified
            | Stage::SettledUsbType
            | Stage::SettledBattery
            | Stage::SettledOnline => Subject::Settled,
            Stage::IdentifyVerified
            | Stage::IdentifyUsbType
            | Stage::IdentifySvid => Subject::Identification,
            Stage::NativeVerified | Stage::NativeUsbType => Subject::Native,
            Stage::VerifyVerified
            | Stage::VerifyUsbType
            | Stage::RetryVerified
            | Stage::RetryUsbType => Subject::Public,
            _ => Subject::Nothing,
        }
    }

    /// What the node that is to be read belongs to.
    #[verifier::when_used_as_spec(subject_spec)]
    pub fn subject(self) -> (subject: Subject)
        ensures
            subject == self.subject_spec(),
    {
        match self {
            Stage::InitialAttachment
            | Stage::InitialBattery
            | Stage::ConfiguredAttachment { .. }
            | Stage::Attachment => Subject::Port,
            Stage::SettledVerified
            | Stage::SettledUsbType
            | Stage::SettledBattery
            | Stage::SettledOnline => Subject::Settled,
            Stage::IdentifyVerified
            | Stage::IdentifyUsbType
            | Stage::IdentifySvid => Subject::Identification,
            Stage::NativeVerified | Stage::NativeUsbType => Subject::Native,
            Stage::VerifyVerified
            | Stage::VerifyUsbType
            | Stage::RetryVerified
            | Stage::RetryUsbType => Subject::Public,
            _ => Subject::Nothing,
        }
    }

    /// The node that is to be read, if it is one that the stage waits for.
    pub open spec fn node_spec(self) -> Option<Node> {
        match self {
            Stage::InitialAttachment => Some(Node::TypecMode),
            Stage::ConfiguredAttachment { .. } => Some(Node::TypecMode),
            Stage::Attachment => Some(Node::TypecMode),
            Stage::InitialBattery => Some(Node::BatteryStatus),
            Stage::SettledBattery => Some(Node::BatteryStatus),
            Stage::SettledOnline => Some(Node::UsbOnline),
            Stage::SettledVerified => Some(Node::PdVerified),
            Stage::IdentifyVerified => Some(Node::PdVerified),
            Stage::NativeVerified => Some(Node::PdVerified),
            Stage::VerifyVerified => Some(Node::PdVerified),
            Stage::RetryVerified => Some(Node::PdVerified),
            Stage::SettledUsbType => Some(Node::UsbRealType),
            Stage::IdentifyUsbType => Some(Node::UsbRealType),
            Stage::NativeUsbType => Some(Node::UsbRealType),
            Stage::VerifyUsbType => Some(Node::UsbRealType),
            Stage::RetryUsbType => Some(Node::UsbRealType),
            Stage::IdentifySvid => Some(Node::AdapterSvid),
            _ => None,
        }
    }

    /// The node that is to be read, if it is one that the stage waits for.
    #[verifier::when_used_as_spec(node_spec)]
    pub fn node(self) -> (node: Option<Node>)
        ensures
            node == self.node_spec(),
    {
        match self {
            Stage::InitialAttachment | Stage::ConfiguredAttachment { .. } | Stage::Attachment => {
                Some(Node::TypecMode)
            },
            Stage::InitialBattery | Stage::SettledBattery => Some(Node::BatteryStatus),
            Stage::SettledOnline => Some(Node::UsbOnline),
            Stage::SettledVerified
            | Stage::IdentifyVerified
            | Stage::NativeVerified
            | Stage::VerifyVerified
            | Stage::RetryVerified => Some(Node::PdVerified),
            Stage::SettledUsbType
            | Stage::IdentifyUsbType
            | Stage::NativeUsbType
            | Stage::VerifyUsbType
            | Stage::RetryUsbType => Some(Node::UsbRealType),
            Stage::IdentifySvid => Some(Node::AdapterSvid),
            _ => None,
        }
    }

    /// Whether the monitor cannot go on where what it waits for fails.
    pub open spec fn fails_spec(self) -> bool {
        match self {
            Stage::Stopping => true,
            Stage::TakingMode { .. } => true,
            Stage::SwitchingUevents { .. } => true,
            Stage::ResettingVerified => true,
            Stage::Enabling => true,
            Stage::Reasserting => true,
            _ => self.node() matches Some(node) && node.required(),
        }
    }

    /// Whether the monitor cannot go on where what it waits for fails.
    #[verifier::when_used_as_spec(fails_spec)]
    pub fn fails(self) -> (fails: bool)
        ensures
            fails == self.fails_spec(),
    {
        match self {
            Stage::Stopping
            | Stage::TakingMode { .. }
            | Stage::SwitchingUevents { .. }
            | Stage::ResettingVerified
            | Stage::Enabling
            | Stage::Reasserting => true,
            _ => match self.node() {
                Some(node) => node.required(),
                None => false,
            },
        }
    }
}

/// The monitor: what it knows, what it last read and what it waits for.
#[derive(Debug)]
pub struct Monitor {
    pub tracker: Tracker,
    pub readings: Readings,
    pub stage: Stage,
}

/// [`Monitor`] with its readings as character sequences.
pub struct MonitorView {
    pub tracker: Tracker,
    pub readings: ReadingsView,
    pub stage: Stage,
}

impl View for Monitor {
    type V = MonitorView;

    open spec fn view(&self) -> MonitorView {
        MonitorView { tracker: self.tracker, readings: self.readings@, stage: self.stage }
    }
}

impl MonitorView {
    /// The monitor before it has seen anything.
    pub open spec fn initial(mode: ChargingMode) -> MonitorView {
        MonitorView {
            tracker: Tracker::fresh(mode, false, Instant { nanos: 0 }),
            readings: ReadingsView::none(),
            stage: Stage::InitialAttachment,
        }
    }

    /// What holds of every monitor whose last event came at `time`.
    pub open spec fn wf(self, time: Instant) -> bool {
        let t = self.tracker;
        match self.stage {
            Stage::InitialAttachment => t == Tracker::fresh(t.mode, false, Instant { nanos: 0 }),
            Stage::InitialBattery => t.steady() && t.attached && t.mode.monitors_uevents(),
            Stage::SwitchingUevents { mode, .. } => t.steady() && mode.monitors_uevents()
                != t.uevent_registered,
            Stage::ConfiguredAttachment { .. } => t.wf(),
            Stage::ResettingVerified => t.wf() && t.mode is Automatic && !t.attached,
            Stage::SettledVerified => t.steady() && t.phase is Settled,
            Stage::SettledUsbType => t.steady() && t.phase is Settled,
            Stage::SettledBattery => t.steady() && t.phase is Settled,
            Stage::SettledOnline => t.steady() && t.phase is Settled,
            Stage::IdentifyVerified => t.steady() && t.phase is IdentifyingPublic,
            Stage::IdentifyUsbType => t.steady() && t.identity_due(time)
                && !self.readings.is_verified(),
            Stage::IdentifySvid => t.steady() && t.identity_due(time)
                && !self.readings.is_verified(),
            Stage::NativeVerified => t.steady() && t.phase is WaitingNative,
            Stage::NativeUsbType => t.steady() && t.native_overdue(time)
                && !self.readings.is_verified(),
            Stage::Enabling => t.steady() && t.watching() && t.public_retry_attempted
                && !t.upstream_native_pending && t.charger_detach_deadline is None,
            Stage::Reasserting => t.steady() && t.phase is EnablingPublic,
            Stage::VerifyVerified => t.steady() && t.phase is VerifyingPublic,
            Stage::VerifyUsbType => t.steady() && t.phase is VerifyingPublic,
            Stage::RetryVerified => t.steady() && t.phase is Settled && !t.public_retry_attempted,
            Stage::RetryUsbType => t.steady() && t.phase is Settled && !t.public_retry_attempted,
            Stage::Ended { .. } => t.wf(),
            _ => t.steady(),
        }
    }

    /// The same monitor, waiting for something else.
    pub open spec fn at(self, stage: Stage) -> MonitorView {
        MonitorView { stage, ..self }
    }

    /// The same monitor, knowing something else.
    pub open spec fn knowing(self, tracker: Tracker) -> MonitorView {
        MonitorView { tracker, ..self }
    }

    /// The same monitor, with something else read.
    pub open spec fn having_read(self, readings: ReadingsView) -> MonitorView {
        MonitorView { readings, ..self }
    }

    /// What is asked for.
    pub open spec fn request(self, now: Instant) -> Request {
        match self.stage {
            Stage::Waiting => Request::Wait { timeout_ms: self.timeout(now) as i32 },
            Stage::Pausing => Request::Pause { millis: WAIT_FAILURE_PAUSE_MS },
            Stage::Stopping => Request::ClearStop,
            Stage::TakingMode { .. } => Request::TakeMode,
            Stage::SwitchingUevents { mode, .. } => Request::MonitorUevents(
                mode.monitors_uevents(),
            ),
            Stage::Draining => Request::ReceiveUevent,
            Stage::ResettingVerified => Request::SetPdVerified(false),
            Stage::Enabling => Request::SetPdVerified(true),
            Stage::Reasserting => Request::SetPdVerified(true),
            Stage::Ended { failed } => Request::Exit { failed },
            _ => Request::Read(self.stage.node()->0),
        }
    }

    /// The deadline that is due first.
    pub open spec fn next_deadline(self) -> Option<Instant> {
        crate::phase::earlier_deadline_spec(
            crate::phase::earlier_deadline_spec(
                self.tracker.phase.deadline(),
                self.tracker.detach_deadline,
            ),
            crate::phase::earlier_deadline_spec(
                self.tracker.uevent_recheck_deadline,
                self.tracker.charger_detach_deadline,
            ),
        )
    }

    /// How long a wait may last.
    pub open spec fn timeout(self, now: Instant) -> int {
        crate::phase::timeout_until(self.next_deadline(), now)
    }

    /// Turns to the port, once every uevent was taken. A plan to read the nodes
    /// once more that is due has thereby served its purpose.
    pub open spec fn to_port(self, now: Instant) -> MonitorView {
        self.knowing(
            Tracker {
                uevent_recheck_deadline: if self.tracker.uevent_recheck_deadline matches Some(
                    deadline,
                ) && now.reached(deadline) {
                    None
                } else {
                    self.tracker.uevent_recheck_deadline
                },
                ..self.tracker
            },
        ).at(Stage::Attachment)
    }

    /// Turns to the queued uevents where they are monitored and ready, else to
    /// the port.
    pub open spec fn to_uevents(self, uevent_ready: bool, now: Instant) -> MonitorView {
        if self.tracker.uevent_registered && uevent_ready {
            self.at(Stage::Draining)
        } else {
            self.to_port(now)
        }
    }

    /// Turns to what the phase calls for.
    pub open spec fn to_phase(self, now: Instant) -> MonitorView {
        self.at(
            match self.tracker.phase_work_spec(now) {
                PhaseWork::Nothing => Stage::Waiting,
                PhaseWork::Identify => Stage::IdentifyVerified,
                PhaseWork::AwaitNative => Stage::NativeVerified,
                PhaseWork::Reassert => Stage::Reasserting,
                PhaseWork::Verify => Stage::VerifyVerified,
                PhaseWork::Retry => Stage::RetryVerified,
            },
        )
    }

    /// Turns to the negotiation: back to waiting where none is watched, to the
    /// charger's nodes where it is settled, and else to what the phase calls for.
    pub open spec fn to_negotiation(self, now: Instant) -> MonitorView {
        if !self.tracker.watching() {
            self.knowing(self.tracker.upstream_forgotten()).at(Stage::Waiting)
        } else if self.tracker.phase is Settled {
            self.at(Stage::SettledVerified)
        } else {
            self.to_phase(now)
        }
    }

    /// The port was read, or the battery at the start.
    pub open spec fn after_port(self, text: Seq<char>, now: Instant) -> MonitorView {
        let t = self.tracker;
        let attached = text != "Nothing attached"@;
        match self.stage {
            Stage::InitialAttachment => self.knowing(Tracker::fresh(t.mode, attached, now)).at(
                if t.mode.monitors_uevents() && attached {
                    Stage::InitialBattery
                } else {
                    Stage::Waiting
                },
            ),
            Stage::InitialBattery => self.knowing(
                Tracker {
                    charging_session_active: t.charging_session_active || text == "Charging"@,
                    ..t
                },
            ).at(Stage::Waiting),
            Stage::ConfiguredAttachment { uevent_ready } => self.knowing(
                Tracker::reconfigured(t.mode, attached, now),
            ).to_uevents(uevent_ready, now),
            Stage::Attachment => {
                let seen = self.knowing(t.after_attachment(attached, now));
                if !(t.attachment_change(attached, now) is Detached) {
                    seen.to_negotiation(now)
                } else if t.mode is Automatic {
                    seen.at(Stage::ResettingVerified)
                } else {
                    seen.knowing(seen.tracker.detached()).to_negotiation(now)
                }
            },
            _ => self,
        }
    }

    /// A node of a settled session was read.
    pub open spec fn after_settled(self, text: Seq<char>, now: Instant) -> MonitorView {
        let r = self.readings;
        match self.stage {
            Stage::SettledVerified => self.having_read(ReadingsView { verified: text, ..r }).at(
                Stage::SettledUsbType,
            ),
            Stage::SettledUsbType => self.having_read(ReadingsView { usb_type: text, ..r }).at(
                Stage::SettledBattery,
            ),
            Stage::SettledBattery => self.having_read(
                ReadingsView { battery_status: text, ..r },
            ).at(Stage::SettledOnline),
            Stage::SettledOnline => {
                let read = self.having_read(ReadingsView { usb_online: text, ..r });
                read.knowing(self.tracker.after_settled(read.readings, now)).to_phase(now)
            },
            _ => self,
        }
    }

    /// A node of an identification was read.
    pub open spec fn after_identification(self, text: Seq<char>, now: Instant) -> MonitorView {
        let r = self.readings;
        let t = self.tracker;
        match self.stage {
            Stage::IdentifyVerified => {
                let read = self.having_read(ReadingsView { verified: text, ..r });
                if read.readings.is_verified() {
                    read.knowing(t.settled()).at(Stage::Waiting)
                } else if t.identity_due(now) {
                    read.at(Stage::IdentifyUsbType)
                } else {
                    read.at(Stage::Waiting)
                }
            },
            Stage::IdentifyUsbType => self.having_read(ReadingsView { usb_type: text, ..r }).at(
                Stage::IdentifySvid,
            ),
            Stage::IdentifySvid => {
                let read = self.having_read(ReadingsView { adapter_svid: text, ..r });
                read.knowing(t.after_identity(read.readings, now)).at(
                    if t.phase is IdentifyingPublic && t.enables_early(read.readings) {
                        Stage::Enabling
                    } else {
                        Stage::Waiting
                    },
                )
            },
            _ => self,
        }
    }

    /// A node of a native negotiation was read.
    pub open spec fn after_native(self, text: Seq<char>, now: Instant) -> MonitorView {
        let r = self.readings;
        let t = self.tracker;
        match self.stage {
            Stage::NativeVerified => {
                let read = self.having_read(ReadingsView { verified: text, ..r });
                if read.readings.is_verified() {
                    read.knowing(t.settled()).at(Stage::Waiting)
                } else if t.native_overdue(now) {
                    read.at(Stage::NativeUsbType)
                } else {
                    read.at(Stage::Waiting)
                }
            },
            Stage::NativeUsbType => {
                let read = self.having_read(ReadingsView { usb_type: text, ..r });
                if t.falls_back(read.readings) {
                    read.knowing(t.attempting()).at(Stage::Enabling)
                } else {
                    read.knowing(t.settled()).at(Stage::Waiting)
                }
            },
            _ => self,
        }
    }

    /// A node of a verification or of a retry was read.
    pub open spec fn after_public(self, text: Seq<char>) -> MonitorView {
        let r = self.readings;
        let t = self.tracker;
        match self.stage {
            Stage::VerifyVerified => self.having_read(ReadingsView { verified: text, ..r }).at(
                Stage::VerifyUsbType,
            ),
            Stage::VerifyUsbType => {
                let read = self.having_read(ReadingsView { usb_type: text, ..r });
                read.knowing(t.after_verification(read.readings)).at(Stage::Waiting)
            },
            Stage::RetryVerified => self.having_read(ReadingsView { verified: text, ..r }).at(
                Stage::RetryUsbType,
            ),
            Stage::RetryUsbType => {
                let read = self.having_read(ReadingsView { usb_type: text, ..r });
                if t.retries(read.readings) {
                    read.knowing(t.attempting()).at(Stage::Enabling)
                } else {
                    read.at(Stage::Waiting)
                }
            },
            _ => self,
        }
    }

    /// The node that the monitor waits for was read.
    #[verifier::opaque]
    pub open spec fn after_reading(self, text: Seq<char>, now: Instant) -> MonitorView {
        match self.stage.subject() {
            Subject::Port => self.after_port(text, now),
            Subject::Settled => self.after_settled(text, now),
            Subject::Identification => self.after_identification(text, now),
            Subject::Native => self.after_native(text, now),
            Subject::Public => self.after_public(text),
            Subject::Nothing => self,
        }
    }

    /// What a reading of the port has to publish and to log.
    pub open spec fn port_outcome(self, text: Seq<char>, now: Instant) -> Outcome {
        let t = self.tracker;
        let attached = text != "Nothing attached"@;
        match self.stage {
            Stage::InitialBattery => Outcome {
                session: if text == "Charging"@ && !t.charging_session_active {
                    Some(SessionUpdate::started())
                } else {
                    None
                },
                notice: None,
            },
            Stage::ConfiguredAttachment { .. } => Outcome {
                session: if !(t.mode.monitors_uevents() && attached) {
                    Some(SessionUpdate::stopped())
                } else if t.charging_session_active {
                    None
                } else {
                    Some(SessionUpdate::started())
                },
                notice: Some(Notice::ModeChanged(t.mode)),
            },
            Stage::Attachment => if t.attachment_change(attached, now) is Detached && !(
            t.mode is Automatic) {
                Outcome { session: Some(SessionUpdate::stopped()), notice: None }
            } else {
                t.attachment_outcome(attached, now)
            },
            _ => Outcome::quiet(),
        }
    }

    /// What a reading has to log that changes no session.
    pub open spec fn reading_notice(self, text: Seq<char>, now: Instant) -> Option<Notice> {
        let r = self.readings;
        let t = self.tracker;
        match self.stage {
            Stage::SettledOnline => t.settled_notice(ReadingsView { usb_online: text, ..r }, now),
            Stage::IdentifyVerified => if text == "1"@ {
                Some(Notice::NativeVerified)
            } else {
                None
            },
            Stage::IdentifySvid => t.identity_notice(ReadingsView { adapter_svid: text, ..r }),
            Stage::NativeVerified => if text == "1"@ {
                Some(Notice::NativeVerified)
            } else {
                None
            },
            Stage::NativeUsbType => if t.falls_back(ReadingsView { usb_type: text, ..r }) {
                Some(Notice::PublicFallback)
            } else {
                Some(Notice::NotForced)
            },
            Stage::VerifyUsbType => if r.is_verified() && text == "PD_PPS"@ {
                Some(Notice::PublicConfirmed)
            } else {
                Some(Notice::PublicNotConfirmed)
            },
            Stage::RetryUsbType => if t.retries(ReadingsView { usb_type: text, ..r }) {
                Some(Notice::PublicAppeared)
            } else {
                None
            },
            _ => None,
        }
    }

    /// What a reading has to publish and to log.
    pub open spec fn reading_outcome(self, text: Seq<char>, now: Instant) -> Outcome {
        if self.stage.subject() is Port {
            self.port_outcome(text, now)
        } else {
            Outcome { session: None, notice: self.reading_notice(text, now) }
        }
    }

    /// What the monitor asked for was done.
    pub open spec fn after_done(self, now: Instant) -> MonitorView {
        let t = self.tracker;
        match self.stage {
            Stage::Pausing => self.at(Stage::Waiting),
            Stage::Stopping => self.at(Stage::Ended { failed: false }),
            Stage::SwitchingUevents { mode, uevent_ready } => self.knowing(
                Tracker { mode, uevent_registered: mode.monitors_uevents(), ..t },
            ).at(Stage::ConfiguredAttachment { uevent_ready }),
            Stage::ResettingVerified => self.knowing(t.detached()).to_negotiation(now),
            Stage::Enabling => self.knowing(
                Tracker {
                    phase: AutoPhase::EnablingPublic(now.after(PUBLIC_REASSERT_DELAY_MS)),
                    ..t
                },
            ).at(Stage::Waiting),
            Stage::Reasserting => self.knowing(
                Tracker {
                    phase: AutoPhase::VerifyingPublic(now.after(PUBLIC_VERIFY_DELAY_MS)),
                    ..t
                },
            ).at(Stage::Waiting),
            _ => self,
        }
    }

    /// What has to be published and logged when what the monitor asked for was
    /// done.
    pub open spec fn done_outcome(self) -> Outcome {
        match self.stage {
            Stage::SwitchingUevents { mode, .. } => Outcome::noticed(
                Notice::UeventMonitoring(mode.monitors_uevents()),
            ),
            Stage::ResettingVerified => Outcome {
                session: Some(SessionUpdate::stopped()),
                notice: Some(Notice::Detached),
            },
            Stage::Reasserting => Outcome::noticed(Notice::PublicReasserted),
            _ => Outcome::quiet(),
        }
    }

    /// A wait is over. A stop comes before everything else, a reconfiguration
    /// before uevents.
    pub open spec fn after_woken(
        self,
        stop: bool,
        config: bool,
        uevent: bool,
        now: Instant,
    ) -> MonitorView {
        if !(self.stage is Waiting) {
            self
        } else if stop {
            self.at(Stage::Stopping)
        } else if config {
            self.at(Stage::TakingMode { uevent_ready: uevent })
        } else {
            self.to_uevents(uevent, now)
        }
    }

    /// The configured mode is there.
    pub open spec fn after_mode(self, mode: ChargingMode) -> MonitorView {
        match self.stage {
            Stage::TakingMode { uevent_ready } => if mode.monitors_uevents()
                != self.tracker.uevent_registered {
                self.at(Stage::SwitchingUevents { mode, uevent_ready })
            } else {
                self.knowing(Tracker { mode, ..self.tracker }).at(
                    Stage::ConfiguredAttachment { uevent_ready },
                )
            },
            _ => self,
        }
    }

    /// A queued uevent was taken.
    pub open spec fn after_uevent(self, data: Seq<u8>) -> MonitorView {
        if self.stage is Draining {
            self.knowing(
                Tracker {
                    usb_detach_uevent_seen: self.tracker.usb_detach_uevent_seen || (
                    self.tracker.capturing() && crate::uevent::usb_offline(data)),
                    ..self.tracker
                },
            )
        } else {
            self
        }
    }

    /// Every queued uevent was taken.
    pub open spec fn after_drained(self, now: Instant) -> MonitorView {
        let t = self.tracker;
        if self.stage is Draining {
            self.knowing(
                Tracker {
                    uevent_recheck_deadline: if t.capturing() && t.uevent_recheck_deadline is None {
                        Some(now.after(UEVENT_RECHECK_MS))
                    } else {
                        t.uevent_recheck_deadline
                    },
                    ..t
                },
            ).to_port(now)
        } else {
            self
        }
    }

    /// The monitor after an event. One that does not answer what the monitor
    /// waits for changes nothing.
    pub open spec fn next(self, event: Event, now: Instant) -> MonitorView {
        match event {
            Event::Content(text) => self.after_reading(text@, now),
            Event::Failed => if self.stage.fails() {
                self.at(Stage::Ended { failed: true })
            } else {
                self.after_reading(Seq::empty(), now)
            },
            Event::Done => self.after_done(now),
            Event::NotRunning => if self.stage is Waiting {
                self.at(Stage::Ended { failed: false })
            } else {
                self
            },
            Event::Woken { stop, config, uevent } => self.after_woken(stop, config, uevent, now),
            Event::WaitFailed { transient } => if self.stage is Waiting && !transient {
                self.at(Stage::Pausing)
            } else {
                self
            },
            Event::Mode(mode) => self.after_mode(mode),
            Event::Uevent(data) => self.after_uevent(data@),
            Event::Drained => self.after_drained(now),
        }
    }

    /// What an event has to publish and to log.
    pub open spec fn outcome(self, event: Event, now: Instant) -> Outcome {
        match event {
            Event::Content(text) => self.reading_outcome(text@, now),
            Event::Failed => if self.stage.fails() {
                Outcome::quiet()
            } else {
                self.reading_outcome(Seq::empty(), now)
            },
            Event::Done => self.done_outcome(),
            Event::WaitFailed { transient } => if self.stage is Waiting && !transient {
                Outcome::noticed(Notice::WaitFailed)
            } else {
                Outcome::quiet()
            },
            _ => Outcome::quiet(),
        }
    }
}

impl Monitor {
    /// The monitor of a daemon in `mode`, before it has seen anything. Uevents
    /// are to be monitored from the start where the mode calls for it.
    pub fn new(mode: ChargingMode) -> (monitor: Monitor)
        ensures
            monitor@ == MonitorView::initial(mode),
            forall|time: Instant| #[trigger] monitor@.wf(time),
    {
        Monitor {
            tracker: Tracker::new(mode, false, Instant { nanos: 0 }),
            readings: Readings::new(),
            stage: Stage::InitialAttachment,
        }
    }

    /// What the monitor asks for at `now`.
    pub fn request(&self, now: Instant) -> (request: Request)
        ensures
            request == self@.request(now),
    {
        match self.stage {
            Stage::Waiting => {
                let timeout_ms = epoll_timeout(
                    self.tracker.phase,
                    self.tracker.detach_deadline,
                    self.tracker.uevent_recheck_deadline,
                    self.tracker.charger_detach_deadline,
                    now,
                );
                Request::Wait { timeout_ms }
            },
            Stage::Pausing => Request::Pause { millis: WAIT_FAILURE_PAUSE_MS },
            Stage::Stopping => Request::ClearStop,
            Stage::TakingMode { .. } => Request::TakeMode,
            Stage::SwitchingUevents { mode, .. } => Request::MonitorUevents(
                mode.monitors_uevents(),
            ),
            Stage::Draining => Request::ReceiveUevent,
            Stage::ResettingVerified => Request::SetPdVerified(false),
            Stage::Enabling | Stage::Reasserting => Request::SetPdVerified(true),
            Stage::Ended { failed } => Request::Exit { failed },
            _ => match self.stage.node() {
                Some(node) => Request::Read(node),
                None => Request::Exit { failed: true },
            },
        }
    }

    /// Turns to the port.
    fn to_port(&mut self, now: Instant)
        ensures
            final(self)@ == old(self)@.to_port(now),
    {
        self.tracker.expire_recheck(now);
        self.stage = Stage::Attachment;
    }

    /// Turns to the queued uevents, or to the port.
    fn to_uevents(&mut self, uevent_ready: bool, now: Instant)
        ensures
            final(self)@ == old(self)@.to_uevents(uevent_ready, now),
    {
        if self.tracker.uevent_registered && uevent_ready {
            self.stage = Stage::Draining;
        } else {
            self.to_port(now);
        }
    }

    /// Turns to what the phase calls for.
    fn to_phase(&mut self, now: Instant)
        ensures
            final(self)@ == old(self)@.to_phase(now),
    {
        self.stage = match self.tracker.phase_work(now) {
            PhaseWork::Nothing => Stage::Waiting,
            PhaseWork::Identify => Stage::IdentifyVerified,
            PhaseWork::AwaitNative => Stage::NativeVerified,
            PhaseWork::Reassert => Stage::Reasserting,
            PhaseWork::Verify => Stage::VerifyVerified,
            PhaseWork::Retry => Stage::RetryVerified,
        };
    }

    /// Turns to the negotiation.
    fn to_negotiation(&mut self, now: Instant)
        ensures
            final(self)@ == old(self)@.to_negotiation(now),
    {
        if !self.tracker.keep_watching() {
            self.stage = Stage::Waiting;
        } else if matches!(self.tracker.phase, AutoPhase::Settled) {
            self.stage = Stage::SettledVerified;
        } else {
            self.to_phase(now);
        }
    }

    /// Takes a reading of the port, or of the battery at the start.
    fn on_port(&mut self, text: String, now: Instant) -> (outcome: Outcome)
        requires
            now.can_schedule(),
        ensures
            final(self)@ == old(self)@.after_port(text@, now),
            outcome == old(self)@.port_outcome(text@, now),
    {
        match self.stage {
            Stage::InitialAttachment => {
                let attached = is_attached(text.as_str());
                self.tracker = Tracker::new(self.tracker.mode, attached, now);
                self.stage = if self.tracker.uevent_registered && attached {
                    Stage::InitialBattery
                } else {
                    Stage::Waiting
                };
                Outcome::quiet()
            },
            Stage::InitialBattery => {
                let session = self.tracker.start_initial_session(text.as_str());
                self.stage = Stage::Waiting;
                Outcome { session, notice: None }
            },
            Stage::ConfiguredAttachment { uevent_ready } => {
                let attached = is_attached(text.as_str());
                let session = self.tracker.reconfigure(self.tracker.mode, attached, now);
                let mode = self.tracker.mode;
                self.to_uevents(uevent_ready, now);
                Outcome { session, notice: Some(Notice::ModeChanged(mode)) }
            },
            Stage::Attachment => {
                let attached = is_attached(text.as_str());
                let (change, outcome) = self.tracker.observe_attachment(attached, now);
                if change != AttachmentChange::Detached {
                    self.to_negotiation(now);
                    outcome
                } else if self.tracker.mode == ChargingMode::Automatic {
                    self.stage = Stage::ResettingVerified;
                    outcome
                } else {
                    let session = self.tracker.finish_detach();
                    self.to_negotiation(now);
                    Outcome { session: Some(session), notice: None }
                }
            },
            _ => Outcome::quiet(),
        }
    }

    /// Takes a node of a settled session.
    fn on_settled(&mut self, text: String, now: Instant) -> (outcome: Outcome)
        requires
            now.can_schedule(),
            old(self).stage.subject() is Settled,
        ensures
            final(self)@ == old(self)@.after_settled(text@, now),
            outcome == (Outcome { session: None, notice: old(self)@.reading_notice(text@, now) }),
    {
        match self.stage {
            Stage::SettledVerified => {
                self.readings.verified = text;
                self.stage = Stage::SettledUsbType;
                Outcome::quiet()
            },
            Stage::SettledUsbType => {
                self.readings.usb_type = text;
                self.stage = Stage::SettledBattery;
                Outcome::quiet()
            },
            Stage::SettledBattery => {
                self.readings.battery_status = text;
                self.stage = Stage::SettledOnline;
                Outcome::quiet()
            },
            Stage::SettledOnline => {
                self.readings.usb_online = text;
                let notice = self.tracker.observe_settled(&self.readings, now);
                self.to_phase(now);
                Outcome { session: None, notice }
            },
            _ => Outcome::quiet(),
        }
    }

    /// Takes a node of an identification.
    fn on_identification(&mut self, text: String, now: Instant) -> (outcome: Outcome)
        requires
            now.can_schedule(),
            old(self).stage.subject() is Identification,
        ensures
            final(self)@ == old(self)@.after_identification(text@, now),
            outcome == (Outcome { session: None, notice: old(self)@.reading_notice(text@, now) }),
    {
        match self.stage {
            Stage::IdentifyVerified => {
                self.readings.verified = text;
                let look = self.tracker.observe_identification(&self.readings, now);
                self.stage = if look {
                    Stage::IdentifyUsbType
                } else {
                    Stage::Waiting
                };
                self.native_outcome()
            },
            Stage::IdentifyUsbType => {
                self.readings.usb_type = text;
                self.stage = Stage::IdentifySvid;
                Outcome::quiet()
            },
            Stage::IdentifySvid => {
                self.readings.adapter_svid = text;
                let (enable, notice) = self.tracker.observe_identity(&self.readings, now);
                self.stage = if enable {
                    Stage::Enabling
                } else {
                    Stage::Waiting
                };
                Outcome { session: None, notice }
            },
            _ => Outcome::quiet(),
        }
    }

    /// Takes a node of a native negotiation.
    fn on_native(&mut self, text: String, now: Instant) -> (outcome: Outcome)
        requires
            now.can_schedule(),
            old(self).stage.subject() is Native,
        ensures
            final(self)@ == old(self)@.after_native(text@, now),
            outcome == (Outcome { session: None, notice: old(self)@.reading_notice(text@, now) }),
    {
        match self.stage {
            Stage::NativeVerified => {
                self.readings.verified = text;
                let overdue = self.tracker.observe_native(&self.readings, now);
                self.stage = if overdue {
                    Stage::NativeUsbType
                } else {
                    Stage::Waiting
                };
                self.native_outcome()
            },
            Stage::NativeUsbType => {
                self.readings.usb_type = text;
                if self.tracker.fall_back(&self.readings) {
                    self.stage = Stage::Enabling;
                    Outcome::noticed(Notice::PublicFallback)
                } else {
                    self.stage = Stage::Waiting;
                    Outcome::noticed(Notice::NotForced)
                }
            },
            _ => Outcome::quiet(),
        }
    }

    /// Takes a node of a verification or of a retry.
    fn on_public(&mut self, text: String, now: Instant) -> (outcome: Outcome)
        requires
            now.can_schedule(),
            old(self).stage.subject() is Public,
        ensures
            final(self)@ == old(self)@.after_public(text@),
            outcome == (Outcome { session: None, notice: old(self)@.reading_notice(text@, now) }),
    {
        match self.stage {
            Stage::VerifyVerified => {
                self.readings.verified = text;
                self.stage = Stage::VerifyUsbType;
                Outcome::quiet()
            },
            Stage::VerifyUsbType => {
                self.readings.usb_type = text;
                let confirmed = self.tracker.verify_public(&self.readings);
                self.stage = Stage::Waiting;
                if confirmed {
                    Outcome::noticed(Notice::PublicConfirmed)
                } else {
                    Outcome::noticed(Notice::PublicNotConfirmed)
                }
            },
            Stage::RetryVerified => {
                self.readings.verified = text;
                self.stage = Stage::RetryUsbType;
                Outcome::quiet()
            },
            Stage::RetryUsbType => {
                self.readings.usb_type = text;
                if self.tracker.retry_public(&self.readings) {
                    self.stage = Stage::Enabling;
                    Outcome::noticed(Notice::PublicAppeared)
                } else {
                    self.stage = Stage::Waiting;
                    Outcome::quiet()
                }
            },
            _ => Outcome::quiet(),
        }
    }

    /// Takes the node that the monitor waits for.
    fn on_reading(&mut self, text: String, now: Instant) -> (outcome: Outcome)
        requires
            now.can_schedule(),
        ensures
            final(self)@ == old(self)@.after_reading(text@, now),
            outcome == old(self)@.reading_outcome(text@, now),
    {
        proof {
            reveal(MonitorView::after_reading);
        }
        match self.stage.subject() {
            Subject::Port => self.on_port(text, now),
            Subject::Settled => self.on_settled(text, now),
            Subject::Identification => self.on_identification(text, now),
            Subject::Native => self.on_native(text, now),
            Subject::Public => self.on_public(text, now),
            Subject::Nothing => Outcome::quiet(),
        }
    }

    /// What a look for Xiaomi's authentication has to log.
    fn native_outcome(&self) -> (outcome: Outcome)
        ensures
            outcome == (if self@.readings.is_verified() {
                Outcome::noticed(Notice::NativeVerified)
            } else {
                Outcome::quiet()
            }),
    {
        if crate::rules::is_verified(self.readings.verified.as_str()) {
            Outcome::noticed(Notice::NativeVerified)
        } else {
            Outcome::quiet()
        }
    }

    /// Takes note that what the monitor asked for was done.
    fn on_done(&mut self, now: Instant) -> (outcome: Outcome)
        requires
            now.can_schedule(),
        ensures
            final(self)@ == old(self)@.after_done(now),
            outcome == old(self)@.done_outcome(),
    {
        match self.stage {
            Stage::Pausing => {
                self.stage = Stage::Waiting;
                Outcome::quiet()
            },
            Stage::Stopping => {
                self.stage = Stage::Ended { failed: false };
                Outcome::quiet()
            },
            Stage::SwitchingUevents { mode, uevent_ready } => {
                let registered = mode.monitors_uevents();
                self.tracker.uevent_registered = registered;
                self.tracker.mode = mode;
                self.stage = Stage::ConfiguredAttachment { uevent_ready };
                Outcome::noticed(Notice::UeventMonitoring(registered))
            },
            Stage::ResettingVerified => {
                let session = self.tracker.finish_detach();
                self.to_negotiation(now);
                Outcome { session: Some(session), notice: Some(Notice::Detached) }
            },
            Stage::Enabling => {
                self.tracker.public_enabled(now);
                self.stage = Stage::Waiting;
                Outcome::quiet()
            },
            Stage::Reasserting => {
                self.tracker.public_reasserted(now);
                self.stage = Stage::Waiting;
                Outcome::noticed(Notice::PublicReasserted)
            },
            _ => Outcome::quiet(),
        }
    }

    /// Takes note that a wait is over.
    fn on_woken(&mut self, stop: bool, config: bool, uevent: bool, now: Instant)
        ensures
            final(self)@ == old(self)@.after_woken(stop, config, uevent, now),
    {
        if self.stage == Stage::Waiting {
            if stop {
                self.stage = Stage::Stopping;
            } else if config {
                self.stage = Stage::TakingMode { uevent_ready: uevent };
            } else {
                self.to_uevents(uevent, now);
            }
        }
    }

    /// Takes the configured mode.
    fn on_mode(&mut self, mode: ChargingMode)
        ensures
            final(self)@ == old(self)@.after_mode(mode),
    {
        if let Stage::TakingMode { uevent_ready } = self.stage {
            if mode.monitors_uevents() != self.tracker.uevent_registered {
                self.stage = Stage::SwitchingUevents { mode, uevent_ready };
            } else {
                self.tracker.mode = mode;
                self.stage = Stage::ConfiguredAttachment { uevent_ready };
            }
        }
    }

    /// Takes the answer to the request and turns to what comes next.
    pub fn step(&mut self, event: Event, now: Instant) -> (outcome: Outcome)
        requires
            now.can_schedule(),
        ensures
            final(self)@ == old(self)@.next(event, now),
            outcome == old(self)@.outcome(event, now),
            forall|time: Instant| #[trigger]
                old(self)@.wf(time) && now.reached(time) ==> final(self)@.wf(now),
    {
        proof {
            assert forall|time: Instant| #[trigger]
                self@.wf(time) && now.reached(time) implies self@.next(event, now).wf(now) by {
                crate::laws::order::every_event_keeps_the_monitor_well_formed(
                    self@,
                    time,
                    event,
                    now,
                );
            }
        }
        self.take(event, now)
    }

    /// Does what [`Monitor::step`] does.
    fn take(&mut self, event: Event, now: Instant) -> (outcome: Outcome)
        requires
            now.can_schedule(),
        ensures
            final(self)@ == old(self)@.next(event, now),
            outcome == old(self)@.outcome(event, now),
    {
        match event {
            Event::Content(text) => self.on_reading(text, now),
            Event::Failed => {
                if self.stage.fails() {
                    self.stage = Stage::Ended { failed: true };
                    Outcome::quiet()
                } else {
                    self.on_reading(String::new(), now)
                }
            },
            Event::Done => self.on_done(now),
            Event::NotRunning => {
                if self.stage == Stage::Waiting {
                    self.stage = Stage::Ended { failed: false };
                }
                Outcome::quiet()
            },
            Event::Woken { stop, config, uevent } => {
                self.on_woken(stop, config, uevent, now);
                Outcome::quiet()
            },
            Event::WaitFailed { transient } => {
                if self.stage == Stage::Waiting && !transient {
                    self.stage = Stage::Pausing;
                    Outcome::noticed(Notice::WaitFailed)
                } else {
                    Outcome::quiet()
                }
            },
            Event::Mode(mode) => {
                self.on_mode(mode);
                Outcome::quiet()
            },
            Event::Uevent(data) => {
                if self.stage == Stage::Draining {
                    self.tracker.note_uevent(data.as_slice());
                }
                Outcome::quiet()
            },
            Event::Drained => {
                if self.stage == Stage::Draining {
                    self.tracker.plan_recheck(now);
                    self.to_port(now);
                }
                Outcome::quiet()
            },
        }
    }
}

} // verus!
