//! What the monitor knows of the attachment, and how each observation changes it.

use vstd::prelude::*;

use crate::clock::Instant;
use crate::clock::{
    DETACH_DEBOUNCE_MS, PUBLIC_IDENTITY_RECHECK_MS, PUBLIC_REASSERT_DELAY_MS,
    PUBLIC_VERIFY_DELAY_MS, UEVENT_RECHECK_MS,
};
use crate::phase::{automatic_attach_phase, AutoPhase};
use crate::readings::{Readings, ReadingsView};
use crate::report::{Notice, Outcome};
use crate::rules::{
    can_start_public_retry, is_charging_online, is_pps, is_verified,
    public_pps_activation_succeeded, should_capture_upstream_detach, should_enable_public_early,
    should_process_physical_detach, should_rearm_public_retry,
    should_start_native_wait_after_upstream_attach, MAX_PUBLIC_RETRIES_PER_UPSTREAM_SESSION,
};
use crate::session::{start_charging_session, stop_charging_session, SessionUpdate};
use crate::text::same_text;
use crate::uevent::usb_went_offline;

verus! {

/// How the daemon is told to charge.
#[derive(Clone, Copy, PartialEq, Eq, Structural, Debug)]
pub enum ChargingMode {
    /// Xiaomi's protocol alone; nothing is monitored.
    Native,
    /// Xiaomi's protocol first, public PPS where that fails.
    Automatic,
    /// Any other mode: monitored, but nothing is negotiated here.
    Other,
}

impl ChargingMode {
    /// Whether uevents are monitored in this mode.
    pub open spec fn monitors_uevents_spec(self) -> bool {
        self != ChargingMode::Native
    }

    /// Whether uevents are monitored in this mode.
    #[verifier::when_used_as_spec(monitors_uevents_spec)]
    pub fn monitors_uevents(self) -> (monitors: bool)
        ensures
            monitors == self.monitors_uevents_spec(),
    {
        self != ChargingMode::Native
    }
}

/// How an observation of the port changed the attachment.
#[derive(Clone, Copy, PartialEq, Eq, Structural, Debug)]
pub enum AttachmentChange {
    Unchanged,
    Detached,
    Attached,
}

/// What the current phase calls for.
#[derive(Clone, Copy, PartialEq, Eq, Structural, Debug)]
pub enum PhaseWork {
    /// Nothing for now.
    Nothing,
    /// See whether the fresh attachment shows what charger it is.
    Identify,
    /// See whether Xiaomi's authentication succeeded.
    AwaitNative,
    /// Assert public PPS once more.
    Reassert,
    /// Verify that public PPS is active.
    Verify,
    /// See whether public PPS can be enabled in the settled session.
    Retry,
}

/// What the monitor knows of the attachment.
#[derive(Clone, Copy, PartialEq, Eq, Debug)]
pub struct Tracker {
    pub mode: ChargingMode,
    pub uevent_registered: bool,
    pub attached: bool,
    /// When the physical detachment that is being observed counts.
    pub detach_deadline: Option<Instant>,
    pub phase: AutoPhase,
    /// How often public PPS was enabled in this upstream session. Two attempts
    /// leave room for a failed first negotiation, and no sequence of transient
    /// events can make them more.
    pub public_retry_count: u8,
    /// Whether this session's attempt is taken.
    pub public_retry_attempted: bool,
    /// Whether an upstream swap waits for the replacement charger, which then
    /// has to pass Xiaomi's negotiation time before public PPS is allowed.
    pub upstream_native_pending: bool,
    /// When the nodes are read once more after an uevent.
    pub uevent_recheck_deadline: Option<Instant>,
    /// Whether the detection of an upstream detachment is armed.
    pub charger_detach_armed: bool,
    /// Whether an uevent told that the USB supply went offline.
    pub usb_detach_uevent_seen: bool,
    /// When the upstream detachment that is being observed counts.
    pub charger_detach_deadline: Option<Instant>,
    pub charging_session_active: bool,
}

impl Tracker {
    /// What is known of a port that is first looked at `now`.
    pub open spec fn fresh(mode: ChargingMode, attached: bool, now: Instant) -> Tracker {
        Tracker {
            mode,
            uevent_registered: mode.monitors_uevents(),
            attached,
            detach_deadline: None,
            phase: if mode is Automatic && attached {
                AutoPhase::attached_at(now)
            } else {
                AutoPhase::Idle
            },
            public_retry_count: 0,
            public_retry_attempted: false,
            upstream_native_pending: false,
            uevent_recheck_deadline: None,
            charger_detach_armed: false,
            usb_detach_uevent_seen: false,
            charger_detach_deadline: None,
            charging_session_active: false,
        }
    }

    /// Whether a negotiation is being watched.
    pub open spec fn watching(self) -> bool {
        self.mode is Automatic && self.attached
    }

    /// What holds of every tracker: the budget is kept, the deadlines of an
    /// identification belong together, a pending upstream swap holds the session
    /// settled and its attempt taken, an outage is observed only in a settled
    /// session in which it was looked for and an uevent told of it, uevents are
    /// monitored as the mode calls for, and only what is attached is about to be
    /// detached.
    pub open spec fn wf(self) -> bool {
        &&& self.public_retry_count <= MAX_PUBLIC_RETRIES_PER_UPSTREAM_SESSION
        &&& self.phase.well_timed()
        &&& self.upstream_native_pending ==> self.phase is Settled && self.public_retry_attempted
        &&& self.charger_detach_deadline is Some ==> self.capturing()
            && self.usb_detach_uevent_seen
        &&& self.uevent_registered == self.mode.monitors_uevents()
        &&& self.detach_deadline is Some ==> self.attached
    }

    /// What holds besides while no change of mode or attachment is under way:
    /// there is a negotiation exactly where one is watched, nothing is known of
    /// an upstream charger where none is, and a charging session needs an
    /// attachment in a mode that is monitored.
    pub open spec fn steady(self) -> bool {
        &&& self.wf()
        &&& self.phase is Idle <==> !self.watching()
        &&& !self.watching() ==> self == self.upstream_forgotten()
        &&& self.charging_session_active ==> self.attached && self.mode.monitors_uevents()
    }

    /// Everything known of the upstream charger is forgotten.
    pub open spec fn upstream_forgotten(self) -> Tracker {
        Tracker {
            upstream_native_pending: false,
            uevent_recheck_deadline: None,
            charger_detach_armed: false,
            usb_detach_uevent_seen: false,
            charger_detach_deadline: None,
            ..self
        }
    }

    /// A new charger: the upstream is forgotten and the budget is whole.
    pub open spec fn renewed(self) -> Tracker {
        Tracker {
            public_retry_count: 0,
            public_retry_attempted: false,
            ..self.upstream_forgotten()
        }
    }

    /// Whether uevents count as evidence of an upstream detachment.
    pub open spec fn capturing(self) -> bool {
        self.phase is Settled && self.charger_detach_armed
    }

    /// Whether the budget leaves room for another attempt.
    pub open spec fn has_budget(self) -> bool {
        self.public_retry_count < MAX_PUBLIC_RETRIES_PER_UPSTREAM_SESSION
    }

    /// The daemon was reconfigured: everything begins anew, and the charging
    /// session is active where the port is monitored and attached.
    pub open spec fn reconfigured(mode: ChargingMode, attached: bool, now: Instant) -> Tracker {
        Tracker {
            charging_session_active: mode.monitors_uevents() && attached,
            ..Tracker::fresh(mode, attached, now)
        }
    }

    /// How an observation of the port changes the attachment: a detachment
    /// counts once its deadline is reached, an attachment at once.
    pub open spec fn attachment_change(
        self,
        physically_attached: bool,
        now: Instant,
    ) -> AttachmentChange {
        if self.attached && !physically_attached {
            if self.detach_deadline matches Some(deadline) && now.reached(deadline) {
                AttachmentChange::Detached
            } else {
                AttachmentChange::Unchanged
            }
        } else if !self.attached && physically_attached {
            AttachmentChange::Attached
        } else {
            AttachmentChange::Unchanged
        }
    }

    /// What is known after an observation of the port. Of a detachment that
    /// counts, [`Tracker::detached`] says the rest.
    pub open spec fn after_attachment(self, physically_attached: bool, now: Instant) -> Tracker {
        match self.attachment_change(physically_attached, now) {
            AttachmentChange::Detached => Tracker {
                attached: false,
                detach_deadline: None,
                ..self
            },
            AttachmentChange::Attached => Tracker {
                attached: true,
                detach_deadline: None,
                phase: if self.mode is Automatic {
                    AutoPhase::attached_at(now)
                } else {
                    self.phase
                },
                charging_session_active: self.charging_session_active
                    || self.mode.monitors_uevents(),
                ..self.renewed()
            },
            AttachmentChange::Unchanged => Tracker {
                detach_deadline: if physically_attached {
                    None
                } else if self.attached && self.detach_deadline is None {
                    Some(now.after(DETACH_DEBOUNCE_MS))
                } else {
                    self.detach_deadline
                },
                ..self
            },
        }
    }

    /// What an observation of the port has to publish and to log.
    pub open spec fn attachment_outcome(self, physically_attached: bool, now: Instant) -> Outcome {
        if self.attachment_change(physically_attached, now) is Attached {
            Outcome {
                session: if self.mode.monitors_uevents() && !self.charging_session_active {
                    Some(SessionUpdate::started())
                } else {
                    None
                },
                notice: if self.mode is Automatic {
                    Some(Notice::Attached)
                } else {
                    None
                },
            }
        } else {
            Outcome::quiet()
        }
    }

    /// A detachment that counts is complete.
    pub open spec fn detached(self) -> Tracker {
        Tracker { charging_session_active: false, phase: AutoPhase::Idle, ..self.renewed() }
    }

    /// Whether a settled session lost the public PPS that was enabled in it and
    /// the budget allows to enable it again.
    pub open spec fn retry_failed(self, readings: ReadingsView) -> bool {
        &&& self.public_retry_attempted
        &&& readings.is_charging()
        &&& readings.is_unverified_pps()
        &&& !self.upstream_native_pending
        &&& self.has_budget()
    }

    /// Whether everything shows that the upstream charger went away.
    pub open spec fn upstream_offline(self, readings: ReadingsView) -> bool {
        self.charger_detach_armed && self.usb_detach_uevent_seen && readings.is_offline()
    }

    /// Whether the upstream charger has been away for long enough.
    pub open spec fn upstream_gone(self, readings: ReadingsView, now: Instant) -> bool {
        &&& self.upstream_offline(readings)
        &&& self.charger_detach_deadline matches Some(deadline) && now.reached(deadline)
    }

    /// What is known after the nodes of a settled session were read.
    pub open spec fn after_settled(self, readings: ReadingsView, now: Instant) -> Tracker {
        if readings.is_charging() {
            if self.upstream_native_pending {
                // The replacement charger is there: Xiaomi's protocol first.
                Tracker {
                    upstream_native_pending: false,
                    charger_detach_armed: false,
                    usb_detach_uevent_seen: false,
                    charger_detach_deadline: None,
                    phase: AutoPhase::attached_at(now),
                    ..self
                }
            } else if self.retry_failed(readings) {
                Tracker {
                    public_retry_attempted: false,
                    charger_detach_armed: false,
                    usb_detach_uevent_seen: false,
                    charger_detach_deadline: None,
                    ..self
                }
            } else {
                // A charger that charges is there: an outage that was observed is
                // over. An uevent can run ahead of the nodes, so it stays seen.
                Tracker {
                    charger_detach_armed: true,
                    usb_detach_uevent_seen: self.charger_detach_armed
                        && self.usb_detach_uevent_seen,
                    charger_detach_deadline: None,
                    ..self
                }
            }
        } else if self.upstream_gone(readings, now) {
            // A new upstream session, with a whole budget that is out of reach
            // until the replacement charger had its time.
            Tracker {
                public_retry_count: 0,
                public_retry_attempted: true,
                upstream_native_pending: true,
                charger_detach_armed: false,
                usb_detach_uevent_seen: false,
                charger_detach_deadline: None,
                ..self
            }
        } else if self.upstream_offline(readings) {
            Tracker {
                charger_detach_deadline: if self.charger_detach_deadline is None {
                    Some(now.after(DETACH_DEBOUNCE_MS))
                } else {
                    self.charger_detach_deadline
                },
                ..self
            }
        } else {
            Tracker {
                charger_detach_deadline: None,
                usb_detach_uevent_seen: self.usb_detach_uevent_seen && readings.usb_online == "0"@,
                ..self
            }
        }
    }

    /// What the readings of a settled session have to log.
    pub open spec fn settled_notice(self, readings: ReadingsView, now: Instant) -> Option<Notice> {
        if readings.is_charging() && self.upstream_native_pending {
            Some(Notice::UpstreamAttached)
        } else if self.retry_failed(readings) {
            if self.charger_detach_armed {
                Some(Notice::RetryAllowed)
            } else {
                Some(Notice::ArmedAndRetryAllowed)
            }
        } else if readings.is_charging() && !self.charger_detach_armed {
            Some(Notice::DetectionArmed)
        } else if self.upstream_gone(readings, now) {
            Some(Notice::UpstreamDetached)
        } else {
            None
        }
    }

    /// What the phase calls for.
    pub open spec fn phase_work_spec(self, now: Instant) -> PhaseWork {
        match self.phase {
            AutoPhase::IdentifyingPublic { .. } => PhaseWork::Identify,
            AutoPhase::WaitingNative(_) => PhaseWork::AwaitNative,
            AutoPhase::EnablingPublic(deadline) => if now.reached(deadline) {
                PhaseWork::Reassert
            } else {
                PhaseWork::Nothing
            },
            AutoPhase::VerifyingPublic(deadline) => if now.reached(deadline) {
                PhaseWork::Verify
            } else {
                PhaseWork::Nothing
            },
            AutoPhase::Settled => if self.public_retry_attempted {
                PhaseWork::Nothing
            } else {
                PhaseWork::Retry
            },
            AutoPhase::Idle => PhaseWork::Nothing,
        }
    }

    /// Whether an identification that is still unverified at `now` looks at what
    /// the charger shows of itself.
    pub open spec fn identity_due(self, now: Instant) -> bool {
        self.phase matches AutoPhase::IdentifyingPublic { next_check, .. } && now.reached(
            next_check,
        )
    }

    /// Whether Xiaomi's authentication, unverified at `now`, is out of time.
    pub open spec fn native_overdue(self, now: Instant) -> bool {
        self.phase matches AutoPhase::WaitingNative(deadline) && now.reached(deadline)
    }

    /// The negotiation is over.
    pub open spec fn settled(self) -> Tracker {
        Tracker { phase: AutoPhase::Settled, ..self }
    }

    /// An attempt to enable public PPS begins, and the budget pays for it. A
    /// charger that negotiates PPS is there, so an outage that was observed is
    /// over.
    pub open spec fn attempting(self) -> Tracker {
        Tracker {
            public_retry_count: (self.public_retry_count + 1) as u8,
            public_retry_attempted: true,
            upstream_native_pending: false,
            charger_detach_deadline: None,
            ..self
        }
    }

    /// Whether the charger shows itself as public and the budget allows to
    /// enable public PPS.
    pub open spec fn enables_early(self, readings: ReadingsView) -> bool {
        readings.is_unverified_pps() && readings.has_public_svid() && self.has_budget()
    }

    /// What is known after a look at what the charger shows of itself.
    pub open spec fn after_identity(self, readings: ReadingsView, now: Instant) -> Tracker {
        match self.phase {
            AutoPhase::IdentifyingPublic { identity_deadline, native_deadline, .. } => {
                if self.enables_early(readings) {
                    self.attempting()
                } else if readings.has_vendor_svid() || now.reached(identity_deadline) {
                    Tracker { phase: AutoPhase::WaitingNative(native_deadline), ..self }
                } else {
                    Tracker {
                        phase: AutoPhase::IdentifyingPublic {
                            next_check: now.after(PUBLIC_IDENTITY_RECHECK_MS).min(
                                identity_deadline,
                            ),
                            identity_deadline,
                            native_deadline,
                        },
                        ..self
                    }
                }
            },
            _ => self,
        }
    }

    /// What a look at what the charger shows of itself has to log.
    pub open spec fn identity_notice(self, readings: ReadingsView) -> Option<Notice> {
        if !(self.phase is IdentifyingPublic) {
            None
        } else if self.enables_early(readings) {
            Some(Notice::PublicIdentified)
        } else if readings.has_vendor_svid() {
            Some(Notice::VendorIdentified)
        } else {
            None
        }
    }

    /// Whether public PPS takes the place of Xiaomi's overdue authentication.
    pub open spec fn falls_back(self, readings: ReadingsView) -> bool {
        readings.usb_type == "PD_PPS"@ && self.has_budget()
    }

    /// Whether public PPS is enabled in a settled session.
    pub open spec fn retries(self, readings: ReadingsView) -> bool {
        readings.is_unverified_pps() && self.has_budget()
    }

    /// What is known after the outcome of an attempt was verified: a failed
    /// attempt may be repeated where PPS is there and the budget allows it.
    pub open spec fn after_verification(self, readings: ReadingsView) -> Tracker {
        Tracker {
            phase: AutoPhase::Settled,
            public_retry_attempted: self.public_retry_attempted && !self.retries(readings),
            ..self
        }
    }
}

impl Tracker {
    /// What is known of a port that is first looked at `now`.
    pub fn new(mode: ChargingMode, attached: bool, now: Instant) -> (tracker: Tracker)
        requires
            now.can_schedule(),
        ensures
            tracker == Tracker::fresh(mode, attached, now),
    {
        Tracker {
            mode,
            uevent_registered: mode.monitors_uevents(),
            attached,
            detach_deadline: None,
            phase: match (mode, attached) {
                (ChargingMode::Automatic, true) => automatic_attach_phase(now),
                _ => AutoPhase::Idle,
            },
            public_retry_count: 0,
            public_retry_attempted: false,
            upstream_native_pending: false,
            uevent_recheck_deadline: None,
            charger_detach_armed: false,
            usb_detach_uevent_seen: false,
            charger_detach_deadline: None,
            charging_session_active: false,
        }
    }

    /// Forgets everything known of the upstream charger.
    pub fn forget_upstream(&mut self)
        ensures
            *final(self) == old(self).upstream_forgotten(),
    {
        self.upstream_native_pending = false;
        self.charger_detach_armed = false;
        self.usb_detach_uevent_seen = false;
        self.charger_detach_deadline = None;
        self.uevent_recheck_deadline = None;
    }

    /// Begins with a new charger.
    pub fn renew(&mut self)
        ensures
            *final(self) == old(self).renewed(),
    {
        self.public_retry_count = 0;
        self.public_retry_attempted = false;
        self.forget_upstream();
    }

    /// Begins the charging session with which the monitor starts, if the battery
    /// charges.
    pub fn start_initial_session(&mut self, battery_status: &str) -> (session: Option<
        SessionUpdate,
    >)
        ensures
            *final(self) == (Tracker {
                charging_session_active: old(self).charging_session_active || battery_status@
                    == "Charging"@,
                ..*old(self)
            }),
            session == (if battery_status@ == "Charging"@ && !old(self).charging_session_active {
                Some(SessionUpdate::started())
            } else {
                None
            }),
    {
        if same_text(battery_status, "Charging") {
            start_charging_session(&mut self.charging_session_active)
        } else {
            None
        }
    }

    /// Begins anew after a reconfiguration.
    pub fn reconfigure(&mut self, mode: ChargingMode, attached: bool, now: Instant) -> (session:
        Option<SessionUpdate>)
        requires
            now.can_schedule(),
        ensures
            *final(self) == Tracker::reconfigured(mode, attached, now),
            session == (if !(mode.monitors_uevents() && attached) {
                Some(SessionUpdate::stopped())
            } else if old(self).charging_session_active {
                None
            } else {
                Some(SessionUpdate::started())
            }),
    {
        let mut active: bool = self.charging_session_active;
        *self = Tracker::new(mode, attached, now);
        let session = if self.uevent_registered && attached {
            start_charging_session(&mut active)
        } else {
            Some(stop_charging_session(&mut active))
        };
        self.charging_session_active = active;
        session
    }

    /// Takes note of an uevent.
    pub fn note_uevent(&mut self, data: &[u8])
        ensures
            *final(self) == (Tracker {
                usb_detach_uevent_seen: old(self).usb_detach_uevent_seen || (
                old(self).capturing() && crate::uevent::usb_offline(data@)),
                ..*old(self)
            }),
    {
        if should_capture_upstream_detach(self.phase, self.charger_detach_armed) {
            if usb_went_offline(data) {
                self.usb_detach_uevent_seen = true;
            }
        }
    }

    /// Every queued uevent was noted. The nodes can still lag behind, so they are
    /// read once more a little later; an earlier such plan stands.
    pub fn plan_recheck(&mut self, now: Instant)
        requires
            now.can_add(UEVENT_RECHECK_MS as int),
        ensures
            *final(self) == (Tracker {
                uevent_recheck_deadline: if old(self).capturing()
                    && old(self).uevent_recheck_deadline is None {
                    Some(now.after(UEVENT_RECHECK_MS))
                } else {
                    old(self).uevent_recheck_deadline
                },
                ..*old(self)
            }),
    {
        if should_capture_upstream_detach(self.phase, self.charger_detach_armed) {
            if self.uevent_recheck_deadline.is_none() {
                self.uevent_recheck_deadline = Some(now.after(UEVENT_RECHECK_MS));
            }
        }
    }

    /// Drops a plan to read the nodes once more that is due.
    pub fn expire_recheck(&mut self, now: Instant)
        ensures
            *final(self) == (Tracker {
                uevent_recheck_deadline: if old(self).uevent_recheck_deadline matches Some(
                    deadline,
                ) && now.reached(deadline) {
                    None
                } else {
                    old(self).uevent_recheck_deadline
                },
                ..*old(self)
            }),
    {
        if let Some(deadline) = self.uevent_recheck_deadline {
            if now.reached(deadline) {
                self.uevent_recheck_deadline = None;
            }
        }
    }

    /// Takes note of whether something is attached to the port.
    pub fn observe_attachment(&mut self, physically_attached: bool, now: Instant) -> (result: (
        AttachmentChange,
        Outcome,
    ))
        requires
            now.can_schedule(),
        ensures
            *final(self) == old(self).after_attachment(physically_attached, now),
            result.0 == old(self).attachment_change(physically_attached, now),
            result.1 == old(self).attachment_outcome(physically_attached, now),
    {
        if should_process_physical_detach(self.attached, physically_attached) {
            let deadline = match self.detach_deadline {
                Some(deadline) => deadline,
                None => now.after(DETACH_DEBOUNCE_MS),
            };
            self.detach_deadline = Some(deadline);
            if now.reached(deadline) {
                self.attached = false;
                self.detach_deadline = None;
                return (AttachmentChange::Detached, Outcome::quiet());
            }
        } else if physically_attached {
            self.detach_deadline = None;
            if !self.attached {
                self.attached = true;
                self.renew();
                let mut outcome = Outcome::quiet();
                if self.mode == ChargingMode::Automatic {
                    self.phase = automatic_attach_phase(now);
                    outcome.notice = Some(Notice::Attached);
                }
                if self.mode != ChargingMode::Native {
                    outcome.session = start_charging_session(&mut self.charging_session_active);
                }
                return (AttachmentChange::Attached, outcome);
            }
        }
        (AttachmentChange::Unchanged, Outcome::quiet())
    }

    /// Completes a detachment.
    pub fn finish_detach(&mut self) -> (session: SessionUpdate)
        ensures
            *final(self) == old(self).detached(),
            session == SessionUpdate::stopped(),
    {
        self.renew();
        let session = stop_charging_session(&mut self.charging_session_active);
        self.phase = AutoPhase::Idle;
        session
    }

    /// Whether a negotiation is being watched. Where none is, nothing stays known
    /// of an upstream charger.
    pub fn keep_watching(&mut self) -> (watching: bool)
        ensures
            watching == old(self).watching(),
            *final(self) == (if watching {
                *old(self)
            } else {
                old(self).upstream_forgotten()
            }),
    {
        if self.mode != ChargingMode::Automatic || !self.attached {
            self.forget_upstream();
            false
        } else {
            true
        }
    }

    /// Takes note of the nodes of a settled session.
    pub fn observe_settled(&mut self, readings: &Readings, now: Instant) -> (notice: Option<Notice>)
        requires
            now.can_schedule(),
        ensures
            *final(self) == old(self).after_settled(readings@, now),
            notice == old(self).settled_notice(readings@, now),
    {
        proof {
            readings@.charging_is_not_offline();
        }
        let charging = is_charging_online(
            readings.battery_status.as_str(),
            readings.usb_online.as_str(),
        );
        let retry_failed = self.public_retry_attempted && charging && !is_verified(
            readings.verified.as_str(),
        ) && is_pps(readings.usb_type.as_str()) && !self.upstream_native_pending
            && can_start_public_retry(self.public_retry_count);
        let mut notice: Option<Notice> = None;

        if should_start_native_wait_after_upstream_attach(
            self.upstream_native_pending,
            readings.battery_status.as_str(),
            readings.usb_online.as_str(),
        ) {
            self.upstream_native_pending = false;
            self.charger_detach_armed = false;
            self.charger_detach_deadline = None;
            self.usb_detach_uevent_seen = false;
            self.phase = automatic_attach_phase(now);
            notice = Some(Notice::UpstreamAttached);
        } else if charging {
            self.charger_detach_deadline = None;
            if !self.charger_detach_armed {
                self.charger_detach_armed = true;
                self.usb_detach_uevent_seen = false;
                notice = Some(Notice::DetectionArmed);
            }
        } else if should_rearm_public_retry(
            self.charger_detach_armed,
            self.usb_detach_uevent_seen,
            readings.verified.as_str(),
            readings.usb_type.as_str(),
            readings.battery_status.as_str(),
            readings.usb_online.as_str(),
        ) {
            let deadline = match self.charger_detach_deadline {
                Some(deadline) => deadline,
                None => now.after(DETACH_DEBOUNCE_MS),
            };
            self.charger_detach_deadline = Some(deadline);
            if now.reached(deadline) {
                self.public_retry_count = 0;
                self.public_retry_attempted = true;
                self.upstream_native_pending = true;
                self.charger_detach_armed = false;
                self.usb_detach_uevent_seen = false;
                self.charger_detach_deadline = None;
                notice = Some(Notice::UpstreamDetached);
            }
        } else {
            self.charger_detach_deadline = None;
            if !same_text(readings.usb_online.as_str(), "0") {
                self.usb_detach_uevent_seen = false;
            }
        }

        if retry_failed {
            self.public_retry_attempted = false;
            self.upstream_native_pending = false;
            self.charger_detach_armed = false;
            self.usb_detach_uevent_seen = false;
            self.charger_detach_deadline = None;
            notice = match notice {
                Some(Notice::DetectionArmed) => Some(Notice::ArmedAndRetryAllowed),
                _ => Some(Notice::RetryAllowed),
            };
        }
        notice
    }

    /// What the phase calls for.
    pub fn phase_work(&self, now: Instant) -> (work: PhaseWork)
        ensures
            work == self.phase_work_spec(now),
    {
        match self.phase {
            AutoPhase::IdentifyingPublic { .. } => PhaseWork::Identify,
            AutoPhase::WaitingNative(_) => PhaseWork::AwaitNative,
            AutoPhase::EnablingPublic(deadline) => {
                if now.reached(deadline) {
                    PhaseWork::Reassert
                } else {
                    PhaseWork::Nothing
                }
            },
            AutoPhase::VerifyingPublic(deadline) => {
                if now.reached(deadline) {
                    PhaseWork::Verify
                } else {
                    PhaseWork::Nothing
                }
            },
            AutoPhase::Settled => {
                if !self.public_retry_attempted {
                    PhaseWork::Retry
                } else {
                    PhaseWork::Nothing
                }
            },
            AutoPhase::Idle => PhaseWork::Nothing,
        }
    }

    /// Takes note of whether a fresh attachment is verified. The result tells
    /// whether it is to be seen what the charger shows of itself.
    pub fn observe_identification(&mut self, readings: &Readings, now: Instant) -> (look: bool)
        ensures
            look == (!readings@.is_verified() && old(self).identity_due(now)),
            *final(self) == (if readings@.is_verified() {
                old(self).settled()
            } else {
                *old(self)
            }),
    {
        if is_verified(readings.verified.as_str()) {
            self.phase = AutoPhase::Settled;
            false
        } else {
            match self.phase {
                AutoPhase::IdentifyingPublic { next_check, .. } => now.reached(next_check),
                _ => false,
            }
        }
    }

    /// Begins an attempt to enable public PPS.
    pub fn attempt(&mut self)
        requires
            old(self).has_budget(),
        ensures
            *final(self) == old(self).attempting(),
    {
        self.public_retry_count += 1;
        self.public_retry_attempted = true;
        self.upstream_native_pending = false;
        self.charger_detach_deadline = None;
    }

    /// Takes note of what the charger shows of itself. The result tells whether
    /// public PPS is to be enabled, and what to log.
    pub fn observe_identity(&mut self, readings: &Readings, now: Instant) -> (result: (
        bool,
        Option<Notice>,
    ))
        requires
            now.can_schedule(),
        ensures
            result.0 == (old(self).phase is IdentifyingPublic && old(self).enables_early(
                readings@,
            )),
            result.1 == old(self).identity_notice(readings@),
            *final(self) == old(self).after_identity(readings@, now),
    {
        match self.phase {
            AutoPhase::IdentifyingPublic { identity_deadline, native_deadline, .. } => {
                if should_enable_public_early(
                    readings.verified.as_str(),
                    readings.usb_type.as_str(),
                    readings.adapter_svid.as_str(),
                ) && can_start_public_retry(self.public_retry_count) {
                    self.attempt();
                    return (true, Some(Notice::PublicIdentified));
                } else if !readings.adapter_svid.as_str().is_empty() && !same_text(
                    readings.adapter_svid.as_str(),
                    "0000",
                ) {
                    self.phase = AutoPhase::WaitingNative(native_deadline);
                    return (false, Some(Notice::VendorIdentified));
                } else if !now.reached(identity_deadline) {
                    self.phase = AutoPhase::IdentifyingPublic {
                        next_check: now.after(PUBLIC_IDENTITY_RECHECK_MS).min(identity_deadline),
                        identity_deadline,
                        native_deadline,
                    };
                } else {
                    self.phase = AutoPhase::WaitingNative(native_deadline);
                }
                (false, None)
            },
            _ => (false, None),
        }
    }

    /// Takes note of whether Xiaomi's authentication succeeded. The result tells
    /// whether it is out of time.
    pub fn observe_native(&mut self, readings: &Readings, now: Instant) -> (overdue: bool)
        ensures
            overdue == (!readings@.is_verified() && old(self).native_overdue(now)),
            *final(self) == (if readings@.is_verified() {
                old(self).settled()
            } else {
                *old(self)
            }),
    {
        if is_verified(readings.verified.as_str()) {
            self.phase = AutoPhase::Settled;
            false
        } else {
            match self.phase {
                AutoPhase::WaitingNative(deadline) => now.reached(deadline),
                _ => false,
            }
        }
    }

    /// Decides what takes the place of Xiaomi's overdue authentication. The
    /// result tells whether public PPS is to be enabled.
    pub fn fall_back(&mut self, readings: &Readings) -> (enable: bool)
        ensures
            enable == old(self).falls_back(readings@),
            *final(self) == (if enable {
                old(self).attempting()
            } else {
                old(self).settled()
            }),
    {
        if is_pps(readings.usb_type.as_str()) && can_start_public_retry(self.public_retry_count) {
            self.attempt();
            true
        } else {
            self.phase = AutoPhase::Settled;
            false
        }
    }

    /// Public PPS was enabled; it is asserted once more after a delay, because the
    /// first write can be cleared while the port turns to charge-pump mode.
    pub fn public_enabled(&mut self, now: Instant)
        requires
            now.can_add(PUBLIC_REASSERT_DELAY_MS as int),
        ensures
            *final(self) == (Tracker {
                phase: AutoPhase::EnablingPublic(now.after(PUBLIC_REASSERT_DELAY_MS)),
                ..*old(self)
            }),
    {
        self.phase = AutoPhase::EnablingPublic(now.after(PUBLIC_REASSERT_DELAY_MS));
    }

    /// Public PPS was asserted once more; the outcome is verified after a delay.
    pub fn public_reasserted(&mut self, now: Instant)
        requires
            now.can_add(PUBLIC_VERIFY_DELAY_MS as int),
        ensures
            *final(self) == (Tracker {
                phase: AutoPhase::VerifyingPublic(now.after(PUBLIC_VERIFY_DELAY_MS)),
                ..*old(self)
            }),
    {
        self.phase = AutoPhase::VerifyingPublic(now.after(PUBLIC_VERIFY_DELAY_MS));
    }

    /// Verifies the outcome of an attempt to enable public PPS. The result tells
    /// whether public PPS is active.
    pub fn verify_public(&mut self, readings: &Readings) -> (confirmed: bool)
        ensures
            confirmed == readings@.is_verified_pps(),
            *final(self) == old(self).after_verification(readings@),
    {
        let confirmed = public_pps_activation_succeeded(
            readings.verified.as_str(),
            readings.usb_type.as_str(),
        );
        if !confirmed {
            if !is_verified(readings.verified.as_str()) && is_pps(readings.usb_type.as_str())
                && can_start_public_retry(self.public_retry_count) {
                self.public_retry_attempted = false;
            }
        }
        self.phase = AutoPhase::Settled;
        confirmed
    }

    /// Decides whether public PPS is enabled in a settled session.
    pub fn retry_public(&mut self, readings: &Readings) -> (enable: bool)
        ensures
            enable == old(self).retries(readings@),
            *final(self) == (if enable {
                old(self).attempting()
            } else {
                *old(self)
            }),
    {
        if !is_verified(readings.verified.as_str()) && is_pps(readings.usb_type.as_str())
            && can_start_public_retry(self.public_retry_count) {
            self.attempt();
            true
        } else {
            false
        }
    }
}

} // verus!
