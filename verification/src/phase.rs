//! The phases of an automatic negotiation and the time to wait in each.

use vstd::prelude::*;

use crate::clock::Instant;
use crate::clock::{
    NATIVE_NEGOTIATION_TIMEOUT_MS, PUBLIC_IDENTITY_SETTLE_MS, PUBLIC_IDENTITY_WINDOW_MS,
};

verus! {

/// Where the negotiation with the attached charger stands.
#[derive(Clone, Copy, PartialEq, Eq, Structural, Debug)]
pub enum AutoPhase {
    /// Nothing is negotiated.
    Idle,
    /// A fresh attachment, watched for an early sign of a public charger.
    IdentifyingPublic {
        next_check: Instant,
        identity_deadline: Instant,
        native_deadline: Instant,
    },
    /// Xiaomi's own authentication has until the deadline.
    WaitingNative(Instant),
    /// Public PPS was enabled; it is asserted once more at the deadline.
    EnablingPublic(Instant),
    /// Public PPS was asserted twice; the outcome is verified at the deadline.
    VerifyingPublic(Instant),
    /// The negotiation is over.
    Settled,
}

impl AutoPhase {
    /// The instant at which the phase has to be looked at again, if it has one.
    pub open spec fn deadline_spec(self) -> Option<Instant> {
        match self {
            AutoPhase::IdentifyingPublic { next_check, .. } => Some(next_check),
            AutoPhase::WaitingNative(deadline) => Some(deadline),
            AutoPhase::EnablingPublic(deadline) => Some(deadline),
            AutoPhase::VerifyingPublic(deadline) => Some(deadline),
            AutoPhase::Idle => None,
            AutoPhase::Settled => None,
        }
    }

    /// The instant at which the phase has to be looked at again, if it has one.
    #[verifier::when_used_as_spec(deadline_spec)]
    pub fn deadline(self) -> (deadline: Option<Instant>)
        ensures
            deadline == self.deadline_spec(),
    {
        match self {
            AutoPhase::IdentifyingPublic { next_check, .. } => Some(next_check),
            AutoPhase::WaitingNative(deadline) | AutoPhase::EnablingPublic(deadline)
            | AutoPhase::VerifyingPublic(deadline) => Some(deadline),
            AutoPhase::Idle | AutoPhase::Settled => None,
        }
    }

    /// The phase that an attachment seen at `now` begins with.
    pub open spec fn attached_at(now: Instant) -> AutoPhase {
        AutoPhase::IdentifyingPublic {
            next_check: now.after(PUBLIC_IDENTITY_SETTLE_MS),
            identity_deadline: now.after(PUBLIC_IDENTITY_WINDOW_MS),
            native_deadline: now.after(NATIVE_NEGOTIATION_TIMEOUT_MS),
        }
    }

    /// The deadlines of an identification belong to one attachment: all three
    /// lie where some attachment instant puts them, and the next look at the
    /// charger comes after it has settled and before the window closes.
    pub open spec fn well_timed(self) -> bool {
        self matches AutoPhase::IdentifyingPublic { next_check, identity_deadline, native_deadline }
            ==> {
            &&& native_deadline.nanos - identity_deadline.nanos == (NATIVE_NEGOTIATION_TIMEOUT_MS
                - PUBLIC_IDENTITY_WINDOW_MS) * 1_000_000
            &&& identity_deadline.nanos - next_check.nanos <= (PUBLIC_IDENTITY_WINDOW_MS
                - PUBLIC_IDENTITY_SETTLE_MS) * 1_000_000
            &&& next_check.nanos <= identity_deadline.nanos
        }
    }
}

/// The phase that an attachment seen at `now` begins with: the charger is looked
/// at after the settle time, early identification ends with the identity window,
/// and Xiaomi's authentication has the whole negotiation time.
pub fn automatic_attach_phase(now: Instant) -> (phase: AutoPhase)
    requires
        now.can_add(NATIVE_NEGOTIATION_TIMEOUT_MS as int),
    ensures
        phase == AutoPhase::attached_at(now),
{
    AutoPhase::IdentifyingPublic {
        next_check: now.after(PUBLIC_IDENTITY_SETTLE_MS),
        identity_deadline: now.after(PUBLIC_IDENTITY_WINDOW_MS),
        native_deadline: now.after(NATIVE_NEGOTIATION_TIMEOUT_MS),
    }
}

/// The earlier of two deadlines, where either may be missing.
pub open spec fn earlier_deadline_spec(
    left: Option<Instant>,
    right: Option<Instant>,
) -> Option<Instant> {
    match (left, right) {
        (Some(l), Some(r)) => Some(l.min(r)),
        (Some(l), None) => Some(l),
        (None, other) => other,
    }
}

/// The earlier of two deadlines, where either may be missing.
#[verifier::when_used_as_spec(earlier_deadline_spec)]
pub fn earlier_deadline(left: Option<Instant>, right: Option<Instant>) -> (earlier: Option<Instant>)
    ensures
        earlier == earlier_deadline_spec(left, right),
{
    match (left, right) {
        (Some(l), Some(r)) => Some(l.min(r)),
        (Some(l), None) => Some(l),
        (None, other) => other,
    }
}

/// How many milliseconds a wait may last when `deadline` is the next thing due:
/// without limit (-1) where nothing is due, not at all where it is due already,
/// and else the whole milliseconds that are left, but at least one and at most
/// what the wait can express.
pub open spec fn timeout_until(deadline: Option<Instant>, now: Instant) -> int {
    match deadline {
        None => -1,
        Some(due) => if now.reached(due) {
            0
        } else {
            let millis = (due.nanos - now.nanos) / 1_000_000;
            if millis < 1 {
                1
            } else if millis > i32::MAX {
                i32::MAX as int
            } else {
                millis
            }
        },
    }
}

/// The timeout, in milliseconds, of the next wait at `now`: the time to the
/// earliest of the deadlines that are set.
pub fn epoll_timeout(
    phase: AutoPhase,
    detach_deadline: Option<Instant>,
    uevent_recheck_deadline: Option<Instant>,
    charger_detach_deadline: Option<Instant>,
    now: Instant,
) -> (timeout: i32)
    ensures
        timeout == timeout_until(
            earlier_deadline_spec(
                earlier_deadline_spec(phase.deadline_spec(), detach_deadline),
                earlier_deadline_spec(uevent_recheck_deadline, charger_detach_deadline),
            ),
            now,
        ),
{
    let deadline = earlier_deadline(
        earlier_deadline(phase.deadline(), detach_deadline),
        earlier_deadline(uevent_recheck_deadline, charger_detach_deadline),
    );
    match deadline {
        None => -1,
        Some(due) => {
            if now.reached(due) {
                0
            } else {
                let millis: u64 = (due.nanos - now.nanos) / 1_000_000;
                if millis < 1 {
                    1
                } else if millis > 0x7fff_ffff {
                    0x7fff_ffff
                } else {
                    millis as i32
                }
            }
        },
    }
}

} // verus!
