//! What the monitor tells the outside about a step.

use vstd::prelude::*;

use crate::session::SessionUpdate;
use crate::tracker::ChargingMode;

verus! {

/// Something worth a line in the log.
#[derive(Clone, Copy, PartialEq, Eq, Structural, Debug)]
pub enum Notice {
    /// The monitoring of uevents was switched on or off.
    UeventMonitoring(bool),
    /// A new mode is in force.
    ModeChanged(ChargingMode),
    /// The wait for events failed.
    WaitFailed,
    /// The cable was pulled; the port is back at Xiaomi's protocol first.
    Detached,
    /// A cable was plugged in; the charger is being identified.
    Attached,
    /// A replacement charger charges; it is being identified.
    UpstreamAttached,
    /// The charger left the adapter that stays attached.
    UpstreamDetached,
    /// The charging state is stable; the detection of a swap is armed.
    DetectionArmed,
    /// Public PPS did not stay verified; a bounded retry is allowed.
    RetryAllowed,
    /// The charging state is stable and the detection of a swap was armed, but
    /// public PPS did not stay verified; a bounded retry is allowed.
    ArmedAndRetryAllowed,
    /// Xiaomi's authentication succeeded.
    NativeVerified,
    /// The charger shows itself as public early; public PPS is being enabled.
    PublicIdentified,
    /// The adapter has a vendor's SVID; Xiaomi's authentication is waited for.
    VendorIdentified,
    /// No authentication in time; public PPS is being enabled.
    PublicFallback,
    /// No authentication in time, and no public PPS to fall back to.
    NotForced,
    /// Public PPS appeared in a settled session and is being enabled.
    PublicAppeared,
    /// Public PPS was asserted once more.
    PublicReasserted,
    /// Public PPS is active.
    PublicConfirmed,
    /// Public PPS did not become active.
    PublicNotConfirmed,
}

/// The outcome of one step: what to publish about the charging session, and what
/// to log.
#[derive(Clone, Copy, PartialEq, Eq, Debug)]
pub struct Outcome {
    pub session: Option<SessionUpdate>,
    pub notice: Option<Notice>,
}

impl Outcome {
    /// Nothing to publish and nothing to log.
    pub open spec fn quiet_spec() -> Outcome {
        Outcome { session: None, notice: None }
    }

    /// Nothing to publish and nothing to log.
    #[verifier::when_used_as_spec(quiet_spec)]
    pub fn quiet() -> (outcome: Outcome)
        ensures
            outcome == Outcome::quiet_spec(),
    {
        Outcome { session: None, notice: None }
    }

    /// Only something to log.
    pub open spec fn noticed_spec(notice: Notice) -> Outcome {
        Outcome { session: None, notice: Some(notice) }
    }

    /// Only something to log.
    #[verifier::when_used_as_spec(noticed_spec)]
    pub fn noticed(notice: Notice) -> (outcome: Outcome)
        ensures
            outcome == Outcome::noticed_spec(notice),
    {
        Outcome { session: None, notice: Some(notice) }
    }
}

} // verus!
