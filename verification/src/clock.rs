//! Monotonic time as the monitor sees it.

use vstd::prelude::*;

verus! {

/// How long Xiaomi's own authentication may take after an attachment.
pub const NATIVE_NEGOTIATION_TIMEOUT_MS: u64 = 4000;

/// How long the charger's identity settles before it is looked at.
pub const PUBLIC_IDENTITY_SETTLE_MS: u64 = 400;

/// How long an attachment is watched for an early sign of a public charger.
pub const PUBLIC_IDENTITY_WINDOW_MS: u64 = 1000;

/// How long to wait between two looks at the charger's identity.
pub const PUBLIC_IDENTITY_RECHECK_MS: u64 = 100;

/// How long after the first write public PPS is asserted once more.
pub const PUBLIC_REASSERT_DELAY_MS: u64 = 500;

/// How long after the second write the outcome is verified.
pub const PUBLIC_VERIFY_DELAY_MS: u64 = 1500;

/// How long a detachment, physical or upstream, has to last to count.
pub const DETACH_DEBOUNCE_MS: u64 = 1500;

/// How long after an uevent the nodes are read once more.
pub const UEVENT_RECHECK_MS: u64 = 250;

/// How long to pause after a failed wait.
pub const WAIT_FAILURE_PAUSE_MS: u64 = 1000;

/// A reading of the monotonic clock, in nanoseconds since a fixed moment of the
/// caller's choice.
#[derive(Clone, Copy, PartialEq, Eq, Structural, Debug)]
pub struct Instant {
    pub nanos: u64,
}

impl Instant {
    /// Whether the instant `millis` milliseconds later can be represented.
    pub open spec fn can_add(self, millis: int) -> bool {
        self.nanos + millis * 1_000_000 <= u64::MAX
    }

    /// Whether every deadline that the monitor sets from here can be represented.
    pub open spec fn can_schedule(self) -> bool {
        self.can_add(NATIVE_NEGOTIATION_TIMEOUT_MS as int)
    }

    /// The instant `millis` milliseconds later.
    pub open spec fn after_spec(self, millis: u64) -> Instant {
        Instant { nanos: (self.nanos + millis * 1_000_000) as u64 }
    }

    /// The instant `millis` milliseconds later.
    #[verifier::when_used_as_spec(after_spec)]
    pub fn after(self, millis: u64) -> (later: Instant)
        requires
            self.can_add(millis as int),
        ensures
            later == self.after_spec(millis),
    {
        Instant { nanos: self.nanos + millis * 1_000_000 }
    }

    /// Whether this instant is at or past `deadline`.
    pub open spec fn reached_spec(self, deadline: Instant) -> bool {
        self.nanos >= deadline.nanos
    }

    /// Whether this instant is at or past `deadline`.
    #[verifier::when_used_as_spec(reached_spec)]
    pub fn reached(self, deadline: Instant) -> (reached: bool)
        ensures
            reached == self.reached_spec(deadline),
    {
        self.nanos >= deadline.nanos
    }

    /// The earlier of two instants.
    pub open spec fn min_spec(self, other: Instant) -> Instant {
        if self.nanos <= other.nanos {
            self
        } else {
            other
        }
    }

    /// The earlier of two instants.
    #[verifier::when_used_as_spec(min_spec)]
    pub fn min(self, other: Instant) -> (earlier: Instant)
        ensures
            earlier == self.min_spec(other),
    {
        if self.nanos <= other.nanos {
            self
        } else {
            other
        }
    }
}

} // verus!
