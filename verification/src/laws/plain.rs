//! Times and states in plain numbers and flags, for laws that are to say what is
//! seen from outside.

use vstd::prelude::*;

use crate::clock::Instant;
use crate::phase::AutoPhase;
use crate::readings::ReadingsView;
use crate::tracker::{ChargingMode, Tracker};

verus! {

/// Whether `later` comes exactly `millis` milliseconds after `from`.
pub open spec fn is_later(from: Instant, millis: int, later: Instant) -> bool {
    later.nanos == from.nanos + millis * 1_000_000
}

/// Whether four seconds from `now` on can be counted.
pub open spec fn has_time(now: Instant) -> bool {
    now.nanos + 4_000_000_000 <= 0xffff_ffff_ffff_ffff
}

/// Whether a phase is the beginning of a negotiation at `now`: the first look at the
/// charger's identity comes after 400 ms, early identification ends after a second,
/// and Xiaomi's protocol has four.
pub open spec fn begins_at(phase: AutoPhase, now: Instant) -> bool {
    phase matches AutoPhase::IdentifyingPublic { next_check, identity_deadline, native_deadline }
        && {
        &&& is_later(now, 400, next_check)
        &&& is_later(now, 1_000, identity_deadline)
        &&& is_later(now, 4_000, native_deadline)
    }
}

/// Whether nothing is known of an upstream charger and no attempt was made.
pub open spec fn knows_no_charger(tracker: Tracker) -> bool {
    &&& tracker.public_retry_count == 0
    &&& !tracker.public_retry_attempted
    &&& !tracker.upstream_native_pending
    &&& tracker.uevent_recheck_deadline is None
    &&& !tracker.charger_detach_armed
    &&& !tracker.usb_detach_uevent_seen
    &&& tracker.charger_detach_deadline is None
}

/// Whether a tracker is that of a port that is first looked at `now`, apart from the
/// charging session.
pub open spec fn starts_at(
    tracker: Tracker,
    mode: ChargingMode,
    attached: bool,
    now: Instant,
) -> bool {
    &&& tracker.mode == mode
    &&& tracker.uevent_registered == (mode != ChargingMode::Native)
    &&& tracker.attached == attached
    &&& tracker.detach_deadline is None
    &&& knows_no_charger(tracker)
    &&& if mode == ChargingMode::Automatic && attached {
        begins_at(tracker.phase, now)
    } else {
        tracker.phase is Idle
    }
}

/// Whether the nodes show that the battery charges from an online charger.
pub open spec fn reads_charging(readings: ReadingsView) -> bool {
    readings.battery_status == "Charging"@ && readings.usb_online == "1"@
}

/// Whether every node shows that no charger is there.
pub open spec fn reads_offline(readings: ReadingsView) -> bool {
    &&& readings.verified == "0"@
    &&& readings.usb_type == "Unknown"@
    &&& readings.battery_status == "Discharging"@
    &&& readings.usb_online == "0"@
}

} // verus!
