//! The rules by which the monitor reads the charger's nodes.

use vstd::prelude::*;

use crate::phase::AutoPhase;
use crate::text::same_text;

verus! {

/// How often public PPS may be enabled in one upstream charger session. A USB
/// meter or adapter can keep Type-C attached while its upstream charger is
/// swapped, so the budget belongs to the upstream session, not to the physical
/// attachment.
pub const MAX_PUBLIC_RETRIES_PER_UPSTREAM_SESSION: u8 = 2;

/// Whether the Type-C mode node tells of an attachment.
pub fn is_attached(typec_mode: &str) -> (attached: bool)
    ensures
        attached == (typec_mode@ != "Nothing attached"@),
{
    !same_text(typec_mode, "Nothing attached")
}

/// Whether a physical detachment has to be dealt with.
pub fn should_process_physical_detach(attached: bool, physically_attached: bool) -> (due: bool)
    ensures
        due == (attached && !physically_attached),
{
    attached && !physically_attached
}

/// Whether the port is verified.
pub fn is_verified(verified: &str) -> (is: bool)
    ensures
        is == (verified@ == "1"@),
{
    same_text(verified, "1")
}

/// Whether a PPS contract was negotiated.
pub fn is_pps(usb_type: &str) -> (is: bool)
    ensures
        is == (usb_type@ == "PD_PPS"@),
{
    same_text(usb_type, "PD_PPS")
}

/// Whether the battery charges from an online charger.
pub fn is_charging_online(battery_status: &str, usb_online: &str) -> (is: bool)
    ensures
        is == (battery_status@ == "Charging"@ && usb_online@ == "1"@),
{
    same_text(battery_status, "Charging") && same_text(usb_online, "1")
}

/// Whether public PPS is active: the port is verified and PPS is negotiated.
pub fn public_pps_activation_succeeded(verified: &str, usb_type: &str) -> (succeeded: bool)
    ensures
        succeeded == (verified@ == "1"@ && usb_type@ == "PD_PPS"@),
{
    is_verified(verified) && is_pps(usb_type)
}

/// Whether a charger shows itself as a public PPS charger before Xiaomi's
/// negotiation time is over: unverified, with PPS, and with no vendor's SVID.
pub fn should_enable_public_early(verified: &str, usb_type: &str, adapter_svid: &str) -> (enable:
    bool)
    ensures
        enable == (verified@ != "1"@ && usb_type@ == "PD_PPS"@ && adapter_svid@ == "0000"@),
{
    !is_verified(verified) && is_pps(usb_type) && same_text(adapter_svid, "0000")
}

/// Whether everything shows that the upstream charger went away while Type-C
/// stayed attached.
pub fn should_rearm_public_retry(
    charger_detach_armed: bool,
    usb_detach_uevent_seen: bool,
    verified: &str,
    usb_type: &str,
    battery_status: &str,
    usb_online: &str,
) -> (rearm: bool)
    ensures
        rearm == (charger_detach_armed && usb_detach_uevent_seen && verified@ == "0"@ && usb_type@
            == "Unknown"@ && battery_status@ == "Discharging"@ && usb_online@ == "0"@),
{
    charger_detach_armed && usb_detach_uevent_seen && same_text(verified, "0") && same_text(
        usb_type,
        "Unknown",
    ) && same_text(battery_status, "Discharging") && same_text(usb_online, "0")
}

/// Whether the budget leaves room for another attempt.
pub fn can_start_public_retry(attempt_count: u8) -> (can: bool)
    ensures
        can == (attempt_count < MAX_PUBLIC_RETRIES_PER_UPSTREAM_SESSION),
{
    attempt_count < MAX_PUBLIC_RETRIES_PER_UPSTREAM_SESSION
}

/// Whether the replacement charger of an upstream swap has begun to charge.
pub fn should_start_native_wait_after_upstream_attach(
    upstream_native_pending: bool,
    battery_status: &str,
    usb_online: &str,
) -> (start: bool)
    ensures
        start == (upstream_native_pending && battery_status@ == "Charging"@ && usb_online@
            == "1"@),
{
    upstream_native_pending && is_charging_online(battery_status, usb_online)
}

/// Whether uevents are read as evidence of an upstream detachment: only in a
/// settled session in which the detection is armed.
pub fn should_capture_upstream_detach(phase: AutoPhase, charger_detach_armed: bool) -> (capture:
    bool)
    ensures
        capture == (phase is Settled && charger_detach_armed),
{
    matches!(phase, AutoPhase::Settled) && charger_detach_armed
}

} // verus!
