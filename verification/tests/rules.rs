use pd_verified_monitor::clock::Instant;
use pd_verified_monitor::phase::AutoPhase;
use pd_verified_monitor::rules::{
    can_start_public_retry, is_attached, is_charging_online, is_pps, is_verified,
    public_pps_activation_succeeded, should_capture_upstream_detach, should_enable_public_early,
    should_process_physical_detach, should_rearm_public_retry,
    should_start_native_wait_after_upstream_attach, MAX_PUBLIC_RETRIES_PER_UPSTREAM_SESSION,
};
use pd_verified_monitor::text::{same_bytes, same_text};

fn some_instant() -> Instant {
    Instant { nanos: 17_000_000_000 }
}

#[test]
fn physical_detach_is_processed_without_software_reconnect_masking() {
    assert!(should_process_physical_detach(true, false));
    assert!(!should_process_physical_detach(true, true));
    assert!(!should_process_physical_detach(false, false));
}

#[test]
fn public_activation_requires_verified_pps_state() {
    assert!(public_pps_activation_succeeded("1", "PD_PPS"));
    assert!(!public_pps_activation_succeeded("1", "PD"));
    assert!(!public_pps_activation_succeeded("0", "PD_PPS"));
}

#[test]
fn early_public_activation_requires_unverified_public_svid() {
    assert!(should_enable_public_early("0", "PD_PPS", "0000"));
    assert!(!should_enable_public_early("1", "PD_PPS", "0000"));
    assert!(!should_enable_public_early("0", "PD", "0000"));
    assert!(!should_enable_public_early("0", "PD_PPS", "2717"));
    assert!(!should_enable_public_early("0", "PD_PPS", ""));
}

#[test]
fn public_retry_budget_is_bounded() {
    assert!(can_start_public_retry(0));
    assert!(can_start_public_retry(1));
    assert!(!can_start_public_retry(2));
}

#[test]
fn upstream_swap_reenters_native_wait_only_after_charging_returns() {
    assert!(should_start_native_wait_after_upstream_attach(
        true, "Charging", "1"
    ));
    assert!(!should_start_native_wait_after_upstream_attach(
        true,
        "Discharging",
        "1"
    ));
    assert!(!should_start_native_wait_after_upstream_attach(
        true, "Charging", "0"
    ));
    assert!(!should_start_native_wait_after_upstream_attach(
        false, "Charging", "1"
    ));
}

#[test]
fn stable_native_or_public_sessions_can_capture_upstream_detach() {
    assert!(should_capture_upstream_detach(AutoPhase::Settled, true));
    assert!(!should_capture_upstream_detach(AutoPhase::Settled, false));
    assert!(!should_capture_upstream_detach(
        AutoPhase::EnablingPublic(some_instant()),
        true
    ));
    assert!(!should_capture_upstream_detach(
        AutoPhase::VerifyingPublic(some_instant()),
        true
    ));
}

#[test]
fn upstream_retry_rearm_requires_stable_offline_evidence() {
    assert!(!should_rearm_public_retry(
        false,
        true,
        "0",
        "Unknown",
        "Discharging",
        "0"
    ));
    assert!(!should_rearm_public_retry(
        true,
        false,
        "0",
        "Unknown",
        "Discharging",
        "0"
    ));
    assert!(!should_rearm_public_retry(
        true, true, "0", "Unknown", "Charging", "0"
    ));
    assert!(!should_rearm_public_retry(
        true,
        true,
        "0",
        "Unknown",
        "Discharging",
        "1"
    ));
    assert!(should_rearm_public_retry(
        true,
        true,
        "0",
        "Unknown",
        "Discharging",
        "0"
    ));
}

#[test]
fn every_other_offline_sign_is_needed_too() {
    assert!(!should_rearm_public_retry(
        true,
        true,
        "1",
        "Unknown",
        "Discharging",
        "0"
    ));
    assert!(!should_rearm_public_retry(
        true,
        true,
        "0",
        "PD_PPS",
        "Discharging",
        "0"
    ));
    assert!(!should_rearm_public_retry(
        true,
        true,
        "0",
        "Unknown",
        "Discharging",
        ""
    ));
}

#[test]
fn only_the_empty_port_is_detached() {
    assert!(!is_attached("Nothing attached"));
    assert!(is_attached("Sink attached"));
    assert!(is_attached("nothing attached"));
    assert!(is_attached("Nothing attached "));
    assert!(is_attached(""));
}

#[test]
fn nodes_are_read_to_the_letter() {
    assert!(is_verified("1"));
    assert!(!is_verified("0"));
    assert!(!is_verified("11"));
    assert!(!is_verified(""));
    assert!(is_pps("PD_PPS"));
    assert!(!is_pps("PD"));
    assert!(is_charging_online("Charging", "1"));
    assert!(!is_charging_online("Full", "1"));
    assert!(!is_charging_online("Charging", ""));
}

#[test]
fn budget_is_two_attempts() {
    assert_eq!(MAX_PUBLIC_RETRIES_PER_UPSTREAM_SESSION, 2);
    assert!(!can_start_public_retry(u8::MAX));
}

#[test]
fn text_and_bytes_are_compared_in_full() {
    assert!(same_text("", ""));
    assert!(same_text("充电", "充电"));
    assert!(!same_text("充电", "充"));
    assert!(!same_text("a", "b"));
    assert!(same_bytes(&[1, 2], &[1, 2]));
    assert!(!same_bytes(&[1, 2], &[1, 3]));
    assert!(!same_bytes(&[1, 2], &[1]));
}
