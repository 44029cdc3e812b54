use pd_verified_monitor::monitor::Event;
use pd_verified_monitor::uevent::usb_went_offline;
use pd_verified_monitor::wait::{wait_failed, woken};

#[test]
fn offline_usb_supply_is_recognised() {
    assert!(usb_went_offline(
        b"change@/devices/usb\0ACTION=change\0POWER_SUPPLY_NAME=usb\0POWER_SUPPLY_ONLINE=0\0"
    ));
    assert!(usb_went_offline(
        b"POWER_SUPPLY_ONLINE=0\nPOWER_SUPPLY_NAME=usb"
    ));
}

#[test]
fn online_usb_supply_is_not_offline() {
    assert!(!usb_went_offline(
        b"POWER_SUPPLY_NAME=usb\0POWER_SUPPLY_ONLINE=1\0"
    ));
    assert!(!usb_went_offline(
        b"POWER_SUPPLY_NAME=usb\0POWER_SUPPLY_ONLINE=01\0"
    ));
    assert!(!usb_went_offline(
        b"POWER_SUPPLY_NAME=usb\0POWER_SUPPLY_ONLINE=\0"
    ));
    assert!(!usb_went_offline(b"POWER_SUPPLY_NAME=usb\0"));
}

#[test]
fn other_supplies_do_not_count() {
    assert!(!usb_went_offline(
        b"POWER_SUPPLY_NAME=battery\0POWER_SUPPLY_ONLINE=0\0"
    ));
    assert!(!usb_went_offline(
        b"POWER_SUPPLY_NAME=usb2\0POWER_SUPPLY_ONLINE=0\0"
    ));
    assert!(!usb_went_offline(
        b"XPOWER_SUPPLY_NAME=usb\0POWER_SUPPLY_ONLINE=0\0"
    ));
    assert!(!usb_went_offline(b"POWER_SUPPLY_ONLINE=0\0"));
    assert!(!usb_went_offline(b""));
}

#[test]
fn first_online_field_decides() {
    assert!(usb_went_offline(
        b"POWER_SUPPLY_ONLINE=0\0POWER_SUPPLY_NAME=usb\0POWER_SUPPLY_ONLINE=1\0"
    ));
    assert!(!usb_went_offline(
        b"POWER_SUPPLY_ONLINE=1\0POWER_SUPPLY_NAME=usb\0POWER_SUPPLY_ONLINE=0\0"
    ));
}

#[test]
fn bytes_that_are_no_text_do_no_harm() {
    assert!(usb_went_offline(
        b"\xff\xfe\0POWER_SUPPLY_NAME=usb\n\xc3\0POWER_SUPPLY_ONLINE=0\0"
    ));
    assert!(!usb_went_offline(
        b"POWER_SUPPLY_NAME=usb\xff\0POWER_SUPPLY_ONLINE=0\0"
    ));
}

#[test]
fn ready_tokens_become_flags() {
    assert!(matches!(
        woken(&[7, 9], 7, 8, 9),
        Event::Woken {
            stop: true,
            config: false,
            uevent: true
        }
    ));
    assert!(matches!(
        woken(&[], 7, 8, 9),
        Event::Woken {
            stop: false,
            config: false,
            uevent: false
        }
    ));
    assert!(matches!(
        woken(&[8], 7, 8, 9),
        Event::Woken {
            stop: false,
            config: true,
            uevent: false
        }
    ));
}

#[test]
fn interruptions_are_transient() {
    let interrupted = libc::EINTR;
    let try_again = libc::EAGAIN;
    assert!(matches!(
        wait_failed(Some(libc::EINTR), interrupted, try_again),
        Event::WaitFailed { transient: true }
    ));
    assert!(matches!(
        wait_failed(Some(libc::EAGAIN), interrupted, try_again),
        Event::WaitFailed { transient: true }
    ));
    assert!(matches!(
        wait_failed(Some(libc::EBADF), interrupted, try_again),
        Event::WaitFailed { transient: false }
    ));
    assert!(matches!(
        wait_failed(None, interrupted, try_again),
        Event::WaitFailed { transient: false }
    ));
}
