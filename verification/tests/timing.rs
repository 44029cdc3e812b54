use pd_verified_monitor::clock::Instant;
use pd_verified_monitor::phase::{
    automatic_attach_phase, earlier_deadline, epoll_timeout, AutoPhase,
};

fn at(millis: u64) -> Instant {
    Instant {
        nanos: millis * 1_000_000,
    }
}

#[test]
fn attachment_sets_three_deadlines() {
    assert_eq!(
        automatic_attach_phase(at(10_000)),
        AutoPhase::IdentifyingPublic {
            next_check: at(10_400),
            identity_deadline: at(11_000),
            native_deadline: at(14_000),
        }
    );
}

#[test]
fn phases_have_their_deadlines() {
    assert_eq!(AutoPhase::Idle.deadline(), None);
    assert_eq!(AutoPhase::Settled.deadline(), None);
    assert_eq!(AutoPhase::WaitingNative(at(3)).deadline(), Some(at(3)));
    assert_eq!(AutoPhase::EnablingPublic(at(4)).deadline(), Some(at(4)));
    assert_eq!(AutoPhase::VerifyingPublic(at(5)).deadline(), Some(at(5)));
    assert_eq!(automatic_attach_phase(at(0)).deadline(), Some(at(400)));
}

#[test]
fn nothing_due_means_no_timeout() {
    assert_eq!(
        epoll_timeout(AutoPhase::Settled, None, None, None, at(5)),
        -1
    );
    assert_eq!(epoll_timeout(AutoPhase::Idle, None, None, None, at(0)), -1);
}

#[test]
fn earliest_deadline_limits_the_wait() {
    let phase = AutoPhase::WaitingNative(at(4_000));
    assert_eq!(epoll_timeout(phase, None, None, None, at(1_000)), 3_000);
    assert_eq!(
        epoll_timeout(phase, Some(at(2_500)), None, None, at(1_000)),
        1_500
    );
    assert_eq!(
        epoll_timeout(phase, Some(at(2_500)), Some(at(1_250)), None, at(1_000)),
        250
    );
    assert_eq!(
        epoll_timeout(
            phase,
            Some(at(2_500)),
            Some(at(1_250)),
            Some(at(1_100)),
            at(1_000)
        ),
        100
    );
}

#[test]
fn due_deadlines_end_the_wait_at_once() {
    let phase = AutoPhase::EnablingPublic(at(500));
    assert_eq!(epoll_timeout(phase, None, None, None, at(500)), 0);
    assert_eq!(epoll_timeout(phase, None, None, None, at(900)), 0);
}

#[test]
fn timeouts_are_whole_milliseconds_in_range() {
    let due = AutoPhase::WaitingNative(Instant { nanos: 2_999_999 });
    let now = Instant { nanos: 1_000_000 };
    assert_eq!(epoll_timeout(due, None, None, None, now), 1);
    let near = AutoPhase::WaitingNative(Instant { nanos: 1_000_001 });
    assert_eq!(epoll_timeout(near, None, None, None, now), 1);
    let far = AutoPhase::WaitingNative(Instant { nanos: u64::MAX });
    assert_eq!(epoll_timeout(far, None, None, None, now), i32::MAX);
}

#[test]
fn missing_deadlines_are_never_earlier() {
    assert_eq!(earlier_deadline(None, None), None);
    assert_eq!(earlier_deadline(Some(at(1)), None), Some(at(1)));
    assert_eq!(earlier_deadline(None, Some(at(2))), Some(at(2)));
    assert_eq!(earlier_deadline(Some(at(3)), Some(at(2))), Some(at(2)));
}

#[test]
fn clock_arithmetic_is_in_nanoseconds() {
    let now = Instant { nanos: 5 };
    assert_eq!(now.after(250), Instant { nanos: 250_000_005 });
    assert!(now.reached(Instant { nanos: 5 }));
    assert!(!now.reached(Instant { nanos: 6 }));
    assert_eq!(now.min(Instant { nanos: 4 }), Instant { nanos: 4 });
}
