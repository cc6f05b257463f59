use c3_watchdog::clock::micros_of;
use c3_watchdog::clock::stamp_of;
use c3_watchdog::clock::timestamp_millis;
use c3_watchdog::pingee::grace;
use c3_watchdog::pingee::steady;
use c3_watchdog::pingee::DrainStep;
use c3_watchdog::pingee::Endpoint;
use c3_watchdog::pingee::InactivityDeadline;
use c3_watchdog::pingee::PingAction;
use c3_watchdog::pingee::PingError;
use c3_watchdog::pingee::Pingee;
use c3_watchdog::pingee::Receipt;
use c3_watchdog::pingee::TimerReading;
use c3_watchdog::pingee::GRACE_SECS;
use c3_watchdog::pingee::HEARTBEAT_PORT;
use c3_watchdog::pingee::LOOPBACK;
use c3_watchdog::pingee::STEADY_SECS;
use c3_watchdog::span::Span;
use c3_watchdog::span::NANOS_PER_SEC;

fn secs(secs: i64) -> Span {
    Span::new(secs, 0).unwrap()
}

#[test]
fn span_new_takes_only_well_formed_parts() {
    assert_eq!(Span::new(0, 0), Some(Span { secs: 0, nanos: 0 }));
    assert_eq!(Span::new(3, 999_999_999), Some(Span { secs: 3, nanos: 999_999_999 }));
    assert_eq!(Span::new(3, 1_000_000_000), None);
    assert_eq!(Span::new(-1, 0), None);
    assert_eq!(Span::new(0, -1), None);
    assert_eq!(Span::new(i64::MAX, 0).map(|s| s.seconds()), Some(i64::MAX));
    assert_eq!(Span::zero(), Span { secs: 0, nanos: 0 });
    assert!(Span::zero().is_zero());
    assert!(!Span { secs: 0, nanos: 1 }.is_zero());
    assert!(!Span { secs: 1, nanos: 0 }.is_zero());
    assert_eq!(NANOS_PER_SEC, 1_000_000_000);
}

#[test]
fn span_order_goes_by_seconds_then_nanoseconds() {
    let a = Span { secs: 29, nanos: 999_999_999 };
    let b = Span { secs: 30, nanos: 0 };
    let c = Span { secs: 30, nanos: 1 };
    assert!(a.lt(&b));
    assert!(!b.lt(&a));
    assert!(b.lt(&c));
    assert!(!c.lt(&b));
    assert!(a.lt(&c));
    assert!(!b.lt(&b));
    assert!(Span { secs: 0, nanos: 5 }.lt(&Span { secs: 1, nanos: 0 }));
    assert!(!Span { secs: 1, nanos: 0 }.lt(&Span { secs: 0, nanos: 5 }));
}

#[test]
fn span_difference_borrows_and_stops_at_nothing() {
    let a = Span { secs: 120, nanos: 0 };
    assert_eq!(a.saturating_sub(&Span { secs: 5, nanos: 0 }), Span { secs: 115, nanos: 0 });
    assert_eq!(
        a.saturating_sub(&Span { secs: 0, nanos: 1 }),
        Span { secs: 119, nanos: 999_999_999 }
    );
    assert_eq!(
        Span { secs: 2, nanos: 300 }.saturating_sub(&Span { secs: 1, nanos: 100 }),
        Span { secs: 1, nanos: 200 }
    );
    assert_eq!(a.saturating_sub(&a), Span::zero());
    assert_eq!(a.saturating_sub(&Span { secs: 121, nanos: 0 }), Span::zero());
    assert_eq!(
        Span { secs: 1, nanos: 5 }.saturating_sub(&Span { secs: 1, nanos: 6 }),
        Span::zero()
    );
}

#[test]
fn magnitudes_are_two_minutes_and_half_a_minute() {
    assert_eq!(grace(), Span { secs: 120, nanos: 0 });
    assert_eq!(steady(), Span { secs: 30, nanos: 0 });
    assert_eq!(GRACE_SECS, 120);
    assert_eq!(STEADY_SECS, 30);
}

#[test]
fn pingee_listens_on_loopback_with_grace_armed() {
    let pingee = Pingee::new();
    assert_eq!(pingee.endpoint, Endpoint { host: LOOPBACK, port: HEARTBEAT_PORT });
    assert_eq!(pingee.endpoint.host.to_be_bytes(), [127, 0, 0, 1]);
    assert_eq!(pingee.endpoint.port, 20001);
    assert_eq!(pingee.armed, secs(120));
}

#[test]
fn drain_goes_on_until_the_queue_is_empty() {
    let pingee = Pingee::new();
    assert_eq!(pingee.on_receive(Receipt::Datagram), DrainStep::Again);
    assert_eq!(pingee.on_receive(Receipt::WouldBlock), DrainStep::Drained);
    assert_eq!(pingee.on_receive(Receipt::Failed), DrainStep::Failed);

    let mut queued = 5;
    let mut attempts = 0;
    loop {
        let receipt = if queued > 0 {
            queued -= 1;
            Receipt::Datagram
        } else {
            Receipt::WouldBlock
        };
        attempts += 1;
        match pingee.on_receive(receipt) {
            DrainStep::Again => {}
            DrainStep::Drained => break,
            DrainStep::Failed => panic!("the drain failed"),
        }
    }
    assert_eq!(attempts, 6);
    assert_eq!(queued, 0);
}

#[test]
fn heartbeat_with_enough_left_changes_nothing() {
    let mut pingee = Pingee::new();
    for remaining in [secs(30), secs(31), secs(115), secs(120), Span { secs: 30, nanos: 1 }] {
        assert_eq!(pingee.on_ping(TimerReading::OneShot(remaining)), Ok(PingAction::Keep));
        assert_eq!(pingee.armed, secs(120));
    }
}

#[test]
fn heartbeat_with_little_left_rearms_to_thirty_seconds() {
    for remaining in [secs(0), secs(1), secs(20), Span { secs: 29, nanos: 999_999_999 }] {
        let mut pingee = Pingee::new();
        assert_eq!(
            pingee.on_ping(TimerReading::OneShot(remaining)),
            Ok(PingAction::Rearm(Span { secs: 30, nanos: 0 }))
        );
        assert_eq!(pingee.armed, secs(30));
        assert_eq!(pingee.endpoint.port, 20001);
    }
}

#[test]
fn heartbeat_on_a_timer_not_counting_down_once_is_an_error() {
    let mut pingee = Pingee::new();
    for reading in [
        TimerReading::Disarmed,
        TimerReading::Interval(secs(10)),
        TimerReading::IntervalDelayed(secs(10), secs(20)),
    ] {
        assert_eq!(pingee.on_ping(reading), Err(PingError::UnexpectedTimer));
        assert_eq!(pingee.armed, secs(120));
    }
}

#[test]
fn early_heartbeat_does_not_shorten_the_grace() {
    // a heartbeat five seconds in, then silence: the countdown still runs
    // out two minutes after startup
    let mut deadline = InactivityDeadline::new();
    assert_eq!(deadline.remaining(), secs(120));
    deadline.elapse(&secs(5));
    assert_eq!(deadline.remaining(), secs(115));
    assert_eq!(deadline.heartbeat(), Ok(PingAction::Keep));
    assert_eq!(deadline.remaining(), secs(115));
    deadline.elapse(&Span { secs: 114, nanos: 999_999_999 });
    assert!(!deadline.expired());
    assert_eq!(deadline.reading(), TimerReading::OneShot(Span { secs: 0, nanos: 1 }));
    deadline.elapse(&Span { secs: 0, nanos: 1 });
    assert!(deadline.expired());
    assert_eq!(deadline.reading(), TimerReading::Disarmed);
}

#[test]
fn heartbeat_at_twenty_seconds_left_resets_to_thirty() {
    let mut deadline = InactivityDeadline::new();
    deadline.elapse(&secs(100));
    assert_eq!(deadline.remaining(), secs(20));
    assert_eq!(deadline.heartbeat(), Ok(PingAction::Rearm(secs(30))));
    assert_eq!(deadline.remaining(), Span { secs: 30, nanos: 0 });
}

#[test]
fn steady_state_without_heartbeats_runs_out_after_thirty_seconds() {
    let mut deadline = InactivityDeadline::new();
    deadline.elapse(&secs(95));
    assert_eq!(deadline.heartbeat(), Ok(PingAction::Rearm(secs(30))));
    deadline.elapse(&secs(29));
    assert!(!deadline.expired());
    assert_eq!(deadline.heartbeat(), Ok(PingAction::Rearm(secs(30))));
    deadline.elapse(&secs(30));
    assert!(deadline.expired());
    deadline.elapse(&secs(30));
    assert!(deadline.expired());
    assert_eq!(deadline.remaining(), Span::zero());
    // too late: the timer has fired and reads as disarmed
    assert_eq!(deadline.heartbeat(), Err(PingError::UnexpectedTimer));
    assert!(deadline.expired());
}

#[test]
fn microseconds_drop_what_is_below_one() {
    assert_eq!(micros_of(0, 0), 0);
    assert_eq!(micros_of(0, 999), 0);
    assert_eq!(micros_of(0, 1_000), 1);
    assert_eq!(micros_of(1, 0), 1_000_000);
    assert_eq!(micros_of(1_700_000_000, 123_456_789), 1_700_000_000_123_456);
    assert_eq!(micros_of(u64::MAX, 999_999_999), u64::MAX as u128 * 1_000_000 + 999_999);
}

#[test]
fn stamp_follows_the_reading_of_the_clock() {
    assert_eq!(stamp_of(None), None);
    assert_eq!(stamp_of(Some((0, 0))), Some(0));
    assert_eq!(stamp_of(Some((0, 999))), Some(0));
    assert_eq!(stamp_of(Some((0, 1_000))), Some(1));
    assert_eq!(stamp_of(Some((1_700_000_000, 123_456_789))), Some(1_700_000_000_123_456));
    assert_eq!(
        stamp_of(Some((u64::MAX, 999_999_999))),
        Some(u64::MAX as u128 * 1_000_000 + 999_999)
    );
}

#[test]
fn timestamp_is_in_microseconds_since_the_epoch() {
    let direct = std::time::SystemTime::now()
        .duration_since(std::time::UNIX_EPOCH)
        .unwrap()
        .as_micros();
    let stamp = timestamp_millis().expect("the clock is set after the epoch");
    let after = std::time::SystemTime::now()
        .duration_since(std::time::UNIX_EPOCH)
        .unwrap()
        .as_micros();
    assert!(direct <= stamp + 1_000_000);
    assert!(stamp <= after + 1_000_000);
    // later than the first of January 2020
    assert!(stamp > 1_577_836_800_000_000);
}
