use c3_watchdog::line::LineRequest;
use c3_watchdog::pingee::Endpoint;
use c3_watchdog::pingee::TimerReading;
use c3_watchdog::reactor::Ending;
use c3_watchdog::reactor::Fault;
use c3_watchdog::reactor::Reactor;
use c3_watchdog::reactor::Reply;
use c3_watchdog::reactor::Request;
use c3_watchdog::reactor::Source;
use c3_watchdog::reactor::Stage;
use c3_watchdog::signal::SignalBridge;
use c3_watchdog::signal::TerminationRequest;
use c3_watchdog::signal::TerminationSignal;
use c3_watchdog::span::Span;

const ON: Span = Span { secs: 0, nanos: 100_000_000 };
const OFF: Span = Span { secs: 0, nanos: 900_000_000 };
const TIMEOUT: Ending = Ending::Requested(TerminationRequest::Timeout);
const SIGNALED: Ending = Ending::Requested(TerminationRequest::Signaled);

fn reactor() -> Reactor {
    Reactor::new("gpiochip2", "PET_WDT", 25, SignalBridge::termination())
}

/// A reactor that has come as far as asking the chip for the line's name.
fn reading_label() -> Reactor {
    let mut r = reactor();
    assert_eq!(r.request(), Request::OpenPoller);
    assert_eq!(r.resume(Reply::Done), Request::CreateDeadline);
    assert_eq!(r.resume(Reply::Done), Request::ArmDeadline(Span { secs: 120, nanos: 0 }));
    assert_eq!(
        r.resume(Reply::Done),
        Request::Bind(Endpoint { host: 0x7f00_0001, port: 20001 })
    );
    assert_eq!(r.resume(Reply::Done), Request::OpenChip);
    assert_eq!(r.resume(Reply::Done), Request::ReadLabel(25));
    r
}

/// A reactor that holds the line and registers its sources.
fn registering() -> Reactor {
    let mut r = reading_label();
    assert_eq!(
        r.resume(Reply::Label("PET_WDT".to_string())),
        Request::RequestLine(LineRequest { line: 25, initial_level: false })
    );
    assert_eq!(r.resume(Reply::Done), Request::CreatePetTimer);
    assert_eq!(r.resume(Reply::Done), Request::BlockSignals(SignalBridge::termination()));
    assert_eq!(r.resume(Reply::Done), Request::Register);
    r
}

/// A reactor that has started, petted once, and waits.
fn running() -> Reactor {
    let mut r = registering();
    assert_eq!(r.resume(Reply::Done), Request::WriteLine(true));
    assert_eq!(r.resume(Reply::Done), Request::ArmPetTimer(ON));
    assert_eq!(r.resume(Reply::Done), Request::Wait);
    r
}

fn remaining(secs: i64) -> Reply {
    Reply::Reading(TimerReading::OneShot(Span { secs, nanos: 0 }))
}

#[test]
fn tokens_and_sources_correspond() {
    assert_eq!(Source::Heartbeat.token(), 0);
    assert_eq!(Source::PetTimer.token(), 1);
    assert_eq!(Source::InactivityTimer.token(), 2);
    assert_eq!(Source::Signal.token(), 3);
    assert_eq!(Source::from_token(0), Some(Source::Heartbeat));
    assert_eq!(Source::from_token(1), Some(Source::PetTimer));
    assert_eq!(Source::from_token(2), Some(Source::InactivityTimer));
    assert_eq!(Source::from_token(3), Some(Source::Signal));
    assert_eq!(Source::from_token(4), None);
    assert_eq!(Source::from_token(usize::MAX), None);
}

#[test]
fn startup_pets_once_and_then_waits() {
    let mut r = registering();
    assert_eq!(r.stage(), Stage::Registering);
    assert_eq!(r.level(), false);
    assert_eq!(r.ending(), None);
    assert_eq!(r.resume(Reply::Done), Request::WriteLine(true));
    assert_eq!(r.stage(), Stage::WritingLine);
    assert_eq!(r.level(), true);
    assert_eq!(r.resume(Reply::Done), Request::ArmPetTimer(ON));
    assert_eq!(r.resume(Reply::Done), Request::Wait);
    assert_eq!(r.stage(), Stage::Waiting);
    assert_eq!(r.request(), Request::Wait);
}

#[test]
fn line_is_held_from_its_request_to_its_release() {
    for stage in [
        Stage::OpeningPoller,
        Stage::CreatingDeadline,
        Stage::ArmingGrace,
        Stage::Binding,
        Stage::OpeningChip,
        Stage::ReadingLabel,
        Stage::RequestingLine,
        Stage::Exited(SIGNALED),
        Stage::Exited(Ending::Faulted(Fault::LineWrite)),
    ] {
        assert!(!stage.holds_line());
    }
    for stage in [
        Stage::CreatingPetTimer,
        Stage::BlockingSignals,
        Stage::Registering,
        Stage::WritingLine,
        Stage::ArmingPetTimer,
        Stage::Waiting,
        Stage::Receiving,
        Stage::ReadingDeadline,
        Stage::ArmingDeadline,
        Stage::ConsumingPetTimer,
        Stage::Releasing(TIMEOUT),
    ] {
        assert!(stage.holds_line());
    }
}

/// Before the line is held a failure ends the daemon at once, with
/// nothing written.
fn exits_at_once_on(mut r: Reactor, reply: Reply, fault: Fault) {
    assert_eq!(r.resume(reply), Request::Exit(Ending::Faulted(fault)));
    assert_eq!(r.stage(), Stage::Exited(Ending::Faulted(fault)));
    assert_eq!(r.level(), false);
    assert_eq!(r.resume(Reply::Done), Request::Exit(Ending::Faulted(fault)));
    assert!(!Ending::Faulted(fault).is_success());
}

#[test]
fn startup_failure_before_the_line_is_held_exits_at_once() {
    exits_at_once_on(reactor(), Reply::Failed, Fault::Poller);

    let mut r = reactor();
    r.resume(Reply::Done);
    exits_at_once_on(r, Reply::Failed, Fault::DeadlineCreate);

    let mut r = reactor();
    r.resume(Reply::Done);
    r.resume(Reply::Done);
    exits_at_once_on(r, Reply::Failed, Fault::DeadlineArm);

    let mut r = reactor();
    r.resume(Reply::Done);
    r.resume(Reply::Done);
    r.resume(Reply::Done);
    exits_at_once_on(r, Reply::Failed, Fault::Bind);

    let mut r = reactor();
    r.resume(Reply::Done);
    r.resume(Reply::Done);
    r.resume(Reply::Done);
    r.resume(Reply::Done);
    exits_at_once_on(r, Reply::Failed, Fault::ChipOpen);

    exits_at_once_on(reading_label(), Reply::Failed, Fault::LabelRead);

    let mut r = reading_label();
    r.resume(Reply::Label("PET_WDT".to_string()));
    exits_at_once_on(r, Reply::Failed, Fault::LineRequest);

    exits_at_once_on(reactor(), Reply::Datagram, Fault::Protocol);
    exits_at_once_on(reading_label(), Reply::Done, Fault::Protocol);
}

#[test]
fn mismatched_label_ends_startup_with_nothing_written() {
    for found in ["SOMETHING_ELSE", "", "PET_WDT ", "pet_wdt"] {
        exits_at_once_on(reading_label(), Reply::Label(found.to_string()), Fault::LabelMismatch);
    }
}

#[test]
fn startup_failure_once_the_line_is_held_releases_it() {
    let mut r = reading_label();
    r.resume(Reply::Label("PET_WDT".to_string()));
    r.resume(Reply::Done);
    ends_on(r, Reply::Failed, Fault::PetTimerCreate);

    let mut r = reading_label();
    r.resume(Reply::Label("PET_WDT".to_string()));
    r.resume(Reply::Done);
    r.resume(Reply::Done);
    ends_on(r, Reply::Failed, Fault::SignalMask);

    ends_on(registering(), Reply::Failed, Fault::Registration);
}

#[test]
fn pet_timer_drives_the_duty_cycle() {
    let mut r = running();
    for n in 2..=7u32 {
        assert_eq!(r.resume(Reply::Ready(vec![Source::PetTimer])), Request::ConsumePetTimer);
        let level = n % 2 == 1;
        assert_eq!(r.resume(Reply::Done), Request::WriteLine(level));
        assert_eq!(r.level(), level);
        assert_eq!(r.resume(Reply::Done), Request::ArmPetTimer(if level { ON } else { OFF }));
        assert_eq!(r.resume(Reply::Done), Request::Wait);
    }
}

#[test]
fn signal_right_after_startup_exits_in_success_with_line_inactive() {
    let mut r = running();
    assert_eq!(r.level(), true);
    assert_eq!(r.resume(Reply::Ready(vec![Source::Signal])), Request::ReleaseLine);
    assert_eq!(r.stage(), Stage::Releasing(SIGNALED));
    assert_eq!(r.resume(Reply::Done), Request::Exit(SIGNALED));
    assert_eq!(r.level(), false);
    assert_eq!(r.ending(), Some(SIGNALED));
    assert!(SIGNALED.is_success());
    assert!(TerminationRequest::Signaled.is_success());
}

#[test]
fn inactivity_timer_exits_in_failure_with_line_inactive() {
    let mut r = running();
    assert_eq!(r.resume(Reply::Ready(vec![Source::InactivityTimer])), Request::ReleaseLine);
    assert_eq!(r.resume(Reply::Done), Request::Exit(TIMEOUT));
    assert_eq!(r.level(), false);
    assert_eq!(r.ending(), Some(TIMEOUT));
    assert!(!TIMEOUT.is_success());
    assert!(!TerminationRequest::Timeout.is_success());
}

#[test]
fn failed_release_is_swallowed() {
    let mut r = running();
    assert_eq!(r.resume(Reply::Ready(vec![Source::Signal])), Request::ReleaseLine);
    assert_eq!(r.resume(Reply::Failed), Request::Exit(SIGNALED));
    assert_eq!(r.level(), false);
}

#[test]
fn exit_is_final() {
    let mut r = running();
    r.resume(Reply::Ready(vec![Source::InactivityTimer]));
    r.resume(Reply::Done);
    for reply in [
        Reply::Done,
        Reply::Failed,
        Reply::Label("PET_WDT".to_string()),
        Reply::Ready(vec![Source::Signal]),
        Reply::Datagram,
        Reply::WouldBlock,
        remaining(5),
    ] {
        assert_eq!(r.resume(reply), Request::Exit(TIMEOUT));
        assert_eq!(r.stage(), Stage::Exited(TIMEOUT));
        assert_eq!(r.level(), false);
    }
}

#[test]
fn queued_datagrams_are_all_drained_in_one_dispatch() {
    let mut r = running();
    assert_eq!(r.resume(Reply::Ready(vec![Source::Heartbeat])), Request::Receive);
    for _ in 0..17 {
        assert_eq!(r.resume(Reply::Datagram), Request::Receive);
        assert_eq!(r.stage(), Stage::Receiving);
    }
    assert_eq!(r.resume(Reply::WouldBlock), Request::ReadDeadline);
    assert_eq!(r.resume(remaining(115)), Request::Wait);
}

#[test]
fn readable_socket_with_nothing_queued_still_reads_the_timer() {
    let mut r = running();
    assert_eq!(r.resume(Reply::Ready(vec![Source::Heartbeat])), Request::Receive);
    assert_eq!(r.resume(Reply::WouldBlock), Request::ReadDeadline);
    assert_eq!(r.resume(remaining(10)), Request::ArmDeadline(Span { secs: 30, nanos: 0 }));
    assert_eq!(r.resume(Reply::Done), Request::Wait);
}

#[test]
fn heartbeat_in_the_grace_leaves_the_timer_alone() {
    let mut r = running();
    assert_eq!(r.resume(Reply::Ready(vec![Source::Heartbeat])), Request::Receive);
    assert_eq!(r.resume(Reply::Datagram), Request::Receive);
    assert_eq!(r.resume(Reply::WouldBlock), Request::ReadDeadline);
    assert_eq!(r.resume(remaining(115)), Request::Wait);
    // no further heartbeat: the timer fires at the end of the grace
    assert_eq!(r.resume(Reply::Ready(vec![Source::InactivityTimer])), Request::ReleaseLine);
    assert_eq!(r.resume(Reply::Done), Request::Exit(TIMEOUT));
    assert_eq!(r.level(), false);
}

#[test]
fn heartbeat_at_exactly_thirty_seconds_left_leaves_the_timer_alone() {
    let mut r = running();
    r.resume(Reply::Ready(vec![Source::Heartbeat]));
    r.resume(Reply::WouldBlock);
    assert_eq!(r.resume(remaining(30)), Request::Wait);
}

#[test]
fn heartbeat_in_steady_state_rearms_to_thirty_seconds() {
    let mut r = running();
    assert_eq!(r.resume(Reply::Ready(vec![Source::Heartbeat])), Request::Receive);
    assert_eq!(r.resume(Reply::Datagram), Request::Receive);
    assert_eq!(r.resume(Reply::WouldBlock), Request::ReadDeadline);
    assert_eq!(r.resume(remaining(20)), Request::ArmDeadline(Span { secs: 30, nanos: 0 }));
    assert_eq!(r.stage(), Stage::ArmingDeadline);
    assert_eq!(r.resume(Reply::Done), Request::Wait);
}

#[test]
fn several_sources_of_one_wake_are_handled_in_order() {
    let mut r = running();
    let wake = vec![Source::PetTimer, Source::Heartbeat, Source::Signal, Source::PetTimer];
    assert_eq!(r.resume(Reply::Ready(wake)), Request::ConsumePetTimer);
    assert_eq!(r.resume(Reply::Done), Request::WriteLine(false));
    assert_eq!(r.resume(Reply::Done), Request::ArmPetTimer(OFF));
    assert_eq!(r.resume(Reply::Done), Request::Receive);
    assert_eq!(r.resume(Reply::WouldBlock), Request::ReadDeadline);
    assert_eq!(r.resume(remaining(29)), Request::ArmDeadline(Span { secs: 30, nanos: 0 }));
    assert_eq!(r.resume(Reply::Done), Request::ReleaseLine);
    // the pet timer behind the signal is never handled
    assert_eq!(r.resume(Reply::Done), Request::Exit(SIGNALED));
    assert_eq!(r.resume(Reply::Done), Request::Exit(SIGNALED));
    assert_eq!(r.level(), false);
}

#[test]
fn timeout_before_signal_in_one_wake_is_a_timeout() {
    let mut r = running();
    let wake = vec![Source::InactivityTimer, Source::Signal];
    assert_eq!(r.resume(Reply::Ready(wake)), Request::ReleaseLine);
    assert_eq!(r.resume(Reply::Done), Request::Exit(TIMEOUT));
}

#[test]
fn empty_wake_waits_again() {
    let mut r = running();
    assert_eq!(r.resume(Reply::Ready(vec![])), Request::Wait);
    assert_eq!(r.stage(), Stage::Waiting);
}

fn ends_on(mut r: Reactor, reply: Reply, fault: Fault) {
    assert_eq!(r.resume(reply), Request::ReleaseLine);
    assert_eq!(r.stage(), Stage::Releasing(Ending::Faulted(fault)));
    assert_eq!(r.resume(Reply::Done), Request::Exit(Ending::Faulted(fault)));
    assert_eq!(r.level(), false);
    assert_eq!(r.ending(), Some(Ending::Faulted(fault)));
    assert!(!Ending::Faulted(fault).is_success());
}

#[test]
fn every_failure_ends_the_loop_with_line_inactive() {
    let mut r = registering();
    r.resume(Reply::Done);
    ends_on(r, Reply::Failed, Fault::LineWrite);

    let mut r = registering();
    r.resume(Reply::Done);
    r.resume(Reply::Done);
    ends_on(r, Reply::Failed, Fault::PetTimerArm);

    ends_on(running(), Reply::Failed, Fault::Wait);

    let mut r = running();
    r.resume(Reply::Ready(vec![Source::PetTimer]));
    ends_on(r, Reply::Failed, Fault::PetTimerRead);

    let mut r = running();
    r.resume(Reply::Ready(vec![Source::Heartbeat]));
    ends_on(r, Reply::Failed, Fault::SocketRead);

    let mut r = running();
    r.resume(Reply::Ready(vec![Source::Heartbeat]));
    r.resume(Reply::WouldBlock);
    ends_on(r, Reply::Failed, Fault::DeadlineRead);

    let mut r = running();
    r.resume(Reply::Ready(vec![Source::Heartbeat]));
    r.resume(Reply::WouldBlock);
    r.resume(remaining(3));
    ends_on(r, Reply::Failed, Fault::DeadlineArm);
}

#[test]
fn timer_not_counting_down_once_ends_the_loop() {
    for reading in [
        TimerReading::Disarmed,
        TimerReading::Interval(Span { secs: 1, nanos: 0 }),
        TimerReading::IntervalDelayed(Span { secs: 1, nanos: 0 }, Span { secs: 2, nanos: 0 }),
    ] {
        let mut r = running();
        r.resume(Reply::Ready(vec![Source::Heartbeat]));
        r.resume(Reply::WouldBlock);
        ends_on(r, Reply::Reading(reading), Fault::UnexpectedTimer);
    }
}

#[test]
fn reply_that_was_not_asked_for_ends_the_loop() {
    ends_on(registering(), Reply::WouldBlock, Fault::Protocol);
    ends_on(running(), Reply::Label("PET_WDT".to_string()), Fault::Protocol);
    ends_on(running(), Reply::Done, Fault::Protocol);
    ends_on(running(), remaining(5), Fault::Protocol);

    let mut r = running();
    r.resume(Reply::Ready(vec![Source::Heartbeat]));
    ends_on(r, Reply::Ready(vec![Source::Signal]), Fault::Protocol);

    let mut r = running();
    r.resume(Reply::Ready(vec![Source::Heartbeat]));
    r.resume(Reply::WouldBlock);
    ends_on(r, Reply::WouldBlock, Fault::Protocol);
}

#[test]
fn bridge_holds_exactly_the_signals_given() {
    let all = SignalBridge::new(&vec![
        TerminationSignal::Terminate,
        TerminationSignal::Hangup,
        TerminationSignal::Interrupt,
    ]);
    assert_eq!(all, SignalBridge::termination());
    for signal in
        [TerminationSignal::Terminate, TerminationSignal::Hangup, TerminationSignal::Interrupt]
    {
        assert!(all.blocks(signal));
        assert!(!SignalBridge::empty().blocks(signal));
        assert_eq!(all.on_readable(), TerminationRequest::Signaled);
    }
    let some = SignalBridge::new(&vec![TerminationSignal::Hangup, TerminationSignal::Hangup]);
    assert!(!some.blocks(TerminationSignal::Terminate));
    assert!(some.blocks(TerminationSignal::Hangup));
    assert!(!some.blocks(TerminationSignal::Interrupt));
    assert_eq!(SignalBridge::new(&vec![]), SignalBridge::empty());
    assert_eq!(
        all.signals(),
        vec![TerminationSignal::Terminate, TerminationSignal::Hangup, TerminationSignal::Interrupt]
    );
    assert_eq!(some.signals(), vec![TerminationSignal::Hangup]);
    assert_eq!(SignalBridge::empty().signals(), vec![]);
    assert_eq!(
        SignalBridge::empty()
            .with(TerminationSignal::Interrupt)
            .with(TerminationSignal::Terminate)
            .signals(),
        vec![TerminationSignal::Terminate, TerminationSignal::Interrupt]
    );
    assert_eq!(
        SignalBridge::empty().with(TerminationSignal::Interrupt),
        SignalBridge { terminate: false, hangup: false, interrupt: true }
    );
}
