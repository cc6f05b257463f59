//! What holds of the reactor whatever it is told.

use crate::line::LineRequest;
use crate::line::LineView;
use crate::pingee::spec_grace;
use crate::pingee::spec_steady;
use crate::pingee::Endpoint;
use crate::pingee::TimerReading;
use crate::pingee::HEARTBEAT_PORT;
use crate::pingee::LOOPBACK;
use crate::reactor::Ending;
use crate::reactor::Fault;
use crate::reactor::ReactorState;
use crate::reactor::ReplyView;
use crate::reactor::Request;
use crate::reactor::Source;
use crate::reactor::Stage;
use crate::schedule::PET_OFF_NANOS;
use crate::schedule::PET_ON_NANOS;
use crate::signal::SignalBridge;
use crate::signal::TerminationRequest;
use crate::span::Span;
use vstd::prelude::*;

verus! {

/// Each source can be found again from its token, and no two sources
/// share one.
pub proof fn lemma_tokens_tell_sources_apart(a: Source, b: Source)
    ensures
        a.spec_token() < 4,
        a.spec_token() == b.spec_token() <==> a == b,
{
}

/// Startup goes in a fixed order, and ends with the first pet: the poller,
/// the inactivity timer armed with the grace, the socket on the loopback
/// address, the chip and its name for the line, the line as an output that
/// starts inactive, the pet timer, the signals, the registration; then,
/// without waiting for the pet timer, the line is driven active.
pub proof fn lemma_startup_leads_to_first_pet(
    chip: Seq<char>,
    label: Seq<char>,
    line: u32,
    bridge: SignalBridge,
)
    ensures
        ({
            let s0 = ReactorState::initial(chip, label, line, bridge);
            let s1 = s0.next(ReplyView::Done);
            let s2 = s1.next(ReplyView::Done);
            let s3 = s2.next(ReplyView::Done);
            let s4 = s3.next(ReplyView::Done);
            let s5 = s4.next(ReplyView::Done);
            let s6 = s5.next(ReplyView::Label(label));
            let s7 = s6.next(ReplyView::Done);
            let s8 = s7.next(ReplyView::Done);
            let s9 = s8.next(ReplyView::Done);
            let s10 = s9.next(ReplyView::Done);
            let s11 = s10.next(ReplyView::Done);
            let s12 = s11.next(ReplyView::Done);
            &&& s0.request() == Request::OpenPoller
            &&& s1.request() == Request::CreateDeadline
            &&& s2.request() == Request::ArmDeadline(spec_grace())
            &&& s3.request() == Request::Bind(Endpoint { host: LOOPBACK, port: HEARTBEAT_PORT })
            &&& s4.request() == Request::OpenChip
            &&& s5.request() == Request::ReadLabel(line)
            &&& s6.request() == Request::RequestLine(LineRequest { line, initial_level: false })
            &&& s6.petter == Some(LineView::taken(chip, label, line))
            &&& s7.request() == Request::CreatePetTimer
            &&& s8.request() == Request::BlockSignals(bridge)
            &&& s9.request() == Request::Register
            &&& s10.request() == Request::WriteLine(true)
            &&& s11.request() == Request::ArmPetTimer(Span { secs: 0, nanos: PET_ON_NANOS })
            &&& s12.request() == Request::Wait
        }),
{
    reveal_with_fuel(LineView::after_pets, 2);
}

/// A line that the chip names otherwise than expected is never taken and
/// never written: the daemon ends at once on the mismatch.
pub proof fn lemma_mismatched_label_is_fatal(state: ReactorState, found: Seq<char>)
    requires
        state.stage is ReadingLabel,
        found != state.label,
    ensures
        state.next(ReplyView::Label(found)).stage == Stage::Exited(
            Ending::Faulted(Fault::LabelMismatch),
        ),
        state.next(ReplyView::Label(found)).request() == Request::Exit(
            Ending::Faulted(Fault::LabelMismatch),
        ),
        state.next(ReplyView::Label(found)).petter == state.petter,
        !Ending::Faulted(Fault::LabelMismatch).spec_is_success(),
{
}

/// The line is written only while it is held, and it comes to be held
/// only when the chip has given it out.
pub proof fn lemma_writes_need_the_line(state: ReactorState, reply: ReplyView)
    ensures
        state.next(reply).request() is WriteLine || state.next(reply).request() is ReleaseLine
            ==> state.next(reply).stage.spec_holds_line(),
        state.next(reply).stage.spec_holds_line() ==> state.stage.spec_holds_line() || (
        state.stage is RequestingLine && reply is Done),
{
}

/// The ending is given once: a reactor that has exited stays as it is,
/// whatever it is told, and goes on asking to exit in the same way.
pub proof fn lemma_exit_is_final(state: ReactorState, reply: ReplyView)
    requires
        state.stage is Exited,
    ensures
        state.next(reply) == state,
        state.next(reply).request() == state.request(),
{
}

/// While the line is held the reactor exits only by way of releasing it,
/// and once the release has been answered, however it went, the line is
/// inactive and the reactor asks to exit with the ending that it was
/// releasing for.
pub proof fn lemma_exit_follows_release(state: ReactorState, reply: ReplyView)
    ensures
        state.stage.spec_holds_line() && state.next(reply).stage is Exited
            ==> state.stage is Releasing,
        state.stage matches Stage::Releasing(ending) ==> {
            &&& state.request() == Request::ReleaseLine
            &&& state.next(reply).stage == Stage::Exited(ending)
            &&& state.next(reply).request() == Request::Exit(ending)
            &&& !state.next(reply).level()
        },
{
}

/// Nothing is retried: whenever the reactor is told that what it asked
/// for has failed, at startup or later, the daemon ends on a fault; by way
/// of releasing the line where it holds it, and at once where it does
/// not. Only a release that fails is passed over.
pub proof fn lemma_failure_ends_the_daemon(state: ReactorState)
    requires
        !(state.stage is Exited),
        !(state.stage is Releasing),
    ensures
        state.stage.spec_holds_line() ==> state.next(ReplyView::Failed).stage is Releasing,
        !state.stage.spec_holds_line() ==> state.next(ReplyView::Failed).stage is Exited,
        state.next(ReplyView::Failed).stage matches Stage::Releasing(ending) ==> ending is Faulted,
        state.next(ReplyView::Failed).stage matches Stage::Exited(ending) ==> ending is Faulted,
{
}

/// On every path the line ends inactive: whatever the reactor is told
/// from the start on, the line is inactive as long as it is not held, and
/// so it is once the reactor has exited.
pub proof fn lemma_line_ends_inactive(
    chip: Seq<char>,
    label: Seq<char>,
    line: u32,
    bridge: SignalBridge,
    replies: Seq<ReplyView>,
)
    ensures
        !ReactorState::initial(chip, label, line, bridge).run(replies).stage.spec_holds_line()
            ==> !ReactorState::initial(chip, label, line, bridge).run(replies).level(),
        ReactorState::initial(chip, label, line, bridge).run(replies).stage is Exited
            ==> !ReactorState::initial(chip, label, line, bridge).run(replies).level(),
    decreases replies.len(),
{
    if replies.len() > 0 {
        lemma_line_ends_inactive(chip, label, line, bridge, replies.drop_last());
    }
}

/// Pets alternate under the reactor: whenever it comes to ask for the
/// line to be written, the level asked for is the opposite of the one the
/// line had; and while the line is held, nothing else short of the
/// release changes the level.
/// The first write, at the end of startup, drives the line active.
pub proof fn lemma_writes_alternate(state: ReactorState, reply: ReplyView)
    ensures
        state.next(reply).stage is WritingLine ==> {
            &&& state.petter matches Some(line)
            &&& state.next(reply).petter == Some(line.after_pets(1))
            &&& state.next(reply).request() == Request::WriteLine(!state.level())
        },
        state.stage.spec_holds_line() && !(state.next(reply).stage is WritingLine) && !(state.next(
            reply,
        ).stage is Exited) ==> state.next(reply).petter == state.petter,
        state.stage is Registering && state.petter is Some && !state.level() ==> state.next(
            ReplyView::Done,
        ).request() == Request::WriteLine(true),
{
    reveal_with_fuel(LineView::after_pets, 2);
}

/// After the line is written the pet timer is armed with the length of
/// the phase just entered: a tenth of a second after an active write,
/// nine tenths after an inactive one.
pub proof fn lemma_timer_matches_phase(state: ReactorState)
    requires
        state.stage is WritingLine,
    ensures
        state.next(ReplyView::Done).request() == Request::ArmPetTimer(
            if state.level() {
                Span { secs: 0, nanos: PET_ON_NANOS }
            } else {
                Span { secs: 0, nanos: PET_OFF_NANOS }
            },
        ),
{
}

/// The ready sources of one wake are handled in the order reported: the
/// first decides what the reactor does next, and the rest wait.
pub proof fn lemma_wake_is_handled_in_order(state: ReactorState, sources: Seq<Source>)
    requires
        state.stage is Waiting,
    ensures
        sources.len() == 0 ==> state.next(ReplyView::Ready(sources)).request() == Request::Wait,
        sources.len() > 0 ==> {
            &&& state.next(ReplyView::Ready(sources)).pending == sources.drop_first()
            &&& state.next(ReplyView::Ready(sources)).request() == match sources[0] {
                Source::Heartbeat => Request::Receive,
                Source::PetTimer => Request::ConsumePetTimer,
                Source::InactivityTimer => Request::ReleaseLine,
                Source::Signal => Request::ReleaseLine,
            }
        },
{
}

/// When the inactivity timer fires, the daemon ends in failure: the
/// reactor releases the line and exits on the timeout, with the line
/// inactive.
pub proof fn lemma_timeout_ends_in_failure(state: ReactorState, reply: ReplyView)
    requires
        state.pending.len() > 0,
        state.pending[0] == Source::InactivityTimer,
    ensures
        state.dispatched().request() == Request::ReleaseLine,
        state.dispatched().next(reply).request() == Request::Exit(
            Ending::Requested(TerminationRequest::Timeout),
        ),
        !state.dispatched().next(reply).level(),
        !Ending::Requested(TerminationRequest::Timeout).spec_is_success(),
{
}

/// When a termination signal is pending, whichever it is, the daemon ends
/// cleanly: the reactor releases the line and exits in success, with the
/// line inactive.
pub proof fn lemma_signal_ends_cleanly(state: ReactorState, reply: ReplyView)
    requires
        state.pending.len() > 0,
        state.pending[0] == Source::Signal,
    ensures
        state.dispatched().request() == Request::ReleaseLine,
        state.dispatched().next(reply).request() == Request::Exit(
            Ending::Requested(TerminationRequest::Signaled),
        ),
        !state.dispatched().next(reply).level(),
        Ending::Requested(TerminationRequest::Signaled).spec_is_success(),
{
}

/// A timeout or a signal reported while the reactor waits ends the daemon
/// within that wake, if it is the first source reported: two steps lead
/// to the exit, whatever the release comes to.
pub proof fn lemma_wake_ends_the_daemon(
    state: ReactorState,
    sources: Seq<Source>,
    reply: ReplyView,
)
    requires
        state.stage is Waiting,
        sources.len() > 0,
    ensures
        sources[0] == Source::Signal ==> state.run(seq![ReplyView::Ready(sources), reply]).request()
            == Request::Exit(Ending::Requested(TerminationRequest::Signaled)),
        sources[0] == Source::InactivityTimer ==> state.run(
            seq![ReplyView::Ready(sources), reply],
        ).request() == Request::Exit(Ending::Requested(TerminationRequest::Timeout)),
        sources[0] == Source::Signal || sources[0] == Source::InactivityTimer ==> !state.run(
            seq![ReplyView::Ready(sources), reply],
        ).level(),
{
    let replies = seq![ReplyView::Ready(sources), reply];
    assert(replies.drop_last() =~= seq![ReplyView::Ready(sources)]);
    assert(replies.last() == reply);
    assert(seq![ReplyView::Ready(sources)].drop_last() =~= Seq::<ReplyView>::empty());
    assert(seq![ReplyView::Ready(sources)].last() == ReplyView::Ready(sources));
    reveal_with_fuel(ReactorState::run, 3);
}

/// The replies of a drain that finds `queued` datagrams waiting.
pub open spec fn datagrams(queued: nat) -> Seq<ReplyView> {
    Seq::new(queued, |i: int| ReplyView::Datagram)
}

/// The socket is drained within one dispatch: however many datagrams are
/// queued, the reactor asks to receive until it is told that none is
/// left, changes nothing meanwhile, and then goes on to the timer, so that
/// the socket does not stay ready.
pub proof fn lemma_drain_in_one_dispatch(state: ReactorState, queued: nat)
    requires
        state.stage is Receiving,
    ensures
        state.run(datagrams(queued)) == state,
        state.run(datagrams(queued)).request() == Request::Receive,
        state.run(datagrams(queued).push(ReplyView::WouldBlock)) == (ReactorState {
            stage: Stage::ReadingDeadline,
            ..state
        }),
        state.run(datagrams(queued).push(ReplyView::WouldBlock)).request() == Request::ReadDeadline,
    decreases queued,
{
    if queued > 0 {
        lemma_drain_in_one_dispatch(state, (queued - 1) as nat);
        assert(datagrams(queued).drop_last() =~= datagrams((queued - 1) as nat));
        assert(datagrams(queued).last() == ReplyView::Datagram);
    }
    let all = datagrams(queued).push(ReplyView::WouldBlock);
    assert(all.drop_last() =~= datagrams(queued));
    assert(all.last() == ReplyView::WouldBlock);
}

/// A heartbeat is weighed against the steady magnitude: with less than
/// that left the reactor asks for the timer to be armed with exactly the
/// steady magnitude, and with that or more left it leaves the timer alone
/// and goes on to the next ready source.
pub proof fn lemma_heartbeat_is_weighed(state: ReactorState, remaining: Span)
    requires
        state.stage is ReadingDeadline,
        remaining.wf(),
    ensures
        remaining@ < spec_steady()@ ==> state.next(
            ReplyView::Reading(TimerReading::OneShot(remaining)),
        ).request() == Request::ArmDeadline(spec_steady()),
        remaining@ >= spec_steady()@ ==> state.next(
            ReplyView::Reading(TimerReading::OneShot(remaining)),
        ) == state.dispatched(),
{
}

} // verus!
