//! The reactor: the daemon's whole course, from opening its resources to
//! leaving its loop over four sources of readiness, told as a state
//! machine. It asks for one thing at a time, is told what came of it, and
//! asks for the next.

use crate::line::LineRequest;
use crate::line::LineView;
use crate::petter::Petter;
use crate::pingee::ping_decision;
use crate::pingee::DrainStep;
use crate::pingee::Endpoint;
use crate::pingee::PingAction;
use crate::pingee::Pingee;
use crate::pingee::Receipt;
use crate::pingee::TimerReading;
use crate::schedule::Phase;
use crate::signal::SignalBridge;
use crate::signal::TerminationRequest;
use crate::span::Span;
use vstd::prelude::*;

verus! {

/// A source of readiness that the reactor waits on.
#[derive(Clone, Copy, Debug, PartialEq, Eq, Structural)]
pub enum Source {
    /// The heartbeat socket has datagrams queued.
    Heartbeat,
    /// The pet timer has fired: time to toggle the line.
    PetTimer,
    /// The inactivity timer has fired: the heartbeats have stopped.
    InactivityTimer,
    /// A termination signal is pending.
    Signal,
}

impl Source {
    /// The token under which the source is registered with the poller.
    pub open spec fn spec_token(self) -> usize {
        match self {
            Source::Heartbeat => 0,
            Source::PetTimer => 1,
            Source::InactivityTimer => 2,
            Source::Signal => 3,
        }
    }

    /// The token under which the source is registered with the poller.
    #[verifier::when_used_as_spec(spec_token)]
    pub fn token(self) -> (token: usize)
        ensures
            token == self.spec_token(),
    {
        match self {
            Source::Heartbeat => 0,
            Source::PetTimer => 1,
            Source::InactivityTimer => 2,
            Source::Signal => 3,
        }
    }

    /// The source registered under `token`, if there is one.
    pub fn from_token(token: usize) -> (source: Option<Source>)
        ensures
            source is Some <==> token < 4,
            source matches Some(s) ==> s.spec_token() == token,
    {
        if token == 0 {
            Some(Source::Heartbeat)
        } else if token == 1 {
            Some(Source::PetTimer)
        } else if token == 2 {
            Some(Source::InactivityTimer)
        } else if token == 3 {
            Some(Source::Signal)
        } else {
            None
        }
    }
}

/// What went wrong, where the daemon ends on a failure of its own.
#[derive(Clone, Copy, Debug, PartialEq, Eq, Structural)]
pub enum Fault {
    /// The poller could not be opened.
    Poller,
    /// The inactivity timer could not be created.
    DeadlineCreate,
    /// The inactivity timer could not be armed.
    DeadlineArm,
    /// The heartbeat socket could not be bound.
    Bind,
    /// The chip could not be opened.
    ChipOpen,
    /// The chip would not say what the line is named.
    LabelRead,
    /// The chip names the line otherwise than expected.
    LabelMismatch,
    /// The chip would not give the line out: it is busy, or not there.
    LineRequest,
    /// The pet timer could not be created.
    PetTimerCreate,
    /// The signals could not be blocked, or their source not opened.
    SignalMask,
    /// The sources could not be registered with the poller.
    Registration,
    /// The line could not be written.
    LineWrite,
    /// The pet timer could not be armed.
    PetTimerArm,
    /// The pet timer's expiration could not be consumed.
    PetTimerRead,
    /// Waiting for readiness failed.
    Wait,
    /// The heartbeat socket failed otherwise than by being empty.
    SocketRead,
    /// The inactivity timer could not be read.
    DeadlineRead,
    /// The inactivity timer was not counting down once.
    UnexpectedTimer,
    /// The reactor was told of something it had not asked for.
    Protocol,
}

/// How the daemon ended.
#[derive(Clone, Copy, Debug, PartialEq, Eq, Structural)]
pub enum Ending {
    /// It was asked to end, by a timeout or by a signal.
    Requested(TerminationRequest),
    /// Something failed, and nothing is retried.
    Faulted(Fault),
}

impl Ending {
    /// Whether the process is to exit in success: only where a signal
    /// asked for the end.
    pub open spec fn spec_is_success(self) -> bool {
        self == Ending::Requested(TerminationRequest::Signaled)
    }

    /// Whether the process is to exit in success: only where a signal
    /// asked for the end.
    #[verifier::when_used_as_spec(spec_is_success)]
    pub fn is_success(self) -> (success: bool)
        ensures
            success == self.spec_is_success(),
    {
        match self {
            Ending::Requested(request) => request.is_success(),
            Ending::Faulted(_) => false,
        }
    }
}

/// Where the reactor stands: what it has asked for and not yet heard of.
#[derive(Clone, Copy, Debug, PartialEq, Eq, Structural)]
pub enum Stage {
    /// Newly made: the poller is being opened.
    OpeningPoller,
    /// The inactivity timer is being created.
    CreatingDeadline,
    /// The inactivity timer is being armed with the grace.
    ArmingGrace,
    /// The heartbeat socket is being bound.
    Binding,
    /// The chip is being opened.
    OpeningChip,
    /// The chip is being asked what the line is named.
    ReadingLabel,
    /// The line is being asked for.
    RequestingLine,
    /// The line is held, and the pet timer is being created.
    CreatingPetTimer,
    /// The termination signals are being blocked.
    BlockingSignals,
    /// The sources are being registered with the poller.
    Registering,
    /// A pet is under way: the line is being written.
    WritingLine,
    /// A pet is under way: the pet timer is being armed.
    ArmingPetTimer,
    /// Nothing is left to do until a source becomes ready.
    Waiting,
    /// The heartbeat socket is being drained.
    Receiving,
    /// The socket is drained, and the inactivity timer is being read.
    ReadingDeadline,
    /// The inactivity timer is being armed anew.
    ArmingDeadline,
    /// The pet timer has fired, and its expiration is being consumed.
    ConsumingPetTimer,
    /// The daemon is ending, and the line is being forced inactive.
    Releasing(Ending),
    /// All is done.
    Exited(Ending),
}

impl Stage {
    /// Whether the line is held at this stage: from the moment the chip
    /// has given it out until it has been released.
    pub open spec fn spec_holds_line(self) -> bool {
        match self {
            Stage::OpeningPoller => false,
            Stage::CreatingDeadline => false,
            Stage::ArmingGrace => false,
            Stage::Binding => false,
            Stage::OpeningChip => false,
            Stage::ReadingLabel => false,
            Stage::RequestingLine => false,
            Stage::Exited(_) => false,
            _ => true,
        }
    }

    /// Whether the line is held at this stage: from the moment the chip
    /// has given it out until it has been released.
    #[verifier::when_used_as_spec(spec_holds_line)]
    pub fn holds_line(self) -> (held: bool)
        ensures
            held == self.spec_holds_line(),
    {
        match self {
            Stage::OpeningPoller => false,
            Stage::CreatingDeadline => false,
            Stage::ArmingGrace => false,
            Stage::Binding => false,
            Stage::OpeningChip => false,
            Stage::ReadingLabel => false,
            Stage::RequestingLine => false,
            Stage::Exited(_) => false,
            _ => true,
        }
    }
}

/// What the reactor asks its caller to do.
#[derive(Clone, Copy, Debug, PartialEq, Eq, Structural)]
pub enum Request {
    /// Open the poller.
    OpenPoller,
    /// Create the inactivity timer, on the monotonic clock.
    CreateDeadline,
    /// Arm the inactivity timer to fire once after the given span.
    ArmDeadline(Span),
    /// Bind the heartbeat socket to the given address.
    Bind(Endpoint),
    /// Open the chip.
    OpenChip,
    /// Ask the chip for the name of the given line, and report it.
    ReadLabel(u32),
    /// Ask the chip for the line as given, under the consumer tag.
    RequestLine(LineRequest),
    /// Create the pet timer, on the monotonic clock.
    CreatePetTimer,
    /// Block the signals that the bridge holds, and open the source that
    /// reports them as pending.
    BlockSignals(SignalBridge),
    /// Register the four sources with the poller, each under its token.
    Register,
    /// Block until a source is ready, and report the ready sources in the
    /// order the poller gives them.
    Wait,
    /// Try once to receive a datagram, without blocking.
    Receive,
    /// Read the inactivity timer.
    ReadDeadline,
    /// Consume the pet timer's expiration.
    ConsumePetTimer,
    /// Write the given level to the line.
    WriteLine(bool),
    /// Arm the pet timer to fire once after the given span.
    ArmPetTimer(Span),
    /// Write the inactive level to the line, and report it done whatever
    /// came of the write.
    ReleaseLine,
    /// Leave: the daemon has ended as given.
    Exit(Ending),
}

/// What came of the reactor's last request.
#[derive(Debug, PartialEq, Eq)]
pub enum Reply {
    /// It was done.
    Done,
    /// It failed.
    Failed,
    /// The chip names the line so.
    Label(String),
    /// These sources are ready, in the poller's order.
    Ready(Vec<Source>),
    /// A datagram was received.
    Datagram,
    /// No datagram is queued.
    WouldBlock,
    /// The inactivity timer reads as given.
    Reading(TimerReading),
}

/// A reply as the contracts see it.
pub enum ReplyView {
    Done,
    Failed,
    Label(Seq<char>),
    Ready(Seq<Source>),
    Datagram,
    WouldBlock,
    Reading(TimerReading),
}

impl View for Reply {
    type V = ReplyView;

    open spec fn view(&self) -> ReplyView {
        match *self {
            Reply::Done => ReplyView::Done,
            Reply::Failed => ReplyView::Failed,
            Reply::Label(label) => ReplyView::Label(label@),
            Reply::Ready(sources) => ReplyView::Ready(sources@),
            Reply::Datagram => ReplyView::Datagram,
            Reply::WouldBlock => ReplyView::WouldBlock,
            Reply::Reading(reading) => ReplyView::Reading(reading),
        }
    }
}

/// The reactor as the contracts see it: which line it is to take, the
/// line once it is taken, the other components, the stage, and the ready
/// sources of the current wake that are still to be handled.
#[verifier::ext_equal]
pub struct ReactorState {
    pub chip: Seq<char>,
    pub label: Seq<char>,
    pub line: u32,
    pub petter: Option<LineView>,
    pub pingee: Pingee,
    pub bridge: SignalBridge,
    pub stage: Stage,
    pub pending: Seq<Source>,
}

impl ReactorState {
    /// The reactor when newly made, with nothing opened yet.
    pub open spec fn initial(
        chip: Seq<char>,
        label: Seq<char>,
        line: u32,
        bridge: SignalBridge,
    ) -> ReactorState {
        ReactorState {
            chip,
            label,
            line,
            petter: None,
            pingee: Pingee::spec_new(),
            bridge,
            stage: Stage::OpeningPoller,
            pending: Seq::empty(),
        }
    }

    /// The level that the line was last given: inactive as long as it has
    /// not been taken.
    pub open spec fn level(self) -> bool {
        self.petter matches Some(line) && line.level
    }

    /// What the reactor is asking for at its stage.
    pub open spec fn request(self) -> Request {
        match self.stage {
            Stage::OpeningPoller => Request::OpenPoller,
            Stage::CreatingDeadline => Request::CreateDeadline,
            Stage::ArmingGrace => Request::ArmDeadline(self.pingee.armed),
            Stage::Binding => Request::Bind(self.pingee.endpoint),
            Stage::OpeningChip => Request::OpenChip,
            Stage::ReadingLabel => Request::ReadLabel(self.line),
            Stage::RequestingLine => Request::RequestLine(
                LineRequest {
                    line: match self.petter {
                        Some(line) => line.index,
                        None => self.line,
                    },
                    initial_level: false,
                },
            ),
            Stage::CreatingPetTimer => Request::CreatePetTimer,
            Stage::BlockingSignals => Request::BlockSignals(self.bridge),
            Stage::Registering => Request::Register,
            Stage::WritingLine => Request::WriteLine(self.level()),
            Stage::ArmingPetTimer => Request::ArmPetTimer(
                Phase::spec_of_level(self.level()).spec_duration(),
            ),
            Stage::Waiting => Request::Wait,
            Stage::Receiving => Request::Receive,
            Stage::ReadingDeadline => Request::ReadDeadline,
            Stage::ArmingDeadline => Request::ArmDeadline(self.pingee.armed),
            Stage::ConsumingPetTimer => Request::ConsumePetTimer,
            Stage::Releasing(_) => Request::ReleaseLine,
            Stage::Exited(ending) => Request::Exit(ending),
        }
    }

    /// The daemon ends on `fault`: where the line is held it is released
    /// first, and where it is not there is nothing left to do.
    pub open spec fn failed(self, fault: Fault) -> ReactorState {
        ReactorState {
            stage: if self.stage.spec_holds_line() {
                Stage::Releasing(Ending::Faulted(fault))
            } else {
                Stage::Exited(Ending::Faulted(fault))
            },
            ..self
        }
    }

    /// The step that only succeeds or fails: done, the reactor goes on to
    /// `then`; failed, it ends on `fault`.
    pub open spec fn advanced(self, reply: ReplyView, then: Stage, fault: Fault) -> ReactorState {
        match reply {
            ReplyView::Done => ReactorState { stage: then, ..self },
            ReplyView::Failed => self.failed(fault),
            _ => self.failed(Fault::Protocol),
        }
    }

    /// A pet begins: the petter toggles, and the line is to be written.
    pub open spec fn petted(self) -> ReactorState {
        match self.petter {
            Some(line) => ReactorState {
                petter: Some(line.after_pets(1)),
                stage: Stage::WritingLine,
                ..self
            },
            None => self.failed(Fault::Protocol),
        }
    }

    /// The handler of the last source is through: the next ready source
    /// of this wake is taken up, or, with none left, the reactor waits.
    pub open spec fn dispatched(self) -> ReactorState {
        if self.pending.len() == 0 {
            ReactorState { stage: Stage::Waiting, ..self }
        } else {
            let stage = match self.pending[0] {
                Source::Heartbeat => Stage::Receiving,
                Source::PetTimer => Stage::ConsumingPetTimer,
                Source::InactivityTimer => Stage::Releasing(
                    Ending::Requested(TerminationRequest::Timeout),
                ),
                Source::Signal => Stage::Releasing(Ending::Requested(TerminationRequest::Signaled)),
            };
            ReactorState { stage, pending: self.pending.drop_first(), ..self }
        }
    }

    /// The chip has named the line `found`: where that is the expected
    /// name the line is all but taken, and where it is not the daemon
    /// ends.
    pub open spec fn labelled(self, found: Seq<char>) -> ReactorState {
        if found == self.label {
            ReactorState {
                petter: Some(LineView::taken(self.chip, self.label, self.line)),
                stage: Stage::RequestingLine,
                ..self
            }
        } else {
            self.failed(Fault::LabelMismatch)
        }
    }

    /// The reactor after it was told `reply` of what it had asked for.
    pub open spec fn next(self, reply: ReplyView) -> ReactorState {
        match self.stage {
            Stage::OpeningPoller => self.advanced(reply, Stage::CreatingDeadline, Fault::Poller),
            Stage::CreatingDeadline => self.advanced(
                reply,
                Stage::ArmingGrace,
                Fault::DeadlineCreate,
            ),
            Stage::ArmingGrace => self.advanced(reply, Stage::Binding, Fault::DeadlineArm),
            Stage::Binding => self.advanced(reply, Stage::OpeningChip, Fault::Bind),
            Stage::OpeningChip => self.advanced(reply, Stage::ReadingLabel, Fault::ChipOpen),
            Stage::ReadingLabel => match reply {
                ReplyView::Label(found) => self.labelled(found),
                ReplyView::Failed => self.failed(Fault::LabelRead),
                _ => self.failed(Fault::Protocol),
            },
            Stage::RequestingLine => self.advanced(
                reply,
                Stage::CreatingPetTimer,
                Fault::LineRequest,
            ),
            Stage::CreatingPetTimer => self.advanced(
                reply,
                Stage::BlockingSignals,
                Fault::PetTimerCreate,
            ),
            Stage::BlockingSignals => self.advanced(reply, Stage::Registering, Fault::SignalMask),
            Stage::Registering => match reply {
                ReplyView::Done => self.petted(),
                ReplyView::Failed => self.failed(Fault::Registration),
                _ => self.failed(Fault::Protocol),
            },
            Stage::WritingLine => self.advanced(reply, Stage::ArmingPetTimer, Fault::LineWrite),
            Stage::ArmingPetTimer => match reply {
                ReplyView::Done => self.dispatched(),
                ReplyView::Failed => self.failed(Fault::PetTimerArm),
                _ => self.failed(Fault::Protocol),
            },
            Stage::Waiting => match reply {
                ReplyView::Ready(sources) => (ReactorState { pending: sources, ..self }).dispatched(),
                ReplyView::Failed => self.failed(Fault::Wait),
                _ => self.failed(Fault::Protocol),
            },
            Stage::Receiving => match reply {
                ReplyView::Datagram => self,
                ReplyView::WouldBlock => ReactorState { stage: Stage::ReadingDeadline, ..self },
                ReplyView::Failed => self.failed(Fault::SocketRead),
                _ => self.failed(Fault::Protocol),
            },
            Stage::ReadingDeadline => match reply {
                ReplyView::Reading(reading) => match ping_decision(reading) {
                    Ok(PingAction::Rearm(span)) => ReactorState {
                        pingee: Pingee { armed: span, ..self.pingee },
                        stage: Stage::ArmingDeadline,
                        ..self
                    },
                    Ok(PingAction::Keep) => self.dispatched(),
                    Err(_) => self.failed(Fault::UnexpectedTimer),
                },
                ReplyView::Failed => self.failed(Fault::DeadlineRead),
                _ => self.failed(Fault::Protocol),
            },
            Stage::ArmingDeadline => match reply {
                ReplyView::Done => self.dispatched(),
                ReplyView::Failed => self.failed(Fault::DeadlineArm),
                _ => self.failed(Fault::Protocol),
            },
            Stage::ConsumingPetTimer => match reply {
                ReplyView::Done => self.petted(),
                ReplyView::Failed => self.failed(Fault::PetTimerRead),
                _ => self.failed(Fault::Protocol),
            },
            Stage::Releasing(ending) => ReactorState {
                petter: match self.petter {
                    Some(line) => Some(line.released()),
                    None => None,
                },
                stage: Stage::Exited(ending),
                ..self
            },
            Stage::Exited(_) => self,
        }
    }

    /// The reactor after it was told `replies`, one after the other.
    pub open spec fn run(self, replies: Seq<ReplyView>) -> ReactorState
        decreases replies.len(),
    {
        if replies.len() == 0 {
            self
        } else {
            self.run(replies.drop_last()).next(replies.last())
        }
    }
}

/// The reactor: the petter, the pingee and the signal bridge under one
/// loop.
#[derive(Debug)]
pub struct Reactor {
    chip: String,
    label: String,
    line: u32,
    petter: Option<Petter>,
    pingee: Pingee,
    bridge: SignalBridge,
    stage: Stage,
    pending: Vec<Source>,
    cursor: usize,
}

impl View for Reactor {
    type V = ReactorState;

    closed spec fn view(&self) -> ReactorState {
        ReactorState {
            chip: self.chip@,
            label: self.label@,
            line: self.line,
            petter: match self.petter {
                Some(petter) => Some(petter@),
                None => None,
            },
            pingee: self.pingee,
            bridge: self.bridge,
            stage: self.stage,
            pending: if self.cursor <= self.pending.len() {
                self.pending@.skip(self.cursor as int)
            } else {
                Seq::empty()
            },
        }
    }
}

impl Reactor {
    /// The reactor that is to take line `gpio_line` of `gpio_chip`, if the
    /// chip names it `gpio_label`, and to turn the signals that `bridge`
    /// holds into a clean end. It starts by asking for the poller.
    pub fn new(gpio_chip: &str, gpio_label: &str, gpio_line: u32, bridge: SignalBridge) -> (reactor:
        Reactor)
        ensures
            reactor@ == ReactorState::initial(gpio_chip@, gpio_label@, gpio_line, bridge),
    {
        let reactor = Reactor {
            chip: gpio_chip.to_owned(),
            label: gpio_label.to_owned(),
            line: gpio_line,
            petter: None,
            pingee: Pingee::new(),
            bridge,
            stage: Stage::OpeningPoller,
            pending: Vec::new(),
            cursor: 0,
        };
        assert(reactor.pending@.skip(0) =~= Seq::<Source>::empty());
        reactor
    }

    /// Where the reactor stands.
    pub fn stage(&self) -> (stage: Stage)
        ensures
            stage == self@.stage,
    {
        self.stage
    }

    /// The level that the line was last given: inactive as long as it has
    /// not been taken.
    pub fn level(&self) -> (level: bool)
        ensures
            level == self@.level(),
    {
        match &self.petter {
            Some(petter) => petter.level(),
            None => false,
        }
    }

    /// How the daemon ended, once it has.
    pub fn ending(&self) -> (ending: Option<Ending>)
        ensures
            ending == match self@.stage {
                Stage::Exited(e) => Some(e),
                _ => None::<Ending>,
            },
    {
        match self.stage {
            Stage::Exited(e) => Some(e),
            _ => None,
        }
    }

    /// What the reactor is asking for.
    pub fn request(&self) -> (request: Request)
        ensures
            request == self@.request(),
    {
        match self.stage {
            Stage::OpeningPoller => Request::OpenPoller,
            Stage::CreatingDeadline => Request::CreateDeadline,
            Stage::ArmingGrace => Request::ArmDeadline(self.pingee.armed),
            Stage::Binding => Request::Bind(self.pingee.endpoint),
            Stage::OpeningChip => Request::OpenChip,
            Stage::ReadingLabel => Request::ReadLabel(self.line),
            Stage::RequestingLine => Request::RequestLine(
                match &self.petter {
                    Some(petter) => petter.line.request(),
                    None => LineRequest { line: self.line, initial_level: false },
                },
            ),
            Stage::CreatingPetTimer => Request::CreatePetTimer,
            Stage::BlockingSignals => Request::BlockSignals(self.bridge),
            Stage::Registering => Request::Register,
            Stage::WritingLine => Request::WriteLine(self.level()),
            Stage::ArmingPetTimer => Request::ArmPetTimer(Phase::of_level(self.level()).duration()),
            Stage::Waiting => Request::Wait,
            Stage::Receiving => Request::Receive,
            Stage::ReadingDeadline => Request::ReadDeadline,
            Stage::ArmingDeadline => Request::ArmDeadline(self.pingee.armed),
            Stage::ConsumingPetTimer => Request::ConsumePetTimer,
            Stage::Releasing(_) => Request::ReleaseLine,
            Stage::Exited(ending) => Request::Exit(ending),
        }
    }

    fn fail(&mut self, fault: Fault)
        ensures
            final(self)@ == old(self)@.failed(fault),
    {
        if self.stage.holds_line() {
            self.stage = Stage::Releasing(Ending::Faulted(fault));
        } else {
            self.stage = Stage::Exited(Ending::Faulted(fault));
        }
    }

    fn advance(&mut self, reply: Reply, then: Stage, fault: Fault)
        ensures
            final(self)@ == old(self)@.advanced(reply@, then, fault),
    {
        match reply {
            Reply::Done => {
                self.stage = then;
            },
            Reply::Failed => self.fail(fault),
            _ => self.fail(Fault::Protocol),
        }
    }

    fn label(&mut self, found: String)
        ensures
            final(self)@ == old(self)@.labelled(found@),
    {
        match Petter::new(self.chip.as_str(), self.label.as_str(), self.line, found.as_str()) {
            Ok(petter) => {
                self.petter = Some(petter);
                self.stage = Stage::RequestingLine;
            },
            Err(_) => self.fail(Fault::LabelMismatch),
        }
    }

    fn pet(&mut self, fired: bool)
        ensures
            final(self)@ == old(self)@.petted(),
    {
        match &mut self.petter {
            Some(petter) => {
                if fired {
                    petter.on_pet();
                } else {
                    petter.pet();
                }
                self.stage = Stage::WritingLine;
            },
            None => self.fail(Fault::Protocol),
        }
    }

    fn release(&mut self, ending: Ending)
        requires
            old(self)@.stage == Stage::Releasing(ending),
        ensures
            final(self)@ == old(self)@.next(ReplyView::Done),
    {
        match &mut self.petter {
            Some(petter) => {
                petter.release();
            },
            None => {},
        }
        self.stage = Stage::Exited(ending);
    }

    fn drain(&mut self, receipt: Receipt)
        requires
            old(self)@.stage is Receiving,
        ensures
            final(self)@ == old(self)@.next(
                match receipt {
                    Receipt::Datagram => ReplyView::Datagram,
                    Receipt::WouldBlock => ReplyView::WouldBlock,
                    Receipt::Failed => ReplyView::Failed,
                },
            ),
    {
        match self.pingee.on_receive(receipt) {
            DrainStep::Again => {},
            DrainStep::Drained => {
                self.stage = Stage::ReadingDeadline;
            },
            DrainStep::Failed => self.fail(Fault::SocketRead),
        }
    }

    fn dispatch(&mut self)
        ensures
            final(self)@ == old(self)@.dispatched(),
    {
        if self.cursor >= self.pending.len() {
            assert(old(self)@.pending =~= Seq::<Source>::empty());
            self.stage = Stage::Waiting;
        } else {
            let source: Source = self.pending[self.cursor];
            assert(self.pending@.skip(self.cursor as int)[0] == source);
            assert(self.pending@.skip(self.cursor as int).drop_first() =~= self.pending@.skip(
                self.cursor as int + 1,
            ));
            self.cursor = self.cursor + 1;
            self.stage = match source {
                Source::Heartbeat => Stage::Receiving,
                Source::PetTimer => Stage::ConsumingPetTimer,
                Source::InactivityTimer => Stage::Releasing(
                    Ending::Requested(TerminationRequest::Timeout),
                ),
                Source::Signal => Stage::Releasing(Ending::Requested(self.bridge.on_readable())),
            };
        }
    }

    /// Tells the reactor what came of its request, and returns what it
    /// asks for next.
    pub fn resume(&mut self, reply: Reply) -> (request: Request)
        ensures
            final(self)@ == old(self)@.next(reply@),
            request == final(self)@.request(),
    {
        match self.stage {
            Stage::OpeningPoller => self.advance(reply, Stage::CreatingDeadline, Fault::Poller),
            Stage::CreatingDeadline => self.advance(
                reply,
                Stage::ArmingGrace,
                Fault::DeadlineCreate,
            ),
            Stage::ArmingGrace => self.advance(reply, Stage::Binding, Fault::DeadlineArm),
            Stage::Binding => self.advance(reply, Stage::OpeningChip, Fault::Bind),
            Stage::OpeningChip => self.advance(reply, Stage::ReadingLabel, Fault::ChipOpen),
            Stage::ReadingLabel => match reply {
                Reply::Label(found) => self.label(found),
                Reply::Failed => self.fail(Fault::LabelRead),
                _ => self.fail(Fault::Protocol),
            },
            Stage::RequestingLine => self.advance(
                reply,
                Stage::CreatingPetTimer,
                Fault::LineRequest,
            ),
            Stage::CreatingPetTimer => self.advance(
                reply,
                Stage::BlockingSignals,
                Fault::PetTimerCreate,
            ),
            Stage::BlockingSignals => self.advance(reply, Stage::Registering, Fault::SignalMask),
            Stage::Registering => match reply {
                Reply::Done => self.pet(false),
                Reply::Failed => self.fail(Fault::Registration),
                _ => self.fail(Fault::Protocol),
            },
            Stage::WritingLine => self.advance(reply, Stage::ArmingPetTimer, Fault::LineWrite),
            Stage::ArmingPetTimer => match reply {
                Reply::Done => self.dispatch(),
                Reply::Failed => self.fail(Fault::PetTimerArm),
                _ => self.fail(Fault::Protocol),
            },
            Stage::Waiting => match reply {
                Reply::Ready(sources) => {
                    self.cursor = 0;
                    self.pending = sources;
                    assert(self.pending@.skip(0) =~= sources@);
                    self.dispatch();
                },
                Reply::Failed => self.fail(Fault::Wait),
                _ => self.fail(Fault::Protocol),
            },
            Stage::Receiving => match reply {
                Reply::Datagram => self.drain(Receipt::Datagram),
                Reply::WouldBlock => self.drain(Receipt::WouldBlock),
                Reply::Failed => self.drain(Receipt::Failed),
                _ => self.fail(Fault::Protocol),
            },
            Stage::ReadingDeadline => match reply {
                Reply::Reading(reading) => match self.pingee.on_ping(reading) {
                    Ok(PingAction::Rearm(_)) => {
                        self.stage = Stage::ArmingDeadline;
                    },
                    Ok(PingAction::Keep) => self.dispatch(),
                    Err(_) => self.fail(Fault::UnexpectedTimer),
                },
                Reply::Failed => self.fail(Fault::DeadlineRead),
                _ => self.fail(Fault::Protocol),
            },
            Stage::ArmingDeadline => match reply {
                Reply::Done => self.dispatch(),
                Reply::Failed => self.fail(Fault::DeadlineArm),
                _ => self.fail(Fault::Protocol),
            },
            Stage::ConsumingPetTimer => match reply {
                Reply::Done => self.pet(true),
                Reply::Failed => self.fail(Fault::PetTimerRead),
                _ => self.fail(Fault::Protocol),
            },
            Stage::Releasing(ending) => self.release(ending),
            Stage::Exited(_) => {},
        }
        self.request()
    }
}

} // verus!
