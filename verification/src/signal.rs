//! The signal bridge: termination signals are kept from their usual
//! course and turned into one more source of readiness.

use vstd::prelude::*;

verus! {

/// How the daemon was asked to end.
#[derive(Clone, Copy, Debug, PartialEq, Eq, Structural)]
pub enum TerminationRequest {
    /// No heartbeat for too long: the daemon ends in failure, and the
    /// watchdog circuit is left to reset the host.
    Timeout,
    /// A termination signal arrived: the daemon ends cleanly.
    Signaled,
}

impl TerminationRequest {
    /// Whether the daemon ends in success.
    pub open spec fn spec_is_success(self) -> bool {
        self is Signaled
    }

    /// Whether the daemon ends in success: after a signal it does, after
    /// a timeout it does not.
    #[verifier::when_used_as_spec(spec_is_success)]
    pub fn is_success(self) -> (success: bool)
        ensures
            success == self.spec_is_success(),
    {
        match self {
            TerminationRequest::Signaled => true,
            TerminationRequest::Timeout => false,
        }
    }
}

/// A signal that asks the daemon to end.
#[derive(Clone, Copy, Debug, PartialEq, Eq, Structural)]
pub enum TerminationSignal {
    Terminate,
    Hangup,
    Interrupt,
}

/// The set of signals that are blocked and reported as readiness.
#[derive(Clone, Copy, Debug, PartialEq, Eq, Structural)]
pub struct SignalBridge {
    pub terminate: bool,
    pub hangup: bool,
    pub interrupt: bool,
}

impl SignalBridge {
    /// Whether the bridge holds `signal`.
    pub open spec fn spec_blocks(self, signal: TerminationSignal) -> bool {
        match signal {
            TerminationSignal::Terminate => self.terminate,
            TerminationSignal::Hangup => self.hangup,
            TerminationSignal::Interrupt => self.interrupt,
        }
    }

    /// The signals that the bridge holds, each once, in the order
    /// terminate, hangup, interrupt.
    pub open spec fn spec_signals(self) -> Seq<TerminationSignal> {
        (if self.terminate {
            seq![TerminationSignal::Terminate]
        } else {
            Seq::empty()
        }) + (if self.hangup {
            seq![TerminationSignal::Hangup]
        } else {
            Seq::empty()
        }) + (if self.interrupt {
            seq![TerminationSignal::Interrupt]
        } else {
            Seq::empty()
        })
    }

    /// The bridge that holds nothing.
    pub fn empty() -> (bridge: SignalBridge)
        ensures
            forall|signal: TerminationSignal| !bridge.spec_blocks(signal),
    {
        SignalBridge { terminate: false, hangup: false, interrupt: false }
    }

    /// The bridge that holds the three termination signals.
    pub fn termination() -> (bridge: SignalBridge)
        ensures
            forall|signal: TerminationSignal| bridge.spec_blocks(signal),
    {
        SignalBridge { terminate: true, hangup: true, interrupt: true }
    }

    /// The bridge with `signal` added.
    pub fn with(self, signal: TerminationSignal) -> (bridge: SignalBridge)
        ensures
            forall|other: TerminationSignal|
                bridge.spec_blocks(other) <==> (other == signal || self.spec_blocks(other)),
    {
        match signal {
            TerminationSignal::Terminate => SignalBridge { terminate: true, ..self },
            TerminationSignal::Hangup => SignalBridge { hangup: true, ..self },
            TerminationSignal::Interrupt => SignalBridge { interrupt: true, ..self },
        }
    }

    /// The bridge that holds exactly the given signals.
    pub fn new(signals: &Vec<TerminationSignal>) -> (bridge: SignalBridge)
        ensures
            forall|signal: TerminationSignal|
                bridge.spec_blocks(signal) <==> signals@.contains(signal),
    {
        let mut bridge: SignalBridge = SignalBridge::empty();
        let mut i: usize = 0;
        while i < signals.len()
            invariant
                i <= signals.len(),
                forall|signal: TerminationSignal|
                    bridge.spec_blocks(signal) <==> signals@.take(i as int).contains(signal),
            decreases signals.len() - i,
        {
            let ghost before = signals@.take(i as int);
            let added: TerminationSignal = signals[i];
            bridge = bridge.with(added);
            i += 1;
            proof {
                let after = signals@.take(i as int);
                assert(after =~= before.push(added));
                assert forall|signal: TerminationSignal|
                    bridge.spec_blocks(signal) <==> after.contains(signal) by {
                    if before.contains(signal) {
                        let k = choose|k: int| 0 <= k < before.len() && before[k] == signal;
                        assert(after[k] == signal);
                    }
                    if signal == added {
                        assert(after[after.len() - 1] == signal);
                    }
                }
            }
        }
        assert(signals@.take(i as int) =~= signals@);
        bridge
    }

    /// The signals that the bridge holds, each once, in the order
    /// terminate, hangup, interrupt.
    pub fn signals(&self) -> (signals: Vec<TerminationSignal>)
        ensures
            signals@ == self.spec_signals(),
            forall|signal: TerminationSignal|
                signals@.contains(signal) <==> self.spec_blocks(signal),
    {
        let mut signals: Vec<TerminationSignal> = Vec::new();
        if self.terminate {
            signals.push(TerminationSignal::Terminate);
        }
        if self.hangup {
            signals.push(TerminationSignal::Hangup);
        }
        if self.interrupt {
            signals.push(TerminationSignal::Interrupt);
        }
        proof {
            assert(signals@ =~= self.spec_signals());
            assert forall|signal: TerminationSignal|
                signals@.contains(signal) <==> self.spec_blocks(signal) by {
                if self.spec_blocks(signal) {
                    let k: int = match signal {
                        TerminationSignal::Terminate => 0,
                        TerminationSignal::Hangup => if self.terminate {
                            1
                        } else {
                            0
                        },
                        TerminationSignal::Interrupt => signals@.len() - 1,
                    };
                    assert(signals@[k] == signal);
                }
            }
        }
        signals
    }

    /// Whether the bridge holds `signal`.
    #[verifier::when_used_as_spec(spec_blocks)]
    pub fn blocks(self, signal: TerminationSignal) -> (held: bool)
        ensures
            held == self.spec_blocks(signal),
    {
        match signal {
            TerminationSignal::Terminate => self.terminate,
            TerminationSignal::Hangup => self.hangup,
            TerminationSignal::Interrupt => self.interrupt,
        }
    }

    /// The bridge has become readable: whichever signal is pending, the
    /// daemon is asked to end cleanly.
    pub fn on_readable(&self) -> (request: TerminationRequest)
        ensures
            request == TerminationRequest::Signaled,
            request.spec_is_success(),
    {
        TerminationRequest::Signaled
    }
}

} // verus!
