//! The state machine of one session, over plain values: which step follows
//! which signal, and what the host is to do next.

use vstd::prelude::*;
use crate::code::CodeError;
use crate::error::{classify_fault, classify_timeout, fault_reason, timeout_reason, FailureReason, Fault};
use crate::phase::{Role, Stage};
use crate::policy::TimeoutPolicy;
use crate::signals::ProgressEvent;
use crate::streamer::FileStreamer;
use crate::transit::{TransitAbilities, Transport};

verus! {

/// The number of words in the secret of a code that a sender asks for.
pub const CODE_WORDS: usize = 2;

/// What has happened, as far as the next step depends on it.
#[derive(Clone, Copy, Debug, PartialEq, Eq, Structural)]
pub enum Signal {
    /// The mailbox is open and its code is an introduction code.
    CodeAllocated,
    /// The mailbox is open but its code is no introduction code.
    CodeMalformed { error: CodeError },
    /// The receiver is attached to the mailbox that its code names.
    MailboxAttached,
    /// Both peers hold the session key.
    PeerJoined,
    /// The peer offers a file of `size` bytes.
    OfferReceived { size: u64 },
    /// The peer left without an offer.
    OfferMissing,
    /// The destination is ready to be written.
    DestinationReady,
    /// An authenticated stream stands, over `transport`.
    TransitEstablished { transport: Transport },
    /// `moved` bytes have crossed in all.
    Progress { moved: u64 },
    /// The stream has closed.
    StreamFinished,
    /// A lower layer failed.
    Fault { fault: Fault },
    /// The timer that was set for `armed_for` has run out.
    TimerExpired { armed_for: Stage },
    /// The host asks to stop.
    CancelRequested,
}

/// What the host is to do next. Each directive that names a bound starts
/// the timer of the step that it opens.
#[derive(Clone, Copy, Debug, PartialEq, Eq, Structural)]
pub enum Directive {
    /// Nothing: the signal did not apply.
    Nothing,
    /// Open a mailbox and get a code with `words` words.
    AllocateCode { words: usize, timeout_secs: u64 },
    /// Hand the code to the caller now, and wait for a peer apart from it.
    PublishCode { await_peer_secs: u64 },
    /// Attach to the mailbox that the code names.
    AttachMailbox { timeout_secs: u64 },
    /// Derive the session key with the peer.
    ExchangeKeys { timeout_secs: u64 },
    /// Offer the file of `size` bytes and agree on a transport.
    SendOffer { size: u64, timeout_secs: u64 },
    /// Wait for the peer's offer.
    AwaitOffer { timeout_secs: u64 },
    /// Make the destination for `size` bytes ready.
    PrepareDestination { size: u64, timeout_secs: u64 },
    /// Accept the offer and agree on a transport.
    AcceptOffer { timeout_secs: u64 },
    /// Move the file.
    Stream { timeout_secs: u64 },
    /// Tell the host how far the file is.
    Notify { progress: ProgressEvent },
    /// The session has ended: report its outcome, and first remove what was
    /// written of the destination if `discard_partial`.
    Report { discard_partial: bool },
}

impl Directive {
    /// The directive has the host talk to the rendezvous service or the peer.
    pub open spec fn touches_network(self) -> bool {
        !(self is Nothing || self is PrepareDestination || self is Notify || self is Report)
    }
}

/// A session without its texts.
#[derive(Clone, Copy, Debug, PartialEq, Eq, Structural)]
pub struct SessionCore {
    pub role: Role,
    /// The step the session is at.
    pub stage: Stage,
    /// The step in which the session ended, once it has.
    pub ended_in: Option<Stage>,
    pub policy: TimeoutPolicy,
    /// The transports this side allows.
    pub abilities: TransitAbilities,
    /// The size that the offer declares, once it is known.
    pub offer: Option<u64>,
    /// The transport of the stream, once it stands.
    pub transport: Option<Transport>,
    pub stream: FileStreamer,
    /// Why the session ended, unless it succeeded.
    pub failure: Option<FailureReason>,
}

impl SessionCore {
    /// The last step that did work: the current one, or the one the session
    /// ended in.
    pub open spec fn at(self) -> Stage {
        match self.ended_in {
            Some(stage) => stage,
            None => self.stage,
        }
    }

    /// The declared size, 0 while no offer is known.
    pub open spec fn size(self) -> u64 {
        match self.offer {
            Some(size) => size,
            None => 0,
        }
    }

    /// What holds of every session.
    pub open spec fn wf(self) -> bool {
        &&& self.stage.fits(self.role)
        &&& self.at().fits(self.role)
        &&& !self.at().terminal()
        &&& (self.stage.terminal() <==> self.ended_in is Some)
        &&& (self.failure is Some <==> self.stage is Failed || self.stage is Cancelled)
        &&& (self.stage is Cancelled <==> self.failure == Some(FailureReason::Cancelled))
        &&& self.stream.wf()
        &&& self.stream.total == self.size()
        &&& (self.stage is Completed ==> self.stream.complete())
        &&& (self.stage is Completed ==> self.at() is Sending || self.at() is Receiving)
        &&& (self.transport is Some <==> self.at() is Sending || self.at() is Receiving)
        &&& (self.transport matches Some(t) ==> self.abilities.allows(t))
        &&& (self.transport is None ==> self.stream.moved == 0)
        &&& (self.at().rank() >= Stage::Preparing.rank() ==> self.offer is Some)
        &&& (self.role is Sender && !(self.at() is Allocating && self.stage is Failed)
            ==> self.offer is Some)
    }

    /// The session as it fails in its current step.
    pub open spec fn failed(self, reason: FailureReason) -> SessionCore {
        SessionCore {
            stage: if reason is Cancelled {
                Stage::Cancelled
            } else {
                Stage::Failed
            },
            ended_in: Some(self.stage),
            failure: Some(reason),
            ..self
        }
    }

    /// The one report of a session that ends without success in its current
    /// step.
    pub open spec fn report(self) -> Directive {
        Directive::Report { discard_partial: self.stage.partial_output() }
    }

    /// The bound of `stage` for this session.
    pub open spec fn budget(self, stage: Stage) -> u64 {
        self.policy.budget(stage, self.size())
    }

    /// The session one step on, and what the host is to do. A session that
    /// has ended stays as it is, and so does one that a signal does not
    /// apply to.
    pub open spec fn transition(self, signal: Signal) -> (SessionCore, Directive) {
        if self.stage.terminal() {
            (self, Directive::Nothing)
        } else {
            match signal {
                Signal::CancelRequested => (self.failed(FailureReason::Cancelled), self.report()),
                Signal::TimerExpired { armed_for } => if armed_for == self.stage {
                    (
                        self.failed(timeout_reason(self.stage, self.budget(self.stage))),
                        self.report(),
                    )
                } else {
                    (self, Directive::Nothing)
                },
                Signal::Fault { fault } => (
                    self.failed(fault_reason(self.stage, fault, self.abilities, self.stream)),
                    self.report(),
                ),
                Signal::CodeAllocated => if self.stage is Allocating {
                    (
                        SessionCore { stage: Stage::AwaitingPeer, ..self },
                        Directive::PublishCode { await_peer_secs: self.budget(Stage::AwaitingPeer) },
                    )
                } else {
                    (self, Directive::Nothing)
                },
                Signal::CodeMalformed { error } => if self.stage is Allocating {
                    (self.failed(FailureReason::MalformedCode { fault: error }), self.report())
                } else {
                    (self, Directive::Nothing)
                },
                Signal::MailboxAttached => if self.stage is Attaching {
                    (
                        SessionCore { stage: Stage::Keying, ..self },
                        Directive::ExchangeKeys { timeout_secs: self.budget(Stage::Keying) },
                    )
                } else {
                    (self, Directive::Nothing)
                },
                Signal::PeerJoined => if self.stage is AwaitingPeer {
                    (
                        SessionCore { stage: Stage::Offering, ..self },
                        Directive::SendOffer {
                            size: self.size(),
                            timeout_secs: self.budget(Stage::Offering),
                        },
                    )
                } else if self.stage is Keying {
                    (
                        SessionCore { stage: Stage::AwaitingOffer, ..self },
                        Directive::AwaitOffer { timeout_secs: self.budget(Stage::AwaitingOffer) },
                    )
                } else {
                    (self, Directive::Nothing)
                },
                Signal::OfferReceived { size } => if self.stage is AwaitingOffer {
                    (
                        SessionCore {
                            stage: Stage::Preparing,
                            offer: Some(size),
                            stream: FileStreamer { moved: 0, total: size, chunks: 0 },
                            ..self
                        },
                        Directive::PrepareDestination {
                            size,
                            timeout_secs: self.budget(Stage::Preparing),
                        },
                    )
                } else {
                    (self, Directive::Nothing)
                },
                Signal::OfferMissing => if self.stage is AwaitingOffer {
                    (self.failed(FailureReason::OfferMissing), self.report())
                } else {
                    (self, Directive::Nothing)
                },
                Signal::DestinationReady => if self.stage is Preparing {
                    (
                        SessionCore { stage: Stage::Accepting, ..self },
                        Directive::AcceptOffer { timeout_secs: self.budget(Stage::Accepting) },
                    )
                } else {
                    (self, Directive::Nothing)
                },
                Signal::TransitEstablished { transport } => if self.stage is Offering
                    || self.stage is Accepting {
                    if self.abilities.allows(transport) {
                        (
                            SessionCore {
                                stage: if self.stage is Offering {
                                    Stage::Sending
                                } else {
                                    Stage::Receiving
                                },
                                transport: Some(transport),
                                ..self
                            },
                            Directive::Stream { timeout_secs: self.budget(Stage::Sending) },
                        )
                    } else {
                        (self.failed(FailureReason::TransportRefused { transport }), self.report())
                    }
                } else {
                    (self, Directive::Nothing)
                },
                Signal::Progress { moved } => if self.stage is Sending || self.stage is Receiving {
                    match self.stream.report_result(moved) {
                        Ok(Some(progress)) => (
                            SessionCore { stream: self.stream.report_state(moved), ..self },
                            Directive::Notify { progress },
                        ),
                        Ok(None) => (self, Directive::Nothing),
                        Err(error) => (
                            self.failed(FailureReason::Stream { error }),
                            self.report(),
                        ),
                    }
                } else {
                    (self, Directive::Nothing)
                },
                Signal::StreamFinished => if self.stage is Sending || self.stage is Receiving {
                    match self.stream.verdict() {
                        Ok(_) => (
                            SessionCore {
                                stage: Stage::Completed,
                                ended_in: Some(self.stage),
                                ..self
                            },
                            Directive::Report { discard_partial: false },
                        ),
                        Err(error) => (
                            self.failed(FailureReason::Stream { error }),
                            self.report(),
                        ),
                    }
                } else {
                    (self, Directive::Nothing)
                },
            }
        }
    }

    /// A sender's session before anything has happened, for a file of `size`
    /// bytes.
    pub open spec fn sender(size: u64, policy: TimeoutPolicy, abilities: TransitAbilities) -> SessionCore {
        SessionCore {
            role: Role::Sender,
            stage: Stage::Allocating,
            ended_in: None,
            policy,
            abilities,
            offer: Some(size),
            transport: None,
            stream: FileStreamer { moved: 0, total: size, chunks: 0 },
            failure: None,
        }
    }

    /// A receiver's session before anything has happened.
    pub open spec fn receiver(policy: TimeoutPolicy, abilities: TransitAbilities) -> SessionCore {
        SessionCore {
            role: Role::Receiver,
            stage: Stage::Attaching,
            ended_in: None,
            policy,
            abilities,
            offer: None,
            transport: None,
            stream: FileStreamer { moved: 0, total: 0, chunks: 0 },
            failure: None,
        }
    }

    /// A session that is refused for `reason` before its first step has done
    /// anything.
    pub open spec fn refused(self, reason: FailureReason) -> SessionCore {
        self.failed(reason)
    }

    fn fail(&mut self, reason: FailureReason) -> (d: Directive)
        requires
            !old(self).stage.terminal(),
        ensures
            *final(self) == old(self).failed(reason),
            d == old(self).report(),
    {
        let d = Directive::Report { discard_partial: self.stage.has_partial_output() };
        self.ended_in = Some(self.stage);
        self.stage = match reason {
            FailureReason::Cancelled => Stage::Cancelled,
            _ => Stage::Failed,
        };
        self.failure = Some(reason);
        d
    }

    fn timeout(&self, stage: Stage) -> (secs: u64)
        ensures
            secs == self.budget(stage),
    {
        let size = match self.offer {
            Some(size) => size,
            None => 0,
        };
        self.policy.timeout(stage, size)
    }

    /// Takes the session one step on and says what the host is to do.
    pub fn advance(&mut self, signal: Signal) -> (d: Directive)
        requires
            old(self).wf(),
        ensures
            final(self).wf(),
            (*final(self), d) == old(self).transition(signal),
    {
        proof {
            lemma_transition_keeps_wf(*self, signal);
        }
        if self.stage.is_terminal() {
            return Directive::Nothing;
        }
        match signal {
            Signal::CancelRequested => self.fail(FailureReason::Cancelled),
            Signal::TimerExpired { armed_for } => {
                if armed_for == self.stage {
                    let secs = self.timeout(self.stage);
                    self.fail(classify_timeout(self.stage, secs))
                } else {
                    Directive::Nothing
                }
            },
            Signal::Fault { fault } => {
                let reason = classify_fault(self.stage, fault, self.abilities, self.stream);
                self.fail(reason)
            },
            Signal::CodeAllocated => match self.stage {
                Stage::Allocating => {
                    self.stage = Stage::AwaitingPeer;
                    Directive::PublishCode { await_peer_secs: self.timeout(Stage::AwaitingPeer) }
                },
                _ => Directive::Nothing,
            },
            Signal::CodeMalformed { error } => match self.stage {
                Stage::Allocating => self.fail(FailureReason::MalformedCode { fault: error }),
                _ => Directive::Nothing,
            },
            Signal::MailboxAttached => match self.stage {
                Stage::Attaching => {
                    self.stage = Stage::Keying;
                    Directive::ExchangeKeys { timeout_secs: self.timeout(Stage::Keying) }
                },
                _ => Directive::Nothing,
            },
            Signal::PeerJoined => match self.stage {
                Stage::AwaitingPeer => {
                    self.stage = Stage::Offering;
                    let size = match self.offer {
                        Some(size) => size,
                        None => 0,
                    };
                    Directive::SendOffer { size, timeout_secs: self.timeout(Stage::Offering) }
                },
                Stage::Keying => {
                    self.stage = Stage::AwaitingOffer;
                    Directive::AwaitOffer { timeout_secs: self.timeout(Stage::AwaitingOffer) }
                },
                _ => Directive::Nothing,
            },
            Signal::OfferReceived { size } => match self.stage {
                Stage::AwaitingOffer => {
                    let timeout_secs = self.timeout(Stage::Preparing);
                    self.stage = Stage::Preparing;
                    self.offer = Some(size);
                    self.stream = FileStreamer::new(size);
                    Directive::PrepareDestination { size, timeout_secs }
                },
                _ => Directive::Nothing,
            },
            Signal::OfferMissing => match self.stage {
                Stage::AwaitingOffer => self.fail(FailureReason::OfferMissing),
                _ => Directive::Nothing,
            },
            Signal::DestinationReady => match self.stage {
                Stage::Preparing => {
                    self.stage = Stage::Accepting;
                    Directive::AcceptOffer { timeout_secs: self.timeout(Stage::Accepting) }
                },
                _ => Directive::Nothing,
            },
            Signal::TransitEstablished { transport } => match self.stage {
                Stage::Offering | Stage::Accepting => {
                    if self.abilities.permits(transport) {
                        self.stage = match self.stage {
                            Stage::Offering => Stage::Sending,
                            _ => Stage::Receiving,
                        };
                        self.transport = Some(transport);
                        Directive::Stream { timeout_secs: self.timeout(Stage::Sending) }
                    } else {
                        self.fail(FailureReason::TransportRefused { transport })
                    }
                },
                _ => Directive::Nothing,
            },
            Signal::Progress { moved } => match self.stage {
                Stage::Sending | Stage::Receiving => {
                    let mut stream = self.stream;
                    match stream.advance_to(moved) {
                        Ok(Some(progress)) => {
                            self.stream = stream;
                            Directive::Notify { progress }
                        },
                        Ok(None) => Directive::Nothing,
                        Err(error) => self.fail(FailureReason::Stream { error }),
                    }
                },
                _ => Directive::Nothing,
            },
            Signal::StreamFinished => match self.stage {
                Stage::Sending | Stage::Receiving => match self.stream.finish() {
                    Ok(_) => {
                        self.ended_in = Some(self.stage);
                        self.stage = Stage::Completed;
                        Directive::Report { discard_partial: false }
                    },
                    Err(error) => self.fail(FailureReason::Stream { error }),
                },
                _ => Directive::Nothing,
            },
        }
    }
}

/// A step keeps a session well formed.
pub proof fn lemma_transition_keeps_wf(s: SessionCore, signal: Signal)
    requires
        s.wf(),
    ensures
        s.transition(signal).0.wf(),
{
}

} // verus!
