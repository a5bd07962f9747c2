//! One transfer from the first call to its outcome: the state machine
//! together with the texts that the host gives it and gets back.

use vstd::prelude::*;
use crate::code::{code_fault, is_code, IntroductionCode};
use crate::error::{exit_code, exit_status, ErrorKind, FailureReason, Fault};
use crate::machine::{Directive, SessionCore, Signal, CODE_WORDS};
use crate::message::{describe_failure, failure_text};
use crate::offer::TransferOffer;
use crate::phase::{Phase, Role, Stage};
use crate::policy::TimeoutPolicy;
use crate::signals::ProgressEvent;
use crate::streamer::FileStreamer;
use crate::transit::{TransitAbilities, Transport};

verus! {

/// What the host found when it looked at the file to send.
#[derive(Clone, Debug, PartialEq, Eq)]
pub enum SourceState {
    /// There is no such file.
    Missing,
    /// Its size could not be read; `detail` says why.
    MetadataFailed { detail: String },
    /// It could not be opened; `detail` says why.
    OpenFailed { detail: String },
    /// It is open and holds `size` bytes.
    Ready { size: u64 },
}

/// What the host reports back after it has done what a directive said, or
/// when something happens of itself.
#[derive(Clone, Debug, PartialEq, Eq)]
pub enum Event {
    /// The mailbox is open; `code` is the code that leads to it.
    CodeAllocated { code: String },
    /// The receiver is attached to the mailbox.
    MailboxAttached,
    /// Both peers hold the session key.
    PeerJoined,
    /// The peer offers the file `name` of `size` bytes.
    OfferReceived { name: String, size: u64 },
    /// The peer left without an offer.
    OfferMissing,
    /// The destination is ready at `path`.
    DestinationReady { path: String },
    /// An authenticated stream stands, over `transport`.
    TransitEstablished { transport: Transport },
    /// `moved` bytes have crossed in all.
    Progress { moved: u64 },
    /// The stream has closed.
    StreamFinished,
    /// A lower layer failed; `detail` is what it said.
    Fault { fault: Fault, detail: String },
    /// The timer that was set for `armed_for` has run out.
    TimerExpired { armed_for: Stage },
    /// The host asks to stop.
    CancelRequested,
}

/// How a session ended.
#[derive(Clone, Debug, PartialEq, Eq)]
pub enum TransferOutcome {
    /// The file has crossed. A receiver's confirmation is the path it was
    /// saved to.
    Success { confirmation: String },
    Failure { error: SessionError },
}

/// The one error of a session that ended without success.
#[derive(Clone, Debug, PartialEq, Eq)]
pub struct SessionError {
    pub kind: ErrorKind,
    /// The step in which the session ended.
    pub stage: Stage,
    pub reason: FailureReason,
    /// The text to show.
    pub message: String,
}

/// A session as a plain value.
pub struct SessionView {
    pub core: SessionCore,
    /// The introduction code, while the rendezvous is open.
    pub code: Option<Seq<char>>,
    /// The name of the file on offer.
    pub offer_name: Seq<char>,
    /// The directory a receiver saves into.
    pub destination_dir: Seq<char>,
    /// The path a receiver saves to, once the destination is ready.
    pub destination: Seq<char>,
    /// What the lower layer that failed had to say.
    pub detail: Seq<char>,
}

/// What a sender's success is confirmed with.
pub open spec fn sent_text() -> Seq<char> {
    "File transfer completed successfully"@
}

impl SessionView {
    /// What holds of every session.
    pub open spec fn wf(self) -> bool {
        &&& self.core.wf()
        &&& (self.code is Some <==> self.core.stage.rendezvous())
        &&& (self.code matches Some(code) ==> is_code(code))
    }

    /// What the success of the session is confirmed with.
    pub open spec fn confirmation(self) -> Seq<char> {
        if self.core.role is Receiver {
            self.destination
        } else {
            sent_text()
        }
    }
}

/// The signal that an event stands for.
pub open spec fn signal_of(event: Event) -> Signal {
    match event {
        Event::CodeAllocated { code } => match code_fault(code@) {
            None => Signal::CodeAllocated,
            Some(error) => Signal::CodeMalformed { error },
        },
        Event::MailboxAttached => Signal::MailboxAttached,
        Event::PeerJoined => Signal::PeerJoined,
        Event::OfferReceived { name, size } => Signal::OfferReceived { size },
        Event::OfferMissing => Signal::OfferMissing,
        Event::DestinationReady { path } => Signal::DestinationReady,
        Event::TransitEstablished { transport } => Signal::TransitEstablished { transport },
        Event::Progress { moved } => Signal::Progress { moved },
        Event::StreamFinished => Signal::StreamFinished,
        Event::Fault { fault, detail } => Signal::Fault { fault },
        Event::TimerExpired { armed_for } => Signal::TimerExpired { armed_for },
        Event::CancelRequested => Signal::CancelRequested,
    }
}

/// The session after an event, and what the host is to do. The step is that
/// of the state machine. Of the texts, an event leaves its own where it
/// applies: the code of a new mailbox, the name on offer, the path of the
/// destination, the words of a fault. The code is dropped as soon as the
/// rendezvous is over.
pub open spec fn react(v: SessionView, event: Event) -> (SessionView, Directive) {
    let (core, directive) = v.core.transition(signal_of(event));
    (
        SessionView {
            core,
            code: if !core.stage.rendezvous() {
                None
            } else if event is CodeAllocated && v.core.stage is Allocating {
                Some(event->code@)
            } else {
                v.code
            },
            offer_name: if event is OfferReceived && v.core.stage is AwaitingOffer {
                event->name@
            } else {
                v.offer_name
            },
            destination_dir: v.destination_dir,
            destination: if event is DestinationReady && v.core.stage is Preparing {
                event->path@
            } else {
                v.destination
            },
            detail: if event is Fault && !v.core.stage.terminal() {
                event->detail@
            } else {
                v.detail
            },
        },
        directive,
    )
}

/// An event leaves a session well formed.
pub proof fn lemma_react_keeps_wf(v: SessionView, event: Event)
    requires
        v.wf(),
    ensures
        react(v, event).0.wf(),
{
    crate::machine::lemma_transition_keeps_wf(v.core, signal_of(event));
}

/// One transfer, as sender or as receiver.
pub struct TransferSession {
    core: SessionCore,
    code: Option<IntroductionCode>,
    offer_name: String,
    destination_dir: String,
    destination: String,
    detail: String,
}

impl View for TransferSession {
    type V = SessionView;

    closed spec fn view(&self) -> SessionView {
        SessionView {
            core: self.core,
            code: match self.code {
                Some(code) => Some(code@),
                None => None,
            },
            offer_name: self.offer_name@,
            destination_dir: self.destination_dir@,
            destination: self.destination@,
            detail: self.detail@,
        }
    }
}

impl TransferSession {
    /// What holds of every session that this module hands out.
    pub closed spec fn wf(&self) -> bool {
        self@.wf()
    }

    /// What `wf` says of the session as a plain value.
    pub proof fn lemma_wf(&self)
        requires
            self.wf(),
        ensures
            self@.wf(),
    {
    }

    /// Opens a sender's session for a file that the host has looked at and
    /// that is to be offered as `name`. A file that is missing or cannot be
    /// read ends the session at once; else the first thing to do is to get a
    /// code.
    pub fn begin_send(source: SourceState, name: String, policy: TimeoutPolicy, abilities: TransitAbilities) -> (r: (
        TransferSession,
        Directive,
    ))
        ensures
            r.0.wf(),
            r.0@.code is None,
            r.0@.offer_name == name@,
            r.0@.destination_dir == Seq::<char>::empty(),
            r.0@.destination == Seq::<char>::empty(),
            match source {
                SourceState::Ready { size } => {
                    &&& r.0@.core == SessionCore::sender(size, policy, abilities)
                    &&& r.0@.detail == Seq::<char>::empty()
                    &&& r.1 == (Directive::AllocateCode {
                        words: CODE_WORDS,
                        timeout_secs: policy.rendezvous_secs,
                    })
                },
                SourceState::Missing => {
                    &&& r.0@.core == SessionCore::sender(0, policy, abilities).refused(
                        FailureReason::MissingFile,
                    )
                    &&& r.0@.detail == Seq::<char>::empty()
                    &&& r.1 == (Directive::Report { discard_partial: false })
                },
                SourceState::MetadataFailed { detail } => {
                    &&& r.0@.core == SessionCore::sender(0, policy, abilities).refused(
                        FailureReason::SourceMetadata,
                    )
                    &&& r.0@.detail == detail@
                    &&& r.1 == (Directive::Report { discard_partial: false })
                },
                SourceState::OpenFailed { detail } => {
                    &&& r.0@.core == SessionCore::sender(0, policy, abilities).refused(
                        FailureReason::SourceOpen,
                    )
                    &&& r.0@.detail == detail@
                    &&& r.1 == (Directive::Report { discard_partial: false })
                },
            },
    {
        let (size, refusal, detail) = match source {
            SourceState::Ready { size } => (size, None, String::new()),
            SourceState::Missing => (0, Some(FailureReason::MissingFile), String::new()),
            SourceState::MetadataFailed { detail } => (
                0,
                Some(FailureReason::SourceMetadata),
                detail,
            ),
            SourceState::OpenFailed { detail } => (0, Some(FailureReason::SourceOpen), detail),
        };
        let mut core = SessionCore {
            role: Role::Sender,
            stage: Stage::Allocating,
            ended_in: None,
            policy,
            abilities,
            offer: Some(size),
            transport: None,
            stream: FileStreamer::new(size),
            failure: None,
        };
        let directive = match refusal {
            Some(reason) => {
                core.ended_in = Some(Stage::Allocating);
                core.stage = Stage::Failed;
                core.failure = Some(reason);
                Directive::Report { discard_partial: false }
            },
            None => Directive::AllocateCode {
                words: CODE_WORDS,
                timeout_secs: policy.timeout(Stage::Allocating, size),
            },
        };
        (
            TransferSession {
                core,
                code: None,
                offer_name: name,
                destination_dir: String::new(),
                destination: String::new(),
                detail,
            },
            directive,
        )
    }

    /// Opens a receiver's session for the code that the user typed and the
    /// directory to save into, if the host found one. A text that is no
    /// introduction code ends the session at once, and so does a missing
    /// directory; else the first thing to do is to attach to the mailbox.
    pub fn begin_receive(
        code: &str,
        destination_dir: Option<String>,
        policy: TimeoutPolicy,
        abilities: TransitAbilities,
    ) -> (r: (TransferSession, Directive))
        ensures
            r.0.wf(),
            r.0@.offer_name == Seq::<char>::empty(),
            r.0@.destination == Seq::<char>::empty(),
            r.0@.detail == Seq::<char>::empty(),
            r.0@.destination_dir == match destination_dir {
                Some(dir) => dir@,
                None => Seq::<char>::empty(),
            },
            match code_fault(code@) {
                Some(fault) => {
                    &&& r.0@.core == SessionCore::receiver(policy, abilities).refused(
                        FailureReason::InvalidCode { fault },
                    )
                    &&& r.0@.code is None
                    &&& r.1 == (Directive::Report { discard_partial: false })
                },
                None => if destination_dir is None {
                    &&& r.0@.core == SessionCore::receiver(policy, abilities).refused(
                        FailureReason::NoDestinationDir,
                    )
                    &&& r.0@.code is None
                    &&& r.1 == (Directive::Report { discard_partial: false })
                } else {
                    &&& r.0@.core == SessionCore::receiver(policy, abilities)
                    &&& r.0@.code == Some(code@)
                    &&& r.1 == (Directive::AttachMailbox { timeout_secs: policy.rendezvous_secs })
                },
            },
    {
        let mut core = SessionCore {
            role: Role::Receiver,
            stage: Stage::Attaching,
            ended_in: None,
            policy,
            abilities,
            offer: None,
            transport: None,
            stream: FileStreamer::new(0),
            failure: None,
        };
        let (parsed, refusal) = match IntroductionCode::parse(code) {
            Err(fault) => (None, Some(FailureReason::InvalidCode { fault })),
            Ok(parsed) => match destination_dir {
                None => (None, Some(FailureReason::NoDestinationDir)),
                Some(_) => (Some(parsed), None),
            },
        };
        let directive = match refusal {
            Some(reason) => {
                core.ended_in = Some(Stage::Attaching);
                core.stage = Stage::Failed;
                core.failure = Some(reason);
                Directive::Report { discard_partial: false }
            },
            None => Directive::AttachMailbox { timeout_secs: policy.timeout(Stage::Attaching, 0) },
        };
        let dir = match destination_dir {
            Some(dir) => dir,
            None => String::new(),
        };
        (
            TransferSession {
                core,
                code: parsed,
                offer_name: String::new(),
                destination_dir: dir,
                destination: String::new(),
                detail: String::new(),
            },
            directive,
        )
    }

    /// Takes in one event and says what the host is to do next.
    pub fn step(&mut self, event: Event) -> (d: Directive)
        requires
            old(self).wf(),
        ensures
            final(self).wf(),
            (final(self)@, d) == react(old(self)@, event),
    {
        let before = self.core.stage;
        let directive = match event {
            Event::CodeAllocated { code } => match IntroductionCode::parse(code.as_str()) {
                Ok(parsed) => {
                    let d = self.core.advance(Signal::CodeAllocated);
                    match before {
                        Stage::Allocating => {
                            self.code = Some(parsed);
                        },
                        _ => {},
                    }
                    d
                },
                Err(error) => self.core.advance(Signal::CodeMalformed { error }),
            },
            Event::MailboxAttached => self.core.advance(Signal::MailboxAttached),
            Event::PeerJoined => self.core.advance(Signal::PeerJoined),
            Event::OfferReceived { name, size } => {
                match before {
                    Stage::AwaitingOffer => {
                        self.offer_name = name;
                    },
                    _ => {},
                }
                self.core.advance(Signal::OfferReceived { size })
            },
            Event::OfferMissing => self.core.advance(Signal::OfferMissing),
            Event::DestinationReady { path } => {
                match before {
                    Stage::Preparing => {
                        self.destination = path;
                    },
                    _ => {},
                }
                self.core.advance(Signal::DestinationReady)
            },
            Event::TransitEstablished { transport } => self.core.advance(
                Signal::TransitEstablished { transport },
            ),
            Event::Progress { moved } => self.core.advance(Signal::Progress { moved }),
            Event::StreamFinished => self.core.advance(Signal::StreamFinished),
            Event::Fault { fault, detail } => {
                if !before.is_terminal() {
                    self.detail = detail;
                }
                self.core.advance(Signal::Fault { fault })
            },
            Event::TimerExpired { armed_for } => self.core.advance(
                Signal::TimerExpired { armed_for },
            ),
            Event::CancelRequested => self.core.advance(Signal::CancelRequested),
        };
        if !self.core.stage.in_rendezvous() {
            self.code = None;
        }
        directive
    }

    pub fn role(&self) -> (r: Role)
        ensures
            r == self@.core.role,
    {
        self.core.role
    }

    pub fn stage(&self) -> (s: Stage)
        ensures
            s == self@.core.stage,
    {
        self.core.stage
    }

    pub fn phase(&self) -> (p: Phase)
        ensures
            p == self@.core.stage.phase(),
    {
        self.core.stage.to_phase()
    }

    /// The state machine's part of the session.
    pub fn state(&self) -> (c: SessionCore)
        ensures
            c == self@.core,
    {
        self.core
    }

    /// The introduction code, while it can still be used.
    pub fn code(&self) -> (c: Option<&IntroductionCode>)
        ensures
            match c {
                Some(code) => self@.code == Some(code@),
                None => self@.code is None,
            },
    {
        self.code.as_ref()
    }

    /// What is on offer, once that is known.
    pub fn offer(&self) -> (o: Option<TransferOffer>)
        ensures
            match o {
                Some(offer) => self@.core.offer == Some(offer.size) && offer.name@
                    == self@.offer_name,
                None => self@.core.offer is None,
            },
    {
        match self.core.offer {
            Some(size) => Some(TransferOffer { name: self.offer_name.clone(), size }),
            None => None,
        }
    }

    /// The directory a receiver saves into.
    pub fn destination_dir(&self) -> (s: &str)
        ensures
            s@ == self@.destination_dir,
    {
        self.destination_dir.as_str()
    }

    /// How far the file is.
    pub fn progress(&self) -> (p: ProgressEvent)
        ensures
            p == (ProgressEvent {
                bytes_moved: self@.core.stream.moved,
                bytes_total: self@.core.stream.total,
            }),
    {
        ProgressEvent { bytes_moved: self.core.stream.moved, bytes_total: self.core.stream.total }
    }

    /// The outcome, once the session has ended: there is one if and only if
    /// it has.
    pub fn outcome(&self) -> (o: Option<TransferOutcome>)
        requires
            self.wf(),
        ensures
            match o {
                None => !self@.core.stage.terminal(),
                Some(TransferOutcome::Success { confirmation }) => {
                    &&& self@.core.stage is Completed
                    &&& confirmation@ == self@.confirmation()
                },
                Some(TransferOutcome::Failure { error }) => {
                    &&& self@.core.stage is Failed || self@.core.stage is Cancelled
                    &&& self@.core.failure == Some(error.reason)
                    &&& error.kind == error.reason.kind()
                    &&& error.stage == self@.core.at()
                    &&& error.message@ == failure_text(error.stage, error.reason, self@.detail)
                },
            },
    {
        match self.core.stage {
            Stage::Completed => {
                let confirmation = match self.core.role {
                    Role::Receiver => self.destination.clone(),
                    Role::Sender => String::from_str("File transfer completed successfully"),
                };
                Some(TransferOutcome::Success { confirmation })
            },
            Stage::Failed | Stage::Cancelled => match (self.core.failure, self.core.ended_in) {
                (Some(reason), Some(stage)) => Some(
                    TransferOutcome::Failure {
                        error: SessionError {
                            kind: reason.category(),
                            stage,
                            reason,
                            message: describe_failure(stage, reason, self.detail.as_str()),
                        },
                    },
                ),
                _ => None,
            },
            _ => None,
        }
    }

    /// The status for a command-line host to exit with: 0 where the session
    /// completed or has not ended, else the number of the error's category.
    pub fn exit_status(&self) -> (status: u8)
        requires
            self.wf(),
        ensures
            status == exit_code(
                match self@.core.failure {
                    Some(reason) => Some(reason.kind()),
                    None => None,
                },
            ),
    {
        match self.core.failure {
            Some(reason) => exit_status(Some(reason.category())),
            None => exit_status(None),
        }
    }
}

} // verus!
