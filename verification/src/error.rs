//! The one error a session can end with: its category, where it occurred,
//! and the text a host shows for it.

use vstd::prelude::*;
use crate::code::CodeError;
use crate::phase::Stage;
use crate::streamer::{FileStreamer, TransferError};
use crate::transit::{TransitAbilities, Transport};

verus! {

/// The categories of error that a host tells apart.
#[derive(Clone, Copy, Debug, PartialEq, Eq, Structural)]
pub enum ErrorKind {
    /// A bad code, a missing file: refused before the network is touched.
    InvalidInput,
    /// The mailbox could not be had, or the key could not be derived.
    RendezvousFailed,
    /// No offer, no destination or no transport.
    NegotiationFailed,
    /// The stream broke or closed early.
    TransferFailed,
    /// A phase ran out of time.
    TimedOut,
    /// The host asked to stop.
    Cancelled,
}

/// What a lower layer reports when it fails, as far as the session's verdict
/// depends on it.
#[derive(Clone, Copy, Debug, PartialEq, Eq, Structural)]
pub enum Fault {
    /// No mailbox is open under the code's nameplate.
    NameplateUnclaimed,
    /// The two sides did not derive the same key.
    KeyConfirmation,
    /// Anything else.
    Other,
}

/// Why a session ended without success.
#[derive(Clone, Copy, Debug, PartialEq, Eq, Structural)]
pub enum FailureReason {
    /// The file to send does not exist.
    MissingFile,
    /// The size of the file to send cannot be read.
    SourceMetadata,
    /// The file to send cannot be opened.
    SourceOpen,
    /// The text that the receiver supplied is not an introduction code.
    InvalidCode { fault: CodeError },
    /// There is no directory to save into.
    NoDestinationDir,
    /// The mailbox handed out a text that is not an introduction code.
    MalformedCode { fault: CodeError },
    /// The rendezvous service could not be reached or broke off.
    MailboxUnreachable,
    /// No mailbox matches the code.
    PeerNotFound,
    /// The session key could not be derived: the codes differ.
    KeyExchangeFailed,
    /// Waiting for the offer failed.
    OfferFailed,
    /// The peer left without offering a file.
    OfferMissing,
    /// The destination for the offered file cannot be written.
    DestinationUnwritable,
    /// No transport gave a stream; `attempted` are those that were tried.
    NoRouteAvailable { attempted: TransitAbilities },
    /// The stream came over a transport that this side does not allow.
    TransportRefused { transport: Transport },
    /// The stream broke after `moved` of `expected` bytes.
    StreamFailed { moved: u64, expected: u64 },
    /// The byte count of the stream does not fit the offer.
    Stream { error: TransferError },
    /// The rendezvous service took longer than `secs` seconds.
    RendezvousTimedOut { secs: u64 },
    /// No receiver joined within `secs` seconds.
    NoPeerJoined { secs: u64 },
    /// The negotiation took longer than `secs` seconds.
    NegotiationTimedOut { secs: u64 },
    /// The transfer took longer than `secs` seconds.
    TransferTimedOut { secs: u64 },
    /// The host asked to stop.
    Cancelled,
}

impl FailureReason {
    /// The category of a reason.
    pub open spec fn kind(self) -> ErrorKind {
        match self {
            FailureReason::MissingFile
            | FailureReason::SourceMetadata
            | FailureReason::SourceOpen
            | FailureReason::InvalidCode { .. }
            | FailureReason::NoDestinationDir => ErrorKind::InvalidInput,
            FailureReason::MalformedCode { .. }
            | FailureReason::MailboxUnreachable
            | FailureReason::PeerNotFound
            | FailureReason::KeyExchangeFailed => ErrorKind::RendezvousFailed,
            FailureReason::OfferFailed
            | FailureReason::OfferMissing
            | FailureReason::DestinationUnwritable
            | FailureReason::NoRouteAvailable { .. }
            | FailureReason::TransportRefused { .. } => ErrorKind::NegotiationFailed,
            FailureReason::StreamFailed { .. } | FailureReason::Stream { .. } =>
                ErrorKind::TransferFailed,
            FailureReason::RendezvousTimedOut { .. }
            | FailureReason::NoPeerJoined { .. }
            | FailureReason::NegotiationTimedOut { .. }
            | FailureReason::TransferTimedOut { .. } => ErrorKind::TimedOut,
            FailureReason::Cancelled => ErrorKind::Cancelled,
        }
    }

    #[verifier::when_used_as_spec(kind)]
    pub fn category(self) -> (k: ErrorKind)
        ensures
            k == self.kind(),
    {
        match self {
            FailureReason::MissingFile
            | FailureReason::SourceMetadata
            | FailureReason::SourceOpen
            | FailureReason::InvalidCode { .. }
            | FailureReason::NoDestinationDir => ErrorKind::InvalidInput,
            FailureReason::MalformedCode { .. }
            | FailureReason::MailboxUnreachable
            | FailureReason::PeerNotFound
            | FailureReason::KeyExchangeFailed => ErrorKind::RendezvousFailed,
            FailureReason::OfferFailed
            | FailureReason::OfferMissing
            | FailureReason::DestinationUnwritable
            | FailureReason::NoRouteAvailable { .. }
            | FailureReason::TransportRefused { .. } => ErrorKind::NegotiationFailed,
            FailureReason::StreamFailed { .. } | FailureReason::Stream { .. } =>
                ErrorKind::TransferFailed,
            FailureReason::RendezvousTimedOut { .. }
            | FailureReason::NoPeerJoined { .. }
            | FailureReason::NegotiationTimedOut { .. }
            | FailureReason::TransferTimedOut { .. } => ErrorKind::TimedOut,
            FailureReason::Cancelled => ErrorKind::Cancelled,
        }
    }
}

/// The reason that a fault of a lower layer stands for, by the step in which
/// it struck. In a terminal step nothing runs, and the answer is that of a
/// broken stream.
pub open spec fn fault_reason(
    stage: Stage,
    fault: Fault,
    abilities: TransitAbilities,
    stream: FileStreamer,
) -> FailureReason {
    match stage {
        Stage::Allocating => FailureReason::MailboxUnreachable,
        Stage::Attaching => if fault is NameplateUnclaimed {
            FailureReason::PeerNotFound
        } else {
            FailureReason::MailboxUnreachable
        },
        Stage::AwaitingPeer | Stage::Keying => if fault is KeyConfirmation {
            FailureReason::KeyExchangeFailed
        } else {
            FailureReason::MailboxUnreachable
        },
        Stage::AwaitingOffer => FailureReason::OfferFailed,
        Stage::Preparing => FailureReason::DestinationUnwritable,
        Stage::Offering | Stage::Accepting => FailureReason::NoRouteAvailable {
            attempted: abilities,
        },
        _ => FailureReason::StreamFailed { moved: stream.moved, expected: stream.total },
    }
}

/// The reason that a step's timer stands for when it runs out after `secs`
/// seconds.
pub open spec fn timeout_reason(stage: Stage, secs: u64) -> FailureReason {
    match stage {
        Stage::Allocating | Stage::Attaching | Stage::Keying => FailureReason::RendezvousTimedOut {
            secs,
        },
        Stage::AwaitingPeer => FailureReason::NoPeerJoined { secs },
        Stage::Offering | Stage::AwaitingOffer | Stage::Preparing | Stage::Accepting =>
            FailureReason::NegotiationTimedOut { secs },
        _ => FailureReason::TransferTimedOut { secs },
    }
}

#[verifier::when_used_as_spec(fault_reason)]
pub fn classify_fault(stage: Stage, fault: Fault, abilities: TransitAbilities, stream: FileStreamer) -> (r:
    FailureReason)
    ensures
        r == fault_reason(stage, fault, abilities, stream),
{
    match stage {
        Stage::Allocating => FailureReason::MailboxUnreachable,
        Stage::Attaching => match fault {
            Fault::NameplateUnclaimed => FailureReason::PeerNotFound,
            _ => FailureReason::MailboxUnreachable,
        },
        Stage::AwaitingPeer | Stage::Keying => match fault {
            Fault::KeyConfirmation => FailureReason::KeyExchangeFailed,
            _ => FailureReason::MailboxUnreachable,
        },
        Stage::AwaitingOffer => FailureReason::OfferFailed,
        Stage::Preparing => FailureReason::DestinationUnwritable,
        Stage::Offering | Stage::Accepting => FailureReason::NoRouteAvailable {
            attempted: abilities,
        },
        _ => FailureReason::StreamFailed { moved: stream.moved, expected: stream.total },
    }
}

#[verifier::when_used_as_spec(timeout_reason)]
pub fn classify_timeout(stage: Stage, secs: u64) -> (r: FailureReason)
    ensures
        r == timeout_reason(stage, secs),
{
    match stage {
        Stage::Allocating | Stage::Attaching | Stage::Keying => FailureReason::RendezvousTimedOut {
            secs,
        },
        Stage::AwaitingPeer => FailureReason::NoPeerJoined { secs },
        Stage::Offering | Stage::AwaitingOffer | Stage::Preparing | Stage::Accepting =>
            FailureReason::NegotiationTimedOut { secs },
        _ => FailureReason::TransferTimedOut { secs },
    }
}

/// The status with which a command-line host exits: 0 for success, and one
/// number for each category of error.
pub open spec fn exit_code(outcome: Option<ErrorKind>) -> u8 {
    match outcome {
        None => 0,
        Some(ErrorKind::InvalidInput) => 2,
        Some(ErrorKind::RendezvousFailed) => 3,
        Some(ErrorKind::NegotiationFailed) => 4,
        Some(ErrorKind::TransferFailed) => 5,
        Some(ErrorKind::TimedOut) => 6,
        Some(ErrorKind::Cancelled) => 7,
    }
}

#[verifier::when_used_as_spec(exit_code)]
pub fn exit_status(outcome: Option<ErrorKind>) -> (status: u8)
    ensures
        status == exit_code(outcome),
{
    match outcome {
        None => 0,
        Some(ErrorKind::InvalidInput) => 2,
        Some(ErrorKind::RendezvousFailed) => 3,
        Some(ErrorKind::NegotiationFailed) => 4,
        Some(ErrorKind::TransferFailed) => 5,
        Some(ErrorKind::TimedOut) => 6,
        Some(ErrorKind::Cancelled) => 7,
    }
}

/// Success exits with 0, every error with another number, and two
/// categories never with the same.
pub proof fn lemma_exit_codes_distinct(a: Option<ErrorKind>, b: Option<ErrorKind>)
    ensures
        exit_code(a) == exit_code(b) <==> a == b,
        exit_code(a) == 0 <==> a is None,
{
}

} // verus!
