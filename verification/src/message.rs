//! The text that a host shows for each way a session can fail.

use vstd::prelude::*;
use crate::code::{CodeError, MIN_SECRET_BYTES};
use crate::error::FailureReason;
use crate::phase::Stage;
use crate::streamer::TransferError;
use crate::text::{decimal, decimal_text, join, span, span_text};
use crate::transit::{TransitAbilities, Transport};

verus! {

/// What is wrong with a text that is no introduction code.
pub open spec fn code_error_text(fault: CodeError) -> Seq<char> {
    match fault {
        CodeError::Empty => "The code is empty"@,
        CodeError::SeparatorMissing =>
            "A code must contain at least one '-' to separate nameplate from password"@,
        CodeError::Nameplate => "Nameplate is not a number. Nameplates must be a number >= 1."@,
        CodeError::SecretTooShort { bytes } => "Password too short. It is only "@ + decimal_text(
            bytes as nat,
        ) + " bytes, but must be at least "@ + decimal_text(MIN_SECRET_BYTES as nat),
        CodeError::Unrecognized => "The code is not valid"@,
    }
}

/// The name of a transport.
pub open spec fn transport_text(transport: Transport) -> Seq<char> {
    match transport {
        Transport::Direct => "direct"@,
        Transport::Relay => "relay"@,
    }
}

/// The names of the transports among some abilities.
pub open spec fn abilities_text(abilities: TransitAbilities) -> Seq<char> {
    if abilities.direct && abilities.relay {
        "direct, relay"@
    } else if abilities.direct {
        "direct"@
    } else if abilities.relay {
        "relay"@
    } else {
        "none"@
    }
}

/// How far a stream got, against what was declared.
pub open spec fn count_text(moved: u64, expected: u64) -> Seq<char> {
    decimal_text(moved as nat) + " of "@ + decimal_text(expected as nat) + " bytes"@
}

/// What is wrong with the byte count of a stream.
pub open spec fn transfer_error_text(error: TransferError) -> Seq<char> {
    match error {
        TransferError::Cancelled => "cancelled"@,
        TransferError::TruncatedTransfer { moved, expected } => "stream closed after "@
            + count_text(moved, expected),
        TransferError::ExcessData { moved, chunk, expected } => decimal_text(chunk as nat)
            + " more bytes arrived after "@ + count_text(moved, expected),
        TransferError::Regressed { moved, reported } => "progress fell back to "@ + count_text(
            reported,
            moved,
        ),
    }
}

/// How a failure of the rendezvous begins, by the step it struck in.
pub open spec fn rendezvous_prefix(stage: Stage) -> Seq<char> {
    match stage {
        Stage::Allocating => "Failed to create mailbox: "@,
        Stage::Attaching => "Failed to connect to mailbox: "@,
        _ => "Failed to connect wormhole: "@,
    }
}

/// How a failure of the stream or of its transport begins, by the step it
/// struck in.
pub open spec fn stream_prefix(stage: Stage) -> Seq<char> {
    match stage {
        Stage::Allocating | Stage::AwaitingPeer | Stage::Offering | Stage::Sending =>
            "Failed to send file: "@,
        _ => "Failed to receive file: "@,
    }
}

/// The text for a session that ended in `stage` for `reason`, where the
/// lower layer that failed, if one did, said `detail`.
pub open spec fn failure_text(stage: Stage, reason: FailureReason, detail: Seq<char>) -> Seq<
    char,
> {
    match reason {
        FailureReason::MissingFile => "File does not exist"@,
        FailureReason::SourceMetadata => "Failed to get file metadata: "@ + detail,
        FailureReason::SourceOpen => "Failed to open file: "@ + detail,
        FailureReason::InvalidCode { fault } => "Invalid code format: "@ + code_error_text(fault),
        FailureReason::NoDestinationDir => "Could not find downloads directory"@,
        FailureReason::MalformedCode { fault } => "Mailbox gave an unusable code: "@
            + code_error_text(fault),
        FailureReason::MailboxUnreachable
        | FailureReason::PeerNotFound
        | FailureReason::KeyExchangeFailed => rendezvous_prefix(stage) + detail,
        FailureReason::OfferFailed => "Failed to request file: "@ + detail,
        FailureReason::OfferMissing => "File transfer was cancelled or failed to receive offer"@,
        FailureReason::DestinationUnwritable => "Failed to create file: "@ + detail,
        FailureReason::NoRouteAvailable { attempted } => stream_prefix(stage) + detail
            + " (transports attempted: "@ + abilities_text(attempted) + ")"@,
        FailureReason::TransportRefused { transport } => stream_prefix(stage)
            + "transport not allowed: "@ + transport_text(transport),
        FailureReason::StreamFailed { moved, expected } => stream_prefix(stage) + detail
            + " (moved "@ + count_text(moved, expected) + ")"@,
        FailureReason::Stream { error } => stream_prefix(stage) + transfer_error_text(error),
        FailureReason::RendezvousTimedOut { secs } => (if stage is Allocating {
            "Mailbox creation timeout - took longer than "@
        } else {
            "Connection timeout - took longer than "@
        }) + span_text(secs),
        FailureReason::NoPeerJoined { secs } => "No receiver connected within "@ + span_text(secs),
        FailureReason::NegotiationTimedOut { secs } =>
            "File request timeout - took longer than "@ + span_text(secs),
        FailureReason::TransferTimedOut { secs } => "File transfer timeout - took longer than "@
            + span_text(secs),
        FailureReason::Cancelled => "Transfer cancelled"@,
    }
}

/// Says what is wrong with a text that is no introduction code.
pub fn describe_code_error(fault: CodeError) -> (s: String)
    ensures
        s@ == code_error_text(fault),
{
    match fault {
        CodeError::Empty => String::from_str("The code is empty"),
        CodeError::SeparatorMissing => String::from_str(
            "A code must contain at least one '-' to separate nameplate from password",
        ),
        CodeError::Nameplate => String::from_str(
            "Nameplate is not a number. Nameplates must be a number >= 1.",
        ),
        CodeError::SecretTooShort { bytes } => {
            let mut s = String::from_str("Password too short. It is only ");
            s.append(decimal(bytes as u64).as_str());
            s.append(" bytes, but must be at least ");
            s.append(decimal(MIN_SECRET_BYTES as u64).as_str());
            s
        },
        CodeError::Unrecognized => String::from_str("The code is not valid"),
    }
}

fn count(moved: u64, expected: u64) -> (s: String)
    ensures
        s@ == count_text(moved, expected),
{
    let mut s = decimal(moved);
    s.append(" of ");
    s.append(decimal(expected).as_str());
    s.append(" bytes");
    s
}

/// Says what is wrong with the byte count of a stream.
pub fn describe_transfer_error(error: TransferError) -> (s: String)
    ensures
        s@ == transfer_error_text(error),
{
    match error {
        TransferError::Cancelled => String::from_str("cancelled"),
        TransferError::TruncatedTransfer { moved, expected } => join(
            "stream closed after ",
            count(moved, expected).as_str(),
        ),
        TransferError::ExcessData { moved, chunk, expected } => {
            let mut s = decimal(chunk);
            s.append(" more bytes arrived after ");
            s.append(count(moved, expected).as_str());
            s
        },
        TransferError::Regressed { moved, reported } => join(
            "progress fell back to ",
            count(reported, moved).as_str(),
        ),
    }
}

fn rendezvous_head(stage: Stage) -> (s: &'static str)
    ensures
        s@ == rendezvous_prefix(stage),
{
    match stage {
        Stage::Allocating => "Failed to create mailbox: ",
        Stage::Attaching => "Failed to connect to mailbox: ",
        _ => "Failed to connect wormhole: ",
    }
}

fn stream_head(stage: Stage) -> (s: &'static str)
    ensures
        s@ == stream_prefix(stage),
{
    match stage {
        Stage::Allocating | Stage::AwaitingPeer | Stage::Offering | Stage::Sending =>
            "Failed to send file: ",
        _ => "Failed to receive file: ",
    }
}

fn abilities_name(abilities: TransitAbilities) -> (s: &'static str)
    ensures
        s@ == abilities_text(abilities),
{
    if abilities.direct && abilities.relay {
        "direct, relay"
    } else if abilities.direct {
        "direct"
    } else if abilities.relay {
        "relay"
    } else {
        "none"
    }
}

fn transport_name(transport: Transport) -> (s: &'static str)
    ensures
        s@ == transport_text(transport),
{
    match transport {
        Transport::Direct => "direct",
        Transport::Relay => "relay",
    }
}

/// Says why a session ended in `stage` for `reason`; `detail` is what the
/// lower layer that failed, if one did, had to say.
pub fn describe_failure(stage: Stage, reason: FailureReason, detail: &str) -> (s: String)
    ensures
        s@ == failure_text(stage, reason, detail@),
{
    match reason {
        FailureReason::MissingFile => String::from_str("File does not exist"),
        FailureReason::SourceMetadata => join("Failed to get file metadata: ", detail),
        FailureReason::SourceOpen => join("Failed to open file: ", detail),
        FailureReason::InvalidCode { fault } => join(
            "Invalid code format: ",
            describe_code_error(fault).as_str(),
        ),
        FailureReason::NoDestinationDir => String::from_str("Could not find downloads directory"),
        FailureReason::MalformedCode { fault } => join(
            "Mailbox gave an unusable code: ",
            describe_code_error(fault).as_str(),
        ),
        FailureReason::MailboxUnreachable
        | FailureReason::PeerNotFound
        | FailureReason::KeyExchangeFailed => join(rendezvous_head(stage), detail),
        FailureReason::OfferFailed => join("Failed to request file: ", detail),
        FailureReason::OfferMissing => String::from_str(
            "File transfer was cancelled or failed to receive offer",
        ),
        FailureReason::DestinationUnwritable => join("Failed to create file: ", detail),
        FailureReason::NoRouteAvailable { attempted } => {
            let mut s = join(stream_head(stage), detail);
            s.append(" (transports attempted: ");
            s.append(abilities_name(attempted));
            s.append(")");
            s
        },
        FailureReason::TransportRefused { transport } => {
            let mut s = join(stream_head(stage), "transport not allowed: ");
            s.append(transport_name(transport));
            s
        },
        FailureReason::StreamFailed { moved, expected } => {
            let mut s = join(stream_head(stage), detail);
            s.append(" (moved ");
            s.append(count(moved, expected).as_str());
            s.append(")");
            s
        },
        FailureReason::Stream { error } => join(
            stream_head(stage),
            describe_transfer_error(error).as_str(),
        ),
        FailureReason::RendezvousTimedOut { secs } => {
            let head = match stage {
                Stage::Allocating => "Mailbox creation timeout - took longer than ",
                _ => "Connection timeout - took longer than ",
            };
            join(head, span(secs).as_str())
        },
        FailureReason::NoPeerJoined { secs } => join(
            "No receiver connected within ",
            span(secs).as_str(),
        ),
        FailureReason::NegotiationTimedOut { secs } => join(
            "File request timeout - took longer than ",
            span(secs).as_str(),
        ),
        FailureReason::TransferTimedOut { secs } => join(
            "File transfer timeout - took longer than ",
            span(secs).as_str(),
        ),
        FailureReason::Cancelled => String::from_str("Transfer cancelled"),
    }
}

} // verus!
