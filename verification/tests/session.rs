use stork::code::CodeError;
use stork::error::{ErrorKind, FailureReason, Fault};
use stork::machine::{Directive, CODE_WORDS};
use stork::phase::{Phase, Role, Stage};
use stork::policy::TimeoutPolicy;
use stork::session::{Event, SourceState, TransferOutcome, TransferSession};
use stork::signals::ProgressEvent;
use stork::streamer::TransferError;
use stork::transit::{TransitAbilities, Transport};

const TEN_MB: u64 = 10 * 1024 * 1024;

fn sender(size: u64) -> (TransferSession, Directive) {
    TransferSession::begin_send(
        SourceState::Ready { size },
        "cat.png".to_string(),
        TimeoutPolicy::standard(),
        TransitAbilities::all(),
    )
}

fn receiver(code: &str) -> (TransferSession, Directive) {
    TransferSession::begin_receive(
        code,
        Some("/home/u/Downloads".to_string()),
        TimeoutPolicy::standard(),
        TransitAbilities::all(),
    )
}

fn failure(s: &TransferSession) -> stork::session::SessionError {
    match s.outcome() {
        Some(TransferOutcome::Failure { error }) => error,
        other => panic!("no failure: {:?}", other),
    }
}

/// A receiver that has come as far as the stream.
fn receiving(size: u64) -> TransferSession {
    let (mut s, _) = receiver("7-purple-sausages");
    s.step(Event::MailboxAttached);
    s.step(Event::PeerJoined);
    s.step(Event::OfferReceived { name: "cat.png".to_string(), size });
    s.step(Event::DestinationReady { path: "/home/u/Downloads/cat.png".to_string() });
    s.step(Event::TransitEstablished { transport: Transport::Direct });
    assert_eq!(s.stage(), Stage::Receiving);
    s
}

#[test]
fn sender_runs_from_code_to_completion() {
    let (mut s, d) = sender(100);
    assert_eq!(d, Directive::AllocateCode { words: 2, timeout_secs: 120 });
    assert_eq!(CODE_WORDS, 2);
    assert_eq!(s.role(), Role::Sender);
    assert_eq!(s.phase(), Phase::Idle);
    assert!(s.code().is_none());
    assert!(s.outcome().is_none());

    let d = s.step(Event::CodeAllocated { code: "7-purple-sausages".to_string() });
    assert_eq!(d, Directive::PublishCode { await_peer_secs: 300 });
    assert_eq!(s.phase(), Phase::AwaitingPeer);
    assert_eq!(s.code().unwrap().as_str(), "7-purple-sausages");

    let d = s.step(Event::PeerJoined);
    assert_eq!(d, Directive::SendOffer { size: 100, timeout_secs: 120 });
    assert_eq!(s.phase(), Phase::Negotiating);
    assert!(s.code().is_none());
    let offer = s.offer().unwrap();
    assert_eq!(offer.name, "cat.png");
    assert_eq!(offer.size, 100);

    let d = s.step(Event::TransitEstablished { transport: Transport::Relay });
    assert_eq!(d, Directive::Stream { timeout_secs: 600 });
    assert_eq!(s.phase(), Phase::Transferring);

    assert_eq!(s.step(Event::Progress { moved: 0 }), Directive::Nothing);
    assert_eq!(
        s.step(Event::Progress { moved: 60 }),
        Directive::Notify { progress: ProgressEvent { bytes_moved: 60, bytes_total: 100 } }
    );
    assert_eq!(
        s.step(Event::Progress { moved: 100 }),
        Directive::Notify { progress: ProgressEvent { bytes_moved: 100, bytes_total: 100 } }
    );
    assert_eq!(s.progress(), ProgressEvent { bytes_moved: 100, bytes_total: 100 });

    let d = s.step(Event::StreamFinished);
    assert_eq!(d, Directive::Report { discard_partial: false });
    assert_eq!(s.phase(), Phase::Completed);
    assert_eq!(
        s.outcome(),
        Some(TransferOutcome::Success {
            confirmation: "File transfer completed successfully".to_string()
        })
    );
    assert_eq!(s.exit_status(), 0);
}

#[test]
fn receiver_runs_from_code_to_saved_file() {
    let (mut s, d) = receiver("7-purple-sausages");
    assert_eq!(d, Directive::AttachMailbox { timeout_secs: 120 });
    assert_eq!(s.role(), Role::Receiver);
    assert_eq!(s.phase(), Phase::Idle);
    assert_eq!(s.code().unwrap().as_str(), "7-purple-sausages");
    assert_eq!(s.destination_dir(), "/home/u/Downloads");
    assert!(s.offer().is_none());

    assert_eq!(s.step(Event::MailboxAttached), Directive::ExchangeKeys { timeout_secs: 120 });
    assert_eq!(s.phase(), Phase::Idle);
    assert_eq!(s.step(Event::PeerJoined), Directive::AwaitOffer { timeout_secs: 120 });
    assert_eq!(s.phase(), Phase::Negotiating);
    assert!(s.code().is_none());

    let d = s.step(Event::OfferReceived { name: "cat.png".to_string(), size: 100 });
    assert_eq!(d, Directive::PrepareDestination { size: 100, timeout_secs: 120 });
    assert_eq!(s.offer().unwrap().name, "cat.png");
    assert_eq!(s.offer().unwrap().size, 100);

    let d = s.step(Event::DestinationReady { path: "/home/u/Downloads/cat.png".to_string() });
    assert_eq!(d, Directive::AcceptOffer { timeout_secs: 120 });
    assert_eq!(s.stage(), Stage::Accepting);

    let d = s.step(Event::TransitEstablished { transport: Transport::Direct });
    assert_eq!(d, Directive::Stream { timeout_secs: 600 });
    assert_eq!(s.phase(), Phase::Transferring);

    s.step(Event::Progress { moved: 100 });
    assert_eq!(s.step(Event::StreamFinished), Directive::Report { discard_partial: false });
    assert_eq!(
        s.outcome(),
        Some(TransferOutcome::Success { confirmation: "/home/u/Downloads/cat.png".to_string() })
    );
    assert_eq!(s.exit_status(), 0);
}

#[test]
fn code_is_published_without_waiting_for_a_peer() {
    // The answer to the allocation is the code itself; no peer has been heard of.
    let (mut s, _) = sender(TEN_MB);
    let d = s.step(Event::CodeAllocated { code: "12-orbit-chisel".to_string() });
    assert_eq!(d, Directive::PublishCode { await_peer_secs: 300 });
    assert_eq!(s.stage(), Stage::AwaitingPeer);
    assert!(s.outcome().is_none());
}

#[test]
fn missing_file_is_refused_before_the_network() {
    let (mut s, d) = TransferSession::begin_send(
        SourceState::Missing,
        "cat.png".to_string(),
        TimeoutPolicy::standard(),
        TransitAbilities::all(),
    );
    assert_eq!(d, Directive::Report { discard_partial: false });
    assert_eq!(s.phase(), Phase::Failed);
    let e = failure(&s);
    assert_eq!(e.kind, ErrorKind::InvalidInput);
    assert_eq!(e.reason, FailureReason::MissingFile);
    assert_eq!(e.stage, Stage::Allocating);
    assert_eq!(e.message, "File does not exist");
    assert_eq!(s.exit_status(), 2);
    assert_eq!(
        s.step(Event::CodeAllocated { code: "7-purple-sausages".to_string() }),
        Directive::Nothing
    );
    assert_eq!(s.phase(), Phase::Failed);
}

#[test]
fn unreadable_file_is_refused_with_what_the_host_found() {
    let (s, d) = TransferSession::begin_send(
        SourceState::MetadataFailed { detail: "permission denied".to_string() },
        "cat.png".to_string(),
        TimeoutPolicy::standard(),
        TransitAbilities::all(),
    );
    assert_eq!(d, Directive::Report { discard_partial: false });
    assert_eq!(failure(&s).message, "Failed to get file metadata: permission denied");
    assert_eq!(failure(&s).kind, ErrorKind::InvalidInput);
    let (s, _) = TransferSession::begin_send(
        SourceState::OpenFailed { detail: "permission denied".to_string() },
        "cat.png".to_string(),
        TimeoutPolicy::standard(),
        TransitAbilities::all(),
    );
    assert_eq!(failure(&s).message, "Failed to open file: permission denied");
    assert_eq!(failure(&s).reason, FailureReason::SourceOpen);
}

#[test]
fn invalid_code_fails_with_invalid_input_and_no_network_directive() {
    for (text, fault) in [
        ("", CodeError::Empty),
        ("7", CodeError::SeparatorMissing),
        ("7-", CodeError::SecretTooShort { bytes: 0 }),
        ("seven-purple-sausages", CodeError::Nameplate),
    ] {
        let (mut s, d) = receiver(text);
        assert_eq!(d, Directive::Report { discard_partial: false }, "{:?}", text);
        assert_eq!(s.phase(), Phase::Failed);
        assert!(s.code().is_none());
        let e = failure(&s);
        assert_eq!(e.kind, ErrorKind::InvalidInput);
        assert_eq!(e.reason, FailureReason::InvalidCode { fault });
        assert_eq!(s.exit_status(), 2);
        for event in [
            Event::MailboxAttached,
            Event::PeerJoined,
            Event::OfferReceived { name: "x".to_string(), size: 1 },
            Event::TimerExpired { armed_for: Stage::Attaching },
            Event::CancelRequested,
        ] {
            assert_eq!(s.step(event), Directive::Nothing);
        }
        assert_eq!(failure(&s).reason, FailureReason::InvalidCode { fault });
    }
    let (s, _) = receiver("");
    assert_eq!(failure(&s).message, "Invalid code format: The code is empty");
}

#[test]
fn missing_destination_dir_is_refused() {
    let (s, d) = TransferSession::begin_receive(
        "7-purple-sausages",
        None,
        TimeoutPolicy::standard(),
        TransitAbilities::all(),
    );
    assert_eq!(d, Directive::Report { discard_partial: false });
    let e = failure(&s);
    assert_eq!(e.kind, ErrorKind::InvalidInput);
    assert_eq!(e.message, "Could not find downloads directory");
    // the code is judged first
    let (s, _) = TransferSession::begin_receive(
        "",
        None,
        TimeoutPolicy::standard(),
        TransitAbilities::all(),
    );
    assert_eq!(failure(&s).reason, FailureReason::InvalidCode { fault: CodeError::Empty });
}

#[test]
fn no_peer_within_the_wait_fails_and_closes_the_code() {
    let (mut s, _) = sender(100);
    s.step(Event::CodeAllocated { code: "7-purple-sausages".to_string() });
    assert!(s.code().is_some());
    let d = s.step(Event::TimerExpired { armed_for: Stage::AwaitingPeer });
    assert_eq!(d, Directive::Report { discard_partial: false });
    assert_eq!(s.phase(), Phase::Failed);
    let e = failure(&s);
    assert_eq!(e.kind, ErrorKind::TimedOut);
    assert_eq!(e.reason, FailureReason::NoPeerJoined { secs: 300 });
    assert_eq!(e.stage, Stage::AwaitingPeer);
    assert_eq!(e.message, "No receiver connected within 5 minutes");
    assert_eq!(s.exit_status(), 6);
    // the code is gone, and a peer that joins now is not let in
    assert!(s.code().is_none());
    assert_eq!(s.step(Event::PeerJoined), Directive::Nothing);
    assert_eq!(s.phase(), Phase::Failed);
    assert!(s.code().is_none());
}

#[test]
fn a_timer_of_an_earlier_step_is_ignored() {
    let (mut s, _) = sender(100);
    s.step(Event::CodeAllocated { code: "7-purple-sausages".to_string() });
    s.step(Event::PeerJoined);
    assert_eq!(
        s.step(Event::TimerExpired { armed_for: Stage::AwaitingPeer }),
        Directive::Nothing
    );
    assert_eq!(s.stage(), Stage::Offering);
    let d = s.step(Event::TimerExpired { armed_for: Stage::Offering });
    assert_eq!(d, Directive::Report { discard_partial: false });
    assert_eq!(failure(&s).reason, FailureReason::NegotiationTimedOut { secs: 120 });
}

#[test]
fn each_phase_times_out_with_its_own_error() {
    let (mut s, _) = receiver("7-purple-sausages");
    s.step(Event::TimerExpired { armed_for: Stage::Attaching });
    assert_eq!(failure(&s).reason, FailureReason::RendezvousTimedOut { secs: 120 });
    assert_eq!(failure(&s).message, "Connection timeout - took longer than 2 minutes");

    let (mut s, _) = receiver("7-purple-sausages");
    s.step(Event::MailboxAttached);
    s.step(Event::PeerJoined);
    s.step(Event::TimerExpired { armed_for: Stage::AwaitingOffer });
    assert_eq!(failure(&s).reason, FailureReason::NegotiationTimedOut { secs: 120 });
    assert_eq!(failure(&s).message, "File request timeout - took longer than 2 minutes");

    let mut s = receiving(100);
    let d = s.step(Event::TimerExpired { armed_for: Stage::Receiving });
    assert_eq!(d, Directive::Report { discard_partial: true });
    assert_eq!(failure(&s).reason, FailureReason::TransferTimedOut { secs: 600 });
    assert_eq!(failure(&s).message, "File transfer timeout - took longer than 10 minutes");
    assert_eq!(failure(&s).kind, ErrorKind::TimedOut);
}

#[test]
fn cancel_after_half_of_ten_megabytes_leaves_no_finished_file() {
    let mut s = receiving(TEN_MB);
    s.step(Event::Progress { moved: TEN_MB / 2 });
    let d = s.step(Event::CancelRequested);
    assert_eq!(d, Directive::Report { discard_partial: true });
    assert_eq!(s.phase(), Phase::Cancelled);
    let e = failure(&s);
    assert_eq!(e.kind, ErrorKind::Cancelled);
    assert_eq!(e.reason, FailureReason::Cancelled);
    assert_eq!(e.stage, Stage::Receiving);
    assert_eq!(e.message, "Transfer cancelled");
    assert_eq!(s.exit_status(), 7);
    assert!(s.progress().bytes_moved < s.progress().bytes_total);
    // nothing that comes later makes it a success
    assert_eq!(s.step(Event::Progress { moved: TEN_MB }), Directive::Nothing);
    assert_eq!(s.step(Event::StreamFinished), Directive::Nothing);
    assert_eq!(s.phase(), Phase::Cancelled);
    assert_eq!(s.progress().bytes_moved, TEN_MB / 2);
}

#[test]
fn cancel_on_the_sending_side_has_nothing_to_discard() {
    let (mut s, _) = sender(TEN_MB);
    s.step(Event::CodeAllocated { code: "7-purple-sausages".to_string() });
    s.step(Event::PeerJoined);
    s.step(Event::TransitEstablished { transport: Transport::Direct });
    s.step(Event::Progress { moved: TEN_MB / 2 });
    assert_eq!(s.step(Event::CancelRequested), Directive::Report { discard_partial: false });
    assert_eq!(s.phase(), Phase::Cancelled);
}

#[test]
fn cancel_ends_a_session_from_every_step() {
    let steps: Vec<Event> = vec![
        Event::MailboxAttached,
        Event::PeerJoined,
        Event::OfferReceived { name: "a".to_string(), size: 5 },
        Event::DestinationReady { path: "/d/a".to_string() },
        Event::TransitEstablished { transport: Transport::Relay },
    ];
    for n in 0..=steps.len() {
        let (mut s, _) = receiver("7-purple-sausages");
        for event in steps.iter().take(n) {
            s.step(event.clone());
        }
        let discard = n >= 4;
        assert_eq!(s.step(Event::CancelRequested), Directive::Report { discard_partial: discard });
        assert_eq!(s.phase(), Phase::Cancelled);
        assert!(s.code().is_none());
    }
}

#[test]
fn exactly_one_report_whatever_follows_the_end() {
    let events = vec![
        Event::MailboxAttached,
        Event::PeerJoined,
        Event::OfferReceived { name: "a".to_string(), size: 5 },
        Event::TimerExpired { armed_for: Stage::Preparing },
        Event::CancelRequested,
        Event::DestinationReady { path: "/d/a".to_string() },
        Event::StreamFinished,
        Event::Fault { fault: Fault::Other, detail: "late".to_string() },
        Event::TimerExpired { armed_for: Stage::Failed },
    ];
    let (mut s, _) = receiver("7-purple-sausages");
    let mut reports = 0;
    for event in events {
        if let Directive::Report { .. } = s.step(event) {
            reports += 1;
        }
    }
    assert_eq!(reports, 1);
    assert_eq!(failure(&s).reason, FailureReason::NegotiationTimedOut { secs: 120 });
    assert_eq!(failure(&s).message, "File request timeout - took longer than 2 minutes");
}

#[test]
fn a_short_stream_is_a_truncation_not_a_success() {
    let mut s = receiving(100);
    s.step(Event::Progress { moved: 99 });
    let d = s.step(Event::StreamFinished);
    assert_eq!(d, Directive::Report { discard_partial: true });
    let e = failure(&s);
    assert_eq!(e.kind, ErrorKind::TransferFailed);
    assert_eq!(
        e.reason,
        FailureReason::Stream { error: TransferError::TruncatedTransfer { moved: 99, expected: 100 } }
    );
    assert_eq!(e.message, "Failed to receive file: stream closed after 99 of 100 bytes");
    assert_eq!(s.exit_status(), 5);
}

#[test]
fn a_completed_receiver_holds_as_many_bytes_as_the_sender_offered() {
    let n = 123_456;
    let (mut tx, _) = sender(n);
    tx.step(Event::CodeAllocated { code: "7-purple-sausages".to_string() });
    tx.step(Event::PeerJoined);
    let offer = tx.offer().unwrap();
    let (mut rx, _) = receiver("7-purple-sausages");
    rx.step(Event::MailboxAttached);
    rx.step(Event::PeerJoined);
    rx.step(Event::OfferReceived { name: offer.name.clone(), size: offer.size });
    rx.step(Event::DestinationReady { path: "/d/cat.png".to_string() });
    rx.step(Event::TransitEstablished { transport: Transport::Direct });
    rx.step(Event::Progress { moved: 100_000 });
    rx.step(Event::Progress { moved: n });
    rx.step(Event::StreamFinished);
    assert_eq!(rx.phase(), Phase::Completed);
    assert_eq!(rx.progress().bytes_moved, n);
    assert_eq!(rx.state().stream.chunks, 2);
}

#[test]
fn progress_that_breaks_the_count_fails_the_transfer() {
    let mut s = receiving(100);
    s.step(Event::Progress { moved: 50 });
    let d = s.step(Event::Progress { moved: 101 });
    assert_eq!(d, Directive::Report { discard_partial: true });
    assert_eq!(
        failure(&s).reason,
        FailureReason::Stream {
            error: TransferError::ExcessData { moved: 50, chunk: 51, expected: 100 }
        }
    );
    let mut s = receiving(100);
    s.step(Event::Progress { moved: 50 });
    s.step(Event::Progress { moved: 49 });
    assert_eq!(
        failure(&s).reason,
        FailureReason::Stream { error: TransferError::Regressed { moved: 50, reported: 49 } }
    );
}

#[test]
fn faults_become_the_error_of_their_step() {
    let (mut s, _) = sender(1);
    let d = s.step(Event::Fault { fault: Fault::Other, detail: "server down".to_string() });
    assert_eq!(d, Directive::Report { discard_partial: false });
    let e = failure(&s);
    assert_eq!(e.kind, ErrorKind::RendezvousFailed);
    assert_eq!(e.reason, FailureReason::MailboxUnreachable);
    assert_eq!(e.message, "Failed to create mailbox: server down");
    assert_eq!(s.exit_status(), 3);

    let (mut s, _) = receiver("7-purple-sausages");
    s.step(Event::Fault { fault: Fault::NameplateUnclaimed, detail: "Nameplate is unclaimed: 7".to_string() });
    assert_eq!(failure(&s).reason, FailureReason::PeerNotFound);
    assert_eq!(failure(&s).message, "Failed to connect to mailbox: Nameplate is unclaimed: 7");

    let (mut s, _) = receiver("7-purple-sausages");
    s.step(Event::MailboxAttached);
    s.step(Event::Fault { fault: Fault::KeyConfirmation, detail: "Key confirmation failed".to_string() });
    assert_eq!(failure(&s).reason, FailureReason::KeyExchangeFailed);
    assert_eq!(failure(&s).message, "Failed to connect wormhole: Key confirmation failed");

    let (mut s, _) = receiver("7-purple-sausages");
    s.step(Event::MailboxAttached);
    s.step(Event::PeerJoined);
    s.step(Event::OfferReceived { name: "a".to_string(), size: 5 });
    let d = s.step(Event::Fault { fault: Fault::Other, detail: "read-only".to_string() });
    assert_eq!(d, Directive::Report { discard_partial: false });
    assert_eq!(failure(&s).kind, ErrorKind::NegotiationFailed);
    assert_eq!(failure(&s).message, "Failed to create file: read-only");
    assert_eq!(s.exit_status(), 4);

    let mut s = receiving(100);
    s.step(Event::Progress { moved: 10 });
    s.step(Event::Fault { fault: Fault::Other, detail: "reset".to_string() });
    assert_eq!(failure(&s).reason, FailureReason::StreamFailed { moved: 10, expected: 100 });
    assert_eq!(failure(&s).message, "Failed to receive file: reset (moved 10 of 100 bytes)");
}

#[test]
fn offer_that_never_comes_fails_the_negotiation() {
    let (mut s, _) = receiver("7-purple-sausages");
    s.step(Event::MailboxAttached);
    s.step(Event::PeerJoined);
    assert_eq!(s.step(Event::OfferMissing), Directive::Report { discard_partial: false });
    assert_eq!(failure(&s).reason, FailureReason::OfferMissing);
    assert_eq!(failure(&s).message, "File transfer was cancelled or failed to receive offer");
}

#[test]
fn a_transport_that_is_not_allowed_is_refused() {
    let (mut s, _) = TransferSession::begin_send(
        SourceState::Ready { size: 5 },
        "a".to_string(),
        TimeoutPolicy::standard(),
        TransitAbilities { direct: true, relay: false },
    );
    s.step(Event::CodeAllocated { code: "7-purple-sausages".to_string() });
    s.step(Event::PeerJoined);
    let d = s.step(Event::TransitEstablished { transport: Transport::Relay });
    assert_eq!(d, Directive::Report { discard_partial: false });
    assert_eq!(failure(&s).reason, FailureReason::TransportRefused { transport: Transport::Relay });
    assert_eq!(failure(&s).message, "Failed to send file: transport not allowed: relay");
}

#[test]
fn a_malformed_code_from_the_mailbox_fails_the_rendezvous() {
    let (mut s, _) = sender(5);
    let d = s.step(Event::CodeAllocated { code: "nonsense".to_string() });
    assert_eq!(d, Directive::Report { discard_partial: false });
    let e = failure(&s);
    assert_eq!(e.kind, ErrorKind::RendezvousFailed);
    assert_eq!(e.reason, FailureReason::MalformedCode { fault: CodeError::SeparatorMissing });
    assert!(s.code().is_none());
}

#[test]
fn events_out_of_turn_change_nothing() {
    let (mut s, _) = sender(5);
    for event in [
        Event::PeerJoined,
        Event::MailboxAttached,
        Event::OfferReceived { name: "x".to_string(), size: 9 },
        Event::OfferMissing,
        Event::DestinationReady { path: "/x".to_string() },
        Event::TransitEstablished { transport: Transport::Direct },
        Event::Progress { moved: 1 },
        Event::StreamFinished,
        Event::TimerExpired { armed_for: Stage::Sending },
    ] {
        assert_eq!(s.step(event), Directive::Nothing);
        assert_eq!(s.stage(), Stage::Allocating);
    }
    assert_eq!(s.offer().unwrap().name, "cat.png");
    assert_eq!(s.offer().unwrap().size, 5);
    assert_eq!(s.progress(), ProgressEvent { bytes_moved: 0, bytes_total: 5 });
}

#[test]
fn transfer_bound_follows_the_offered_size() {
    let policy = TimeoutPolicy { floor_bytes_per_sec: 1024, ..TimeoutPolicy::standard() };
    let (mut s, _) = TransferSession::begin_receive(
        "7-purple-sausages",
        Some("/d".to_string()),
        policy,
        TransitAbilities::all(),
    );
    s.step(Event::MailboxAttached);
    s.step(Event::PeerJoined);
    s.step(Event::OfferReceived { name: "a".to_string(), size: TEN_MB });
    s.step(Event::DestinationReady { path: "/d/a".to_string() });
    let d = s.step(Event::TransitEstablished { transport: Transport::Direct });
    assert_eq!(d, Directive::Stream { timeout_secs: 600 + 10240 });
}

#[test]
fn the_host_is_notified_once_for_each_chunk() {
    let mut s = receiving(100);
    let mut notices = 0;
    for moved in [0, 10, 10, 10, 55, 55, 100, 100] {
        if let Directive::Notify { progress } = s.step(Event::Progress { moved }) {
            assert_eq!(progress.bytes_moved, moved);
            assert_eq!(progress.bytes_total, 100);
            notices += 1;
        }
    }
    assert_eq!(notices, 3);
    assert_eq!(s.state().stream.chunks, 3);
}

#[test]
fn steps_come_in_order_and_none_is_skipped() {
    let (mut s, _) = receiver("7-purple-sausages");
    let path = [
        (Event::MailboxAttached, Stage::Keying),
        (Event::PeerJoined, Stage::AwaitingOffer),
        (Event::OfferReceived { name: "a".to_string(), size: 1 }, Stage::Preparing),
        (Event::DestinationReady { path: "/d/a".to_string() }, Stage::Accepting),
        (Event::TransitEstablished { transport: Transport::Direct }, Stage::Receiving),
    ];
    for (i, (event, next)) in path.iter().enumerate() {
        // the success of a later step does nothing yet
        for (later, _) in path.iter().skip(i + 1) {
            let before = s.stage();
            if *later != Event::PeerJoined || before != Stage::Keying {
                assert_eq!(s.step(later.clone()), Directive::Nothing);
                assert_eq!(s.stage(), before);
            }
        }
        s.step(event.clone());
        assert_eq!(s.stage(), *next);
    }
}
