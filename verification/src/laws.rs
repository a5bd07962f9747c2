//! What holds of every session, whatever signals reach it and in whatever
//! order.

use vstd::prelude::*;
use crate::error::{ErrorKind, FailureReason, Fault};
use crate::machine::{Directive, SessionCore, Signal};
use crate::phase::{Phase, Stage};

verus! {

/// The session after a run of signals.
pub open spec fn run(s: SessionCore, signals: Seq<Signal>) -> SessionCore
    decreases signals.len(),
{
    if signals.len() == 0 {
        s
    } else {
        run(s.transition(signals[0]).0, signals.drop_first())
    }
}

/// The directives that a run of signals gives, one for each signal.
pub open spec fn trace(s: SessionCore, signals: Seq<Signal>) -> Seq<Directive>
    decreases signals.len(),
{
    if signals.len() == 0 {
        Seq::empty()
    } else {
        seq![s.transition(signals[0]).1] + trace(s.transition(signals[0]).0, signals.drop_first())
    }
}

/// How many of the directives are reports of an outcome.
pub open spec fn reports(directives: Seq<Directive>) -> nat
    decreases directives.len(),
{
    if directives.len() == 0 {
        0
    } else {
        (if directives[0] is Report {
            1nat
        } else {
            0nat
        }) + reports(directives.drop_first())
    }
}

/// How many steps of a run take the session from a step that is not
/// terminal to one that is.
pub open spec fn endings(s: SessionCore, signals: Seq<Signal>) -> nat
    decreases signals.len(),
{
    if signals.len() == 0 {
        0
    } else {
        let next = s.transition(signals[0]).0;
        (if !s.stage.terminal() && next.stage.terminal() {
            1nat
        } else {
            0nat
        }) + endings(next, signals.drop_first())
    }
}

/// A run keeps a session well formed.
pub proof fn lemma_run_keeps_wf(s: SessionCore, signals: Seq<Signal>)
    requires
        s.wf(),
    ensures
        run(s, signals).wf(),
    decreases signals.len(),
{
    if signals.len() > 0 {
        lemma_run_keeps_wf(s.transition(signals[0]).0, signals.drop_first());
    }
}

/// A run gives one directive for each signal.
pub proof fn lemma_trace_len(s: SessionCore, signals: Seq<Signal>)
    ensures
        trace(s, signals).len() == signals.len(),
    decreases signals.len(),
{
    if signals.len() > 0 {
        lemma_trace_len(s.transition(signals[0]).0, signals.drop_first());
    }
}

/// A session that has ended stays as it is: no signal changes it, none is
/// answered with anything to do, and its outcome is not reported again.
pub proof fn lemma_ended_stays(s: SessionCore, signals: Seq<Signal>)
    requires
        s.stage.terminal(),
    ensures
        run(s, signals) == s,
        endings(s, signals) == 0,
        reports(trace(s, signals)) == 0,
        forall|i: int| 0 <= i < signals.len() ==> #[trigger] trace(s, signals)[i] is Nothing,
    decreases signals.len(),
{
    lemma_trace_len(s, signals);
    if signals.len() > 0 {
        let rest = signals.drop_first();
        lemma_ended_stays(s, rest);
        lemma_trace_len(s, rest);
        let t = trace(s, signals);
        assert(t.drop_first() =~= trace(s, rest));
        assert forall|i: int| 0 <= i < signals.len() implies #[trigger] t[i] is Nothing by {
            if i > 0 {
                assert(t[i] == trace(s, rest)[i - 1]);
            }
        }
    }
}

/// Exactly one terminal transition: over any run from a step that is not
/// terminal, the session ends once if the run leaves it ended and never
/// otherwise, and its outcome is reported as often as it ends.
pub proof fn lemma_ends_exactly_once(s: SessionCore, signals: Seq<Signal>)
    requires
        s.wf(),
        !s.stage.terminal(),
    ensures
        endings(s, signals) == if run(s, signals).stage.terminal() {
            1nat
        } else {
            0nat
        },
        reports(trace(s, signals)) == endings(s, signals),
    decreases signals.len(),
{
    if signals.len() > 0 {
        let next = s.transition(signals[0]).0;
        let rest = signals.drop_first();
        let t = trace(s, signals);
        assert(t.drop_first() =~= trace(next, rest));
        crate::machine::lemma_transition_keeps_wf(s, signals[0]);
        if next.stage.terminal() {
            lemma_ended_stays(next, rest);
        } else {
            lemma_ends_exactly_once(next, rest);
        }
    }
}

/// A request to stop ends a session in one step, from any step that is not
/// terminal; so does the timer of the step it is at.
pub proof fn lemma_cancel_and_timer_end(s: SessionCore)
    requires
        s.wf(),
        !s.stage.terminal(),
    ensures
        s.transition(Signal::CancelRequested).0.stage is Cancelled,
        s.transition(Signal::CancelRequested).1 is Report,
        s.transition(Signal::TimerExpired { armed_for: s.stage }).0.stage is Failed,
        s.transition(Signal::TimerExpired { armed_for: s.stage }).0.failure->0.kind()
            == ErrorKind::TimedOut,
        s.transition(Signal::TimerExpired { armed_for: s.stage }).1 is Report,
{
}

/// A run that holds a request to stop leaves the session ended.
pub proof fn lemma_cancelled_run_ends(s: SessionCore, signals: Seq<Signal>, i: int)
    requires
        s.wf(),
        0 <= i < signals.len(),
        signals[i] is CancelRequested,
    ensures
        run(s, signals).stage.terminal(),
    decreases signals.len(),
{
    let next = s.transition(signals[0]).0;
    let rest = signals.drop_first();
    crate::machine::lemma_transition_keeps_wf(s, signals[0]);
    if i == 0 {
        lemma_ended_stays(next, rest);
    } else {
        lemma_cancelled_run_ends(next, rest, i - 1);
    }
}

/// The steps come in order: a transition never goes back, and where it
/// changes the step it goes forward.
pub proof fn lemma_steps_in_order(s: SessionCore, signal: Signal)
    requires
        s.wf(),
    ensures
        s.transition(signal).0.stage.rank() >= s.stage.rank(),
        s.transition(signal).0.stage != s.stage ==> s.transition(signal).0.stage.rank()
            > s.stage.rank(),
        s.transition(signal).0.role == s.role,
{
}

/// The step that follows a step on its role's path.
pub open spec fn follows(stage: Stage) -> Option<Stage> {
    match stage {
        Stage::Allocating => Some(Stage::AwaitingPeer),
        Stage::AwaitingPeer => Some(Stage::Offering),
        Stage::Offering => Some(Stage::Sending),
        Stage::Attaching => Some(Stage::Keying),
        Stage::Keying => Some(Stage::AwaitingOffer),
        Stage::AwaitingOffer => Some(Stage::Preparing),
        Stage::Preparing => Some(Stage::Accepting),
        Stage::Accepting => Some(Stage::Receiving),
        _ => None,
    }
}

/// The signal that reports the success of a step.
pub open spec fn succeeds(stage: Stage, signal: Signal) -> bool {
    match stage {
        Stage::Allocating => signal is CodeAllocated,
        Stage::AwaitingPeer | Stage::Keying => signal is PeerJoined,
        Stage::Attaching => signal is MailboxAttached,
        Stage::AwaitingOffer => signal is OfferReceived,
        Stage::Preparing => signal is DestinationReady,
        Stage::Offering | Stage::Accepting => signal is TransitEstablished,
        Stage::Sending | Stage::Receiving => signal is StreamFinished,
        _ => false,
    }
}

/// No step is skipped and none begins before the one before it has
/// succeeded: a session goes on only to the step that follows the one it is
/// at, or completes from the last, and only on the signal that reports the
/// success of the step it is at.
pub proof fn lemma_phases_in_sequence(s: SessionCore, signal: Signal)
    requires
        s.wf(),
        s.transition(signal).0.stage != s.stage,
        !(s.transition(signal).0.stage is Failed),
        !(s.transition(signal).0.stage is Cancelled),
    ensures
        succeeds(s.stage, signal),
        s.transition(signal).0.stage is Completed ==> follows(s.stage) is None,
        !(s.transition(signal).0.stage is Completed) ==> follows(s.stage) == Some(
            s.transition(signal).0.stage,
        ),
{
}

/// The stream starts only behind the key exchange: a session whose file is
/// crossing has gone through every step before, so its transport was agreed
/// with a peer that holds the session key, and is one this side allows.
pub proof fn lemma_stream_is_authenticated(s: SessionCore, signals: Seq<Signal>)
    requires
        s.wf(),
        s.stage.rank() <= Stage::AwaitingPeer.rank(),
        run(s, signals).stage is Sending || run(s, signals).stage is Receiving,
    ensures
        exists|i: int| 0 <= i < signals.len() && signals[i] is PeerJoined,
        run(s, signals).transport is Some,
        run(s, signals).abilities.allows(run(s, signals).transport->0),
    decreases signals.len(),
{
    lemma_run_keeps_wf(s, signals);
    if signals.len() > 0 {
        let next = s.transition(signals[0]).0;
        let rest = signals.drop_first();
        crate::machine::lemma_transition_keeps_wf(s, signals[0]);
        if next.stage.terminal() {
            lemma_ended_stays(next, rest);
        } else if next.stage.rank() <= Stage::AwaitingPeer.rank() {
            lemma_stream_is_authenticated(next, rest);
            let i = choose|i: int| 0 <= i < rest.len() && rest[i] is PeerJoined;
            assert(signals[i + 1] == rest[i]);
        } else {
            assert(signals[0] is PeerJoined);
        }
    }
}

/// Each phase that runs out of time fails with the error of that phase.
pub proof fn lemma_timeout_names_the_phase(s: SessionCore)
    requires
        s.wf(),
        !s.stage.terminal(),
    ensures
        ({
            let t = s.transition(Signal::TimerExpired { armed_for: s.stage }).0;
            let secs = s.policy.budget(s.stage, s.size());
            &&& t.stage is Failed
            &&& t.ended_in == Some(s.stage)
            &&& t.failure == Some(
                match s.stage.phase() {
                    Phase::AwaitingPeer => FailureReason::NoPeerJoined { secs },
                    Phase::Negotiating => FailureReason::NegotiationTimedOut { secs },
                    Phase::Transferring => FailureReason::TransferTimedOut { secs },
                    _ => FailureReason::RendezvousTimedOut { secs },
                },
            )
        }),
{
}

/// An offer that cannot be honoured is turned down before any byte moves:
/// a receiver whose destination cannot be made fails with nothing moved and
/// nothing written to remove.
pub proof fn lemma_unwritable_destination_moves_nothing(s: SessionCore, fault: Fault)
    requires
        s.wf(),
        s.stage is Preparing,
    ensures
        ({
            let (t, d) = s.transition(Signal::Fault { fault });
            &&& t.stage is Failed
            &&& t.failure == Some(FailureReason::DestinationUnwritable)
            &&& t.stream.moved == 0
            &&& d == (Directive::Report { discard_partial: false })
        }),
{
}

/// A run never takes a session back: the step it ends at is no earlier than
/// the one it started from.
pub proof fn lemma_run_goes_forward(s: SessionCore, signals: Seq<Signal>)
    requires
        s.wf(),
    ensures
        run(s, signals).stage.rank() >= s.stage.rank(),
        run(s, signals).role == s.role,
    decreases signals.len(),
{
    if signals.len() > 0 {
        lemma_steps_in_order(s, signals[0]);
        crate::machine::lemma_transition_keeps_wf(s, signals[0]);
        lemma_run_goes_forward(s.transition(signals[0]).0, signals.drop_first());
    }
}

/// The rendezvous is single-use: once a session is past it, whether it went
/// on or ended, no run of signals opens it again.
pub proof fn lemma_rendezvous_never_reopens(s: SessionCore, signals: Seq<Signal>)
    requires
        s.wf(),
        s.stage.rank() > Stage::AwaitingPeer.rank(),
    ensures
        !run(s, signals).stage.rendezvous(),
{
    lemma_run_goes_forward(s, signals);
}

/// How many of the directives are progress notifications.
pub open spec fn notices(directives: Seq<Directive>) -> nat
    decreases directives.len(),
{
    if directives.len() == 0 {
        0
    } else {
        (if directives[0] is Notify {
            1nat
        } else {
            0nat
        }) + notices(directives.drop_first())
    }
}

/// One notification for each chunk, never more: a step notifies the host
/// exactly when it books a chunk, and then it names the count it has
/// reached.
pub proof fn lemma_one_notice_per_chunk(s: SessionCore, signal: Signal)
    requires
        s.wf(),
    ensures
        ({
            let (t, d) = s.transition(signal);
            &&& t.stream.chunks == s.stream.chunks + (if d is Notify {
                1int
            } else {
                0int
            })
            &&& t.stream.moved >= s.stream.moved
            &&& (d is Notify <==> t.stream.moved > s.stream.moved)
            &&& (d matches Directive::Notify { progress } ==> progress.bytes_moved
                == t.stream.moved && progress.bytes_total == t.stream.total)
        }),
{
}

/// Over any run, the host is notified as often as chunks were booked.
pub proof fn lemma_notices_count_chunks(s: SessionCore, signals: Seq<Signal>)
    requires
        s.wf(),
    ensures
        run(s, signals).stream.chunks == s.stream.chunks + notices(trace(s, signals)),
    decreases signals.len(),
{
    if signals.len() > 0 {
        let next = s.transition(signals[0]).0;
        let rest = signals.drop_first();
        assert(trace(s, signals).drop_first() =~= trace(next, rest));
        lemma_one_notice_per_chunk(s, signals[0]);
        crate::machine::lemma_transition_keeps_wf(s, signals[0]);
        lemma_notices_count_chunks(next, rest);
    }
}

/// A sender's code is handed out by the very step that learns of it: the
/// answer to the allocation is to publish the code, and waiting for a peer
/// starts only with that. How long the caller waits for the code is bounded
/// by the timer of the first step alone, whether or not a peer ever joins.
pub proof fn lemma_code_out_before_peer_wait(s: SessionCore)
    requires
        s.wf(),
        s.stage is Allocating,
    ensures
        s.transition(Signal::CodeAllocated).1 == (Directive::PublishCode {
            await_peer_secs: s.policy.awaiting_peer_secs,
        }),
        s.transition(Signal::CodeAllocated).0.stage is AwaitingPeer,
        s.transition(Signal::PeerJoined) == (s, Directive::Nothing),
        s.transition(Signal::TimerExpired { armed_for: Stage::Allocating }).0.failure == Some(
            FailureReason::RendezvousTimedOut { secs: s.policy.rendezvous_secs },
        ),
{
}

/// A session that completed has moved exactly the bytes its offer declared.
pub proof fn lemma_completed_is_whole(s: SessionCore)
    requires
        s.wf(),
        s.stage is Completed,
    ensures
        s.offer is Some,
        s.stream.moved == s.offer->0,
{
}

/// Round trip: where the receiver's offer is the sender's, a receiver that
/// completed has taken in as many bytes as the sender's file holds.
pub proof fn lemma_round_trip_length(sender: SessionCore, receiver: SessionCore, n: u64)
    requires
        sender.wf(),
        receiver.wf(),
        sender.role is Sender,
        receiver.role is Receiver,
        sender.offer == Some(n),
        receiver.offer == sender.offer,
        receiver.stage is Completed,
    ensures
        receiver.stream.moved == n,
{
}

/// Only a closed stream with the full count completes a session; any other
/// signal leaves a running session short of completion.
pub proof fn lemma_completes_only_when_whole(s: SessionCore, signal: Signal)
    requires
        s.wf(),
        !s.stage.terminal(),
        s.transition(signal).0.stage is Completed,
    ensures
        signal is StreamFinished,
        s.stage is Sending || s.stage is Receiving,
        s.stream.moved == s.stream.total,
{
}

/// Where no receiver joins before the sender's wait runs out, the session
/// fails with `NoPeerJoined`, and from then on the rendezvous is closed: the
/// code cannot be used again, whatever signals follow.
pub proof fn lemma_no_peer_joined(s: SessionCore, later: Seq<Signal>)
    requires
        s.wf(),
        s.stage is AwaitingPeer,
    ensures
        ({
            let t = s.transition(Signal::TimerExpired { armed_for: Stage::AwaitingPeer }).0;
            &&& t.stage is Failed
            &&& t.failure == Some(FailureReason::NoPeerJoined { secs: s.policy.awaiting_peer_secs })
            &&& !run(t, later).stage.rendezvous()
        }),
{
    let t = s.transition(Signal::TimerExpired { armed_for: Stage::AwaitingPeer }).0;
    lemma_ended_stays(t, later);
}

/// A request to stop while the file is crossing ends the session as
/// cancelled. A receiver is told to remove what it has written, and no later
/// signal turns the session into a success.
pub proof fn lemma_cancel_mid_transfer(s: SessionCore, later: Seq<Signal>)
    requires
        s.wf(),
        s.stage is Sending || s.stage is Receiving,
    ensures
        ({
            let (t, d) = s.transition(Signal::CancelRequested);
            &&& t.stage is Cancelled
            &&& d == (Directive::Report { discard_partial: s.role is Receiver })
            &&& run(t, later).stage is Cancelled
        }),
{
    let t = s.transition(Signal::CancelRequested).0;
    lemma_ended_stays(t, later);
}

/// Whenever a session ends without success after its destination was
/// made, the report says to remove it.
pub proof fn lemma_partial_output_discarded(s: SessionCore, signal: Signal)
    requires
        s.wf(),
        s.stage.partial_output(),
        s.transition(signal).0.stage is Failed || s.transition(signal).0.stage is Cancelled,
    ensures
        s.transition(signal).1 == (Directive::Report { discard_partial: true }),
{
}

/// A session that was refused before its first step never has the host
/// touch the network.
pub proof fn lemma_refused_stays_off_network(s: SessionCore, reason: FailureReason, signals: Seq<Signal>)
    requires
        !s.stage.terminal(),
    ensures
        forall|i: int|
            0 <= i < signals.len() ==> !(#[trigger] trace(s.refused(reason), signals)[i]).touches_network(),
{
    lemma_ended_stays(s.refused(reason), signals);
}

} // verus!
