//! Where a session stands: its role, its phase, and the step within the phase.

use vstd::prelude::*;

verus! {

/// The side of a transfer that a session plays.
#[derive(Clone, Copy, Debug, PartialEq, Eq, Structural)]
pub enum Role {
    Sender,
    Receiver,
}

/// The phases of a session. The last three are terminal.
#[derive(Clone, Copy, Debug, PartialEq, Eq, Structural)]
pub enum Phase {
    Idle,
    AwaitingPeer,
    Negotiating,
    Transferring,
    Completed,
    Failed,
    Cancelled,
}

/// The step a session has reached. Each step belongs to one phase, and each
/// step that is not terminal belongs to one role.
#[derive(Clone, Copy, Debug, PartialEq, Eq, Structural)]
pub enum Stage {
    /// Sender: asking the rendezvous service for a mailbox and a code.
    Allocating,
    /// Sender: the code is out, no peer has joined yet.
    AwaitingPeer,
    /// Sender: the offer is out, the transport is being agreed.
    Offering,
    /// Sender: the file is crossing.
    Sending,
    /// Receiver: attaching to the mailbox that the code names.
    Attaching,
    /// Receiver: deriving the session key from the code.
    Keying,
    /// Receiver: waiting to learn what is offered.
    AwaitingOffer,
    /// Receiver: making the destination ready for the offered file.
    Preparing,
    /// Receiver: the offer is accepted, the transport is being agreed.
    Accepting,
    /// Receiver: the file is crossing.
    Receiving,
    Completed,
    Failed,
    Cancelled,
}

impl Stage {
    /// The phase that the step belongs to.
    pub open spec fn phase(self) -> Phase {
        match self {
            Stage::Allocating | Stage::Attaching | Stage::Keying => Phase::Idle,
            Stage::AwaitingPeer => Phase::AwaitingPeer,
            Stage::Offering | Stage::AwaitingOffer | Stage::Preparing | Stage::Accepting =>
                Phase::Negotiating,
            Stage::Sending | Stage::Receiving => Phase::Transferring,
            Stage::Completed => Phase::Completed,
            Stage::Failed => Phase::Failed,
            Stage::Cancelled => Phase::Cancelled,
        }
    }

    /// The session has ended.
    pub open spec fn terminal(self) -> bool {
        self is Completed || self is Failed || self is Cancelled
    }

    /// The step is one that the role goes through.
    pub open spec fn fits(self, role: Role) -> bool {
        match self {
            Stage::Allocating | Stage::AwaitingPeer | Stage::Offering | Stage::Sending => role
                is Sender,
            Stage::Attaching | Stage::Keying | Stage::AwaitingOffer | Stage::Preparing
            | Stage::Accepting | Stage::Receiving => role is Receiver,
            _ => true,
        }
    }

    /// The rendezvous is open: the mailbox is held and the code can still be used.
    pub open spec fn rendezvous(self) -> bool {
        self is AwaitingPeer || self is Attaching || self is Keying
    }

    /// A destination file exists that does not hold the whole file yet.
    pub open spec fn partial_output(self) -> bool {
        self is Accepting || self is Receiving
    }

    /// How far along its role's path a step is. Terminal steps come last.
    pub open spec fn rank(self) -> nat {
        match self {
            Stage::Allocating | Stage::Attaching => 0,
            Stage::AwaitingPeer | Stage::Keying => 1,
            Stage::Offering | Stage::AwaitingOffer => 2,
            Stage::Preparing => 3,
            Stage::Accepting => 4,
            Stage::Sending | Stage::Receiving => 5,
            _ => 6,
        }
    }

    #[verifier::when_used_as_spec(phase)]
    pub fn to_phase(self) -> (p: Phase)
        ensures
            p == self.phase(),
    {
        match self {
            Stage::Allocating | Stage::Attaching | Stage::Keying => Phase::Idle,
            Stage::AwaitingPeer => Phase::AwaitingPeer,
            Stage::Offering | Stage::AwaitingOffer | Stage::Preparing | Stage::Accepting =>
                Phase::Negotiating,
            Stage::Sending | Stage::Receiving => Phase::Transferring,
            Stage::Completed => Phase::Completed,
            Stage::Failed => Phase::Failed,
            Stage::Cancelled => Phase::Cancelled,
        }
    }

    #[verifier::when_used_as_spec(terminal)]
    pub fn is_terminal(self) -> (b: bool)
        ensures
            b == self.terminal(),
    {
        match self {
            Stage::Completed | Stage::Failed | Stage::Cancelled => true,
            _ => false,
        }
    }

    #[verifier::when_used_as_spec(rendezvous)]
    pub fn in_rendezvous(self) -> (b: bool)
        ensures
            b == self.rendezvous(),
    {
        match self {
            Stage::AwaitingPeer | Stage::Attaching | Stage::Keying => true,
            _ => false,
        }
    }

    #[verifier::when_used_as_spec(partial_output)]
    pub fn has_partial_output(self) -> (b: bool)
        ensures
            b == self.partial_output(),
    {
        match self {
            Stage::Accepting | Stage::Receiving => true,
            _ => false,
        }
    }
}

} // verus!
