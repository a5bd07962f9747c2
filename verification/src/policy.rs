//! How long each phase of a session may take.

use vstd::prelude::*;
use crate::phase::{Phase, Stage};

verus! {

/// The bound of each phase, in seconds. A bound is per phase: it starts anew
/// when the phase is entered.
#[derive(Clone, Copy, Debug, PartialEq, Eq, Structural)]
pub struct TimeoutPolicy {
    /// Reaching the rendezvous service and, for a receiver, deriving the key.
    pub rendezvous_secs: u64,
    /// A sender's wait for a receiver to join.
    pub awaiting_peer_secs: u64,
    /// Exchanging the offer and agreeing on a transport.
    pub negotiating_secs: u64,
    /// Moving the file, whatever its size.
    pub transferring_secs: u64,
    /// The slowest rate, in bytes per second, that a transfer is given time
    /// for on top of `transferring_secs`; 0 gives no time on top.
    pub floor_bytes_per_sec: u64,
}

impl TimeoutPolicy {
    /// Two minutes to meet, five for a peer to join, two to negotiate, ten to
    /// transfer.
    pub fn standard() -> (p: TimeoutPolicy)
        ensures
            p == (TimeoutPolicy {
                rendezvous_secs: 120,
                awaiting_peer_secs: 300,
                negotiating_secs: 120,
                transferring_secs: 600,
                floor_bytes_per_sec: 0,
            }),
    {
        TimeoutPolicy {
            rendezvous_secs: 120,
            awaiting_peer_secs: 300,
            negotiating_secs: 120,
            transferring_secs: 600,
            floor_bytes_per_sec: 0,
        }
    }

    /// The bound on moving `size` bytes: the fixed part, and the time the
    /// bytes take at the floor rate, capped at what a `u64` holds.
    pub open spec fn transfer_budget(self, size: u64) -> u64 {
        if self.floor_bytes_per_sec == 0 {
            self.transferring_secs
        } else if self.transferring_secs + size / self.floor_bytes_per_sec > u64::MAX {
            u64::MAX
        } else {
            (self.transferring_secs + size / self.floor_bytes_per_sec) as u64
        }
    }

    /// The bound of a phase, for a file of `size` bytes. A terminal phase has none.
    pub open spec fn phase_budget(self, phase: Phase, size: u64) -> Option<u64> {
        match phase {
            Phase::Idle => Some(self.rendezvous_secs),
            Phase::AwaitingPeer => Some(self.awaiting_peer_secs),
            Phase::Negotiating => Some(self.negotiating_secs),
            Phase::Transferring => Some(self.transfer_budget(size)),
            _ => None,
        }
    }

    /// The bound under which a step runs: that of its phase, 0 for a terminal step.
    pub open spec fn budget(self, stage: Stage, size: u64) -> u64 {
        match self.phase_budget(stage.phase(), size) {
            Some(secs) => secs,
            None => 0,
        }
    }

    #[verifier::when_used_as_spec(transfer_budget)]
    pub fn transfer_timeout(self, size: u64) -> (secs: u64)
        ensures
            secs == self.transfer_budget(size),
    {
        if self.floor_bytes_per_sec == 0 {
            self.transferring_secs
        } else {
            self.transferring_secs.saturating_add(size / self.floor_bytes_per_sec)
        }
    }

    #[verifier::when_used_as_spec(phase_budget)]
    pub fn phase_timeout(self, phase: Phase, size: u64) -> (secs: Option<u64>)
        ensures
            secs == self.phase_budget(phase, size),
    {
        match phase {
            Phase::Idle => Some(self.rendezvous_secs),
            Phase::AwaitingPeer => Some(self.awaiting_peer_secs),
            Phase::Negotiating => Some(self.negotiating_secs),
            Phase::Transferring => Some(self.transfer_timeout(size)),
            _ => None,
        }
    }

    #[verifier::when_used_as_spec(budget)]
    pub fn timeout(self, stage: Stage, size: u64) -> (secs: u64)
        ensures
            secs == self.budget(stage, size),
    {
        match self.phase_timeout(stage.to_phase(), size) {
            Some(secs) => secs,
            None => 0,
        }
    }
}

} // verus!
