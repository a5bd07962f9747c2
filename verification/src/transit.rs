//! Choosing the byte stream that carries the file: a direct connection where
//! one can be had, the relay where both peers allow it.

use vstd::prelude::*;

verus! {

/// The kinds of transport a side is willing to use.
#[derive(Clone, Copy, Debug, PartialEq, Eq, Structural)]
pub struct TransitAbilities {
    /// A connection straight to the peer.
    pub direct: bool,
    /// A connection through a relay that both peers dial.
    pub relay: bool,
}

/// A kind of transport.
#[derive(Clone, Copy, Debug, PartialEq, Eq, Structural)]
pub enum Transport {
    Direct,
    Relay,
}

/// What became of one direct candidate address.
#[derive(Clone, Copy, Debug, PartialEq, Eq, Structural)]
pub struct Candidate {
    /// The socket connected.
    pub connected: bool,
    /// The peer proved over it that it holds the session key.
    pub handshake: bool,
    /// Milliseconds from the start of the negotiation to the end of the attempt.
    pub elapsed_ms: u64,
}

/// The transport that a negotiation settled on.
#[derive(Clone, Copy, Debug, PartialEq, Eq, Structural)]
pub enum Route {
    /// The direct candidate at this index of the attempts.
    Direct { candidate: usize },
    Relay,
}

/// Why a negotiation settled on nothing.
#[derive(Clone, Copy, Debug, PartialEq, Eq, Structural)]
pub enum TransitError {
    /// No transport that both sides allow gave a stream; `attempted` holds
    /// the ones that were tried.
    NoRouteAvailable { attempted: TransitAbilities },
}

impl TransitAbilities {
    /// Both transports.
    pub fn all() -> (a: TransitAbilities)
        ensures
            a == (TransitAbilities { direct: true, relay: true }),
    {
        TransitAbilities { direct: true, relay: true }
    }

    /// What both `self` and `other` allow.
    pub open spec fn shared(self, other: TransitAbilities) -> TransitAbilities {
        TransitAbilities { direct: self.direct && other.direct, relay: self.relay && other.relay }
    }

    /// Whether `transport` is among the abilities.
    pub open spec fn allows(self, transport: Transport) -> bool {
        match transport {
            Transport::Direct => self.direct,
            Transport::Relay => self.relay,
        }
    }

    /// The strongest transport among the abilities: direct before relay.
    pub open spec fn best(self) -> Option<Transport> {
        if self.direct {
            Some(Transport::Direct)
        } else if self.relay {
            Some(Transport::Relay)
        } else {
            None
        }
    }

    #[verifier::when_used_as_spec(shared)]
    pub fn intersect(self, other: TransitAbilities) -> (a: TransitAbilities)
        ensures
            a == self.shared(other),
    {
        TransitAbilities { direct: self.direct && other.direct, relay: self.relay && other.relay }
    }

    #[verifier::when_used_as_spec(allows)]
    pub fn permits(self, transport: Transport) -> (b: bool)
        ensures
            b == self.allows(transport),
    {
        match transport {
            Transport::Direct => self.direct,
            Transport::Relay => self.relay,
        }
    }

    #[verifier::when_used_as_spec(best)]
    pub fn strongest(self) -> (t: Option<Transport>)
        ensures
            t == self.best(),
    {
        if self.direct {
            Some(Transport::Direct)
        } else if self.relay {
            Some(Transport::Relay)
        } else {
            None
        }
    }
}

/// The attempt gave an authenticated stream before the negotiation's deadline.
pub open spec fn usable(c: Candidate, deadline_ms: u64) -> bool {
    c.connected && c.handshake && c.elapsed_ms <= deadline_ms
}

/// Attempt `i` comes before attempt `j`: it finished earlier, or at the same
/// time with the lower index.
pub open spec fn precedes(attempts: Seq<Candidate>, i: int, j: int) -> bool {
    attempts[i].elapsed_ms < attempts[j].elapsed_ms || (attempts[i].elapsed_ms
        == attempts[j].elapsed_ms && i <= j)
}

/// Attempt `i` is usable and comes before every other usable attempt.
pub open spec fn wins(attempts: Seq<Candidate>, deadline_ms: u64, i: int) -> bool {
    &&& 0 <= i < attempts.len()
    &&& usable(attempts[i], deadline_ms)
    &&& forall|j: int|
        0 <= j < attempts.len() && usable(#[trigger] attempts[j], deadline_ms) ==> precedes(
            attempts,
            i,
            j,
        )
}

/// Some attempt is usable.
pub open spec fn any_usable(attempts: Seq<Candidate>, deadline_ms: u64) -> bool {
    exists|j: int| 0 <= j < attempts.len() && usable(#[trigger] attempts[j], deadline_ms)
}

impl Route {
    /// The kind of transport that a route uses.
    pub open spec fn kind(self) -> Transport {
        match self {
            Route::Direct { .. } => Transport::Direct,
            Route::Relay => Transport::Relay,
        }
    }

    #[verifier::when_used_as_spec(kind)]
    pub fn transport(self) -> (t: Transport)
        ensures
            t == self.kind(),
    {
        match self {
            Route::Direct { .. } => Transport::Direct,
            Route::Relay => Transport::Relay,
        }
    }
}

/// `r` is what the negotiation settles on. Direct candidates count only
/// where both sides allow direct connections, and of those that gave an
/// authenticated stream in time the first to finish wins. Failing that the
/// relay is taken where both sides allow it, and failing that too there is no
/// route.
pub open spec fn settles(
    local: TransitAbilities,
    peer: TransitAbilities,
    attempts: Seq<Candidate>,
    deadline_ms: u64,
    r: Result<Route, TransitError>,
) -> bool {
    match r {
        Ok(Route::Direct { candidate }) => {
            &&& local.shared(peer).direct
            &&& wins(attempts, deadline_ms, candidate as int)
        },
        Ok(Route::Relay) => {
            &&& local.shared(peer).relay
            &&& !(local.shared(peer).direct && any_usable(attempts, deadline_ms))
        },
        Err(TransitError::NoRouteAvailable { attempted }) => {
            &&& !local.shared(peer).relay
            &&& !(local.shared(peer).direct && any_usable(attempts, deadline_ms))
            &&& attempted == local.shared(peer)
        },
    }
}

/// Settles the transport once the direct attempts are in.
pub fn select_route(
    local: TransitAbilities,
    peer: TransitAbilities,
    attempts: &Vec<Candidate>,
    deadline_ms: u64,
) -> (r: Result<Route, TransitError>)
    ensures
        settles(local, peer, attempts@, deadline_ms, r),
{
    let both = local.intersect(peer);
    if both.direct {
        let mut best: Option<usize> = None;
        let mut i: usize = 0;
        while i < attempts.len()
            invariant
                i <= attempts.len(),
                match best {
                    Some(b) => wins(attempts@.subrange(0, i as int), deadline_ms, b as int),
                    None => !any_usable(attempts@.subrange(0, i as int), deadline_ms),
                },
            decreases attempts.len() - i,
        {
            let c = attempts[i];
            let ghost before = attempts@.subrange(0, i as int);
            let ghost after = attempts@.subrange(0, i + 1);
            assert(forall|j: int| 0 <= j < i ==> before[j] == after[j]);
            if c.connected && c.handshake && c.elapsed_ms <= deadline_ms {
                match best {
                    Some(b) => {
                        if c.elapsed_ms < attempts[b].elapsed_ms {
                            best = Some(i);
                        }
                    },
                    None => {
                        assert forall|j: int| 0 <= j < i implies !usable(
                            #[trigger] after[j],
                            deadline_ms,
                        ) by {
                            assert(!usable(before[j], deadline_ms));
                        }
                        best = Some(i);
                    },
                }
            } else {
                proof {
                    if best is None {
                        assert forall|j: int| 0 <= j < i + 1 implies !usable(
                            #[trigger] after[j],
                            deadline_ms,
                        ) by {
                            if j < i {
                                assert(!usable(before[j], deadline_ms));
                            }
                        }
                    }
                }
            }
            i = i + 1;
        }
        assert(attempts@.subrange(0, i as int) =~= attempts@);
        match best {
            Some(b) => {
                return Ok(Route::Direct { candidate: b });
            },
            None => {},
        }
    }
    if both.relay {
        Ok(Route::Relay)
    } else {
        Err(TransitError::NoRouteAvailable { attempted: both })
    }
}

/// Only one attempt can win.
pub proof fn lemma_winner_unique(attempts: Seq<Candidate>, deadline_ms: u64, i: int, j: int)
    requires
        wins(attempts, deadline_ms, i),
        wins(attempts, deadline_ms, j),
    ensures
        i == j,
{
}

/// A negotiation has one result: whatever settles it is the same.
pub proof fn lemma_settles_once(
    local: TransitAbilities,
    peer: TransitAbilities,
    attempts: Seq<Candidate>,
    deadline_ms: u64,
    a: Result<Route, TransitError>,
    b: Result<Route, TransitError>,
)
    requires
        settles(local, peer, attempts, deadline_ms, a),
        settles(local, peer, attempts, deadline_ms, b),
    ensures
        a == b,
{
    if a is Ok && a->Ok_0 is Direct && b is Ok && b->Ok_0 is Direct {
        lemma_winner_unique(
            attempts,
            deadline_ms,
            a->Ok_0->candidate as int,
            b->Ok_0->candidate as int,
        );
    }
}

/// The route is never outside what both sides allow, and where a direct
/// attempt gave an authenticated stream in time it is the strongest
/// transport that both sides allow.
pub proof fn lemma_route_is_shared(
    local: TransitAbilities,
    peer: TransitAbilities,
    attempts: Seq<Candidate>,
    deadline_ms: u64,
    r: Result<Route, TransitError>,
)
    requires
        settles(local, peer, attempts, deadline_ms, r),
    ensures
        r matches Ok(route) ==> local.allows(route.kind()) && peer.allows(route.kind()),
        r is Err <==> local.shared(peer).best() is None || (!local.shared(peer).relay
            && !any_usable(attempts, deadline_ms)),
        any_usable(attempts, deadline_ms) && r is Ok ==> Some(r->Ok_0.kind()) == local.shared(
            peer,
        ).best(),
{
}

} // verus!
