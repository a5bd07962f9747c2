//! Many sessions side by side, each under a number of its own.

use vstd::prelude::*;
use crate::machine::Directive;
use crate::phase::Stage;
use crate::session::{react, Event, SessionView, TransferOutcome, TransferSession};

verus! {

/// The sessions of one host. A session's number is the handle by which the
/// host reports events for it, asks it to stop, and reads its outcome.
pub struct SessionTable {
    sessions: Vec<TransferSession>,
}

impl View for SessionTable {
    type V = Seq<SessionView>;

    closed spec fn view(&self) -> Seq<SessionView> {
        Seq::new(self.sessions@.len(), |i: int| self.sessions@[i]@)
    }
}

/// The sessions after `event` was delivered to the one numbered `id`: that
/// one has reacted, every other is as before.
pub open spec fn delivered(table: Seq<SessionView>, id: int, event: Event) -> Seq<SessionView> {
    if 0 <= id < table.len() {
        table.update(id, react(table[id], event).0)
    } else {
        table
    }
}

impl SessionTable {
    /// Every session in the table is well formed.
    pub closed spec fn wf(&self) -> bool {
        forall|i: int| 0 <= i < self.sessions@.len() ==> (#[trigger] self.sessions@[i]).wf()
    }

    /// What `wf` says of the sessions as plain values.
    pub proof fn lemma_wf(&self, id: int)
        requires
            self.wf(),
            0 <= id < self@.len(),
        ensures
            self@[id].wf(),
    {
        self.sessions@[id].lemma_wf();
    }

    /// A table without sessions.
    pub fn new() -> (table: SessionTable)
        ensures
            table.wf(),
            table@ == Seq::<SessionView>::empty(),
    {
        let table = SessionTable { sessions: Vec::new() };
        assert(table@ =~= Seq::<SessionView>::empty());
        table
    }

    /// The number of sessions that were opened.
    pub fn len(&self) -> (n: usize)
        ensures
            n == self@.len(),
    {
        self.sessions.len()
    }

    /// Takes a session in and gives it the next free number.
    pub fn open(&mut self, session: TransferSession) -> (id: usize)
        requires
            old(self).wf(),
            session.wf(),
        ensures
            final(self).wf(),
            id == old(self)@.len(),
            final(self)@ == old(self)@.push(session@),
    {
        let id = self.sessions.len();
        self.sessions.push(session);
        assert(self@ =~= old(self)@.push(session@));
        id
    }

    /// Delivers an event to the session numbered `id` and says what the host
    /// is to do for it. No other session changes. A number that was never
    /// given out changes nothing and is answered with `None`.
    pub fn deliver(&mut self, id: usize, event: Event) -> (d: Option<Directive>)
        requires
            old(self).wf(),
        ensures
            final(self).wf(),
            final(self)@ == delivered(old(self)@, id as int, event),
            d == if id < old(self)@.len() {
                Some(react(old(self)@[id as int], event).1)
            } else {
                None
            },
    {
        if id < self.sessions.len() {
            let directive = self.sessions[id].step(event);
            assert(self@ =~= delivered(old(self)@, id as int, event));
            Some(directive)
        } else {
            None
        }
    }

    /// Asks the session numbered `id` to stop.
    pub fn cancel(&mut self, id: usize) -> (d: Option<Directive>)
        requires
            old(self).wf(),
        ensures
            final(self).wf(),
            final(self)@ == delivered(old(self)@, id as int, Event::CancelRequested),
            d == if id < old(self)@.len() {
                Some(react(old(self)@[id as int], Event::CancelRequested).1)
            } else {
                None
            },
    {
        self.deliver(id, Event::CancelRequested)
    }

    /// The step that the session numbered `id` is at.
    pub fn stage(&self, id: usize) -> (s: Option<Stage>)
        ensures
            s == if id < self@.len() {
                Some(self@[id as int].core.stage)
            } else {
                None
            },
    {
        if id < self.sessions.len() {
            Some(self.sessions[id].stage())
        } else {
            None
        }
    }

    /// The session numbered `id`.
    pub fn get(&self, id: usize) -> (s: Option<&TransferSession>)
        requires
            self.wf(),
        ensures
            match s {
                Some(session) => id < self@.len() && session@ == self@[id as int] && session.wf(),
                None => id >= self@.len(),
            },
    {
        if id < self.sessions.len() {
            Some(&self.sessions[id])
        } else {
            None
        }
    }
}

/// Two sessions do not interfere: an event for one leaves the other as it
/// was, the other's answer to its own events is what it would have been, and
/// events for the two can be delivered in either order.
pub proof fn lemma_sessions_do_not_interfere(
    table: Seq<SessionView>,
    a: int,
    for_a: Event,
    b: int,
    for_b: Event,
)
    requires
        0 <= a < table.len(),
        0 <= b < table.len(),
        a != b,
    ensures
        delivered(table, a, for_a)[b] == table[b],
        react(delivered(table, a, for_a)[b], for_b) == react(table[b], for_b),
        delivered(delivered(table, a, for_a), b, for_b) == delivered(
            delivered(table, b, for_b),
            a,
            for_a,
        ),
{
    assert(delivered(delivered(table, a, for_a), b, for_b) =~= delivered(
        delivered(table, b, for_b),
        a,
        for_a,
    ));
}

} // verus!
