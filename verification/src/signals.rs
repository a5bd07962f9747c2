//! What a session tells its host while it runs, and what the host may tell it.

use vstd::prelude::*;

verus! {

/// One progress notification: how much of the file has crossed so far.
#[derive(Clone, Copy, Debug, PartialEq, Eq, Structural)]
pub struct ProgressEvent {
    pub bytes_moved: u64,
    pub bytes_total: u64,
}

/// A request to stop a session. Once raised it stays raised.
#[derive(Clone, Copy, Debug, PartialEq, Eq, Structural)]
pub struct CancelToken {
    raised: bool,
}

impl CancelToken {
    pub closed spec fn raised(&self) -> bool {
        self.raised
    }

    /// A token that nobody has raised.
    pub fn new() -> (t: CancelToken)
        ensures
            !t.raised(),
    {
        CancelToken { raised: false }
    }

    /// Asks for the session to stop.
    pub fn raise(&mut self)
        ensures
            final(self).raised(),
    {
        self.raised = true;
    }

    #[verifier::when_used_as_spec(raised)]
    pub fn is_raised(&self) -> (b: bool)
        ensures
            b == self.raised(),
    {
        self.raised
    }
}

/// A sink that keeps every notification it was given, in order.
pub struct ProgressLog {
    events: Vec<ProgressEvent>,
}

impl View for ProgressLog {
    type V = Seq<ProgressEvent>;

    closed spec fn view(&self) -> Seq<ProgressEvent> {
        self.events@
    }
}

impl ProgressLog {
    pub fn new() -> (log: ProgressLog)
        ensures
            log@ == Seq::<ProgressEvent>::empty(),
    {
        ProgressLog { events: Vec::new() }
    }

    /// Appends one notification.
    pub fn record(&mut self, event: ProgressEvent)
        ensures
            final(self)@ == old(self)@.push(event),
    {
        self.events.push(event);
    }

    pub fn len(&self) -> (n: usize)
        ensures
            n == self@.len(),
    {
        self.events.len()
    }

    /// The latest notification, if there was one.
    pub fn last(&self) -> (e: Option<ProgressEvent>)
        ensures
            e == if self@.len() == 0 { None } else { Some(self@.last()) },
    {
        let n = self.events.len();
        if n == 0 {
            None
        } else {
            Some(self.events[n - 1])
        }
    }
}

} // verus!
