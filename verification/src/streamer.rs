//! The book-keeping of one file crossing the stream in chunks.

use vstd::prelude::*;
use crate::signals::{CancelToken, ProgressEvent};

verus! {

/// The most bytes one chunk holds.
pub const CHUNK_SIZE: u64 = 16384;

/// Why a stream ended without the whole file.
#[derive(Clone, Copy, Debug, PartialEq, Eq, Structural)]
pub enum TransferError {
    /// The host asked to stop.
    Cancelled,
    /// The stream closed after `moved` bytes, short of the `expected` ones.
    TruncatedTransfer { moved: u64, expected: u64 },
    /// A chunk of `chunk` bytes arrived when only `expected - moved` were left.
    ExcessData { moved: u64, chunk: u64, expected: u64 },
    /// A progress report claimed fewer bytes than an earlier one.
    Regressed { moved: u64, reported: u64 },
}

/// What the streamer does next.
#[derive(Clone, Copy, Debug, PartialEq, Eq, Structural)]
pub enum StreamStep {
    /// Move one chunk of at most `len` bytes.
    Move { len: u64 },
    /// Every byte has crossed.
    Finish,
    /// Stop here.
    Abort { error: TransferError },
}

/// The bytes a chunk that starts after `moved` of `total` bytes may hold.
pub open spec fn chunk_len(moved: nat, total: nat) -> nat {
    if total - moved < CHUNK_SIZE {
        (total - moved) as nat
    } else {
        CHUNK_SIZE as nat
    }
}

/// The chunks that `bytes` bytes take when each chunk is as full as it may be.
pub open spec fn chunks_needed(bytes: nat) -> nat {
    ((bytes + CHUNK_SIZE - 1) / (CHUNK_SIZE as int)) as nat
}

/// Counts the bytes and chunks of one file against the size its offer declared.
#[derive(Clone, Copy, Debug, PartialEq, Eq, Structural)]
pub struct FileStreamer {
    /// Bytes that have crossed.
    pub moved: u64,
    /// Bytes the offer declared.
    pub total: u64,
    /// Chunks that have crossed.
    pub chunks: u64,
}

impl FileStreamer {
    /// Never more bytes than declared, never more chunks than bytes.
    pub open spec fn wf(&self) -> bool {
        self.chunks <= self.moved <= self.total
    }

    /// The whole file has crossed.
    pub open spec fn complete(&self) -> bool {
        self.moved == self.total
    }

    /// A streamer for a file declared to hold `total` bytes.
    pub fn new(total: u64) -> (s: FileStreamer)
        ensures
            s.wf(),
            s == (FileStreamer { moved: 0, total, chunks: 0 }),
    {
        FileStreamer { moved: 0, total, chunks: 0 }
    }

    pub fn bytes_moved(&self) -> (n: u64)
        ensures
            n == self.moved,
    {
        self.moved
    }

    pub fn bytes_total(&self) -> (n: u64)
        ensures
            n == self.total,
    {
        self.total
    }

    pub fn chunks_moved(&self) -> (n: u64)
        ensures
            n == self.chunks,
    {
        self.chunks
    }

    /// The chunks still to come when each is as full as it may be.
    pub fn chunks_left(&self) -> (n: u64)
        requires
            self.wf(),
        ensures
            n == chunks_needed((self.total - self.moved) as nat),
    {
        let left: u64 = self.total - self.moved;
        if left % CHUNK_SIZE == 0 {
            left / CHUNK_SIZE
        } else {
            left / CHUNK_SIZE + 1
        }
    }

    /// What to do between two chunks: stop if the host asked to, finish if
    /// nothing is left, else move the next chunk.
    pub fn next(&self, cancel: &CancelToken) -> (step: StreamStep)
        requires
            self.wf(),
        ensures
            step == if cancel.raised() {
                StreamStep::Abort { error: TransferError::Cancelled }
            } else if self.complete() {
                StreamStep::Finish
            } else {
                StreamStep::Move { len: chunk_len(self.moved as nat, self.total as nat) as u64 }
            },
    {
        if cancel.is_raised() {
            StreamStep::Abort { error: TransferError::Cancelled }
        } else if self.moved == self.total {
            StreamStep::Finish
        } else {
            let left: u64 = self.total - self.moved;
            let len: u64 = if left < CHUNK_SIZE { left } else { CHUNK_SIZE };
            StreamStep::Move { len }
        }
    }

    /// Books one chunk of `len` bytes and gives the one notification it is
    /// owed. An empty chunk is what a closed stream yields: it is booked as
    /// nothing, and is a truncation unless the file is complete.
    pub fn chunk_moved(&mut self, len: u64) -> (r: Result<Option<ProgressEvent>, TransferError>)
        requires
            old(self).wf(),
        ensures
            final(self).wf(),
            final(self).total == old(self).total,
            match r {
                Ok(Some(event)) => {
                    &&& 0 < len <= old(self).total - old(self).moved
                    &&& final(self).moved == old(self).moved + len
                    &&& final(self).chunks == old(self).chunks + 1
                    &&& event == (ProgressEvent {
                        bytes_moved: (old(self).moved + len) as u64,
                        bytes_total: old(self).total,
                    })
                },
                Ok(None) => len == 0 && old(self).complete() && *final(self) == *old(self),
                Err(error) => {
                    &&& *final(self) == *old(self)
                    &&& error == if len == 0 {
                        TransferError::TruncatedTransfer {
                            moved: old(self).moved,
                            expected: old(self).total,
                        }
                    } else {
                        TransferError::ExcessData {
                            moved: old(self).moved,
                            chunk: len,
                            expected: old(self).total,
                        }
                    }
                    &&& if len == 0 {
                        !old(self).complete()
                    } else {
                        len > old(self).total - old(self).moved
                    }
                },
            },
    {
        if len == 0 {
            if self.moved == self.total {
                Ok(None)
            } else {
                Err(TransferError::TruncatedTransfer { moved: self.moved, expected: self.total })
            }
        } else if len > self.total - self.moved {
            Err(TransferError::ExcessData { moved: self.moved, chunk: len, expected: self.total })
        } else {
            self.moved = self.moved + len;
            self.chunks = self.chunks + 1;
            Ok(Some(ProgressEvent { bytes_moved: self.moved, bytes_total: self.total }))
        }
    }

    /// What a report that `reported` bytes have crossed in all is answered
    /// with: a notification where bytes were added, nothing where the count
    /// repeats, an error where it fell or passed the declared size.
    pub open spec fn report_result(self, reported: u64) -> Result<
        Option<ProgressEvent>,
        TransferError,
    > {
        if reported < self.moved {
            Err(TransferError::Regressed { moved: self.moved, reported })
        } else if reported == self.moved {
            Ok(None)
        } else if reported > self.total {
            Err(
                TransferError::ExcessData {
                    moved: self.moved,
                    chunk: (reported - self.moved) as u64,
                    expected: self.total,
                },
            )
        } else {
            Ok(Some(ProgressEvent { bytes_moved: reported, bytes_total: self.total }))
        }
    }

    /// The streamer after such a report: one chunk further where bytes were
    /// added, else as before.
    pub open spec fn report_state(self, reported: u64) -> FileStreamer {
        if self.moved < reported <= self.total {
            FileStreamer { moved: reported, total: self.total, chunks: (self.chunks + 1) as u64 }
        } else {
            self
        }
    }

    /// The verdict on a stream that has closed.
    pub open spec fn verdict(self) -> Result<(), TransferError> {
        if self.complete() {
            Ok(())
        } else {
            Err(TransferError::TruncatedTransfer { moved: self.moved, expected: self.total })
        }
    }

    /// Books a report that `reported` bytes have crossed in all. A report that
    /// repeats the last count moves no chunk and is owed no notification.
    pub fn advance_to(&mut self, reported: u64) -> (r: Result<Option<ProgressEvent>, TransferError>)
        requires
            old(self).wf(),
        ensures
            final(self).wf(),
            r == old(self).report_result(reported),
            *final(self) == old(self).report_state(reported),
    {
        if reported < self.moved {
            Err(TransferError::Regressed { moved: self.moved, reported })
        } else if reported == self.moved {
            Ok(None)
        } else {
            self.chunk_moved(reported - self.moved)
        }
    }

    /// The verdict when the stream has closed: the byte count must equal the
    /// declared size exactly.
    pub fn finish(&self) -> (r: Result<(), TransferError>)
        requires
            self.wf(),
        ensures
            r == self.verdict(),
    {
        if self.moved == self.total {
            Ok(())
        } else {
            Err(TransferError::TruncatedTransfer { moved: self.moved, expected: self.total })
        }
    }
}

/// A chunk of the length that `next` names brings the end one chunk nearer,
/// so a stream that moves such chunks finishes after `chunks_needed` of them.
pub proof fn lemma_chunk_counts_down(s: FileStreamer)
    requires
        s.wf(),
        !s.complete(),
    ensures
        0 < chunk_len(s.moved as nat, s.total as nat) <= s.total - s.moved,
        chunks_needed((s.total - s.moved - chunk_len(s.moved as nat, s.total as nat)) as nat) + 1
            == chunks_needed((s.total - s.moved) as nat),
        chunks_needed(0) == 0,
{
}

} // verus!
