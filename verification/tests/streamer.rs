use stork::signals::{CancelToken, ProgressEvent, ProgressLog};
use stork::streamer::{FileStreamer, StreamStep, TransferError, CHUNK_SIZE};

#[test]
fn chunk_size_is_within_the_usual_range() {
    assert!(CHUNK_SIZE >= 4096 && CHUNK_SIZE <= 65536);
    assert_eq!(CHUNK_SIZE, 16384);
}

#[test]
fn new_streamer_has_moved_nothing() {
    let s = FileStreamer::new(100);
    assert_eq!(s.bytes_moved(), 0);
    assert_eq!(s.bytes_total(), 100);
    assert_eq!(s.chunks_moved(), 0);
}

#[test]
fn next_names_a_full_chunk_then_the_rest() {
    let cancel = CancelToken::new();
    let mut s = FileStreamer::new(CHUNK_SIZE + 10);
    assert_eq!(s.next(&cancel), StreamStep::Move { len: CHUNK_SIZE });
    s.chunk_moved(CHUNK_SIZE).unwrap();
    assert_eq!(s.next(&cancel), StreamStep::Move { len: 10 });
    s.chunk_moved(10).unwrap();
    assert_eq!(s.next(&cancel), StreamStep::Finish);
}

#[test]
fn next_finishes_an_empty_file_at_once() {
    let s = FileStreamer::new(0);
    assert_eq!(s.next(&CancelToken::new()), StreamStep::Finish);
    assert_eq!(s.finish(), Ok(()));
    assert_eq!(s.chunks_left(), 0);
}

#[test]
fn next_stops_when_cancel_is_raised() {
    let mut cancel = CancelToken::new();
    assert!(!cancel.is_raised());
    cancel.raise();
    assert!(cancel.is_raised());
    cancel.raise();
    assert!(cancel.is_raised());
    let s = FileStreamer::new(100);
    assert_eq!(s.next(&cancel), StreamStep::Abort { error: TransferError::Cancelled });
    // also where nothing is left to move
    let done = FileStreamer::new(0);
    assert_eq!(done.next(&cancel), StreamStep::Abort { error: TransferError::Cancelled });
}

#[test]
fn chunk_moved_notifies_once_per_chunk() {
    let mut s = FileStreamer::new(100);
    assert_eq!(
        s.chunk_moved(40),
        Ok(Some(ProgressEvent { bytes_moved: 40, bytes_total: 100 }))
    );
    assert_eq!(
        s.chunk_moved(60),
        Ok(Some(ProgressEvent { bytes_moved: 100, bytes_total: 100 }))
    );
    assert_eq!(s.chunks_moved(), 2);
    assert_eq!(s.bytes_moved(), 100);
}

#[test]
fn empty_chunk_is_a_truncation_unless_complete() {
    let mut s = FileStreamer::new(100);
    s.chunk_moved(40).unwrap();
    assert_eq!(
        s.chunk_moved(0),
        Err(TransferError::TruncatedTransfer { moved: 40, expected: 100 })
    );
    assert_eq!(s.bytes_moved(), 40);
    s.chunk_moved(60).unwrap();
    assert_eq!(s.chunk_moved(0), Ok(None));
    assert_eq!(s.chunks_moved(), 2);
}

#[test]
fn chunk_beyond_the_declared_size_is_refused() {
    let mut s = FileStreamer::new(100);
    s.chunk_moved(90).unwrap();
    assert_eq!(
        s.chunk_moved(11),
        Err(TransferError::ExcessData { moved: 90, chunk: 11, expected: 100 })
    );
    assert_eq!(s.bytes_moved(), 90);
    assert_eq!(s.chunks_moved(), 1);
}

#[test]
fn advance_to_books_cumulative_reports() {
    let mut s = FileStreamer::new(100);
    assert_eq!(s.advance_to(0), Ok(None));
    assert_eq!(
        s.advance_to(30),
        Ok(Some(ProgressEvent { bytes_moved: 30, bytes_total: 100 }))
    );
    assert_eq!(s.advance_to(30), Ok(None));
    assert_eq!(s.chunks_moved(), 1);
    assert_eq!(
        s.advance_to(20),
        Err(TransferError::Regressed { moved: 30, reported: 20 })
    );
    assert_eq!(
        s.advance_to(101),
        Err(TransferError::ExcessData { moved: 30, chunk: 71, expected: 100 })
    );
    assert_eq!(s.bytes_moved(), 30);
    assert_eq!(
        s.advance_to(100),
        Ok(Some(ProgressEvent { bytes_moved: 100, bytes_total: 100 }))
    );
}

#[test]
fn finish_wants_the_exact_size() {
    let mut s = FileStreamer::new(100);
    assert_eq!(
        s.finish(),
        Err(TransferError::TruncatedTransfer { moved: 0, expected: 100 })
    );
    s.chunk_moved(99).unwrap();
    assert_eq!(
        s.finish(),
        Err(TransferError::TruncatedTransfer { moved: 99, expected: 100 })
    );
    s.chunk_moved(1).unwrap();
    assert_eq!(s.finish(), Ok(()));
}

#[test]
fn chunks_left_rounds_up() {
    assert_eq!(FileStreamer::new(1).chunks_left(), 1);
    assert_eq!(FileStreamer::new(CHUNK_SIZE).chunks_left(), 1);
    assert_eq!(FileStreamer::new(CHUNK_SIZE + 1).chunks_left(), 2);
    assert_eq!(FileStreamer::new(10 * 1024 * 1024).chunks_left(), 640);
    assert_eq!(FileStreamer::new(u64::MAX).chunks_left(), u64::MAX / CHUNK_SIZE + 1);
}

#[test]
fn following_next_finishes_after_chunks_left() {
    let cancel = CancelToken::new();
    let mut s = FileStreamer::new(5 * CHUNK_SIZE + 123);
    let expected = s.chunks_left();
    let mut log = ProgressLog::new();
    loop {
        match s.next(&cancel) {
            StreamStep::Move { len } => {
                let before = s.chunks_left();
                let event = s.chunk_moved(len).unwrap().unwrap();
                log.record(event);
                assert_eq!(s.chunks_left() + 1, before);
            }
            StreamStep::Finish => break,
            StreamStep::Abort { error } => panic!("{:?}", error),
        }
    }
    assert_eq!(s.chunks_moved(), expected);
    assert_eq!(expected, 6);
    assert_eq!(log.len(), 6);
    assert_eq!(
        log.last(),
        Some(ProgressEvent { bytes_moved: 5 * CHUNK_SIZE + 123, bytes_total: 5 * CHUNK_SIZE + 123 })
    );
    assert_eq!(s.finish(), Ok(()));
}

#[test]
fn progress_log_keeps_what_it_was_given() {
    let mut log = ProgressLog::new();
    assert_eq!(log.len(), 0);
    assert_eq!(log.last(), None);
    log.record(ProgressEvent { bytes_moved: 1, bytes_total: 2 });
    log.record(ProgressEvent { bytes_moved: 2, bytes_total: 2 });
    assert_eq!(log.len(), 2);
    assert_eq!(log.last(), Some(ProgressEvent { bytes_moved: 2, bytes_total: 2 }));
}
