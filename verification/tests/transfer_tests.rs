use wuwa_downloader::transfer::{
    classify_status, range_header_value, ChunkStep, TransferAttempt, TransferError,
};

#[test]
fn success_statuses_are_ok() {
    assert_eq!(classify_status(200), Ok(()));
    assert_eq!(classify_status(206), Ok(()));
    assert_eq!(classify_status(299), Ok(()));
}

#[test]
fn range_not_satisfiable_is_distinct() {
    assert_eq!(classify_status(416), Err(TransferError::RangeNotSatisfiable));
}

#[test]
fn other_statuses_are_http_errors() {
    assert_eq!(classify_status(500), Err(TransferError::HttpStatus(500)));
    assert_eq!(classify_status(404), Err(TransferError::HttpStatus(404)));
    assert_eq!(classify_status(301), Err(TransferError::HttpStatus(301)));
    assert_eq!(classify_status(199), Err(TransferError::HttpStatus(199)));
}

#[test]
fn range_header_resumes_at_offset() {
    assert_eq!(range_header_value(0), "bytes=0-");
    assert_eq!(range_header_value(12345), "bytes=12345-");
}

#[test]
fn attempt_resumes_from_existing_bytes() {
    let t = TransferAttempt::start(Some(42));
    assert_eq!(t.resume_offset, 42);
    assert_eq!(t.written, 0);
    let fresh = TransferAttempt::start(None);
    assert_eq!(fresh.resume_offset, 0);
}

#[test]
fn chunks_accumulate_after_the_resume_offset() {
    let mut t = TransferAttempt::start(Some(10));
    assert_eq!(t.on_chunk(4, false), ChunkStep::Continue);
    assert_eq!(t.on_chunk(6, false), ChunkStep::Continue);
    assert_eq!(t.resume_offset, 10);
    assert_eq!(t.written, 10);
}

#[test]
fn cancellation_stops_within_one_chunk() {
    let mut t = TransferAttempt::start(None);
    assert_eq!(t.on_chunk(256, false), ChunkStep::Continue);
    // The flag flips mid-stream: the very next chunk boundary aborts.
    assert_eq!(t.on_chunk(256, true), ChunkStep::CancelledStop);
    // The chunk that was already in flight is still accounted for.
    assert_eq!(t.written, 512);
}
