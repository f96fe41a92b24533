use wuwa_downloader::controller::{Action, ActionKind, Controller, Event, FileOutcome};
use wuwa_downloader::transfer::TransferError;

fn probe(mirror: u64) -> ActionKind {
    ActionKind::ProbeMirror { mirror }
}

fn transfer(mirror: u64) -> ActionKind {
    ActionKind::Transfer { mirror }
}

#[test]
fn entry_cancellation_fails_without_network() {
    let (c, a) = Controller::start(3, true, true);
    assert_eq!(a.kind, ActionKind::Finish { outcome: FileOutcome::Cancelled });
    assert!(!a.delete_partial);
    assert_eq!(c.outcome, Some(FileOutcome::Cancelled));
}

#[test]
fn cancel_error_mid_transfer_aborts_the_file() {
    let (mut c, a) = Controller::start(2, false, false);
    assert_eq!(a.kind, ActionKind::ProbeSize);
    let a = c.step(false, Event::GlobalSize { size: None });
    assert_eq!(a.kind, probe(0));
    let a = c.step(false, Event::MirrorProbed { reachable: true, size: None });
    assert_eq!(a.kind, transfer(0));
    let a = c.step(false, Event::TransferFinished { result: Err(TransferError::Cancelled) });
    assert_eq!(a.kind, ActionKind::Finish { outcome: FileOutcome::Cancelled });
    assert_eq!(c.outcome, Some(FileOutcome::Cancelled));
}

#[test]
fn flag_sampled_after_failure_aborts_the_file() {
    let (mut c, _) = Controller::start(2, false, false);
    c.step(false, Event::GlobalSize { size: None });
    c.step(false, Event::MirrorProbed { reachable: true, size: None });
    // A network failure while the stop flag is set: no retry, no next mirror.
    let a = c.step(true, Event::TransferFinished { result: Err(TransferError::Network) });
    assert_eq!(a.kind, ActionKind::Finish { outcome: FileOutcome::Cancelled });
}

#[test]
fn precheck_short_circuits_without_any_transfer() {
    // One file with a known hash; the mirror reports length 0 and a
    // zero-byte local file is already valid: success with no transfer.
    let (mut c, a) = Controller::start(1, true, false);
    assert_eq!(a.kind, ActionKind::ProbeSize);
    let a = c.step(false, Event::GlobalSize { size: Some(0) });
    assert_eq!(a.kind, ActionKind::CheckLocal { expected_size: 0 });
    let a = c.step(false, Event::LocalValid { valid: true });
    assert_eq!(a.kind, ActionKind::Finish { outcome: FileOutcome::Success });
    assert_eq!(c.outcome, Some(FileOutcome::Success));
}

#[test]
fn empty_file_downloads_zero_bytes_and_verifies() {
    // The same manifest entry without a pre-existing local file: the body
    // is empty, the transfer succeeds at once and the hash matches.
    let (mut c, _) = Controller::start(1, true, false);
    let a = c.step(false, Event::GlobalSize { size: Some(0) });
    assert_eq!(a.kind, ActionKind::CheckLocal { expected_size: 0 });
    let a = c.step(false, Event::LocalValid { valid: false });
    assert_eq!(a.kind, probe(0));
    let a = c.step(false, Event::MirrorProbed { reachable: true, size: Some(0) });
    assert_eq!(a.kind, ActionKind::CheckLocal { expected_size: 0 });
    let a = c.step(false, Event::LocalValid { valid: false });
    assert_eq!(a.kind, transfer(0));
    let a = c.step(false, Event::TransferFinished { result: Ok(()) });
    assert_eq!(a.kind, ActionKind::VerifyFile { expected_size: Some(0) });
    let a = c.step(false, Event::LocalValid { valid: true });
    assert_eq!(a.kind, ActionKind::Finish { outcome: FileOutcome::Success });
}

#[test]
fn http_500_thrice_then_second_mirror_succeeds() {
    // Mirror 1 answers HTTP 500 on every GET; mirror 2 delivers correct
    // bytes with a matching hash. Exactly three failures on mirror 1.
    let (mut c, _) = Controller::start(2, true, false);
    let a = c.step(false, Event::GlobalSize { size: Some(100) });
    assert_eq!(a.kind, ActionKind::CheckLocal { expected_size: 100 });
    let a = c.step(false, Event::LocalValid { valid: false });
    assert_eq!(a.kind, probe(0));
    let a = c.step(false, Event::MirrorProbed { reachable: true, size: Some(100) });
    assert_eq!(a.kind, ActionKind::CheckLocal { expected_size: 100 });
    let a = c.step(false, Event::LocalValid { valid: false });
    assert_eq!(a, Action { delete_partial: false, add_expected: None, kind: transfer(0) });

    let failed = Event::TransferFinished { result: Err(TransferError::HttpStatus(500)) };
    let a = c.step(false, failed);
    assert_eq!(a, Action { delete_partial: true, add_expected: None, kind: transfer(0) });
    let a = c.step(false, failed);
    assert_eq!(a, Action { delete_partial: true, add_expected: None, kind: transfer(0) });
    // Third failure exhausts mirror 1's budget: fall over to mirror 2.
    let a = c.step(false, failed);
    assert_eq!(a, Action { delete_partial: true, add_expected: None, kind: probe(1) });

    let a = c.step(false, Event::MirrorProbed { reachable: true, size: Some(100) });
    assert_eq!(a.kind, ActionKind::CheckLocal { expected_size: 100 });
    let a = c.step(false, Event::LocalValid { valid: false });
    assert_eq!(a.kind, transfer(1));
    let a = c.step(false, Event::TransferFinished { result: Ok(()) });
    assert_eq!(a.kind, ActionKind::VerifyFile { expected_size: Some(100) });
    let a = c.step(false, Event::LocalValid { valid: true });
    assert_eq!(a.kind, ActionKind::Finish { outcome: FileOutcome::Success });
    assert_eq!(c.outcome, Some(FileOutcome::Success));
}

#[test]
fn hash_mismatch_deletes_and_exhausts_the_only_mirror() {
    // A fully successful byte transfer whose hash does not match: the file
    // is deleted and the mirror is not retried; with no mirror left the
    // file fails.
    let (mut c, _) = Controller::start(1, true, false);
    let a = c.step(false, Event::GlobalSize { size: None });
    assert_eq!(a.kind, probe(0));
    let a = c.step(false, Event::MirrorProbed { reachable: true, size: Some(10) });
    assert_eq!(a.kind, ActionKind::CheckLocal { expected_size: 10 });
    let a = c.step(false, Event::LocalValid { valid: false });
    assert_eq!(a.kind, transfer(0));
    let a = c.step(false, Event::TransferFinished { result: Ok(()) });
    assert_eq!(a.kind, ActionKind::VerifyFile { expected_size: Some(10) });
    let a = c.step(false, Event::LocalValid { valid: false });
    // One verification failure exhausts the mirror at once: the file is
    // deleted and the next action is not another transfer on mirror 0.
    assert!(a.delete_partial);
    assert_eq!(a.kind, ActionKind::Finish { outcome: FileOutcome::AllMirrorsFailed });
    assert_eq!(c.outcome, Some(FileOutcome::AllMirrorsFailed));
}

#[test]
fn unreachable_mirror_falls_over_without_a_transfer() {
    let (mut c, _) = Controller::start(2, false, false);
    c.step(false, Event::GlobalSize { size: None });
    let a = c.step(false, Event::MirrorProbed { reachable: false, size: None });
    assert_eq!(a.kind, probe(1));
    let a = c.step(false, Event::MirrorProbed { reachable: true, size: None });
    assert_eq!(a.kind, transfer(1));
    let a = c.step(false, Event::TransferFinished { result: Ok(()) });
    assert_eq!(a.kind, ActionKind::Finish { outcome: FileOutcome::Success });
}

#[test]
fn per_mirror_size_wins_over_global() {
    let (mut c, _) = Controller::start(1, true, false);
    c.step(false, Event::GlobalSize { size: Some(100) });
    c.step(false, Event::LocalValid { valid: false });
    // This mirror reports its own, different size: the pre-check uses it.
    let a = c.step(false, Event::MirrorProbed { reachable: true, size: Some(64) });
    assert_eq!(a.kind, ActionKind::CheckLocal { expected_size: 64 });
}

#[test]
fn three_mirrors_two_failing_bounded_retries() {
    // The concrete walk of the proved failover law: with the first two of
    // three mirrors always failing, each failing mirror sees exactly
    // MAX_RETRIES transfer attempts and the last mirror succeeds.
    let (mut c, _) = Controller::start(3, false, false);
    c.step(false, Event::GlobalSize { size: None });
    let mut transfers = [0u64; 3];
    let mut pending = c.step(false, Event::MirrorProbed { reachable: true, size: None });
    loop {
        match pending.kind {
            ActionKind::Transfer { mirror } => {
                transfers[mirror as usize] += 1;
                let result = if mirror < 2 { Err(TransferError::Network) } else { Ok(()) };
                pending = c.step(false, Event::TransferFinished { result });
            }
            ActionKind::ProbeMirror { .. } => {
                pending = c.step(false, Event::MirrorProbed { reachable: true, size: None });
            }
            ActionKind::Finish { outcome } => {
                assert_eq!(outcome, FileOutcome::Success);
                break;
            }
            other => panic!("unexpected action {:?}", other),
        }
    }
    assert_eq!(transfers, [3, 3, 1]);
}

#[test]
fn completed_transfer_with_flag_set_is_cancelled() {
    // The flag flips in the instant the body finishes: still cancelled.
    let (mut c, _) = Controller::start(1, false, false);
    c.step(false, Event::GlobalSize { size: None });
    c.step(false, Event::MirrorProbed { reachable: true, size: None });
    let a = c.step(true, Event::TransferFinished { result: Ok(()) });
    assert_eq!(a.kind, ActionKind::Finish { outcome: FileOutcome::Cancelled });
    assert_eq!(c.outcome, Some(FileOutcome::Cancelled));
}

#[test]
fn verification_answered_with_flag_set_is_cancelled() {
    let (mut c, _) = Controller::start(1, true, false);
    c.step(false, Event::GlobalSize { size: None });
    c.step(false, Event::MirrorProbed { reachable: true, size: Some(10) });
    c.step(false, Event::LocalValid { valid: false });
    c.step(false, Event::TransferFinished { result: Ok(()) });
    let a = c.step(true, Event::LocalValid { valid: true });
    assert_eq!(a.kind, ActionKind::Finish { outcome: FileOutcome::Cancelled });
}

#[test]
fn size_discovered_globally_is_added_once() {
    let (mut c, _) = Controller::start(2, false, false);
    let a = c.step(false, Event::GlobalSize { size: Some(70) });
    assert_eq!(a.add_expected, Some(70));
    // The per-mirror probe repeats a size: nothing is added again.
    let a = c.step(false, Event::MirrorProbed { reachable: true, size: Some(70) });
    assert_eq!(a.add_expected, None);
}

#[test]
fn size_discovered_late_is_still_added() {
    // No mirror answers the global probe; the size turns up only during
    // per-mirror probing and is added to the total exactly once.
    let (mut c, _) = Controller::start(2, false, false);
    let a = c.step(false, Event::GlobalSize { size: None });
    assert_eq!(a.add_expected, None);
    let a = c.step(false, Event::MirrorProbed { reachable: false, size: None });
    assert_eq!(a.add_expected, None);
    let a = c.step(false, Event::MirrorProbed { reachable: true, size: Some(42) });
    assert_eq!(a.add_expected, Some(42));
    assert_eq!(a.kind, transfer(1));
}

#[test]
fn verification_without_a_known_size_checks_hash_alone() {
    let (mut c, _) = Controller::start(1, true, false);
    c.step(false, Event::GlobalSize { size: None });
    let a = c.step(false, Event::MirrorProbed { reachable: true, size: None });
    // No size anywhere: no pre-check is possible, transfer begins at once.
    assert_eq!(a.kind, transfer(0));
    let a = c.step(false, Event::TransferFinished { result: Ok(()) });
    assert_eq!(a.kind, ActionKind::VerifyFile { expected_size: None });
}
