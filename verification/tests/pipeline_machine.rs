use tag_manager::errors::FailureKind;
use tag_manager::errors::FileDisposition;
use tag_manager::errors::ImageFetcherError;
use tag_manager::pipeline::UnitEvent;
use tag_manager::pipeline::UnitState;
use tag_manager::pool::WorkerPool;

#[test]
fn only_the_service_failure_is_transient() {
    assert!(FailureKind::ClassificationServiceError.is_transient());
    assert!(!FailureKind::DecodeFailure.is_transient());
    assert!(!FailureKind::PersistenceFailure.is_transient());
    assert!(!FailureKind::RelocationFailure.is_transient());
    assert!(!FailureKind::ThumbnailFailure.is_transient());
}

#[test]
fn routing_discards_everything_but_the_transient_failure() {
    assert_eq!(
        FailureKind::ClassificationServiceError.disposition(),
        FileDisposition::LeaveInPlace
    );
    assert_eq!(FailureKind::DecodeFailure.disposition(), FileDisposition::Discard);
    assert_eq!(FailureKind::ThumbnailFailure.disposition(), FileDisposition::Discard);
}

#[test]
fn the_happy_path_runs_the_whole_chain() {
    let mut state = UnitState::Scanned;
    for event in [
        UnitEvent::DecodeSucceeded,
        UnitEvent::Fingerprinted,
        UnitEvent::FingerprintFresh,
        UnitEvent::ClassificationSucceeded,
        UnitEvent::PersistSucceeded,
        UnitEvent::RelocateSucceeded,
        UnitEvent::ThumbnailSucceeded,
    ] {
        assert!(!state.is_terminal());
        state = state.step(event);
    }
    assert_eq!(state, UnitState::Thumbnailed);
    assert!(state.is_terminal());
}

#[test]
fn a_known_fingerprint_ends_the_unit_as_duplicate() {
    let state = UnitState::Scanned
        .step(UnitEvent::DecodeSucceeded)
        .step(UnitEvent::Fingerprinted)
        .step(UnitEvent::FingerprintKnown);
    assert_eq!(state, UnitState::Duplicate);
    assert!(state.is_terminal());
}

#[test]
fn a_decode_failure_is_discarded() {
    let state = UnitState::Scanned.step(UnitEvent::DecodeFailed);
    assert_eq!(state, UnitState::Discarded(FailureKind::DecodeFailure));
}

#[test]
fn an_unreachable_service_leaves_the_file_in_place() {
    let state = UnitState::Scanned
        .step(UnitEvent::DecodeSucceeded)
        .step(UnitEvent::Fingerprinted)
        .step(UnitEvent::FingerprintFresh)
        .step(UnitEvent::ClassificationFailed);
    assert_eq!(
        state,
        UnitState::LeftInPlace(FailureKind::ClassificationServiceError)
    );
    assert!(state.is_terminal());
}

#[test]
fn fetcher_errors_carry_their_message() {
    let error = ImageFetcherError::new("connection refused".to_string());
    assert_eq!(error.message(), "connection refused");
}

#[test]
fn the_pool_never_admits_past_its_limit() {
    let mut pool = WorkerPool::new(3);
    assert!(pool.try_start());
    assert!(pool.try_start());
    assert!(pool.try_start());
    assert!(!pool.try_start());
    assert_eq!(pool.active, 3);
    assert_eq!(pool.peak, 3);
    pool.finish();
    assert!(pool.try_start());
    assert!(!pool.try_start());
    assert_eq!(pool.peak, 3);
    assert!(pool.peak <= pool.limit);
}

#[test]
fn the_pool_counts_down_to_idle() {
    let mut pool = WorkerPool::new(2);
    assert!(pool.idle());
    assert!(pool.try_start());
    assert!(!pool.idle());
    pool.finish();
    assert!(pool.idle());
}
