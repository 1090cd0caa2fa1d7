use statement_distribution::knowledge::KnowledgeStore;
use statement_distribution::primitives::{
    CandidateHash, Hash256, PeerId, StatementKind, ValidatorIndex,
};
use statement_distribution::requests::{RequestReason, RequestScheduler};

fn candidate(byte: u8) -> CandidateHash {
    CandidateHash(Hash256::repeat_byte(byte))
}

fn store_with(known: &[(u32, StatementKind)]) -> KnowledgeStore {
    let mut store = KnowledgeStore::new();
    store.track(candidate(1), vec![ValidatorIndex(0), ValidatorIndex(1)]);
    for (validator, kind) in known {
        store.record_local(candidate(1), ValidatorIndex(*validator), *kind);
    }
    store
}

#[test]
fn request_carries_the_local_mask() {
    let store = store_with(&[(1, StatementKind::Seconded)]);
    let mut scheduler = RequestScheduler::new();
    let request = scheduler
        .maybe_request(&store, candidate(1), PeerId(4), true, 100, RequestReason::GapFill)
        .unwrap();
    assert_eq!(request.candidate_hash, candidate(1));
    assert_eq!(request.mask, store.mask_for(candidate(1)).unwrap());
    assert_eq!(request.mask.bits(StatementKind::Seconded), vec![false, true]);
    assert_eq!(request.mask.bits(StatementKind::Valid), vec![false, false]);
    assert!(scheduler.is_outstanding(PeerId(4), candidate(1)));
    assert_eq!(scheduler.deadline_of(PeerId(4), candidate(1)), Some(100));
    assert_eq!(scheduler.deadline_of(PeerId(5), candidate(1)), None);
}

#[test]
fn second_request_is_not_made_while_one_is_outstanding() {
    let mut store = store_with(&[]);
    let mut scheduler = RequestScheduler::new();
    assert!(scheduler
        .maybe_request(&store, candidate(1), PeerId(4), true, 100, RequestReason::GapFill)
        .is_some());
    assert!(scheduler
        .maybe_request(&store, candidate(1), PeerId(4), true, 100, RequestReason::GapFill)
        .is_none());
    store.record_local(candidate(1), ValidatorIndex(0), StatementKind::Valid);
    assert!(scheduler
        .maybe_request(&store, candidate(1), PeerId(4), true, 200, RequestReason::ManifestCatchUp)
        .is_none());
    let held = scheduler.conclude(PeerId(4), candidate(1)).unwrap();
    assert_eq!(held.deadline, 100);
    assert_eq!(held.reason, RequestReason::GapFill);
    assert_eq!(held.mask.bits(StatementKind::Valid), vec![false, false]);
}

#[test]
fn requests_to_other_peers_and_for_other_candidates_are_made() {
    let mut store = store_with(&[]);
    store.track(candidate(2), vec![ValidatorIndex(5)]);
    let mut scheduler = RequestScheduler::new();
    assert!(scheduler
        .maybe_request(&store, candidate(1), PeerId(4), true, 1, RequestReason::GapFill)
        .is_some());
    assert!(scheduler
        .maybe_request(&store, candidate(1), PeerId(5), true, 1, RequestReason::GapFill)
        .is_some());
    assert!(scheduler
        .maybe_request(&store, candidate(2), PeerId(4), true, 1, RequestReason::ManifestCatchUp)
        .is_some());
    assert!(scheduler.is_outstanding(PeerId(4), candidate(1)));
    assert!(scheduler.is_outstanding(PeerId(5), candidate(1)));
    assert!(scheduler.is_outstanding(PeerId(4), candidate(2)));
    assert!(!scheduler.is_outstanding(PeerId(5), candidate(2)));
}

#[test]
fn no_request_without_the_relay_parent_in_view() {
    let store = store_with(&[]);
    let mut scheduler = RequestScheduler::new();
    assert!(scheduler
        .maybe_request(&store, candidate(1), PeerId(4), false, 1, RequestReason::GapFill)
        .is_none());
    assert!(!scheduler.is_outstanding(PeerId(4), candidate(1)));
}

#[test]
fn no_request_for_a_fully_known_candidate() {
    let store = store_with(&[
        (0, StatementKind::Seconded),
        (0, StatementKind::Valid),
        (1, StatementKind::Seconded),
        (1, StatementKind::Valid),
    ]);
    let mut scheduler = RequestScheduler::new();
    assert!(scheduler
        .maybe_request(&store, candidate(1), PeerId(4), true, 1, RequestReason::GapFill)
        .is_none());
    assert!(!scheduler.is_outstanding(PeerId(4), candidate(1)));
}

#[test]
fn no_request_for_an_untracked_candidate() {
    let store = store_with(&[]);
    let mut scheduler = RequestScheduler::new();
    assert!(scheduler
        .maybe_request(&store, candidate(9), PeerId(4), true, 1, RequestReason::GapFill)
        .is_none());
}

#[test]
fn timeout_frees_the_slot() {
    let store = store_with(&[]);
    let mut scheduler = RequestScheduler::new();
    scheduler.maybe_request(&store, candidate(1), PeerId(4), true, 1, RequestReason::GapFill);
    assert!(scheduler.time_out(PeerId(4), candidate(1)));
    assert!(!scheduler.time_out(PeerId(4), candidate(1)));
    assert!(!scheduler.is_outstanding(PeerId(4), candidate(1)));
    assert!(scheduler
        .maybe_request(&store, candidate(1), PeerId(4), true, 2, RequestReason::GapFill)
        .is_some());
}

#[test]
fn conclude_without_a_request_gives_nothing() {
    let mut scheduler = RequestScheduler::new();
    assert_eq!(scheduler.conclude(PeerId(4), candidate(1)), None);
}

#[test]
fn request_mask_is_a_snapshot() {
    let mut store = store_with(&[(0, StatementKind::Seconded)]);
    let mut scheduler = RequestScheduler::new();
    let request = scheduler
        .maybe_request(&store, candidate(1), PeerId(4), true, 1, RequestReason::GapFill)
        .unwrap();
    store.record_local(candidate(1), ValidatorIndex(1), StatementKind::Seconded);
    assert_eq!(request.mask.bits(StatementKind::Seconded), vec![true, false]);
    let held = scheduler.conclude(PeerId(4), candidate(1)).unwrap();
    assert_eq!(held.mask.bits(StatementKind::Seconded), vec![true, false]);
}
