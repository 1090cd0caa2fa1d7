use statement_distribution::filter::StatementFilter;
use statement_distribution::knowledge::{CandidateState, KnowledgeStore};
use statement_distribution::primitives::{
    CandidateHash, Hash256, PeerId, StatementKind, ValidatorIndex,
};

fn candidate(byte: u8) -> CandidateHash {
    CandidateHash(Hash256::repeat_byte(byte))
}

fn group() -> Vec<ValidatorIndex> {
    vec![ValidatorIndex(7), ValidatorIndex(3), ValidatorIndex(11)]
}

#[test]
fn repeat_byte_fills_the_digest() {
    assert_eq!(Hash256::repeat_byte(42).0, [42u8; 32]);
    assert_ne!(Hash256::repeat_byte(1), Hash256::repeat_byte(2));
    let mut almost = [5u8; 32];
    almost[31] = 6;
    assert_ne!(Hash256(almost), Hash256::repeat_byte(5));
}

#[test]
fn blank_mask_marks_nothing() {
    let mask = StatementFilter::blank(3);
    assert_eq!(mask.group_size(), 3);
    assert_eq!(mask.bits(StatementKind::Seconded), vec![false, false, false]);
    assert_eq!(mask.bits(StatementKind::Valid), vec![false, false, false]);
    assert!(!mask.is_complete());
    assert!(StatementFilter::blank(0).is_complete());
}

#[test]
fn mask_set_marks_one_statement() {
    let mut mask = StatementFilter::blank(2);
    assert!(mask.set(1, StatementKind::Valid));
    assert!(!mask.set(1, StatementKind::Valid));
    assert!(!mask.set(2, StatementKind::Valid));
    assert!(mask.contains(1, StatementKind::Valid));
    assert!(!mask.contains(1, StatementKind::Seconded));
    assert!(!mask.contains(0, StatementKind::Valid));
    assert!(!mask.contains(2, StatementKind::Valid));
    assert_eq!(mask.bits(StatementKind::Valid), vec![false, true]);
    assert_eq!(mask.bits(StatementKind::Seconded), vec![false, false]);
}

#[test]
fn mask_is_complete_when_every_bit_is_set() {
    let mut mask = StatementFilter::blank(2);
    mask.set(0, StatementKind::Seconded);
    mask.set(0, StatementKind::Valid);
    mask.set(1, StatementKind::Seconded);
    assert!(!mask.is_complete());
    mask.set(1, StatementKind::Valid);
    assert!(mask.is_complete());
}

#[test]
fn track_takes_a_candidate_once() {
    let mut store = KnowledgeStore::new();
    assert!(!store.is_tracked(candidate(1)));
    assert!(store.track(candidate(1), group()));
    assert!(store.is_tracked(candidate(1)));
    assert!(!store.track(candidate(1), vec![ValidatorIndex(0)]));
    assert_eq!(store.group_of(candidate(1)), Some(group()));
    assert_eq!(store.group_of(candidate(2)), None);
}

#[test]
fn track_refuses_a_group_with_a_repeated_validator() {
    let mut store = KnowledgeStore::new();
    assert!(!store.track(candidate(1), vec![ValidatorIndex(1), ValidatorIndex(2), ValidatorIndex(1)]));
    assert!(!store.is_tracked(candidate(1)));
    assert_eq!(store.mask_for(candidate(1)), None);
}

#[test]
fn record_local_sets_the_bit_of_the_position_in_the_group() {
    let mut store = KnowledgeStore::new();
    store.track(candidate(1), group());
    assert!(store.record_local(candidate(1), ValidatorIndex(3), StatementKind::Seconded));
    let mask = store.mask_for(candidate(1)).unwrap();
    assert_eq!(mask.bits(StatementKind::Seconded), vec![false, true, false]);
    assert_eq!(mask.bits(StatementKind::Valid), vec![false, false, false]);
    assert!(store.is_known_locally(candidate(1), ValidatorIndex(3), StatementKind::Seconded));
    assert!(!store.is_known_locally(candidate(1), ValidatorIndex(3), StatementKind::Valid));
    assert!(!store.is_known_locally(candidate(1), ValidatorIndex(7), StatementKind::Seconded));
}

#[test]
fn recording_twice_is_recording_once() {
    let mut once = KnowledgeStore::new();
    once.track(candidate(1), group());
    once.record_local(candidate(1), ValidatorIndex(11), StatementKind::Valid);

    let mut thrice = KnowledgeStore::new();
    thrice.track(candidate(1), group());
    assert!(thrice.record_local(candidate(1), ValidatorIndex(11), StatementKind::Valid));
    assert!(!thrice.record_local(candidate(1), ValidatorIndex(11), StatementKind::Valid));
    assert!(!thrice.record_local(candidate(1), ValidatorIndex(11), StatementKind::Valid));

    assert_eq!(once.mask_for(candidate(1)), thrice.mask_for(candidate(1)));
    assert_eq!(
        thrice.mask_for(candidate(1)).unwrap().bits(StatementKind::Valid),
        vec![false, false, true]
    );
}

#[test]
fn recording_for_a_peer_twice_is_recording_once() {
    let mut store = KnowledgeStore::new();
    store.track(candidate(1), group());
    assert!(store.record_peer(PeerId(9), candidate(1), ValidatorIndex(7), StatementKind::Seconded));
    assert!(!store.record_peer(PeerId(9), candidate(1), ValidatorIndex(7), StatementKind::Seconded));
    assert!(store.is_known_by_peer(PeerId(9), candidate(1), ValidatorIndex(7), StatementKind::Seconded));
    assert!(!store.is_known_by_peer(PeerId(8), candidate(1), ValidatorIndex(7), StatementKind::Seconded));
    assert!(!store.is_known_by_peer(PeerId(9), candidate(1), ValidatorIndex(7), StatementKind::Valid));
    assert!(!store.is_known_by_peer(PeerId(9), candidate(2), ValidatorIndex(7), StatementKind::Seconded));
}

#[test]
fn peer_knowledge_leaves_the_local_mask_alone() {
    let mut store = KnowledgeStore::new();
    store.track(candidate(1), group());
    store.record_peer(PeerId(9), candidate(1), ValidatorIndex(7), StatementKind::Seconded);
    assert_eq!(store.mask_for(candidate(1)), Some(StatementFilter::blank(3)));
    assert!(!store.is_known_locally(candidate(1), ValidatorIndex(7), StatementKind::Seconded));
}

#[test]
fn recording_outside_the_group_changes_nothing() {
    let mut store = KnowledgeStore::new();
    store.track(candidate(1), group());
    assert!(!store.record_local(candidate(1), ValidatorIndex(4), StatementKind::Seconded));
    assert!(!store.record_peer(PeerId(1), candidate(1), ValidatorIndex(4), StatementKind::Seconded));
    assert_eq!(store.mask_for(candidate(1)), Some(StatementFilter::blank(3)));
    assert_eq!(store.state_of(candidate(1)), CandidateState::Unknown);
}

#[test]
fn recording_for_an_untracked_candidate_changes_nothing() {
    let mut store = KnowledgeStore::new();
    assert!(!store.record_local(candidate(1), ValidatorIndex(7), StatementKind::Seconded));
    assert!(!store.record_peer(PeerId(1), candidate(1), ValidatorIndex(7), StatementKind::Seconded));
    assert!(!store.is_tracked(candidate(1)));
    assert_eq!(store.mask_for(candidate(1)), None);
}

#[test]
fn mask_bits_never_decrease() {
    let mut store = KnowledgeStore::new();
    store.track(candidate(1), group());
    let steps = [
        (ValidatorIndex(7), StatementKind::Seconded),
        (ValidatorIndex(11), StatementKind::Valid),
        (ValidatorIndex(7), StatementKind::Seconded),
        (ValidatorIndex(5), StatementKind::Valid),
        (ValidatorIndex(3), StatementKind::Valid),
    ];
    let mut before = store.mask_for(candidate(1)).unwrap();
    for (validator, kind) in steps {
        store.record_local(candidate(1), validator, kind);
        store.record_peer(PeerId(2), candidate(1), validator, kind);
        store.track(candidate(2), group());
        let after = store.mask_for(candidate(1)).unwrap();
        for position in 0..3 {
            for kind in [StatementKind::Seconded, StatementKind::Valid] {
                assert!(!before.contains(position, kind) || after.contains(position, kind));
            }
        }
        before = after;
    }
    assert_eq!(before.bits(StatementKind::Seconded), vec![true, false, false]);
    assert_eq!(before.bits(StatementKind::Valid), vec![false, true, true]);
}

#[test]
fn mask_snapshot_is_not_changed_by_later_recordings() {
    let mut store = KnowledgeStore::new();
    store.track(candidate(1), group());
    store.record_local(candidate(1), ValidatorIndex(7), StatementKind::Seconded);
    let snapshot = store.mask_for(candidate(1)).unwrap();
    store.record_local(candidate(1), ValidatorIndex(3), StatementKind::Seconded);
    assert_eq!(snapshot.bits(StatementKind::Seconded), vec![true, false, false]);
    assert_eq!(
        store.mask_for(candidate(1)).unwrap().bits(StatementKind::Seconded),
        vec![true, true, false]
    );
}

#[test]
fn candidate_passes_from_unknown_to_fully_known() {
    let mut store = KnowledgeStore::new();
    assert_eq!(store.state_of(candidate(1)), CandidateState::Unknown);
    store.track(candidate(1), vec![ValidatorIndex(1), ValidatorIndex(2)]);
    assert_eq!(store.state_of(candidate(1)), CandidateState::Unknown);
    assert!(!store.is_complete(candidate(1)));
    store.record_local(candidate(1), ValidatorIndex(1), StatementKind::Seconded);
    assert_eq!(store.state_of(candidate(1)), CandidateState::PartiallyKnown);
    store.record_local(candidate(1), ValidatorIndex(1), StatementKind::Valid);
    store.record_local(candidate(1), ValidatorIndex(2), StatementKind::Seconded);
    assert_eq!(store.state_of(candidate(1)), CandidateState::PartiallyKnown);
    store.record_local(candidate(1), ValidatorIndex(2), StatementKind::Valid);
    assert_eq!(store.state_of(candidate(1)), CandidateState::FullyKnown);
    assert!(store.is_complete(candidate(1)));
}

#[test]
fn first_statement_recorded_for_a_peer_leaves_unknown() {
    let mut store = KnowledgeStore::new();
    store.track(candidate(1), group());
    store.record_peer(PeerId(3), candidate(1), ValidatorIndex(3), StatementKind::Valid);
    assert_eq!(store.state_of(candidate(1)), CandidateState::PartiallyKnown);
}
