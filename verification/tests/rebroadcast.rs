use statement_distribution::knowledge::KnowledgeStore;
use statement_distribution::primitives::{
    CandidateHash, Hash256, PeerId, StatementKind, ValidatorIndex,
};
use statement_distribution::rebroadcast::{forward, PeerStatus};

fn candidate(byte: u8) -> CandidateHash {
    CandidateHash(Hash256::repeat_byte(byte))
}

fn store() -> KnowledgeStore {
    let mut store = KnowledgeStore::new();
    store.track(candidate(1), vec![ValidatorIndex(0), ValidatorIndex(1), ValidatorIndex(2)]);
    store.record_local(candidate(1), ValidatorIndex(1), StatementKind::Seconded);
    store
}

fn status(peer: u64, has_relay_parent_in_view: bool, eligible: bool) -> PeerStatus {
    PeerStatus { peer: PeerId(peer), has_relay_parent_in_view, eligible }
}

#[test]
fn statement_goes_to_eligible_peers_in_view_that_lack_it() {
    let mut store = store();
    store.record_peer(PeerId(1), candidate(1), ValidatorIndex(1), StatementKind::Seconded);
    let peers = vec![
        status(1, true, true),
        status(2, false, true),
        status(3, true, false),
        status(4, true, true),
        status(5, true, true),
    ];
    let recipients = forward(&mut store, candidate(1), ValidatorIndex(1), StatementKind::Seconded, &peers);
    assert_eq!(recipients, vec![PeerId(4), PeerId(5)]);
    for peer in [1, 4, 5] {
        assert!(store.is_known_by_peer(PeerId(peer), candidate(1), ValidatorIndex(1), StatementKind::Seconded));
    }
    for peer in [2, 3] {
        assert!(!store.is_known_by_peer(PeerId(peer), candidate(1), ValidatorIndex(1), StatementKind::Seconded));
    }
}

#[test]
fn statement_is_not_sent_twice() {
    let mut store = store();
    let peers = vec![status(4, true, true), status(5, true, true)];
    assert_eq!(
        forward(&mut store, candidate(1), ValidatorIndex(1), StatementKind::Seconded, &peers),
        vec![PeerId(4), PeerId(5)]
    );
    assert_eq!(
        forward(&mut store, candidate(1), ValidatorIndex(1), StatementKind::Seconded, &peers),
        Vec::new()
    );
    assert_eq!(
        forward(&mut store, candidate(1), ValidatorIndex(1), StatementKind::Valid, &peers),
        vec![PeerId(4), PeerId(5)]
    );
}

#[test]
fn peer_named_twice_receives_once() {
    let mut store = store();
    let peers = vec![status(4, true, true), status(4, true, true), status(4, false, true)];
    assert_eq!(
        forward(&mut store, candidate(1), ValidatorIndex(1), StatementKind::Seconded, &peers),
        vec![PeerId(4)]
    );
}

#[test]
fn nothing_is_forwarded_for_an_untracked_candidate_or_a_stranger() {
    let mut store = store();
    let peers = vec![status(4, true, true)];
    assert_eq!(
        forward(&mut store, candidate(2), ValidatorIndex(1), StatementKind::Seconded, &peers),
        Vec::new()
    );
    assert_eq!(
        forward(&mut store, candidate(1), ValidatorIndex(9), StatementKind::Seconded, &peers),
        Vec::new()
    );
    assert_eq!(
        forward(&mut store, candidate(1), ValidatorIndex(1), StatementKind::Seconded, &Vec::new()),
        Vec::new()
    );
    assert!(!store.is_known_by_peer(PeerId(4), candidate(1), ValidatorIndex(1), StatementKind::Seconded));
}

#[test]
fn forwarding_leaves_the_local_mask_alone() {
    let mut store = store();
    let before = store.mask_for(candidate(1));
    forward(&mut store, candidate(1), ValidatorIndex(2), StatementKind::Valid, &vec![status(4, true, true)]);
    assert_eq!(store.mask_for(candidate(1)), before);
}
