use statement_distribution::coordinator::{Action, Coordinator, Membership};
use statement_distribution::knowledge::CandidateState;
use statement_distribution::primitives::{
    CandidateHash, Hash256, PeerId, RelayParent, StatementKind, ValidatorIndex,
};
use statement_distribution::rebroadcast::PeerStatus;
use statement_distribution::reputation::{ReputationEvent, ReputationReport, ReputationTable};
use statement_distribution::requests::IfDisconnected;
use statement_distribution::response::{AttestedCandidateResponse, IncomingStatement};

const LOCAL: ValidatorIndex = ValidatorIndex(0);
const V_A: ValidatorIndex = ValidatorIndex(1);
const V_B: ValidatorIndex = ValidatorIndex(2);
const PEER_A: PeerId = PeerId(100);
const PEER_B: PeerId = PeerId(101);
const PEER_C: PeerId = PeerId(102);

fn relay_parent() -> RelayParent {
    RelayParent(Hash256::repeat_byte(1))
}

fn candidate() -> CandidateHash {
    CandidateHash(Hash256::repeat_byte(42))
}

/// Peer A is in the group and has the relay parent in view. Peer B is in the group
/// and has not. Peer C has the relay parent in view and is not in the group.
fn peers() -> Vec<PeerStatus> {
    vec![
        PeerStatus { peer: PEER_A, has_relay_parent_in_view: true, eligible: true },
        PeerStatus { peer: PEER_B, has_relay_parent_in_view: false, eligible: true },
        PeerStatus { peer: PEER_C, has_relay_parent_in_view: true, eligible: false },
    ]
}

fn seconded(validator: ValidatorIndex) -> IncomingStatement {
    IncomingStatement { validator, kind: StatementKind::Seconded, signature_valid: true }
}

fn report(peer: PeerId, event: ReputationEvent, delta: i64) -> Action {
    Action::ReportPeer(ReputationReport { peer, event, delta })
}

fn started() -> Coordinator {
    let mut coordinator = Coordinator::new(ReputationTable::standard());
    assert!(coordinator.activate_leaf(relay_parent()));
    assert!(coordinator.note_candidate(relay_parent(), candidate(), vec![LOCAL, V_A, V_B]));
    coordinator
}

/// Peer A's `Seconded` statement has come by gossip and the request to peer A is under
/// way.
fn asked() -> Coordinator {
    let mut coordinator = started();
    coordinator.on_statement(
        relay_parent(),
        PEER_A,
        candidate(),
        seconded(V_A),
        true,
        &peers(),
        Membership::Member,
        60,
    );
    coordinator
}

#[test]
fn peer_reported_for_duplicate_statements() {
    let mut coordinator = started();
    assert_eq!(coordinator.candidate_state(relay_parent(), candidate()), CandidateState::Unknown);

    let actions = coordinator.on_statement(
        relay_parent(),
        PEER_A,
        candidate(),
        seconded(V_A),
        true,
        &peers(),
        Membership::Member,
        60,
    );
    assert_eq!(actions.len(), 2);
    assert_eq!(actions[0], report(PEER_A, ReputationEvent::FirstValidStatement, 300_000));
    match &actions[1] {
        Action::SendRequest { peer, request, if_disconnected } => {
            assert_eq!(*peer, PEER_A);
            assert_eq!(request.candidate_hash, candidate());
            assert_eq!(request.mask.bits(StatementKind::Seconded), vec![false, true, false]);
            assert_eq!(request.mask.bits(StatementKind::Valid), vec![false, false, false]);
            assert_eq!(*if_disconnected, IfDisconnected::ImmediateError);
        },
        other => panic!("expected a request, got {:?}", other),
    }
    assert!(coordinator.is_outstanding(relay_parent(), PEER_A, candidate()));
    assert_eq!(
        coordinator.candidate_state(relay_parent(), candidate()),
        CandidateState::PartiallyKnown
    );

    let b_seconded = seconded(V_B);
    let response = AttestedCandidateResponse {
        candidate_hash: candidate(),
        statements: vec![b_seconded, b_seconded],
    };
    let actions = coordinator.on_response(
        relay_parent(),
        PEER_A,
        candidate(),
        Some(response),
        &peers(),
        Membership::Member,
    );
    assert_eq!(
        actions,
        vec![
            report(PEER_A, ReputationEvent::FirstValidStatement, 300_000),
            report(PEER_A, ReputationEvent::DuplicateStatement, -100_000),
            report(PEER_A, ReputationEvent::ValidResponse, 200_000),
        ]
    );
    assert!(!coordinator.is_outstanding(relay_parent(), PEER_A, candidate()));
    let mask = coordinator.mask_for(relay_parent(), candidate()).unwrap();
    assert_eq!(mask.bits(StatementKind::Seconded), vec![false, true, true]);
    assert_eq!(mask.bits(StatementKind::Valid), vec![false, false, false]);
}

#[test]
fn accepted_statement_is_rebroadcast_to_group_peers_that_lack_it() {
    let mut coordinator = asked();
    let mut peers = peers();
    peers[1].has_relay_parent_in_view = true;
    let b_seconded = seconded(V_B);
    let actions = coordinator.on_response(
        relay_parent(),
        PEER_A,
        candidate(),
        Some(AttestedCandidateResponse {
            candidate_hash: candidate(),
            statements: vec![b_seconded, b_seconded],
        }),
        &peers,
        Membership::Pending,
    );
    assert_eq!(
        actions,
        vec![
            report(PEER_A, ReputationEvent::FirstValidStatement, 300_000),
            report(PEER_A, ReputationEvent::DuplicateStatement, -100_000),
            report(PEER_A, ReputationEvent::ValidResponse, 200_000),
            Action::SendStatement {
                peers: vec![PEER_B],
                relay_parent: relay_parent(),
                candidate: candidate(),
                validator: V_B,
                kind: StatementKind::Seconded,
            },
        ]
    );
}

#[test]
fn response_with_another_candidate_is_rejected_wholly() {
    let mut coordinator = asked();
    let before = coordinator.mask_for(relay_parent(), candidate());
    let actions = coordinator.on_response(
        relay_parent(),
        PEER_A,
        candidate(),
        Some(AttestedCandidateResponse {
            candidate_hash: CandidateHash(Hash256::repeat_byte(43)),
            statements: vec![seconded(V_B), seconded(LOCAL)],
        }),
        &peers(),
        Membership::Member,
    );
    assert_eq!(actions, vec![report(PEER_A, ReputationEvent::MalformedResponse, -300_000)]);
    assert_eq!(coordinator.mask_for(relay_parent(), candidate()), before);
    assert!(!coordinator.is_outstanding(relay_parent(), PEER_A, candidate()));
}

#[test]
fn unreadable_response_is_rejected_wholly() {
    let mut coordinator = asked();
    let actions =
        coordinator.on_response(relay_parent(), PEER_A, candidate(), None, &peers(), Membership::Member);
    assert_eq!(actions, vec![report(PEER_A, ReputationEvent::MalformedResponse, -300_000)]);
}

#[test]
fn second_statement_starts_no_second_request() {
    let mut coordinator = asked();
    let actions = coordinator.on_statement(
        relay_parent(),
        PEER_A,
        candidate(),
        IncomingStatement { validator: V_A, kind: StatementKind::Valid, signature_valid: true },
        true,
        &peers(),
        Membership::Member,
        70,
    );
    assert_eq!(actions, vec![report(PEER_A, ReputationEvent::FirstValidStatement, 300_000)]);
    let again = coordinator.on_statement(
        relay_parent(),
        PEER_A,
        candidate(),
        seconded(V_A),
        true,
        &peers(),
        Membership::Member,
        80,
    );
    assert_eq!(again, vec![report(PEER_A, ReputationEvent::ValidStatement, 200_000)]);
}

#[test]
fn unsolicited_response_is_dropped() {
    let mut coordinator = started();
    let actions = coordinator.on_response(
        relay_parent(),
        PEER_A,
        candidate(),
        Some(AttestedCandidateResponse { candidate_hash: candidate(), statements: vec![seconded(V_B)] }),
        &peers(),
        Membership::Member,
    );
    assert_eq!(actions, Vec::new());
    assert_eq!(coordinator.candidate_state(relay_parent(), candidate()), CandidateState::Unknown);
}

#[test]
fn timeout_costs_nothing_and_frees_the_slot() {
    let mut coordinator = asked();
    assert!(coordinator.on_timeout(relay_parent(), PEER_A, candidate()));
    assert!(!coordinator.on_timeout(relay_parent(), PEER_A, candidate()));
    assert!(!coordinator.is_outstanding(relay_parent(), PEER_A, candidate()));
    let late = coordinator.on_response(
        relay_parent(),
        PEER_A,
        candidate(),
        Some(AttestedCandidateResponse { candidate_hash: candidate(), statements: vec![seconded(V_B)] }),
        &peers(),
        Membership::Member,
    );
    assert_eq!(late, Vec::new());
    let actions = coordinator.on_statement(
        relay_parent(),
        PEER_A,
        candidate(),
        seconded(V_A),
        true,
        &peers(),
        Membership::Member,
        90,
    );
    assert_eq!(actions.len(), 2);
    assert!(matches!(actions[1], Action::SendRequest { .. }));
}

#[test]
fn gossip_with_an_invalid_signature_is_dropped() {
    let mut coordinator = started();
    let actions = coordinator.on_statement(
        relay_parent(),
        PEER_A,
        candidate(),
        IncomingStatement { validator: V_A, kind: StatementKind::Seconded, signature_valid: false },
        true,
        &peers(),
        Membership::Member,
        60,
    );
    assert_eq!(actions, vec![report(PEER_A, ReputationEvent::InvalidSignature, -300_000)]);
    let stranger = coordinator.on_statement(
        relay_parent(),
        PEER_A,
        candidate(),
        seconded(ValidatorIndex(19)),
        true,
        &peers(),
        Membership::Member,
        60,
    );
    assert_eq!(stranger, vec![report(PEER_A, ReputationEvent::InvalidSignature, -300_000)]);
    assert_eq!(coordinator.candidate_state(relay_parent(), candidate()), CandidateState::Unknown);
    assert!(!coordinator.is_outstanding(relay_parent(), PEER_A, candidate()));
}

#[test]
fn gossip_is_passed_on_unless_the_candidate_cannot_be_a_member() {
    let everyone = vec![
        PeerStatus { peer: PEER_A, has_relay_parent_in_view: true, eligible: true },
        PeerStatus { peer: PEER_B, has_relay_parent_in_view: true, eligible: true },
    ];
    let mut coordinator = started();
    let actions = coordinator.on_statement(
        relay_parent(),
        PEER_A,
        candidate(),
        seconded(V_A),
        false,
        &everyone,
        Membership::Member,
        60,
    );
    assert_eq!(
        actions,
        vec![
            report(PEER_A, ReputationEvent::FirstValidStatement, 300_000),
            Action::SendStatement {
                peers: vec![PEER_B],
                relay_parent: relay_parent(),
                candidate: candidate(),
                validator: V_A,
                kind: StatementKind::Seconded,
            },
        ]
    );

    let mut suppressed = started();
    let actions = suppressed.on_statement(
        relay_parent(),
        PEER_A,
        candidate(),
        seconded(V_A),
        false,
        &everyone,
        Membership::NotMember,
        60,
    );
    assert_eq!(actions, vec![report(PEER_A, ReputationEvent::FirstValidStatement, 300_000)]);
    assert_eq!(
        suppressed.candidate_state(relay_parent(), candidate()),
        CandidateState::PartiallyKnown
    );
}

#[test]
fn events_under_an_inactive_relay_parent_are_dropped() {
    let mut coordinator = asked();
    assert!(coordinator.prune(relay_parent()));
    assert!(!coordinator.prune(relay_parent()));
    assert!(!coordinator.is_active(relay_parent()));
    assert_eq!(coordinator.mask_for(relay_parent(), candidate()), None);
    assert!(!coordinator.is_outstanding(relay_parent(), PEER_A, candidate()));
    let late = coordinator.on_response(
        relay_parent(),
        PEER_A,
        candidate(),
        Some(AttestedCandidateResponse { candidate_hash: candidate(), statements: vec![seconded(V_B)] }),
        &peers(),
        Membership::Member,
    );
    assert_eq!(late, Vec::new());
    let gossip = coordinator.on_statement(
        relay_parent(),
        PEER_A,
        candidate(),
        seconded(V_A),
        true,
        &peers(),
        Membership::Member,
        60,
    );
    assert_eq!(gossip, Vec::new());
    assert!(!coordinator.on_timeout(relay_parent(), PEER_A, candidate()));
    assert!(!coordinator.note_candidate(relay_parent(), candidate(), vec![LOCAL]));
}

#[test]
fn relay_parents_are_kept_apart() {
    let other = RelayParent(Hash256::repeat_byte(2));
    let mut coordinator = asked();
    assert!(coordinator.activate_leaf(other));
    assert!(!coordinator.activate_leaf(other));
    assert!(coordinator.note_candidate(other, candidate(), vec![V_B, V_A]));
    assert_eq!(coordinator.candidate_state(other, candidate()), CandidateState::Unknown);
    assert!(!coordinator.is_outstanding(other, PEER_A, candidate()));
    assert!(coordinator.prune(relay_parent()));
    assert!(coordinator.is_active(other));
    assert_eq!(
        coordinator.mask_for(other, candidate()).unwrap().bits(StatementKind::Seconded),
        vec![false, false]
    );
}

#[test]
fn statement_on_an_untracked_candidate_is_dropped() {
    let mut coordinator = started();
    let actions = coordinator.on_statement(
        relay_parent(),
        PEER_A,
        CandidateHash(Hash256::repeat_byte(7)),
        seconded(V_A),
        true,
        &peers(),
        Membership::Member,
        60,
    );
    assert_eq!(actions, Vec::new());
}

#[test]
fn fully_known_candidate_starts_no_request() {
    let mut coordinator = Coordinator::new(ReputationTable::standard());
    coordinator.activate_leaf(relay_parent());
    coordinator.note_candidate(relay_parent(), candidate(), vec![V_A]);
    let first = coordinator.on_statement(
        relay_parent(),
        PEER_B,
        candidate(),
        seconded(V_A),
        false,
        &Vec::new(),
        Membership::Member,
        60,
    );
    assert_eq!(first, vec![report(PEER_B, ReputationEvent::FirstValidStatement, 300_000)]);
    let last = coordinator.on_statement(
        relay_parent(),
        PEER_A,
        candidate(),
        IncomingStatement { validator: V_A, kind: StatementKind::Valid, signature_valid: true },
        true,
        &Vec::new(),
        Membership::Member,
        60,
    );
    assert_eq!(last, vec![report(PEER_A, ReputationEvent::FirstValidStatement, 300_000)]);
    assert_eq!(coordinator.candidate_state(relay_parent(), candidate()), CandidateState::FullyKnown);
    assert!(!coordinator.is_outstanding(relay_parent(), PEER_A, candidate()));
}

#[test]
fn manifest_starts_a_catch_up_request() {
    let mut coordinator = started();
    assert_eq!(coordinator.table(), ReputationTable::standard());
    let unseen = coordinator.on_manifest(relay_parent(), PEER_C, candidate(), false, 30);
    assert_eq!(unseen, Vec::new());
    let actions = coordinator.on_manifest(relay_parent(), PEER_C, candidate(), true, 30);
    assert_eq!(actions.len(), 1);
    match &actions[0] {
        Action::SendRequest { peer, request, if_disconnected } => {
            assert_eq!(*peer, PEER_C);
            assert_eq!(request.candidate_hash, candidate());
            assert_eq!(request.mask.bits(StatementKind::Seconded), vec![false, false, false]);
            assert_eq!(request.mask.bits(StatementKind::Valid), vec![false, false, false]);
            assert_eq!(*if_disconnected, IfDisconnected::ImmediateError);
        },
        other => panic!("expected a request, got {:?}", other),
    }
    assert_eq!(coordinator.on_manifest(relay_parent(), PEER_C, candidate(), true, 40), Vec::new());
    assert_eq!(coordinator.candidate_state(relay_parent(), candidate()), CandidateState::Unknown);
    assert_eq!(
        coordinator.on_manifest(relay_parent(), PEER_C, CandidateHash(Hash256::repeat_byte(9)), true, 40),
        Vec::new()
    );
}
