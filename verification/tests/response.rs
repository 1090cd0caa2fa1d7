use statement_distribution::filter::StatementFilter;
use statement_distribution::knowledge::KnowledgeStore;
use statement_distribution::primitives::{
    CandidateHash, Hash256, PeerId, StatementKind, ValidatorIndex,
};
use statement_distribution::reputation::ReputationEvent;
use statement_distribution::response::{
    absorb, judge, process_response, validate_response, AttestedCandidateResponse,
    IncomingStatement, Validated, Verdict,
};

fn candidate(byte: u8) -> CandidateHash {
    CandidateHash(Hash256::repeat_byte(byte))
}

fn group() -> Vec<ValidatorIndex> {
    vec![ValidatorIndex(10), ValidatorIndex(11), ValidatorIndex(12)]
}

fn store() -> KnowledgeStore {
    let mut store = KnowledgeStore::new();
    store.track(candidate(1), group());
    store
}

fn statement(validator: u32, kind: StatementKind, signature_valid: bool) -> IncomingStatement {
    IncomingStatement { validator: ValidatorIndex(validator), kind, signature_valid }
}

fn response(statements: Vec<IncomingStatement>) -> Option<AttestedCandidateResponse> {
    Some(AttestedCandidateResponse { candidate_hash: candidate(1), statements })
}

#[test]
fn accepted_statements_are_taken_in() {
    let mut store = store();
    let mask = StatementFilter::blank(3);
    let statements = vec![
        statement(11, StatementKind::Seconded, true),
        statement(12, StatementKind::Valid, true),
    ];
    let validated = process_response(&mut store, PeerId(1), candidate(1), &mask, &response(statements.clone()));
    assert_eq!(
        validated.events,
        vec![
            ReputationEvent::FirstValidStatement,
            ReputationEvent::FirstValidStatement,
            ReputationEvent::ValidResponse,
        ]
    );
    assert_eq!(validated.accepted, statements);
    assert!(store.is_known_locally(candidate(1), ValidatorIndex(11), StatementKind::Seconded));
    assert!(store.is_known_locally(candidate(1), ValidatorIndex(12), StatementKind::Valid));
    assert!(store.is_known_by_peer(PeerId(1), candidate(1), ValidatorIndex(11), StatementKind::Seconded));
    assert!(store.is_known_by_peer(PeerId(1), candidate(1), ValidatorIndex(12), StatementKind::Valid));
    assert!(!store.is_known_locally(candidate(1), ValidatorIndex(10), StatementKind::Seconded));
    assert!(!store.is_known_by_peer(PeerId(2), candidate(1), ValidatorIndex(11), StatementKind::Seconded));
}

#[test]
fn same_statement_twice_is_a_duplicate() {
    let mut store = store();
    let mask = StatementFilter::blank(3);
    let twice = statement(11, StatementKind::Seconded, true);
    let validated = process_response(&mut store, PeerId(1), candidate(1), &mask, &response(vec![twice, twice]));
    assert_eq!(
        validated.events,
        vec![
            ReputationEvent::FirstValidStatement,
            ReputationEvent::DuplicateStatement,
            ReputationEvent::ValidResponse,
        ]
    );
    assert_eq!(validated.accepted, vec![twice]);
    assert_eq!(
        store.mask_for(candidate(1)).unwrap().bits(StatementKind::Seconded),
        vec![false, true, false]
    );
}

#[test]
fn second_occurrence_is_a_duplicate_whatever_the_first_was() {
    let store = store();
    let mut mask = StatementFilter::blank(3);
    mask.set(0, StatementKind::Valid);
    let statements = vec![
        statement(10, StatementKind::Valid, true),
        statement(10, StatementKind::Valid, true),
        statement(11, StatementKind::Valid, false),
        statement(11, StatementKind::Valid, true),
        statement(99, StatementKind::Valid, true),
        statement(99, StatementKind::Valid, true),
        statement(99, StatementKind::Seconded, true),
    ];
    let validated = validate_response(&store, candidate(1), &mask, &response(statements));
    assert_eq!(
        validated.events,
        vec![
            ReputationEvent::UnrequestedResponseStatement,
            ReputationEvent::DuplicateStatement,
            ReputationEvent::InvalidSignature,
            ReputationEvent::DuplicateStatement,
            ReputationEvent::UnrequestedResponseStatement,
            ReputationEvent::DuplicateStatement,
            ReputationEvent::UnrequestedResponseStatement,
            ReputationEvent::ValidResponse,
        ]
    );
    assert_eq!(validated.accepted, Vec::new());
}

#[test]
fn masked_statement_is_unrequested_whether_valid_or_not() {
    let mut store = store();
    store.record_local(candidate(1), ValidatorIndex(11), StatementKind::Seconded);
    let mask = store.mask_for(candidate(1)).unwrap();
    for signature_valid in [true, false] {
        let validated = process_response(
            &mut store,
            PeerId(1),
            candidate(1),
            &mask,
            &response(vec![statement(11, StatementKind::Seconded, signature_valid)]),
        );
        assert_eq!(
            validated.events,
            vec![ReputationEvent::UnrequestedResponseStatement, ReputationEvent::ValidResponse]
        );
        assert_eq!(validated.accepted, Vec::new());
        assert!(!store.is_known_by_peer(PeerId(1), candidate(1), ValidatorIndex(11), StatementKind::Seconded));
    }
}

#[test]
fn statement_from_outside_the_group_is_unrequested() {
    let store = store();
    let mask = StatementFilter::blank(3);
    let validated = validate_response(
        &store,
        candidate(1),
        &mask,
        &response(vec![statement(13, StatementKind::Valid, true)]),
    );
    assert_eq!(
        validated.events,
        vec![ReputationEvent::UnrequestedResponseStatement, ReputationEvent::ValidResponse]
    );
    assert_eq!(validated.accepted, Vec::new());
}

#[test]
fn invalid_signature_drops_only_its_statement() {
    let mut store = store();
    let mask = StatementFilter::blank(3);
    let good = statement(12, StatementKind::Seconded, true);
    let validated = process_response(
        &mut store,
        PeerId(1),
        candidate(1),
        &mask,
        &response(vec![statement(10, StatementKind::Seconded, false), good]),
    );
    assert_eq!(
        validated.events,
        vec![
            ReputationEvent::InvalidSignature,
            ReputationEvent::FirstValidStatement,
            ReputationEvent::ValidResponse,
        ]
    );
    assert_eq!(validated.accepted, vec![good]);
    assert!(!store.is_known_locally(candidate(1), ValidatorIndex(10), StatementKind::Seconded));
    assert!(store.is_known_locally(candidate(1), ValidatorIndex(12), StatementKind::Seconded));
}

#[test]
fn statement_learnt_since_the_request_is_valid_but_not_first() {
    let mut store = store();
    let mask = store.mask_for(candidate(1)).unwrap();
    store.record_local(candidate(1), ValidatorIndex(10), StatementKind::Valid);
    let known = statement(10, StatementKind::Valid, true);
    let validated = process_response(&mut store, PeerId(1), candidate(1), &mask, &response(vec![known]));
    assert_eq!(
        validated.events,
        vec![ReputationEvent::ValidStatement, ReputationEvent::ValidResponse]
    );
    assert_eq!(validated.accepted, vec![known]);
    assert!(store.is_known_by_peer(PeerId(1), candidate(1), ValidatorIndex(10), StatementKind::Valid));
}

#[test]
fn response_without_accepted_statements_still_earns_the_completion_benefit() {
    let mut store = store();
    for validator in group() {
        store.record_local(candidate(1), validator, StatementKind::Seconded);
        store.record_local(candidate(1), validator, StatementKind::Valid);
    }
    let mask = store.mask_for(candidate(1)).unwrap();
    let empty = process_response(&mut store, PeerId(1), candidate(1), &mask, &response(Vec::new()));
    assert_eq!(empty.events, vec![ReputationEvent::ValidResponse]);
    assert_eq!(empty.accepted, Vec::new());

    let stale = process_response(
        &mut store,
        PeerId(1),
        candidate(1),
        &mask,
        &response(vec![
            statement(10, StatementKind::Seconded, true),
            statement(11, StatementKind::Valid, true),
        ]),
    );
    assert_eq!(
        stale.events,
        vec![
            ReputationEvent::UnrequestedResponseStatement,
            ReputationEvent::UnrequestedResponseStatement,
            ReputationEvent::ValidResponse,
        ]
    );
    let completions = stale.events.iter().filter(|event| **event == ReputationEvent::ValidResponse).count();
    let benefits = stale
        .events
        .iter()
        .filter(|event| {
            **event == ReputationEvent::ValidStatement || **event == ReputationEvent::FirstValidStatement
        })
        .count();
    assert_eq!((completions, benefits), (1, 0));
}

#[test]
fn response_for_another_candidate_is_malformed() {
    let mut store = store();
    let mask = StatementFilter::blank(3);
    let other = Some(AttestedCandidateResponse {
        candidate_hash: candidate(2),
        statements: vec![statement(11, StatementKind::Seconded, true)],
    });
    let validated = process_response(&mut store, PeerId(1), candidate(1), &mask, &other);
    assert_eq!(
        validated,
        Validated { events: vec![ReputationEvent::MalformedResponse], accepted: Vec::new() }
    );
    assert_eq!(store.mask_for(candidate(1)), Some(StatementFilter::blank(3)));
    assert!(!store.is_known_by_peer(PeerId(1), candidate(1), ValidatorIndex(11), StatementKind::Seconded));
}

#[test]
fn unreadable_response_is_malformed() {
    let mut store = store();
    let mask = StatementFilter::blank(3);
    let validated = process_response(&mut store, PeerId(1), candidate(1), &mask, &None);
    assert_eq!(
        validated,
        Validated { events: vec![ReputationEvent::MalformedResponse], accepted: Vec::new() }
    );
}

#[test]
fn response_for_an_untracked_candidate_is_dropped() {
    let mut store = store();
    let mask = StatementFilter::blank(3);
    let other = Some(AttestedCandidateResponse {
        candidate_hash: candidate(2),
        statements: vec![statement(11, StatementKind::Seconded, true)],
    });
    let validated = process_response(&mut store, PeerId(1), candidate(2), &mask, &other);
    assert_eq!(validated, Validated { events: Vec::new(), accepted: Vec::new() });
    assert!(!store.is_tracked(candidate(2)));
}

#[test]
fn mask_of_another_size_asks_for_nothing_beyond_it() {
    let store = store();
    let mask = StatementFilter::blank(1);
    let validated = validate_response(
        &store,
        candidate(1),
        &mask,
        &response(vec![
            statement(10, StatementKind::Seconded, true),
            statement(11, StatementKind::Seconded, true),
        ]),
    );
    assert_eq!(
        validated.events,
        vec![
            ReputationEvent::FirstValidStatement,
            ReputationEvent::UnrequestedResponseStatement,
            ReputationEvent::ValidResponse,
        ]
    );
}

#[test]
fn judge_gives_the_verdict_with_its_event() {
    let group = group();
    let mut local = StatementFilter::blank(3);
    local.set(2, StatementKind::Valid);
    let mut mask = StatementFilter::blank(3);
    mask.set(0, StatementKind::Seconded);
    let statements = vec![
        statement(10, StatementKind::Seconded, true),
        statement(11, StatementKind::Seconded, false),
        statement(12, StatementKind::Valid, true),
        statement(11, StatementKind::Valid, true),
        statement(11, StatementKind::Valid, true),
    ];
    let judged: Vec<(Verdict, ReputationEvent)> =
        (0..statements.len()).map(|i| judge(&group, &local, &mask, &statements, i)).collect();
    assert_eq!(
        judged,
        vec![
            (Verdict::Unrequested, ReputationEvent::UnrequestedResponseStatement),
            (Verdict::InvalidSignature, ReputationEvent::InvalidSignature),
            (Verdict::Accepted, ReputationEvent::ValidStatement),
            (Verdict::Accepted, ReputationEvent::FirstValidStatement),
            (Verdict::Duplicate, ReputationEvent::DuplicateStatement),
        ]
    );
}

#[test]
fn absorb_records_for_the_store_and_the_peer() {
    let mut store = store();
    absorb(
        &mut store,
        PeerId(6),
        candidate(1),
        &vec![statement(10, StatementKind::Valid, true), statement(77, StatementKind::Valid, true)],
    );
    assert_eq!(
        store.mask_for(candidate(1)).unwrap().bits(StatementKind::Valid),
        vec![true, false, false]
    );
    assert!(store.is_known_by_peer(PeerId(6), candidate(1), ValidatorIndex(10), StatementKind::Valid));
    assert!(!store.is_known_by_peer(PeerId(6), candidate(1), ValidatorIndex(77), StatementKind::Valid));
}
