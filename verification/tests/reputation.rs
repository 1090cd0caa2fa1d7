use statement_distribution::primitives::PeerId;
use statement_distribution::reputation::{
    ReputationEvent, ReputationLedger, ReputationReport, ReputationTable, BENEFIT_MAJOR,
    BENEFIT_MAJOR_FIRST, COST_MAJOR, COST_MINOR,
};

const ALL: [ReputationEvent; 7] = [
    ReputationEvent::FirstValidStatement,
    ReputationEvent::ValidStatement,
    ReputationEvent::ValidResponse,
    ReputationEvent::UnrequestedResponseStatement,
    ReputationEvent::InvalidSignature,
    ReputationEvent::MalformedResponse,
    ReputationEvent::DuplicateStatement,
];

#[test]
fn standard_table_has_the_standard_magnitudes() {
    let table = ReputationTable::standard();
    assert_eq!(BENEFIT_MAJOR_FIRST, 300_000);
    assert_eq!(BENEFIT_MAJOR, 200_000);
    assert_eq!(COST_MAJOR, 300_000);
    assert_eq!(COST_MINOR, 100_000);
    assert_eq!(table.first_valid_statement, 300_000);
    assert_eq!(table.valid_statement, 200_000);
    assert_eq!(table.valid_response, 200_000);
    assert_eq!(table.unrequested_response_statement, 300_000);
    assert_eq!(table.invalid_signature, 300_000);
    assert_eq!(table.malformed_response, 300_000);
    assert_eq!(table.duplicate_statement, 100_000);
}

#[test]
fn benefits_are_positive_and_costs_negative() {
    let ledger = ReputationLedger::new(ReputationTable::standard());
    let deltas: Vec<i64> = ALL.iter().map(|event| ledger.report(PeerId(1), *event).delta).collect();
    assert_eq!(deltas, vec![300_000, 200_000, 200_000, -300_000, -300_000, -300_000, -100_000]);
    let earns: Vec<bool> = ALL.iter().map(|event| event.benefits()).collect();
    assert_eq!(earns, vec![true, true, true, false, false, false, false]);
}

#[test]
fn ledger_goes_by_its_own_table() {
    let table = ReputationTable {
        first_valid_statement: 7,
        valid_statement: 6,
        valid_response: 5,
        unrequested_response_statement: 4,
        invalid_signature: 3,
        malformed_response: 2,
        duplicate_statement: u32::MAX,
    };
    let ledger = ReputationLedger::new(table);
    assert_eq!(ledger.table(), table);
    assert_eq!(ledger.magnitude(ReputationEvent::InvalidSignature), 3);
    assert_eq!(
        ledger.report(PeerId(5), ReputationEvent::ValidResponse),
        ReputationReport { peer: PeerId(5), event: ReputationEvent::ValidResponse, delta: 5 }
    );
    assert_eq!(
        ledger.report(PeerId(5), ReputationEvent::DuplicateStatement),
        ReputationReport {
            peer: PeerId(5),
            event: ReputationEvent::DuplicateStatement,
            delta: -4_294_967_295,
        }
    );
}

#[test]
fn repeated_events_are_reported_one_by_one() {
    let ledger = ReputationLedger::new(ReputationTable::standard());
    let events = vec![
        ReputationEvent::DuplicateStatement,
        ReputationEvent::DuplicateStatement,
        ReputationEvent::ValidResponse,
        ReputationEvent::DuplicateStatement,
    ];
    let reports = ledger.report_all(PeerId(3), &events);
    let deltas: Vec<i64> = reports.iter().map(|report| report.delta).collect();
    assert_eq!(deltas, vec![-100_000, -100_000, 200_000, -100_000]);
    assert!(reports.iter().all(|report| report.peer == PeerId(3)));
    let kinds: Vec<ReputationEvent> = reports.iter().map(|report| report.event).collect();
    assert_eq!(kinds, events);
    assert_eq!(ledger.report_all(PeerId(3), &Vec::new()), Vec::new());
}

#[test]
fn every_event_has_its_reason() {
    let reasons: Vec<&str> = ALL.iter().map(|event| event.reason()).collect();
    assert_eq!(
        reasons,
        vec![
            "Peer was the first to provide a given valid statement",
            "Peer provided a valid statement",
            "Peer answered candidate request",
            "Un-requested statement in response",
            "Invalid statement signature",
            "Invalid candidate response",
            "Duplicate statement in response",
        ]
    );
}
