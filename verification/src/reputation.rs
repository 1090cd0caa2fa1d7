//! The reputation ledger: what each kind of peer behaviour costs or earns.
//!
//! The ledger keeps no account. It turns one occurrence of an event into one report
//! for the network layer, which adds the reports up.

use crate::primitives::PeerId;
use vstd::prelude::*;

verus! {

/// A kind of peer behaviour that changes the peer's reputation.
#[derive(Clone, Copy, Debug, PartialEq, Eq, Structural)]
pub enum ReputationEvent {
    /// The peer was the first to provide a given valid statement.
    FirstValidStatement,
    /// The peer provided a valid statement that was known already.
    ValidStatement,
    /// The peer answered a request with a response that could be read and was about
    /// the candidate asked for.
    ValidResponse,
    /// The response held a statement that the request's mask had excluded, or one by a
    /// validator outside the candidate's group.
    UnrequestedResponseStatement,
    /// The statement's signature, or its signing context, did not check.
    InvalidSignature,
    /// The response could not be read, or was about another candidate.
    MalformedResponse,
    /// The response held the same statement a second time.
    DuplicateStatement,
}

impl ReputationEvent {
    /// Whether the event earns reputation. Every other event costs reputation.
    pub open spec fn is_benefit(self) -> bool {
        self == ReputationEvent::FirstValidStatement || self == ReputationEvent::ValidStatement
            || self == ReputationEvent::ValidResponse
    }

    /// The reason given for the event, as a sequence of characters.
    pub open spec fn reason_text(self) -> Seq<char> {
        match self {
            ReputationEvent::FirstValidStatement => "Peer was the first to provide a given valid statement"@,
            ReputationEvent::ValidStatement => "Peer provided a valid statement"@,
            ReputationEvent::ValidResponse => "Peer answered candidate request"@,
            ReputationEvent::UnrequestedResponseStatement => "Un-requested statement in response"@,
            ReputationEvent::InvalidSignature => "Invalid statement signature"@,
            ReputationEvent::MalformedResponse => "Invalid candidate response"@,
            ReputationEvent::DuplicateStatement => "Duplicate statement in response"@,
        }
    }

    /// Whether the event earns reputation.
    pub fn benefits(&self) -> (earns: bool)
        ensures
            earns == self.is_benefit(),
    {
        match self {
            ReputationEvent::FirstValidStatement => true,
            ReputationEvent::ValidStatement => true,
            ReputationEvent::ValidResponse => true,
            ReputationEvent::UnrequestedResponseStatement => false,
            ReputationEvent::InvalidSignature => false,
            ReputationEvent::MalformedResponse => false,
            ReputationEvent::DuplicateStatement => false,
        }
    }

    /// The reason given for the event, for those who watch the network.
    pub fn reason(&self) -> (text: &'static str)
        ensures
            text@ == self.reason_text(),
    {
        match self {
            ReputationEvent::FirstValidStatement => "Peer was the first to provide a given valid statement",
            ReputationEvent::ValidStatement => "Peer provided a valid statement",
            ReputationEvent::ValidResponse => "Peer answered candidate request",
            ReputationEvent::UnrequestedResponseStatement => "Un-requested statement in response",
            ReputationEvent::InvalidSignature => "Invalid statement signature",
            ReputationEvent::MalformedResponse => "Invalid candidate response",
            ReputationEvent::DuplicateStatement => "Duplicate statement in response",
        }
    }
}

/// The magnitude of each kind of event: how much reputation one occurrence earns, for a
/// benefit, or costs.
#[derive(Clone, Copy, Debug, PartialEq, Eq, Structural)]
pub struct ReputationTable {
    pub first_valid_statement: u32,
    pub valid_statement: u32,
    pub valid_response: u32,
    pub unrequested_response_statement: u32,
    pub invalid_signature: u32,
    pub malformed_response: u32,
    pub duplicate_statement: u32,
}

/// What a major benefit earns when the peer was the first to bring it.
pub const BENEFIT_MAJOR_FIRST: u32 = 300_000;

/// What a major benefit earns.
pub const BENEFIT_MAJOR: u32 = 200_000;

/// What a major offence costs.
pub const COST_MAJOR: u32 = 300_000;

/// What a minor offence costs.
pub const COST_MINOR: u32 = 100_000;

impl ReputationTable {
    /// The magnitude of `event`.
    pub open spec fn magnitude(self, event: ReputationEvent) -> u32 {
        match event {
            ReputationEvent::FirstValidStatement => self.first_valid_statement,
            ReputationEvent::ValidStatement => self.valid_statement,
            ReputationEvent::ValidResponse => self.valid_response,
            ReputationEvent::UnrequestedResponseStatement => self.unrequested_response_statement,
            ReputationEvent::InvalidSignature => self.invalid_signature,
            ReputationEvent::MalformedResponse => self.malformed_response,
            ReputationEvent::DuplicateStatement => self.duplicate_statement,
        }
    }

    /// The change of reputation that one occurrence of `event` makes: its magnitude for a
    /// benefit, the negative of its magnitude for a cost.
    pub open spec fn delta(self, event: ReputationEvent) -> int {
        if event.is_benefit() {
            self.magnitude(event) as int
        } else {
            -(self.magnitude(event) as int)
        }
    }

    /// The report of one occurrence of `event` by `peer`.
    pub open spec fn report(self, peer: PeerId, event: ReputationEvent) -> ReputationReport {
        ReputationReport { peer, event, delta: self.delta(event) as i64 }
    }

    /// The reports of `events` by `peer`: one for each occurrence, in their order.
    pub open spec fn reports(self, peer: PeerId, events: Seq<ReputationEvent>) -> Seq<
        ReputationReport,
    > {
        Seq::new(events.len(), |i: int| self.report(peer, events[i]))
    }

    /// The table that rewards a first valid statement most, rewards other valid
    /// statements and answered requests, and counts a repeated statement as a minor
    /// offence and every other offence as a major one.
    pub fn standard() -> (table: Self)
        ensures
            table == (ReputationTable {
                first_valid_statement: BENEFIT_MAJOR_FIRST,
                valid_statement: BENEFIT_MAJOR,
                valid_response: BENEFIT_MAJOR,
                unrequested_response_statement: COST_MAJOR,
                invalid_signature: COST_MAJOR,
                malformed_response: COST_MAJOR,
                duplicate_statement: COST_MINOR,
            }),
    {
        ReputationTable {
            first_valid_statement: BENEFIT_MAJOR_FIRST,
            valid_statement: BENEFIT_MAJOR,
            valid_response: BENEFIT_MAJOR,
            unrequested_response_statement: COST_MAJOR,
            invalid_signature: COST_MAJOR,
            malformed_response: COST_MAJOR,
            duplicate_statement: COST_MINOR,
        }
    }
}

/// One change of one peer's reputation, as it is handed to the network layer.
#[derive(Clone, Copy, Debug, PartialEq, Eq, Structural)]
pub struct ReputationReport {
    /// The peer whose reputation changes.
    pub peer: PeerId,
    /// The behaviour that the change answers.
    pub event: ReputationEvent,
    /// The change: positive for a benefit, negative for a cost.
    pub delta: i64,
}

/// The reputation ledger. It owns the table of magnitudes and nothing else.
#[derive(Clone, Copy, Debug, PartialEq, Eq, Structural)]
pub struct ReputationLedger {
    table: ReputationTable,
}

impl View for ReputationLedger {
    type V = ReputationTable;

    closed spec fn view(&self) -> ReputationTable {
        self.table
    }
}

impl ReputationLedger {
    /// The ledger that goes by `table`.
    pub fn new(table: ReputationTable) -> (ledger: Self)
        ensures
            ledger@ == table,
    {
        ReputationLedger { table }
    }

    /// The table that the ledger goes by.
    pub fn table(&self) -> (table: ReputationTable)
        ensures
            table == self@,
    {
        self.table
    }

    /// The magnitude of `event`.
    pub fn magnitude(&self, event: ReputationEvent) -> (magnitude: u32)
        ensures
            magnitude == self@.magnitude(event),
    {
        match event {
            ReputationEvent::FirstValidStatement => self.table.first_valid_statement,
            ReputationEvent::ValidStatement => self.table.valid_statement,
            ReputationEvent::ValidResponse => self.table.valid_response,
            ReputationEvent::UnrequestedResponseStatement => self.table.unrequested_response_statement,
            ReputationEvent::InvalidSignature => self.table.invalid_signature,
            ReputationEvent::MalformedResponse => self.table.malformed_response,
            ReputationEvent::DuplicateStatement => self.table.duplicate_statement,
        }
    }

    /// The report of one occurrence of `event` by `peer`.
    pub fn report(&self, peer: PeerId, event: ReputationEvent) -> (report: ReputationReport)
        ensures
            report == self@.report(peer, event),
            report.peer == peer,
            report.event == event,
            report.delta == self@.delta(event),
    {
        let magnitude: i64 = self.magnitude(event) as i64;
        let delta: i64 = if event.benefits() {
            magnitude
        } else {
            -magnitude
        };
        ReputationReport { peer, event, delta }
    }

    /// The reports of `events` by `peer`: one for each occurrence, in their order.
    /// Occurrences of the same event are not merged.
    pub fn report_all(&self, peer: PeerId, events: &Vec<ReputationEvent>) -> (reports: Vec<
        ReputationReport,
    >)
        ensures
            reports@ == self@.reports(peer, events@),
    {
        let mut reports: Vec<ReputationReport> = Vec::new();
        let mut i: usize = 0;
        while i < events.len()
            invariant
                i <= events@.len(),
                reports@ == self@.reports(peer, events@.take(i as int)),
            decreases events@.len() - i,
        {
            reports.push(self.report(peer, events[i]));
            assert(reports@ =~= self@.reports(peer, events@.take(i + 1)));
            i += 1;
        }
        assert(events@.take(i as int) =~= events@);
        reports
    }
}

} // verus!
