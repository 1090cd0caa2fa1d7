//! The response validator: what is made of a peer's answer to a request for the
//! statements on a candidate.
//!
//! The statements of a response are judged one by one, in the order in which they
//! came. Each gives one reputation event; a response that can be read and is about
//! the candidate asked for gives one more at the end, whatever its statements were
//! worth.

use crate::filter::{mask_has, Known, StatementFilter};
use crate::knowledge::{
    knowledge_extends, lemma_extends_reflexive, lemma_extends_transitive, recorded_local,
    recorded_peer, CandidateView, KnowledgeStore,
};
use crate::primitives::{find_position, position_in, CandidateHash, PeerId, StatementKind, ValidatorIndex};
use crate::reputation::ReputationEvent;
use vstd::prelude::*;

verus! {

/// A statement as it came from a peer, with what checking its signature gave.
#[derive(Clone, Copy, Debug, PartialEq, Eq, Structural)]
pub struct IncomingStatement {
    /// The validator that the statement names as its author.
    pub validator: ValidatorIndex,
    /// What the statement asserts.
    pub kind: StatementKind,
    /// Whether the signature checked against the key of that validator and the signing
    /// context of the relay parent.
    pub signature_valid: bool,
}

/// A peer's answer to a request, as far as it could be read.
#[derive(Clone, Debug, PartialEq, Eq)]
pub struct AttestedCandidateResponse {
    /// The hash of the candidate receipt that the response holds.
    pub candidate_hash: CandidateHash,
    /// The statements, in the order in which the response holds them.
    pub statements: Vec<IncomingStatement>,
}

/// A response as contracts see it.
pub ghost struct ResponseView {
    pub candidate_hash: CandidateHash,
    pub statements: Seq<IncomingStatement>,
}

impl View for AttestedCandidateResponse {
    type V = ResponseView;

    open spec fn view(&self) -> ResponseView {
        ResponseView { candidate_hash: self.candidate_hash, statements: self.statements@ }
    }
}

/// The view of a response that may have been unreadable.
pub open spec fn read_as(response: Option<AttestedCandidateResponse>) -> Option<ResponseView> {
    match response {
        Some(r) => Some(r@),
        None => None,
    }
}

/// What is made of one statement of a response.
#[derive(Clone, Copy, Debug, PartialEq, Eq, Structural)]
pub enum Verdict {
    /// The response held a statement by the same validator and of the same kind
    /// before.
    Duplicate,
    /// The mask of the request marked the statement as known, or its validator is
    /// outside the candidate's group.
    Unrequested,
    /// The signature did not check.
    InvalidSignature,
    /// The statement is taken in.
    Accepted,
}

/// Whether a statement by the same validator and of the same kind stands before
/// position `i` in `statements`.
pub open spec fn seen_before(statements: Seq<IncomingStatement>, i: int) -> bool {
    exists|j: int|
        0 <= j < i && (#[trigger] statements[j]).validator == statements[i].validator
            && statements[j].kind == statements[i].kind
}

/// Whether the request with the mask `mask` asked for `statement`: its validator is in
/// the group and `mask` does not mark it.
pub open spec fn asked_for(
    group: Seq<ValidatorIndex>,
    mask: Seq<Known>,
    statement: IncomingStatement,
) -> bool {
    match position_in(group, statement.validator) {
        Some(position) => 0 <= position < mask.len() && !mask[position].has(statement.kind),
        None => false,
    }
}

/// What is made of the statement at position `i` of a response to a request with the
/// mask `mask` for a candidate of the group `group`.
pub open spec fn verdict_at(
    group: Seq<ValidatorIndex>,
    mask: Seq<Known>,
    statements: Seq<IncomingStatement>,
    i: int,
) -> Verdict {
    if seen_before(statements, i) {
        Verdict::Duplicate
    } else if !asked_for(group, mask, statements[i]) {
        Verdict::Unrequested
    } else if !statements[i].signature_valid {
        Verdict::InvalidSignature
    } else {
        Verdict::Accepted
    }
}

/// The reputation event that a statement with the verdict `verdict` gives. `known` says
/// whether the statement was known locally before the response.
pub open spec fn event_for(verdict: Verdict, known: bool) -> ReputationEvent {
    match verdict {
        Verdict::Duplicate => ReputationEvent::DuplicateStatement,
        Verdict::Unrequested => ReputationEvent::UnrequestedResponseStatement,
        Verdict::InvalidSignature => ReputationEvent::InvalidSignature,
        Verdict::Accepted => if known {
            ReputationEvent::ValidStatement
        } else {
            ReputationEvent::FirstValidStatement
        },
    }
}

/// The reputation event that the statement at position `i` gives.
pub open spec fn event_at(
    candidate: CandidateView,
    mask: Seq<Known>,
    statements: Seq<IncomingStatement>,
    i: int,
) -> ReputationEvent {
    event_for(
        verdict_at(candidate.group, mask, statements, i),
        candidate.knows(statements[i].validator, statements[i].kind),
    )
}

/// The reputation events that the statements give: one for each, in their order.
pub open spec fn statement_events(
    candidate: CandidateView,
    mask: Seq<Known>,
    statements: Seq<IncomingStatement>,
) -> Seq<ReputationEvent> {
    Seq::new(statements.len(), |i: int| event_at(candidate, mask, statements, i))
}

/// The statements among the first `upto` that are accepted, in their order.
pub open spec fn accepted_among(
    group: Seq<ValidatorIndex>,
    mask: Seq<Known>,
    statements: Seq<IncomingStatement>,
    upto: nat,
) -> Seq<IncomingStatement>
    decreases upto,
{
    if upto == 0 {
        Seq::empty()
    } else {
        let before = accepted_among(group, mask, statements, (upto - 1) as nat);
        if verdict_at(group, mask, statements, upto - 1) == Verdict::Accepted {
            before.push(statements[upto - 1])
        } else {
            before
        }
    }
}

/// Whether the response could be read and is about the candidate `requested`.
pub open spec fn well_formed(requested: CandidateHash, response: Option<ResponseView>) -> bool {
    response matches Some(r) && r.candidate_hash == requested
}

/// The reputation events that a response to a request for `requested` with the mask
/// `mask` gives, in their order. A response that is not well formed gives one
/// `MalformedResponse` and nothing else. A well-formed one gives the events of its
/// statements and then one `ValidResponse`. Where the candidate is not tracked there is
/// nothing to judge the response by, and it gives nothing.
pub open spec fn response_events(
    knowledge: Map<CandidateHash, CandidateView>,
    requested: CandidateHash,
    mask: Seq<Known>,
    response: Option<ResponseView>,
) -> Seq<ReputationEvent> {
    if !knowledge.contains_key(requested) {
        Seq::empty()
    } else if !well_formed(requested, response) {
        seq![ReputationEvent::MalformedResponse]
    } else {
        statement_events(knowledge[requested], mask, response->Some_0.statements).push(
            ReputationEvent::ValidResponse,
        )
    }
}

/// The statements of a response that are accepted, in their order. None of a response
/// that is not well formed is.
pub open spec fn response_accepted(
    knowledge: Map<CandidateHash, CandidateView>,
    requested: CandidateHash,
    mask: Seq<Known>,
    response: Option<ResponseView>,
) -> Seq<IncomingStatement> {
    if knowledge.contains_key(requested) && well_formed(requested, response) {
        let statements = response->Some_0.statements;
        accepted_among(knowledge[requested].group, mask, statements, statements.len())
    } else {
        Seq::empty()
    }
}

/// `knowledge` after the statements `accepted` on `candidate`, which `peer` provided,
/// are recorded as known locally and as known to `peer`.
pub open spec fn absorbed(
    knowledge: Map<CandidateHash, CandidateView>,
    peer: PeerId,
    candidate: CandidateHash,
    accepted: Seq<IncomingStatement>,
) -> Map<CandidateHash, CandidateView>
    decreases accepted.len(),
{
    if accepted.len() == 0 {
        knowledge
    } else {
        let last = accepted.last();
        recorded_peer(
            recorded_local(
                absorbed(knowledge, peer, candidate, accepted.drop_last()),
                candidate,
                last.validator,
                last.kind,
            ),
            peer,
            candidate,
            last.validator,
            last.kind,
        )
    }
}

/// What a response came to.
#[derive(Clone, Debug, PartialEq, Eq)]
pub struct Validated {
    /// The reputation events of the peer that answered, in the order in which they are
    /// to be reported.
    pub events: Vec<ReputationEvent>,
    /// The statements that were accepted, in the order of the response.
    pub accepted: Vec<IncomingStatement>,
}

fn stands_before(statements: &Vec<IncomingStatement>, i: usize) -> (seen: bool)
    requires
        i < statements@.len(),
    ensures
        seen == seen_before(statements@, i as int),
{
    let mut j: usize = 0;
    while j < i
        invariant
            j <= i < statements@.len(),
            forall|k: int|
                0 <= k < j ==> !((#[trigger] statements@[k]).validator == statements@[i as int].validator
                    && statements@[k].kind == statements@[i as int].kind),
        decreases i - j,
    {
        if statements[j].validator == statements[i].validator && statements[j].kind
            == statements[i].kind {
            return true;
        }
        j += 1;
    }
    false
}

/// Judges the statement at position `i` of a response to a request with the mask
/// `mask` for a candidate of the group `group`, of which `local` is known locally:
/// gives the verdict, and the reputation event that goes with it.
pub fn judge(
    group: &Vec<ValidatorIndex>,
    local: &StatementFilter,
    mask: &StatementFilter,
    statements: &Vec<IncomingStatement>,
    i: usize,
) -> (judged: (Verdict, ReputationEvent))
    requires
        i < statements@.len(),
    ensures
        judged.0 == verdict_at(group@, mask@, statements@, i as int),
        judged.1 == event_for(
            judged.0,
            (CandidateView { group: group@, local: local@, peers: Map::empty() }).knows(
                statements@[i as int].validator,
                statements@[i as int].kind,
            ),
        ),
{
    let statement = statements[i];
    if stands_before(statements, i) {
        return (Verdict::Duplicate, ReputationEvent::DuplicateStatement);
    }
    match find_position(group, statement.validator) {
        Some(position) => {
            if position >= mask.group_size() || mask.contains(position, statement.kind) {
                (Verdict::Unrequested, ReputationEvent::UnrequestedResponseStatement)
            } else if !statement.signature_valid {
                (Verdict::InvalidSignature, ReputationEvent::InvalidSignature)
            } else if local.contains(position, statement.kind) {
                (Verdict::Accepted, ReputationEvent::ValidStatement)
            } else {
                (Verdict::Accepted, ReputationEvent::FirstValidStatement)
            }
        },
        None => (Verdict::Unrequested, ReputationEvent::UnrequestedResponseStatement),
    }
}

/// Judges the response `response` of a peer to the request for `requested` that was sent
/// with the mask `mask`. `None` stands for a response that could not be read. The
/// store is only read: see [`absorb`] for taking the accepted statements in.
pub fn validate_response(
    store: &KnowledgeStore,
    requested: CandidateHash,
    mask: &StatementFilter,
    response: &Option<AttestedCandidateResponse>,
) -> (validated: Validated)
    requires
        store.wf(),
    ensures
        validated.events@ == response_events(store@, requested, mask@, read_as(*response)),
        validated.accepted@ == response_accepted(store@, requested, mask@, read_as(*response)),
{
    let mut events: Vec<ReputationEvent> = Vec::new();
    let mut accepted: Vec<IncomingStatement> = Vec::new();
    let (group, local) = match (store.group_of(requested), store.mask_for(requested)) {
        (Some(group), Some(local)) => (group, local),
        _ => {
            return Validated { events, accepted };
        },
    };
    let answer = match response {
        Some(answer) => answer,
        None => {
            events.push(ReputationEvent::MalformedResponse);
            assert(events@ =~= seq![ReputationEvent::MalformedResponse]);
            return Validated { events, accepted };
        },
    };
    if answer.candidate_hash != requested {
        events.push(ReputationEvent::MalformedResponse);
        assert(events@ =~= seq![ReputationEvent::MalformedResponse]);
        return Validated { events, accepted };
    }
    let ghost candidate = store@[requested];
    let ghost statements = answer.statements@;
    let mut i: usize = 0;
    while i < answer.statements.len()
        invariant
            i <= statements.len(),
            statements == answer.statements@,
            group@ == candidate.group,
            local@ == candidate.local,
            events@ == Seq::new(i as nat, |k: int| event_at(candidate, mask@, statements, k)),
            accepted@ == accepted_among(candidate.group, mask@, statements, i as nat),
        decreases statements.len() - i,
    {
        let (verdict, event) = judge(&group, &local, mask, &answer.statements, i);
        events.push(event);
        if verdict == Verdict::Accepted {
            accepted.push(answer.statements[i]);
        }
        proof {
            assert(event == event_at(candidate, mask@, statements, i as int));
            assert(events@ =~= Seq::new(
                (i + 1) as nat,
                |k: int| event_at(candidate, mask@, statements, k),
            ));
        }
        i += 1;
    }
    events.push(ReputationEvent::ValidResponse);
    proof {
        assert(events@ =~= statement_events(candidate, mask@, statements).push(
            ReputationEvent::ValidResponse,
        ));
    }
    Validated { events, accepted }
}

/// Records the statements `accepted` on `candidate`, which `peer` provided, as known
/// locally and as known to `peer`.
pub fn absorb(
    store: &mut KnowledgeStore,
    peer: PeerId,
    candidate: CandidateHash,
    accepted: &Vec<IncomingStatement>,
)
    requires
        old(store).wf(),
    ensures
        final(store).wf(),
        final(store)@ == absorbed(old(store)@, peer, candidate, accepted@),
        knowledge_extends(final(store)@, old(store)@),
{
    let mut i: usize = 0;
    proof {
        lemma_extends_reflexive(store@);
    }
    while i < accepted.len()
        invariant
            i <= accepted@.len(),
            store.wf(),
            store@ == absorbed(old(store)@, peer, candidate, accepted@.take(i as int)),
            knowledge_extends(store@, old(store)@),
        decreases accepted@.len() - i,
    {
        let ghost before = store@;
        let statement = accepted[i];
        store.record_local(candidate, statement.validator, statement.kind);
        let ghost between = store@;
        store.record_peer(peer, candidate, statement.validator, statement.kind);
        proof {
            assert(accepted@.take(i + 1).drop_last() =~= accepted@.take(i as int));
            lemma_extends_transitive(between, before, old(store)@);
            lemma_extends_transitive(store@, between, old(store)@);
        }
        i += 1;
    }
    assert(accepted@.take(i as int) =~= accepted@);
}

/// Judges the response `response` of `peer` to the request for `requested` that was
/// sent with the mask `mask`, and takes the accepted statements into the store, as
/// known locally and as known to `peer`.
pub fn process_response(
    store: &mut KnowledgeStore,
    peer: PeerId,
    requested: CandidateHash,
    mask: &StatementFilter,
    response: &Option<AttestedCandidateResponse>,
) -> (validated: Validated)
    requires
        old(store).wf(),
    ensures
        final(store).wf(),
        validated.events@ == response_events(old(store)@, requested, mask@, read_as(*response)),
        validated.accepted@ == response_accepted(
            old(store)@,
            requested,
            mask@,
            read_as(*response),
        ),
        final(store)@ == absorbed(old(store)@, peer, requested, validated.accepted@),
        knowledge_extends(final(store)@, old(store)@),
{
    let validated = validate_response(store, requested, mask, response);
    absorb(store, peer, requested, &validated.accepted);
    validated
}

/// How often `event` occurs in `events`.
pub open spec fn occurrences(events: Seq<ReputationEvent>, event: ReputationEvent) -> nat
    decreases events.len(),
{
    if events.len() == 0 {
        0
    } else {
        occurrences(events.drop_last(), event) + if events.last() == event {
            1nat
        } else {
            0nat
        }
    }
}

/// Duplicate detection: a statement whose validator and kind stood in the response
/// before is a duplicate, whatever else holds of it. It gives one `DuplicateStatement`
/// and is not among the accepted statements.
pub proof fn lemma_repeated_statement_is_duplicate(
    candidate: CandidateView,
    mask: Seq<Known>,
    statements: Seq<IncomingStatement>,
    i: int,
)
    requires
        0 <= i < statements.len(),
        seen_before(statements, i),
    ensures
        verdict_at(candidate.group, mask, statements, i) == Verdict::Duplicate,
        event_at(candidate, mask, statements, i) == ReputationEvent::DuplicateStatement,
        accepted_among(candidate.group, mask, statements, (i + 1) as nat) == accepted_among(
            candidate.group,
            mask,
            statements,
            i as nat,
        ),
{
}

/// Duplicate detection, for a response that holds the same statement twice: the second
/// gives the one `DuplicateStatement` of the response and is not accepted. The first
/// is accepted, once, if it was asked for and its signature is valid, and then gives a
/// benefit.
pub proof fn lemma_statement_sent_twice(
    knowledge: Map<CandidateHash, CandidateView>,
    requested: CandidateHash,
    mask: Seq<Known>,
    first: IncomingStatement,
    second: IncomingStatement,
)
    requires
        knowledge.contains_key(requested),
        second.validator == first.validator,
        second.kind == first.kind,
    ensures
        ({
            let statements = seq![first, second];
            let response = Some(ResponseView { candidate_hash: requested, statements });
            let candidate = knowledge[requested];
            let events = response_events(knowledge, requested, mask, response);
            let accepted = response_accepted(knowledge, requested, mask, response);
            let taken = asked_for(candidate.group, mask, first) && first.signature_valid;
            &&& events.len() == 3
            &&& events[0] != ReputationEvent::DuplicateStatement
            &&& events[1] == ReputationEvent::DuplicateStatement
            &&& events[2] == ReputationEvent::ValidResponse
            &&& occurrences(events, ReputationEvent::DuplicateStatement) == 1
            &&& taken ==> accepted == seq![first] && events[0].is_benefit()
            &&& !taken ==> accepted == Seq::<IncomingStatement>::empty() && !events[0].is_benefit()
        }),
{
    let statements = seq![first, second];
    let response = Some(ResponseView { candidate_hash: requested, statements });
    let candidate = knowledge[requested];
    let events = response_events(knowledge, requested, mask, response);
    assert(statements[0] == first && statements[1] == second);
    assert(!seen_before(statements, 0));
    assert(seen_before(statements, 1)) by {
        assert(statements[0].validator == statements[1].validator);
    }
    reveal_with_fuel(accepted_among, 3);
    assert(accepted_among(candidate.group, mask, statements, 0) =~= Seq::empty());
    if asked_for(candidate.group, mask, first) && first.signature_valid {
        assert(accepted_among(candidate.group, mask, statements, 2) =~= seq![first]);
    } else {
        assert(accepted_among(candidate.group, mask, statements, 2) =~= Seq::empty());
    }
    let two = events.drop_last();
    let one = two.drop_last();
    assert(one.drop_last() =~= Seq::empty());
    reveal_with_fuel(occurrences, 4);
    assert(occurrences(one.drop_last(), ReputationEvent::DuplicateStatement) == 0);
}

/// Unrequested detection: a statement that the mask of the request marked as known,
/// and that did not stand in the response before, gives one
/// `UnrequestedResponseStatement` and is not accepted, whether its signature is valid
/// or not.
pub proof fn lemma_masked_statement_is_unrequested(
    candidate: CandidateView,
    mask: Seq<Known>,
    statements: Seq<IncomingStatement>,
    i: int,
)
    requires
        0 <= i < statements.len(),
        !seen_before(statements, i),
        position_in(candidate.group, statements[i].validator) matches Some(position) && mask_has(
            mask,
            position,
            statements[i].kind,
        ),
    ensures
        verdict_at(candidate.group, mask, statements, i) == Verdict::Unrequested,
        event_at(candidate, mask, statements, i) == ReputationEvent::UnrequestedResponseStatement,
        accepted_among(candidate.group, mask, statements, (i + 1) as nat) == accepted_among(
            candidate.group,
            mask,
            statements,
            i as nat,
        ),
{
}

proof fn lemma_benefits_among(
    candidate: CandidateView,
    mask: Seq<Known>,
    statements: Seq<IncomingStatement>,
    upto: nat,
)
    requires
        upto <= statements.len(),
    ensures
        ({
            let events = Seq::new(upto, |k: int| event_at(candidate, mask, statements, k));
            &&& occurrences(events, ReputationEvent::ValidResponse) == 0
            &&& occurrences(events, ReputationEvent::MalformedResponse) == 0
            &&& occurrences(events, ReputationEvent::ValidStatement) + occurrences(
                events,
                ReputationEvent::FirstValidStatement,
            ) == accepted_among(candidate.group, mask, statements, upto).len()
        }),
    decreases upto,
{
    if upto > 0 {
        let events = Seq::new(upto, |k: int| event_at(candidate, mask, statements, k));
        let before = Seq::new((upto - 1) as nat, |k: int| event_at(candidate, mask, statements, k));
        lemma_benefits_among(candidate, mask, statements, (upto - 1) as nat);
        assert(events.drop_last() =~= before);
        assert(events.last() == event_at(candidate, mask, statements, upto - 1));
    }
}

/// Completion benefit: a well-formed response gives exactly one `ValidResponse`,
/// whatever its statements were worth, and as many statement benefits as it has
/// accepted statements. So one without an accepted statement still gives the one
/// `ValidResponse`, and no `ValidStatement`.
pub proof fn lemma_completion_benefit(
    knowledge: Map<CandidateHash, CandidateView>,
    requested: CandidateHash,
    mask: Seq<Known>,
    response: Option<ResponseView>,
)
    requires
        knowledge.contains_key(requested),
        well_formed(requested, response),
    ensures
        ({
            let events = response_events(knowledge, requested, mask, response);
            let accepted = response_accepted(knowledge, requested, mask, response);
            &&& events.last() == ReputationEvent::ValidResponse
            &&& occurrences(events, ReputationEvent::ValidResponse) == 1
            &&& occurrences(events, ReputationEvent::MalformedResponse) == 0
            &&& occurrences(events, ReputationEvent::ValidStatement) + occurrences(
                events,
                ReputationEvent::FirstValidStatement,
            ) == accepted.len()
            &&& accepted.len() == 0 ==> occurrences(events, ReputationEvent::ValidStatement) == 0
                && occurrences(events, ReputationEvent::FirstValidStatement) == 0
        }),
{
    let statements = response->Some_0.statements;
    let candidate = knowledge[requested];
    let events = response_events(knowledge, requested, mask, response);
    lemma_benefits_among(candidate, mask, statements, statements.len());
    assert(events.drop_last() =~= statement_events(candidate, mask, statements));
}

} // verus!
