//! The distribution coordinator: the state of every active relay parent, and what
//! each event does to it.
//!
//! The coordinator does no sending itself. Each event is handed to it as a call, and
//! it returns the actions that the caller is to perform, in their order.

use crate::filter::{Known, StatementFilter};
use crate::knowledge::{
    knowledge_extends, knows_local, lemma_extends_reflexive, lemma_extends_transitive,
    recorded_local, recorded_peer, state_in, taken_up, CandidateState, CandidateView,
    KnowledgeStore,
};
use crate::primitives::{
    find_position, CandidateHash, PeerId, RelayParent, StatementKind, ValidatorIndex,
};
use crate::rebroadcast::{forward, forwarded, PeerStatus};
use crate::reputation::{ReputationEvent, ReputationLedger, ReputationReport, ReputationTable};
use crate::requests::{
    after_request, request_due, AttestedCandidateRequest, IfDisconnected, OutstandingView,
    RequestKey, RequestReason, RequestScheduler,
};
use crate::response::{
    absorbed, process_response, read_as, response_accepted, response_events,
    AttestedCandidateResponse, IncomingStatement, ResponseView,
};
use crate::table::Table;
use vstd::prelude::*;

verus! {

/// What the fragment tree says of a candidate: whether it could be a member at some
/// depth.
#[derive(Clone, Copy, Debug, PartialEq, Eq, Structural)]
pub enum Membership {
    /// The candidate could be a member.
    Member,
    /// The answer has not come yet.
    Pending,
    /// The candidate cannot be a member. Its statements are not passed on.
    NotMember,
}

/// Something that the caller of the coordinator is to do.
#[derive(Clone, Debug, PartialEq, Eq)]
pub enum Action {
    /// Report a change of reputation to the network layer.
    ReportPeer(ReputationReport),
    /// Send a request for the statements on a candidate.
    SendRequest {
        peer: PeerId,
        request: AttestedCandidateRequest,
        if_disconnected: IfDisconnected,
    },
    /// Send a statement to peers.
    SendStatement {
        peers: Vec<PeerId>,
        relay_parent: RelayParent,
        candidate: CandidateHash,
        validator: ValidatorIndex,
        kind: StatementKind,
    },
}

/// An action as contracts see it.
pub ghost enum ActionView {
    ReportPeer(ReputationReport),
    SendRequest {
        peer: PeerId,
        candidate: CandidateHash,
        mask: Seq<Known>,
        if_disconnected: IfDisconnected,
    },
    SendStatement {
        peers: Seq<PeerId>,
        relay_parent: RelayParent,
        candidate: CandidateHash,
        validator: ValidatorIndex,
        kind: StatementKind,
    },
}

impl View for Action {
    type V = ActionView;

    open spec fn view(&self) -> ActionView {
        match *self {
            Action::ReportPeer(report) => ActionView::ReportPeer(report),
            Action::SendRequest { peer, request, if_disconnected } => ActionView::SendRequest {
                peer,
                candidate: request.candidate_hash,
                mask: request.mask@,
                if_disconnected,
            },
            Action::SendStatement {
                peers,
                relay_parent,
                candidate,
                validator,
                kind,
            } => ActionView::SendStatement { peers: peers@, relay_parent, candidate, validator, kind },
        }
    }
}

/// The views of `actions`, in their order.
pub open spec fn views(actions: Seq<Action>) -> Seq<ActionView> {
    actions.map_values(|action: Action| action@)
}

/// The reports `reports` as actions, in their order.
pub open spec fn report_actions(reports: Seq<ReputationReport>) -> Seq<ActionView> {
    reports.map_values(|report: ReputationReport| ActionView::ReportPeer(report))
}

/// The state of one relay parent as contracts see it.
pub ghost struct HeadView {
    /// What is known of each candidate.
    pub knowledge: Map<CandidateHash, CandidateView>,
    /// The requests that are under way.
    pub requests: Map<RequestKey, OutstandingView>,
}

/// The coordinator as contracts see it.
pub ghost struct CoordinatorView {
    /// The table of the reputation ledger.
    pub table: ReputationTable,
    /// The state of each active relay parent.
    pub heads: Map<RelayParent, HeadView>,
}

/// What passing one statement on comes to: the knowledge after it, and the action for
/// it. A candidate that cannot be a member of the fragment tree is not passed on, and
/// no action is made where there is no peer to send to.
pub open spec fn spread_one(
    knowledge: Map<CandidateHash, CandidateView>,
    relay_parent: RelayParent,
    candidate: CandidateHash,
    validator: ValidatorIndex,
    kind: StatementKind,
    peers: Seq<PeerStatus>,
    membership: Membership,
) -> (Map<CandidateHash, CandidateView>, Seq<ActionView>) {
    if membership == Membership::NotMember {
        (knowledge, Seq::empty())
    } else {
        let (after, recipients) = forwarded(knowledge, candidate, validator, kind, peers);
        if recipients.len() == 0 {
            (after, Seq::empty())
        } else {
            (
                after,
                seq![
                    ActionView::SendStatement {
                        peers: recipients,
                        relay_parent,
                        candidate,
                        validator,
                        kind,
                    },
                ],
            )
        }
    }
}

/// What passing the statements `statements` on, one after the other, comes to.
pub open spec fn spread_all(
    knowledge: Map<CandidateHash, CandidateView>,
    relay_parent: RelayParent,
    candidate: CandidateHash,
    statements: Seq<IncomingStatement>,
    peers: Seq<PeerStatus>,
    membership: Membership,
) -> (Map<CandidateHash, CandidateView>, Seq<ActionView>)
    decreases statements.len(),
{
    if statements.len() == 0 {
        (knowledge, Seq::empty())
    } else {
        let (before, actions) = spread_all(
            knowledge,
            relay_parent,
            candidate,
            statements.drop_last(),
            peers,
            membership,
        );
        let last = statements.last();
        let (after, more) = spread_one(
            before,
            relay_parent,
            candidate,
            last.validator,
            last.kind,
            peers,
            membership,
        );
        (after, actions + more)
    }
}

/// The action that asks `peer` for the statements on `candidate`, where a request is
/// due, and nothing where none is. The mask of the request is the local mask.
pub open spec fn asking(
    requests: Map<RequestKey, OutstandingView>,
    knowledge: Map<CandidateHash, CandidateView>,
    candidate: CandidateHash,
    peer: PeerId,
    peer_has_view: bool,
) -> Seq<ActionView> {
    if request_due(requests, knowledge, candidate, peer, peer_has_view) {
        seq![
            ActionView::SendRequest {
                peer,
                candidate,
                mask: knowledge[candidate].local,
                if_disconnected: IfDisconnected::ImmediateError,
            },
        ]
    } else {
        Seq::empty()
    }
}

/// What a manifest by which `peer` announced `candidate` does to the state of its relay
/// parent: a request to the peer is made if one is due. Nothing is recorded and no
/// reputation changes.
pub open spec fn manifest_step(
    head: HeadView,
    peer: PeerId,
    candidate: CandidateHash,
    peer_has_view: bool,
    deadline: u64,
) -> (HeadView, Seq<ActionView>) {
    (
        HeadView {
            requests: after_request(
                head.requests,
                head.knowledge,
                candidate,
                peer,
                peer_has_view,
                deadline,
                RequestReason::ManifestCatchUp,
            ),
            ..head
        },
        asking(head.requests, head.knowledge, candidate, peer, peer_has_view),
    )
}

/// What a statement that `peer` sent by gossip does to the state of its relay parent.
///
/// - A statement on a candidate that is not tracked is dropped.
/// - One whose signature is not valid, or whose validator is outside the candidate's
///   group, costs the peer an `InvalidSignature` and is dropped.
/// - Any other is recorded as known locally and as known to the peer, and earns the
///   peer a `FirstValidStatement` if it was not known locally, else a `ValidStatement`.
///   Then a request to the peer is made if one is due, with the local mask as it is
///   after the recording, and the statement is passed on.
pub open spec fn statement_step(
    table: ReputationTable,
    head: HeadView,
    relay_parent: RelayParent,
    peer: PeerId,
    candidate: CandidateHash,
    statement: IncomingStatement,
    peer_has_view: bool,
    peers: Seq<PeerStatus>,
    membership: Membership,
    deadline: u64,
) -> (HeadView, Seq<ActionView>) {
    if !head.knowledge.contains_key(candidate) {
        (head, Seq::empty())
    } else if !statement.signature_valid || !head.knowledge[candidate].group.contains(
        statement.validator,
    ) {
        (head, seq![ActionView::ReportPeer(table.report(peer, ReputationEvent::InvalidSignature))])
    } else {
        let event = if knows_local(head.knowledge, candidate, statement.validator, statement.kind) {
            ReputationEvent::ValidStatement
        } else {
            ReputationEvent::FirstValidStatement
        };
        let recorded = recorded_peer(
            recorded_local(head.knowledge, candidate, statement.validator, statement.kind),
            peer,
            candidate,
            statement.validator,
            statement.kind,
        );
        let requests = after_request(
            head.requests,
            recorded,
            candidate,
            peer,
            peer_has_view,
            deadline,
            RequestReason::GapFill,
        );
        let (spread, sending) = spread_one(
            recorded,
            relay_parent,
            candidate,
            statement.validator,
            statement.kind,
            peers,
            membership,
        );
        (
            HeadView { knowledge: spread, requests },
            seq![ActionView::ReportPeer(table.report(peer, event))] + asking(
                head.requests,
                recorded,
                candidate,
                peer,
                peer_has_view,
            ) + sending,
        )
    }
}

/// What the response of `peer` to the request for `candidate` does to the state of its
/// relay parent. `None` stands for a response that could not be read.
///
/// - A response to which no request is outstanding is dropped.
/// - Else the request is outstanding no longer. The response is judged against the
///   mask that was sent, the accepted statements are recorded as known locally and as
///   known to the peer, every reputation event is reported in its order, and then the
///   accepted statements are passed on.
pub open spec fn response_step(
    table: ReputationTable,
    head: HeadView,
    relay_parent: RelayParent,
    peer: PeerId,
    candidate: CandidateHash,
    response: Option<ResponseView>,
    peers: Seq<PeerStatus>,
    membership: Membership,
) -> (HeadView, Seq<ActionView>) {
    let key = RequestKey { peer, candidate };
    if !head.requests.contains_key(key) {
        (head, Seq::empty())
    } else {
        let mask = head.requests[key].mask;
        let events = response_events(head.knowledge, candidate, mask, response);
        let accepted = response_accepted(head.knowledge, candidate, mask, response);
        let (spread, sending) = spread_all(
            absorbed(head.knowledge, peer, candidate, accepted),
            relay_parent,
            candidate,
            accepted,
            peers,
            membership,
        );
        (
            HeadView { knowledge: spread, requests: head.requests.remove(key) },
            report_actions(table.reports(peer, events)) + sending,
        )
    }
}

impl CoordinatorView {
    /// `self` with `step` done to the state of `relay_parent`. Where the relay parent is
    /// not active, nothing is done.
    pub open spec fn at(
        self,
        relay_parent: RelayParent,
        step: spec_fn(HeadView) -> (HeadView, Seq<ActionView>),
    ) -> (CoordinatorView, Seq<ActionView>) {
        if self.heads.contains_key(relay_parent) {
            let (head, actions) = step(self.heads[relay_parent]);
            (CoordinatorView { heads: self.heads.insert(relay_parent, head), ..self }, actions)
        } else {
            (self, Seq::empty())
        }
    }

    /// Whether `self` has every relay parent that `earlier` has, with everything that
    /// was known under it in `earlier`.
    pub open spec fn extends(self, earlier: CoordinatorView) -> bool {
        forall|relay_parent: RelayParent| #[trigger]
            earlier.heads.contains_key(relay_parent) ==> self.heads.contains_key(relay_parent)
                && knowledge_extends(
                self.heads[relay_parent].knowledge,
                earlier.heads[relay_parent].knowledge,
            )
    }
}

struct Head {
    knowledge: KnowledgeStore,
    requests: RequestScheduler,
}

impl Head {
    spec fn view(&self) -> HeadView {
        HeadView { knowledge: self.knowledge@, requests: self.requests@ }
    }

    spec fn wf(&self) -> bool {
        self.knowledge.wf() && self.requests.wf()
    }
}

/// The distribution coordinator. It owns the state of every active relay parent;
/// nothing outlives its relay parent.
pub struct Coordinator {
    ledger: ReputationLedger,
    heads: Table<RelayParent, Head>,
}

impl View for Coordinator {
    type V = CoordinatorView;

    closed spec fn view(&self) -> CoordinatorView {
        CoordinatorView { table: self.ledger@, heads: self.heads@.map_values(|head: Head| head@) }
    }
}

fn spread(
    store: &mut KnowledgeStore,
    actions: &mut Vec<Action>,
    relay_parent: RelayParent,
    candidate: CandidateHash,
    validator: ValidatorIndex,
    kind: StatementKind,
    peers: &Vec<PeerStatus>,
    membership: Membership,
)
    requires
        old(store).wf(),
    ensures
        final(store).wf(),
        final(store)@ == spread_one(
            old(store)@,
            relay_parent,
            candidate,
            validator,
            kind,
            peers@,
            membership,
        ).0,
        views(final(actions)@) == views(old(actions)@) + spread_one(
            old(store)@,
            relay_parent,
            candidate,
            validator,
            kind,
            peers@,
            membership,
        ).1,
        knowledge_extends(final(store)@, old(store)@),
{
    if membership == Membership::NotMember {
        proof {
            lemma_extends_reflexive(store@);
            assert(views(actions@) =~= views(actions@) + Seq::<ActionView>::empty());
        }
        return ;
    }
    let recipients = forward(store, candidate, validator, kind, peers);
    if recipients.len() > 0 {
        let ghost sent = recipients@;
        actions.push(Action::SendStatement { peers: recipients, relay_parent, candidate, validator, kind });
        proof {
            assert(views(actions@) =~= views(old(actions)@) + seq![
                ActionView::SendStatement {
                    peers: sent,
                    relay_parent,
                    candidate,
                    validator,
                    kind,
                },
            ]);
        }
    } else {
        proof {
            assert(views(actions@) =~= views(actions@) + Seq::<ActionView>::empty());
        }
    }
}

impl Coordinator {
    /// Whether the coordinator is in order. Every coordinator that the functions of this
    /// module hand out is.
    pub closed spec fn wf(&self) -> bool {
        &&& self.heads.wf()
        &&& forall|relay_parent: RelayParent| #[trigger]
            self.heads@.contains_key(relay_parent) ==> self.heads@[relay_parent].wf()
    }

    /// The coordinator without an active relay parent, whose ledger goes by `table`.
    pub fn new(table: ReputationTable) -> (coordinator: Self)
        ensures
            coordinator.wf(),
            coordinator@ == (CoordinatorView { table, heads: Map::empty() }),
    {
        let coordinator = Coordinator { ledger: ReputationLedger::new(table), heads: Table::new() };
        assert(coordinator@.heads =~= Map::empty());
        coordinator
    }

    /// The table that the reputation ledger goes by.
    pub fn table(&self) -> (table: ReputationTable)
        requires
            self.wf(),
        ensures
            table == self@.table,
    {
        self.ledger.table()
    }

    /// Whether `relay_parent` is active.
    pub fn is_active(&self, relay_parent: RelayParent) -> (active: bool)
        requires
            self.wf(),
        ensures
            active == self@.heads.contains_key(relay_parent),
    {
        self.heads.contains(&relay_parent)
    }

    /// Makes `relay_parent` active, with nothing known under it, and says whether it
    /// did. A relay parent that is active already stays as it is.
    pub fn activate_leaf(&mut self, relay_parent: RelayParent) -> (activated: bool)
        requires
            old(self).wf(),
        ensures
            final(self).wf(),
            activated == !old(self)@.heads.contains_key(relay_parent),
            final(self)@ == if activated {
                CoordinatorView {
                    heads: old(self)@.heads.insert(
                        relay_parent,
                        HeadView { knowledge: Map::empty(), requests: Map::empty() },
                    ),
                    ..old(self)@
                }
            } else {
                old(self)@
            },
            final(self)@.extends(old(self)@),
    {
        proof {
            lemma_coordinator_extends_itself(self@);
        }
        if self.heads.contains(&relay_parent) {
            return false;
        }
        let head = Head { knowledge: KnowledgeStore::new(), requests: RequestScheduler::new() };
        self.heads.insert(relay_parent, head);
        proof {
            assert(self@.heads =~= old(self)@.heads.insert(
                relay_parent,
                HeadView { knowledge: Map::empty(), requests: Map::empty() },
            ));
            assert forall|other: RelayParent| #[trigger]
                old(self)@.heads.contains_key(other) implies knowledge_extends(
                self@.heads[other].knowledge,
                old(self)@.heads[other].knowledge,
            ) by {
                lemma_extends_reflexive(old(self)@.heads[other].knowledge);
            }
        }
        true
    }

    /// Drops `relay_parent` with everything known under it and every request that was
    /// under way for it, and says whether it was active.
    pub fn prune(&mut self, relay_parent: RelayParent) -> (pruned: bool)
        requires
            old(self).wf(),
        ensures
            final(self).wf(),
            pruned == old(self)@.heads.contains_key(relay_parent),
            final(self)@ == (CoordinatorView {
                heads: old(self)@.heads.remove(relay_parent),
                ..old(self)@
            }),
    {
        let removed = self.heads.remove(&relay_parent);
        proof {
            assert(self@.heads =~= old(self)@.heads.remove(relay_parent));
        }
        removed.is_some()
    }

    /// Takes up `candidate` under `relay_parent`, with the validator group `group`, and
    /// says whether it did. It does not where the relay parent is not active, where the
    /// candidate is tracked already, or where a validator stands twice in the group.
    pub fn note_candidate(
        &mut self,
        relay_parent: RelayParent,
        candidate: CandidateHash,
        group: Vec<ValidatorIndex>,
    ) -> (added: bool)
        requires
            old(self).wf(),
        ensures
            final(self).wf(),
            added == (old(self)@.heads.contains_key(relay_parent) && !old(
                self,
            )@.heads[relay_parent].knowledge.contains_key(candidate) && group@.no_duplicates()),
            final(self)@ == old(self)@.at(
                relay_parent,
                |head: HeadView|
                    (
                        HeadView { knowledge: taken_up(head.knowledge, candidate, group@), ..head },
                        Seq::empty(),
                    ),
            ).0,
            final(self)@.extends(old(self)@),
    {
        proof {
            lemma_coordinator_extends_itself(self@);
        }
        match self.heads.remove(&relay_parent) {
            Some(mut head) => {
                let ghost before = head@;
                let added = head.knowledge.track(candidate, group);
                let ghost after = head@;
                self.heads.insert(relay_parent, head);
                proof {
                    assert(self@.heads =~= old(self)@.heads.insert(relay_parent, after));
                    lemma_step_extends(old(self)@, relay_parent, after);
                }
                added
            },
            None => {
                proof {
                    assert(self@.heads =~= old(self)@.heads);
                }
                false
            },
        }
    }

    /// Takes in a statement that `peer` sent by gossip under `relay_parent`, and returns
    /// what is to be done about it. `peer_has_view` says whether the peer is believed to
    /// have the relay parent in view, `peers` names the connected peers that the
    /// statement may be passed on to, `membership` is what the fragment tree says of the
    /// candidate, and `deadline` is when a request that is made now is given up.
    pub fn on_statement(
        &mut self,
        relay_parent: RelayParent,
        peer: PeerId,
        candidate: CandidateHash,
        statement: IncomingStatement,
        peer_has_view: bool,
        peers: &Vec<PeerStatus>,
        membership: Membership,
        deadline: u64,
    ) -> (actions: Vec<Action>)
        requires
            old(self).wf(),
        ensures
            final(self).wf(),
            (final(self)@, views(actions@)) == old(self)@.at(
                relay_parent,
                |head: HeadView|
                    statement_step(
                        old(self)@.table,
                        head,
                        relay_parent,
                        peer,
                        candidate,
                        statement,
                        peer_has_view,
                        peers@,
                        membership,
                        deadline,
                    ),
            ),
            final(self)@.extends(old(self)@),
    {
        let mut actions: Vec<Action> = Vec::new();
        proof {
            lemma_coordinator_extends_itself(self@);
            assert(views(actions@) =~= Seq::<ActionView>::empty());
        }
        match self.heads.remove(&relay_parent) {
            Some(mut head) => {
                let ghost before = head@;
                let member = match head.knowledge.group_of(candidate) {
                    Some(group) => find_position(&group, statement.validator).is_some(),
                    None => false,
                };
                if !head.knowledge.is_tracked(candidate) {
                } else if !statement.signature_valid || !member {
                    actions.push(
                        Action::ReportPeer(
                            self.ledger.report(peer, ReputationEvent::InvalidSignature),
                        ),
                    );
                    proof {
                        assert(views(actions@) =~= seq![
                            ActionView::ReportPeer(
                                old(self)@.table.report(peer, ReputationEvent::InvalidSignature),
                            ),
                        ]);
                    }
                } else {
                    let known = head.knowledge.is_known_locally(
                        candidate,
                        statement.validator,
                        statement.kind,
                    );
                    let event = if known {
                        ReputationEvent::ValidStatement
                    } else {
                        ReputationEvent::FirstValidStatement
                    };
                    head.knowledge.record_local(candidate, statement.validator, statement.kind);
                    let ghost local = head.knowledge@;
                    head.knowledge.record_peer(peer, candidate, statement.validator, statement.kind);
                    let ghost recorded = head.knowledge@;
                    actions.push(Action::ReportPeer(self.ledger.report(peer, event)));
                    let ghost reported = views(actions@);
                    let asked = head.requests.maybe_request(
                        &head.knowledge,
                        candidate,
                        peer,
                        peer_has_view,
                        deadline,
                        RequestReason::GapFill,
                    );
                    match asked {
                        Some(request) => {
                            actions.push(
                                Action::SendRequest {
                                    peer,
                                    request,
                                    if_disconnected: IfDisconnected::ImmediateError,
                                },
                            );
                        },
                        None => {},
                    }
                    let ghost requested = views(actions@);
                    spread(
                        &mut head.knowledge,
                        &mut actions,
                        relay_parent,
                        candidate,
                        statement.validator,
                        statement.kind,
                        peers,
                        membership,
                    );
                    proof {
                        let expected = statement_step(
                            old(self)@.table,
                            before,
                            relay_parent,
                            peer,
                            candidate,
                            statement,
                            peer_has_view,
                            peers@,
                            membership,
                            deadline,
                        );
                        assert(reported =~= seq![
                            ActionView::ReportPeer(old(self)@.table.report(peer, event)),
                        ]);
                        assert(requested =~= reported + asking(
                            before.requests,
                            recorded,
                            candidate,
                            peer,
                            peer_has_view,
                        ));
                        assert(views(actions@) =~= expected.1);
                        assert(head@ == expected.0);
                        lemma_extends_transitive(recorded, local, before.knowledge);
                        lemma_extends_transitive(head@.knowledge, recorded, before.knowledge);
                    }
                }
                let ghost after = head@;
                self.heads.insert(relay_parent, head);
                proof {
                    lemma_extends_reflexive(before.knowledge);
                    assert(self@.heads =~= old(self)@.heads.insert(relay_parent, after));
                    lemma_step_extends(old(self)@, relay_parent, after);
                }
            },
            None => {
                proof {
                    assert(self@.heads =~= old(self)@.heads);
                }
            },
        }
        actions
    }

    /// Takes in a manifest by which `peer` announced `candidate` under `relay_parent`,
    /// and returns what is to be done about it: a request to the peer for the statements
    /// that are not known locally, where one is due.
    pub fn on_manifest(
        &mut self,
        relay_parent: RelayParent,
        peer: PeerId,
        candidate: CandidateHash,
        peer_has_view: bool,
        deadline: u64,
    ) -> (actions: Vec<Action>)
        requires
            old(self).wf(),
        ensures
            final(self).wf(),
            (final(self)@, views(actions@)) == old(self)@.at(
                relay_parent,
                |head: HeadView| manifest_step(head, peer, candidate, peer_has_view, deadline),
            ),
            final(self)@.extends(old(self)@),
    {
        let mut actions: Vec<Action> = Vec::new();
        proof {
            lemma_coordinator_extends_itself(self@);
            assert(views(actions@) =~= Seq::<ActionView>::empty());
        }
        match self.heads.remove(&relay_parent) {
            Some(mut head) => {
                let ghost before = head@;
                let asked = head.requests.maybe_request(
                    &head.knowledge,
                    candidate,
                    peer,
                    peer_has_view,
                    deadline,
                    RequestReason::ManifestCatchUp,
                );
                match asked {
                    Some(request) => {
                        actions.push(
                            Action::SendRequest {
                                peer,
                                request,
                                if_disconnected: IfDisconnected::ImmediateError,
                            },
                        );
                    },
                    None => {},
                }
                let ghost after = head@;
                self.heads.insert(relay_parent, head);
                proof {
                    assert(views(actions@) =~= asking(
                        before.requests,
                        before.knowledge,
                        candidate,
                        peer,
                        peer_has_view,
                    ));
                    assert(self@.heads =~= old(self)@.heads.insert(relay_parent, after));
                    lemma_extends_reflexive(before.knowledge);
                    lemma_step_extends(old(self)@, relay_parent, after);
                }
            },
            None => {
                proof {
                    assert(self@.heads =~= old(self)@.heads);
                }
            },
        }
        actions
    }

    /// Takes in the response of `peer` to the request for `candidate` under
    /// `relay_parent`, and returns what is to be done about it. `None` stands for a
    /// response that could not be read. The request is outstanding no longer before
    /// anything else is done.
    #[verifier::loop_isolation(false)]
    pub fn on_response(
        &mut self,
        relay_parent: RelayParent,
        peer: PeerId,
        candidate: CandidateHash,
        response: Option<AttestedCandidateResponse>,
        peers: &Vec<PeerStatus>,
        membership: Membership,
    ) -> (actions: Vec<Action>)
        requires
            old(self).wf(),
        ensures
            final(self).wf(),
            (final(self)@, views(actions@)) == old(self)@.at(
                relay_parent,
                |head: HeadView|
                    response_step(
                        old(self)@.table,
                        head,
                        relay_parent,
                        peer,
                        candidate,
                        read_as(response),
                        peers@,
                        membership,
                    ),
            ),
            final(self)@.extends(old(self)@),
    {
        let mut actions: Vec<Action> = Vec::new();
        proof {
            lemma_coordinator_extends_itself(self@);
            assert(views(actions@) =~= Seq::<ActionView>::empty());
        }
        match self.heads.remove(&relay_parent) {
            Some(mut head) => {
                let ghost before = head@;
                match head.requests.conclude(peer, candidate) {
                    Some(request) => {
                        let validated = process_response(
                            &mut head.knowledge,
                            peer,
                            candidate,
                            &request.mask,
                            &response,
                        );
                        let ghost taken = head.knowledge@;
                        let reports = self.ledger.report_all(peer, &validated.events);
                        let mut i: usize = 0;
                        while i < reports.len()
                            invariant
                                i <= reports@.len(),
                                actions@.len() == i,
                                views(actions@) == report_actions(reports@.take(i as int)),
                            decreases reports@.len() - i,
                        {
                            let ghost earlier = actions@;
                            actions.push(Action::ReportPeer(reports[i]));
                            proof {
                                let shorter = reports@.take(i as int);
                                let longer = reports@.take(i + 1);
                                assert(views(earlier) == report_actions(shorter));
                                assert forall|k: int| 0 <= k < longer.len() implies views(
                                    actions@,
                                )[k] == report_actions(longer)[k] by {
                                    if k < i {
                                        assert(views(earlier)[k] == report_actions(shorter)[k]);
                                        assert(shorter[k] == longer[k]);
                                    }
                                }
                                assert(views(actions@) =~= report_actions(longer));
                            }
                            i += 1;
                        }
                        proof {
                            assert(reports@.take(i as int) =~= reports@);
                        }
                        let ghost reported = views(actions@);
                        let mut j: usize = 0;
                        while j < validated.accepted.len()
                            invariant
                                j <= validated.accepted@.len(),
                                head.knowledge.wf(),
                                head.requests.wf(),
                                head.requests@ == before.requests.remove(RequestKey { peer, candidate }),
                                knowledge_extends(head.knowledge@, taken),
                                (head.knowledge@, views(actions@)) == ({
                                    let (spread, sending) = spread_all(
                                        taken,
                                        relay_parent,
                                        candidate,
                                        validated.accepted@.take(j as int),
                                        peers@,
                                        membership,
                                    );
                                    (spread, reported + sending)
                                }),
                            decreases validated.accepted@.len() - j,
                        {
                            let statement = validated.accepted[j];
                            let ghost earlier = head.knowledge@;
                            let ghost so_far = views(actions@);
                            proof {
                                assert(validated.accepted@.take(j + 1).drop_last()
                                    =~= validated.accepted@.take(j as int));
                                lemma_extends_reflexive(taken);
                            }
                            spread(
                                &mut head.knowledge,
                                &mut actions,
                                relay_parent,
                                candidate,
                                statement.validator,
                                statement.kind,
                                peers,
                                membership,
                            );
                            proof {
                                lemma_extends_transitive(head.knowledge@, earlier, taken);
                                let (spread_before, sending_before) = spread_all(
                                    taken,
                                    relay_parent,
                                    candidate,
                                    validated.accepted@.take(j as int),
                                    peers@,
                                    membership,
                                );
                                let more = spread_one(
                                    earlier,
                                    relay_parent,
                                    candidate,
                                    statement.validator,
                                    statement.kind,
                                    peers@,
                                    membership,
                                ).1;
                                assert(views(actions@) =~= reported + (sending_before + more));
                            }
                            j += 1;
                        }
                        proof {
                            assert(validated.accepted@.take(j as int) =~= validated.accepted@);
                            lemma_extends_transitive(head.knowledge@, taken, before.knowledge);
                            let expected = response_step(
                                old(self)@.table,
                                before,
                                relay_parent,
                                peer,
                                candidate,
                                read_as(response),
                                peers@,
                                membership,
                            );
                            assert(head@ == expected.0);
                            assert(views(actions@) == expected.1);
                        }
                    },
                    None => {
                        proof {
                            assert(head@.requests =~= before.requests);
                            lemma_extends_reflexive(before.knowledge);
                        }
                    },
                }
                let ghost after = head@;
                self.heads.insert(relay_parent, head);
                proof {
                    assert(self@.heads =~= old(self)@.heads.insert(relay_parent, after));
                    lemma_step_extends(old(self)@, relay_parent, after);
                }
            },
            None => {
                proof {
                    assert(self@.heads =~= old(self)@.heads);
                }
            },
        }
        actions
    }

    /// Ends the request to `peer` for `candidate` under `relay_parent` that timed out, or
    /// whose peer was lost, and says whether one was under way. The peer's reputation is
    /// left alone.
    pub fn on_timeout(&mut self, relay_parent: RelayParent, peer: PeerId, candidate: CandidateHash) -> (ended:
        bool)
        requires
            old(self).wf(),
        ensures
            final(self).wf(),
            ended == (old(self)@.heads.contains_key(relay_parent) && old(
                self,
            )@.heads[relay_parent].requests.contains_key(RequestKey { peer, candidate })),
            final(self)@ == old(self)@.at(
                relay_parent,
                |head: HeadView|
                    (
                        HeadView {
                            requests: head.requests.remove(RequestKey { peer, candidate }),
                            ..head
                        },
                        Seq::empty(),
                    ),
            ).0,
            final(self)@.extends(old(self)@),
    {
        proof {
            lemma_coordinator_extends_itself(self@);
        }
        match self.heads.remove(&relay_parent) {
            Some(mut head) => {
                let ended = head.requests.time_out(peer, candidate);
                let ghost after = head@;
                self.heads.insert(relay_parent, head);
                proof {
                    assert(self@.heads =~= old(self)@.heads.insert(relay_parent, after));
                    lemma_extends_reflexive(after.knowledge);
                    lemma_step_extends(old(self)@, relay_parent, after);
                }
                ended
            },
            None => {
                proof {
                    assert(self@.heads =~= old(self)@.heads);
                }
                false
            },
        }
    }

    /// How far `candidate` has come under `relay_parent`. A candidate under a relay
    /// parent that is not active is unknown.
    pub fn candidate_state(&self, relay_parent: RelayParent, candidate: CandidateHash) -> (state:
        CandidateState)
        requires
            self.wf(),
        ensures
            state == if self@.heads.contains_key(relay_parent) {
                state_in(self@.heads[relay_parent].knowledge, candidate)
            } else {
                CandidateState::Unknown
            },
    {
        match self.heads.get(&relay_parent) {
            Some(head) => head.knowledge.state_of(candidate),
            None => CandidateState::Unknown,
        }
    }

    /// A snapshot of the mask of what is known locally of `candidate` under
    /// `relay_parent`, if the candidate is tracked there.
    pub fn mask_for(&self, relay_parent: RelayParent, candidate: CandidateHash) -> (mask: Option<
        StatementFilter,
    >)
        requires
            self.wf(),
        ensures
            mask matches Some(m) ==> self@.heads.contains_key(relay_parent)
                && self@.heads[relay_parent].knowledge.contains_key(candidate) && m@
                == self@.heads[relay_parent].knowledge[candidate].local,
            mask is None ==> !(self@.heads.contains_key(relay_parent)
                && self@.heads[relay_parent].knowledge.contains_key(candidate)),
    {
        match self.heads.get(&relay_parent) {
            Some(head) => head.knowledge.mask_for(candidate),
            None => None,
        }
    }

    /// Whether a request to `peer` for `candidate` is under way under `relay_parent`.
    pub fn is_outstanding(&self, relay_parent: RelayParent, peer: PeerId, candidate: CandidateHash) -> (held:
        bool)
        requires
            self.wf(),
        ensures
            held == (self@.heads.contains_key(relay_parent)
                && self@.heads[relay_parent].requests.contains_key(RequestKey { peer, candidate })),
    {
        match self.heads.get(&relay_parent) {
            Some(head) => head.requests.is_outstanding(peer, candidate),
            None => false,
        }
    }
}

/// Every coordinator extends itself.
pub proof fn lemma_coordinator_extends_itself(view: CoordinatorView)
    ensures
        view.extends(view),
{
    assert forall|relay_parent: RelayParent| #[trigger]
        view.heads.contains_key(relay_parent) implies knowledge_extends(
        view.heads[relay_parent].knowledge,
        view.heads[relay_parent].knowledge,
    ) by {
        lemma_extends_reflexive(view.heads[relay_parent].knowledge);
    }
}

proof fn lemma_step_extends(view: CoordinatorView, relay_parent: RelayParent, after: HeadView)
    requires
        view.heads.contains_key(relay_parent),
        knowledge_extends(after.knowledge, view.heads[relay_parent].knowledge),
    ensures
        (CoordinatorView { heads: view.heads.insert(relay_parent, after), ..view }).extends(view),
{
    let later = CoordinatorView { heads: view.heads.insert(relay_parent, after), ..view };
    assert forall|other: RelayParent| #[trigger]
        view.heads.contains_key(other) implies later.heads.contains_key(other) && knowledge_extends(
        later.heads[other].knowledge,
        view.heads[other].knowledge,
    ) by {
        if other != relay_parent {
            lemma_extends_reflexive(view.heads[other].knowledge);
        }
    }
}

/// At most one outstanding request: while a request to a peer for a candidate is under
/// way, neither a manifest nor a statement from that peer on that candidate starts
/// another one. The requests stay as they are, and no request is among the actions.
pub proof fn lemma_no_request_while_outstanding(
    table: ReputationTable,
    head: HeadView,
    relay_parent: RelayParent,
    peer: PeerId,
    candidate: CandidateHash,
    statement: IncomingStatement,
    peer_has_view: bool,
    peers: Seq<PeerStatus>,
    membership: Membership,
    deadline: u64,
)
    requires
        head.requests.contains_key(RequestKey { peer, candidate }),
    ensures
        manifest_step(head, peer, candidate, peer_has_view, deadline) == (
            head,
            Seq::<ActionView>::empty(),
        ),
        ({
            let (after, actions) = statement_step(
                table,
                head,
                relay_parent,
                peer,
                candidate,
                statement,
                peer_has_view,
                peers,
                membership,
                deadline,
            );
            &&& after.requests == head.requests
            &&& forall|i: int| 0 <= i < actions.len() ==> !(#[trigger] actions[i] is SendRequest)
        }),
{
}

} // verus!
