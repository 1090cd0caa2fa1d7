//! The request scheduler of one relay parent: which requests for a candidate's
//! statements are outstanding, and when a new one is made.

use crate::filter::{Known, StatementFilter};
use crate::knowledge::{CandidateView, KnowledgeStore};
use crate::primitives::{CandidateHash, PeerId};
use crate::table::{Key, Table};
use vstd::prelude::*;

verus! {

/// Why a request is made.
#[derive(Clone, Copy, Debug, PartialEq, Eq, Structural)]
pub enum RequestReason {
    /// Statements of the own group are missing.
    GapFill,
    /// A manifest announced a candidate and statements that are not known here.
    ManifestCatchUp,
}

/// What the network layer does with a request whose peer is not connected.
#[derive(Clone, Copy, Debug, PartialEq, Eq, Structural)]
pub enum IfDisconnected {
    /// Try to connect to the peer first.
    TryConnect,
    /// Fail at once.
    ImmediateError,
}

/// A request for the statements on a candidate that the mask does not mark.
#[derive(Clone, Debug, PartialEq, Eq)]
pub struct AttestedCandidateRequest {
    /// The candidate asked about.
    pub candidate_hash: CandidateHash,
    /// What the requester knows already.
    pub mask: StatementFilter,
}

/// The peer and the candidate of a request.
#[derive(Clone, Copy, Debug, PartialEq, Eq)]
pub struct RequestKey {
    /// The peer asked.
    pub peer: PeerId,
    /// The candidate asked about.
    pub candidate: CandidateHash,
}

impl Key for RequestKey {
    fn same(&self, other: &Self) -> (equal: bool) {
        self.peer.0 == other.peer.0 && self.candidate == other.candidate
    }
}

/// A request that is under way.
#[derive(Clone, Debug, PartialEq, Eq)]
pub struct OutstandingRequest {
    /// The mask that was sent.
    pub mask: StatementFilter,
    /// When the request is given up.
    pub deadline: u64,
    /// Why the request was made.
    pub reason: RequestReason,
}

/// A request that is under way, as contracts see it.
pub ghost struct OutstandingView {
    pub mask: Seq<Known>,
    pub deadline: u64,
    pub reason: RequestReason,
}

impl View for OutstandingRequest {
    type V = OutstandingView;

    open spec fn view(&self) -> OutstandingView {
        OutstandingView { mask: self.mask@, deadline: self.deadline, reason: self.reason }
    }
}

/// Whether a request to `peer` for `candidate` is due: the candidate is tracked and
/// some statement of its group is not known locally, no request to this peer for this
/// candidate is under way, and the peer is believed to have the relay parent in view.
pub open spec fn request_due(
    requests: Map<RequestKey, OutstandingView>,
    knowledge: Map<CandidateHash, CandidateView>,
    candidate: CandidateHash,
    peer: PeerId,
    peer_has_view: bool,
) -> bool {
    &&& knowledge.contains_key(candidate)
    &&& !knowledge[candidate].complete()
    &&& !requests.contains_key(RequestKey { peer, candidate })
    &&& peer_has_view
}

/// The requests that are under way after a request to `peer` for `candidate` was
/// considered: where it is due, it is under way with the local mask of that moment.
pub open spec fn after_request(
    requests: Map<RequestKey, OutstandingView>,
    knowledge: Map<CandidateHash, CandidateView>,
    candidate: CandidateHash,
    peer: PeerId,
    peer_has_view: bool,
    deadline: u64,
    reason: RequestReason,
) -> Map<RequestKey, OutstandingView> {
    if request_due(requests, knowledge, candidate, peer, peer_has_view) {
        requests.insert(
            RequestKey { peer, candidate },
            OutstandingView { mask: knowledge[candidate].local, deadline, reason },
        )
    } else {
        requests
    }
}

/// The request scheduler of one relay parent. It holds at most one outstanding request
/// for each peer and candidate.
pub struct RequestScheduler {
    outstanding: Table<RequestKey, OutstandingRequest>,
}

impl View for RequestScheduler {
    type V = Map<RequestKey, OutstandingView>;

    closed spec fn view(&self) -> Map<RequestKey, OutstandingView> {
        self.outstanding@.map_values(|request: OutstandingRequest| request@)
    }
}

impl RequestScheduler {
    /// Whether the scheduler is in order. Every scheduler that the functions of this
    /// module hand out is.
    pub closed spec fn wf(&self) -> bool {
        self.outstanding.wf()
    }

    /// The scheduler with no request under way.
    pub fn new() -> (scheduler: Self)
        ensures
            scheduler.wf(),
            scheduler@ == Map::<RequestKey, OutstandingView>::empty(),
    {
        let scheduler = RequestScheduler { outstanding: Table::new() };
        assert(scheduler@ =~= Map::<RequestKey, OutstandingView>::empty());
        scheduler
    }

    /// Whether a request to `peer` for `candidate` is under way.
    pub fn is_outstanding(&self, peer: PeerId, candidate: CandidateHash) -> (held: bool)
        requires
            self.wf(),
        ensures
            held == self@.contains_key(RequestKey { peer, candidate }),
    {
        self.outstanding.contains(&RequestKey { peer, candidate })
    }

    /// When the request to `peer` for `candidate` is given up, if one is under way.
    pub fn deadline_of(&self, peer: PeerId, candidate: CandidateHash) -> (deadline: Option<u64>)
        requires
            self.wf(),
        ensures
            deadline == if self@.contains_key(RequestKey { peer, candidate }) {
                Some(self@[RequestKey { peer, candidate }].deadline)
            } else {
                None::<u64>
            },
    {
        match self.outstanding.get(&RequestKey { peer, candidate }) {
            Some(request) => Some(request.deadline),
            None => None,
        }
    }

    /// Makes a request to `peer` for the statements on `candidate` that are not known
    /// locally, where one is due, and keeps it as outstanding. The mask of the request
    /// is the local mask of this moment; what is learnt later does not change it.
    pub fn maybe_request(
        &mut self,
        store: &KnowledgeStore,
        candidate: CandidateHash,
        peer: PeerId,
        peer_has_view: bool,
        deadline: u64,
        reason: RequestReason,
    ) -> (request: Option<AttestedCandidateRequest>)
        requires
            old(self).wf(),
            store.wf(),
        ensures
            final(self).wf(),
            final(self)@ == after_request(
                old(self)@,
                store@,
                candidate,
                peer,
                peer_has_view,
                deadline,
                reason,
            ),
            request is Some == request_due(old(self)@, store@, candidate, peer, peer_has_view),
            request matches Some(r) ==> r.candidate_hash == candidate && r.mask@
                == store@[candidate].local,
    {
        let key = RequestKey { peer, candidate };
        if !peer_has_view || self.outstanding.contains(&key) || store.is_complete(candidate) {
            return None;
        }
        match store.mask_for(candidate) {
            Some(mask) => {
                let sent = mask.clone();
                let ghost view = OutstandingView { mask: mask@, deadline, reason };
                self.outstanding.insert(key, OutstandingRequest { mask, deadline, reason });
                assert(self@ =~= old(self)@.insert(key, view));
                Some(AttestedCandidateRequest { candidate_hash: candidate, mask: sent })
            },
            None => None,
        }
    }

    /// Ends the request to `peer` for `candidate` and hands it out, if one was under way.
    /// It is called when the response has come, before the response is looked at.
    pub fn conclude(&mut self, peer: PeerId, candidate: CandidateHash) -> (request: Option<
        OutstandingRequest,
    >)
        requires
            old(self).wf(),
        ensures
            final(self).wf(),
            final(self)@ == old(self)@.remove(RequestKey { peer, candidate }),
            request matches Some(r) ==> old(self)@.contains_key(RequestKey { peer, candidate })
                && r@ == old(self)@[RequestKey { peer, candidate }],
            request is None ==> !old(self)@.contains_key(RequestKey { peer, candidate }),
    {
        let key = RequestKey { peer, candidate };
        let request = self.outstanding.remove(&key);
        assert(self@ =~= old(self)@.remove(key));
        request
    }

    /// Ends the request to `peer` for `candidate` without a response, and says whether
    /// one was under way. It is called when the request timed out or the peer was lost.
    pub fn time_out(&mut self, peer: PeerId, candidate: CandidateHash) -> (ended: bool)
        requires
            old(self).wf(),
        ensures
            final(self).wf(),
            final(self)@ == old(self)@.remove(RequestKey { peer, candidate }),
            ended == old(self)@.contains_key(RequestKey { peer, candidate }),
    {
        self.conclude(peer, candidate).is_some()
    }
}

/// At most one outstanding request: once a request to a peer for a candidate is under
/// way, no other request to that peer for that candidate is due, whatever has been
/// learnt since, and considering one changes nothing.
pub proof fn lemma_second_request_is_withheld(
    requests: Map<RequestKey, OutstandingView>,
    knowledge: Map<CandidateHash, CandidateView>,
    later_knowledge: Map<CandidateHash, CandidateView>,
    candidate: CandidateHash,
    peer: PeerId,
    deadline: u64,
    reason: RequestReason,
    later_has_view: bool,
    later_deadline: u64,
    later_reason: RequestReason,
)
    requires
        request_due(requests, knowledge, candidate, peer, true),
    ensures
        ({
            let first = after_request(requests, knowledge, candidate, peer, true, deadline, reason);
            &&& first.contains_key(RequestKey { peer, candidate })
            &&& !request_due(first, later_knowledge, candidate, peer, later_has_view)
            &&& after_request(
                first,
                later_knowledge,
                candidate,
                peer,
                later_has_view,
                later_deadline,
                later_reason,
            ) == first
        }),
{
}

} // verus!
