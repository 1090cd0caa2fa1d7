//! The rebroadcaster: to which peers a statement is passed on.
//!
//! A statement is pushed to every peer that has its relay parent in view, is
//! eligible by the rules of the cluster or the grid, and is not known to have it;
//! each of them is then known to have it, so that nothing is sent twice.

use crate::knowledge::{
    knowledge_extends, lemma_extends_reflexive, lemma_extends_transitive, peer_knows,
    recorded_peer, CandidateView, KnowledgeStore,
};
use crate::primitives::{
    lemma_position_in, position_in, CandidateHash, PeerId, StatementKind, ValidatorIndex,
};
use vstd::prelude::*;

verus! {

/// A connected peer, with what the collaborators of the rebroadcaster say of it.
#[derive(Clone, Copy, Debug, PartialEq, Eq, Structural)]
pub struct PeerStatus {
    /// The peer.
    pub peer: PeerId,
    /// Whether the peer has the relay parent of the statement in view.
    pub has_relay_parent_in_view: bool,
    /// Whether the rules of the cluster or the grid let the statement go to the peer.
    pub eligible: bool,
}

/// Whether the statement of kind `kind` by `validator` on `candidate` goes to `status`:
/// the candidate is tracked and the validator is in its group, the peer has the relay
/// parent in view and is eligible, and the peer is not known to have the statement.
pub open spec fn receives(
    knowledge: Map<CandidateHash, CandidateView>,
    candidate: CandidateHash,
    validator: ValidatorIndex,
    kind: StatementKind,
    status: PeerStatus,
) -> bool {
    &&& knowledge.contains_key(candidate)
    &&& knowledge[candidate].group.contains(validator)
    &&& status.has_relay_parent_in_view
    &&& status.eligible
    &&& !peer_knows(knowledge, status.peer, candidate, validator, kind)
}

/// What forwarding the statement to `peers`, taken in their order, comes to: the
/// knowledge after it, and the peers that the statement goes to.
pub open spec fn forwarded(
    knowledge: Map<CandidateHash, CandidateView>,
    candidate: CandidateHash,
    validator: ValidatorIndex,
    kind: StatementKind,
    peers: Seq<PeerStatus>,
) -> (Map<CandidateHash, CandidateView>, Seq<PeerId>)
    decreases peers.len(),
{
    if peers.len() == 0 {
        (knowledge, Seq::empty())
    } else {
        let (before, recipients) = forwarded(knowledge, candidate, validator, kind, peers.drop_last());
        let status = peers.last();
        if receives(before, candidate, validator, kind, status) {
            (
                recorded_peer(before, status.peer, candidate, validator, kind),
                recipients.push(status.peer),
            )
        } else {
            (before, recipients)
        }
    }
}

/// Passes the statement of kind `kind` by `validator` on `candidate` on: returns the
/// peers among `peers` that it goes to, in their order, and records each of them as
/// knowing it.
pub fn forward(
    store: &mut KnowledgeStore,
    candidate: CandidateHash,
    validator: ValidatorIndex,
    kind: StatementKind,
    peers: &Vec<PeerStatus>,
) -> (recipients: Vec<PeerId>)
    requires
        old(store).wf(),
    ensures
        final(store).wf(),
        (final(store)@, recipients@) == forwarded(old(store)@, candidate, validator, kind, peers@),
        knowledge_extends(final(store)@, old(store)@),
{
    let mut recipients: Vec<PeerId> = Vec::new();
    let mut i: usize = 0;
    proof {
        lemma_extends_reflexive(store@);
    }
    while i < peers.len()
        invariant
            i <= peers@.len(),
            store.wf(),
            (store@, recipients@) == forwarded(
                old(store)@,
                candidate,
                validator,
                kind,
                peers@.take(i as int),
            ),
            knowledge_extends(store@, old(store)@),
        decreases peers@.len() - i,
    {
        let status = peers[i];
        let ghost before = store@;
        proof {
            assert(peers@.take(i + 1).drop_last() =~= peers@.take(i as int));
        }
        if status.has_relay_parent_in_view && status.eligible && !store.is_known_by_peer(
            status.peer,
            candidate,
            validator,
            kind,
        ) {
            let fresh = store.record_peer(status.peer, candidate, validator, kind);
            if fresh {
                recipients.push(status.peer);
                proof {
                    lemma_extends_transitive(store@, before, old(store)@);
                }
            } else {
                proof {
                    assert(!receives(before, candidate, validator, kind, status));
                    assert(store@ =~= before) by {
                        if before.contains_key(candidate) {
                            assert(!before[candidate].group.contains(validator));
                            assert(before[candidate].with_peer(status.peer, validator, kind)
                                == before[candidate]);
                        }
                    }
                }
            }
        }
        i += 1;
    }
    assert(peers@.take(i as int) =~= peers@);
    recipients
}

/// The recipients of a forwarded statement are the peers that had the relay parent in
/// view, were eligible and were not known to have it. None of them is named twice, and
/// afterwards the statement is known to the peers that knew it before and to the
/// recipients, and to no others.
pub proof fn lemma_forward_recipients(
    knowledge: Map<CandidateHash, CandidateView>,
    candidate: CandidateHash,
    validator: ValidatorIndex,
    kind: StatementKind,
    peers: Seq<PeerStatus>,
)
    requires
        knowledge.contains_key(candidate) ==> knowledge[candidate].valid(),
    ensures
        ({
            let (after, recipients) = forwarded(knowledge, candidate, validator, kind, peers);
            &&& recipients.no_duplicates()
            &&& forall|peer: PeerId| #[trigger]
                recipients.contains(peer) <==> exists|i: int|
                    0 <= i < peers.len() && (#[trigger] peers[i]).peer == peer && receives(
                        knowledge,
                        candidate,
                        validator,
                        kind,
                        peers[i],
                    )
            &&& forall|peer: PeerId| #[trigger]
                peer_knows(after, peer, candidate, validator, kind) <==> peer_knows(
                    knowledge,
                    peer,
                    candidate,
                    validator,
                    kind,
                ) || recipients.contains(peer)
            &&& after.dom() == knowledge.dom()
            &&& forall|other: CandidateHash|
                other != candidate && #[trigger] knowledge.contains_key(other) ==> after[other]
                    == knowledge[other]
            &&& knowledge.contains_key(candidate) ==> after[candidate].valid()
                && after[candidate].group == knowledge[candidate].group && after[candidate].local
                == knowledge[candidate].local
        }),
    decreases peers.len(),
{
    let (after, recipients) = forwarded(knowledge, candidate, validator, kind, peers);
    if peers.len() == 0 {
        assert(after.dom() =~= knowledge.dom());
    } else {
        let shorter = peers.drop_last();
        let status = peers.last();
        lemma_forward_recipients(knowledge, candidate, validator, kind, shorter);
        let (before, earlier) = forwarded(knowledge, candidate, validator, kind, shorter);
        let takes = receives(before, candidate, validator, kind, status);
        if takes {
            let view = before[candidate];
            let position = position_in(view.group, validator)->Some_0;
            lemma_position_in(view.group, validator);
            assert(after == recorded_peer(before, status.peer, candidate, validator, kind));
            assert(after[candidate].peers[status.peer][position].has(kind));
            assert(!earlier.contains(status.peer));
            assert(recipients =~= earlier.push(status.peer));
            assert(earlier.push(status.peer).no_duplicates()) by {
                assert forall|a: int, b: int|
                    0 <= a < recipients.len() && 0 <= b < recipients.len() && a
                        != b implies recipients[a] != recipients[b] by {
                    if a == earlier.len() {
                        assert(earlier.contains(earlier[b]));
                    } else if b == earlier.len() {
                        assert(earlier.contains(earlier[a]));
                    }
                }
            }
            assert(after.dom() =~= knowledge.dom());
        }
        assert forall|peer: PeerId| #[trigger]
            peer_knows(after, peer, candidate, validator, kind) <==> peer_knows(
                knowledge,
                peer,
                candidate,
                validator,
                kind,
            ) || recipients.contains(peer) by {
            if takes {
                if peer == status.peer {
                    assert(recipients.last() == peer);
                } else {
                    assert(peer_knows(after, peer, candidate, validator, kind) == peer_knows(
                        before,
                        peer,
                        candidate,
                        validator,
                        kind,
                    ));
                    if earlier.contains(peer) {
                        let k = choose|k: int| 0 <= k < earlier.len() && earlier[k] == peer;
                        assert(recipients[k] == peer);
                    }
                    if recipients.contains(peer) {
                        let k = choose|k: int| 0 <= k < recipients.len() && recipients[k] == peer;
                        assert(earlier[k] == peer);
                    }
                }
            }
        }
        assert forall|peer: PeerId| #[trigger]
            recipients.contains(peer) <==> exists|i: int|
                0 <= i < peers.len() && (#[trigger] peers[i]).peer == peer && receives(
                    knowledge,
                    candidate,
                    validator,
                    kind,
                    peers[i],
                ) by {
            if recipients.contains(peer) {
                if takes && peer == status.peer {
                    assert(!peer_knows(before, peer, candidate, validator, kind));
                    assert(peers[peers.len() - 1].peer == peer);
                    assert(receives(knowledge, candidate, validator, kind, peers[peers.len() - 1]));
                } else {
                    if takes {
                        let k = choose|k: int| 0 <= k < recipients.len() && recipients[k] == peer;
                        assert(earlier[k] == peer);
                    }
                    assert(earlier.contains(peer));
                    let i = choose|i: int|
                        0 <= i < shorter.len() && (#[trigger] shorter[i]).peer == peer && receives(
                            knowledge,
                            candidate,
                            validator,
                            kind,
                            shorter[i],
                        );
                    assert(peers[i] == shorter[i]);
                }
            }
            if exists|i: int|
                0 <= i < peers.len() && (#[trigger] peers[i]).peer == peer && receives(
                    knowledge,
                    candidate,
                    validator,
                    kind,
                    peers[i],
                ) {
                let i = choose|i: int|
                    0 <= i < peers.len() && (#[trigger] peers[i]).peer == peer && receives(
                        knowledge,
                        candidate,
                        validator,
                        kind,
                        peers[i],
                    );
                if i < shorter.len() {
                    assert(shorter[i] == peers[i]);
                    assert(earlier.contains(peer));
                    let k = choose|k: int| 0 <= k < earlier.len() && earlier[k] == peer;
                    if takes {
                        assert(recipients[k] == peer);
                    }
                } else {
                    assert(peers[i] == status);
                    if !takes {
                        assert(peer_knows(before, peer, candidate, validator, kind));
                        assert(earlier.contains(peer));
                    } else {
                        assert(recipients.last() == peer);
                    }
                }
            }
        }
    }
}

} // verus!
