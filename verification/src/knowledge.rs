//! The knowledge store of one relay parent: for each candidate, which statements
//! are known locally and which are known to each peer.
//!
//! Statements are only ever added. Nothing is taken out again before the whole
//! store is dropped with its relay parent.

use crate::filter::{blank_mask, mask_complete, mask_extends, mask_has, mask_with, Known, StatementFilter};
use crate::primitives::{find_position, is_distinct, position_in, CandidateHash, PeerId, StatementKind, ValidatorIndex};
use crate::table::Table;
use vstd::prelude::*;

verus! {

/// What is known about one candidate.
pub ghost struct CandidateView {
    /// The validators of the candidate's group, in the order of the group.
    pub group: Seq<ValidatorIndex>,
    /// The statements known locally, by position in the group.
    pub local: Seq<Known>,
    /// The statements that each peer is known to have, by position in the group. A
    /// peer without an entry is known to have none.
    pub peers: Map<PeerId, Seq<Known>>,
}

impl CandidateView {
    /// A candidate of the group `group` of which nothing is known yet.
    pub open spec fn blank(group: Seq<ValidatorIndex>) -> CandidateView {
        CandidateView { group, local: blank_mask(group.len()), peers: Map::empty() }
    }

    /// Whether no validator stands twice in the group and every mask is over the group.
    pub open spec fn valid(self) -> bool {
        &&& self.group.no_duplicates()
        &&& self.local.len() == self.group.len()
        &&& forall|peer: PeerId| #[trigger]
            self.peers.contains_key(peer) ==> self.peers[peer].len() == self.group.len()
    }

    /// Whether the statement of kind `kind` by `validator` is known locally. Of a
    /// validator outside the group nothing is ever known.
    pub open spec fn knows(self, validator: ValidatorIndex, kind: StatementKind) -> bool {
        match position_in(self.group, validator) {
            Some(position) => mask_has(self.local, position, kind),
            None => false,
        }
    }

    /// The mask of what `peer` is known to have.
    pub open spec fn peer_mask(self, peer: PeerId) -> Seq<Known> {
        if self.peers.contains_key(peer) {
            self.peers[peer]
        } else {
            blank_mask(self.group.len())
        }
    }

    /// Whether `peer` is known to have the statement of kind `kind` by `validator`.
    pub open spec fn peer_knows(
        self,
        peer: PeerId,
        validator: ValidatorIndex,
        kind: StatementKind,
    ) -> bool {
        match position_in(self.group, validator) {
            Some(position) => mask_has(self.peer_mask(peer), position, kind),
            None => false,
        }
    }

    /// `self` with the statement of kind `kind` by `validator` known locally as well. A
    /// validator outside the group changes nothing.
    pub open spec fn with_local(self, validator: ValidatorIndex, kind: StatementKind) -> CandidateView {
        match position_in(self.group, validator) {
            Some(position) => CandidateView {
                local: mask_with(self.local, position, kind),
                ..self
            },
            None => self,
        }
    }

    /// `self` with `peer` known to have the statement of kind `kind` by `validator` as
    /// well. A validator outside the group changes nothing.
    pub open spec fn with_peer(
        self,
        peer: PeerId,
        validator: ValidatorIndex,
        kind: StatementKind,
    ) -> CandidateView {
        match position_in(self.group, validator) {
            Some(position) => CandidateView {
                peers: self.peers.insert(peer, mask_with(self.peer_mask(peer), position, kind)),
                ..self
            },
            None => self,
        }
    }

    /// Whether both statements of every validator of the group are known locally.
    pub open spec fn complete(self) -> bool {
        mask_complete(self.local)
    }

    /// Whether no statement is recorded at all, neither as known locally nor as known
    /// to a peer.
    pub open spec fn untouched(self) -> bool {
        &&& self.local == blank_mask(self.group.len())
        &&& forall|peer: PeerId| #[trigger]
            self.peers.contains_key(peer) ==> self.peers[peer] == blank_mask(self.group.len())
    }

    /// Whether `self` is about the same group as `earlier` and holds every statement
    /// that `earlier` holds, locally and for each peer.
    pub open spec fn extends(self, earlier: CandidateView) -> bool {
        &&& self.group == earlier.group
        &&& mask_extends(self.local, earlier.local)
        &&& forall|peer: PeerId| #[trigger]
            earlier.peers.contains_key(peer) ==> self.peers.contains_key(peer) && mask_extends(
                self.peers[peer],
                earlier.peers[peer],
            )
    }

    /// How far the candidate has come.
    pub open spec fn state(self) -> CandidateState {
        if self.untouched() {
            CandidateState::Unknown
        } else if self.complete() {
            CandidateState::FullyKnown
        } else {
            CandidateState::PartiallyKnown
        }
    }
}

/// How far the reconciliation of one candidate has come.
#[derive(Clone, Copy, Debug, PartialEq, Eq, Structural)]
pub enum CandidateState {
    /// No statement on the candidate is recorded.
    Unknown,
    /// Some statement is recorded, and some statement of the group is not known locally.
    PartiallyKnown,
    /// Both statements of every validator of the group are known locally.
    FullyKnown,
}

/// The state of `candidate` in `knowledge`. A candidate that is not tracked is unknown.
pub open spec fn state_in(
    knowledge: Map<CandidateHash, CandidateView>,
    candidate: CandidateHash,
) -> CandidateState {
    if knowledge.contains_key(candidate) {
        knowledge[candidate].state()
    } else {
        CandidateState::Unknown
    }
}

/// Whether every candidate in `knowledge` is valid.
pub open spec fn knowledge_valid(knowledge: Map<CandidateHash, CandidateView>) -> bool {
    forall|candidate: CandidateHash| #[trigger]
        knowledge.contains_key(candidate) ==> knowledge[candidate].valid()
}

/// Whether the statement of kind `kind` by `validator` on `candidate` is known locally.
pub open spec fn knows_local(
    knowledge: Map<CandidateHash, CandidateView>,
    candidate: CandidateHash,
    validator: ValidatorIndex,
    kind: StatementKind,
) -> bool {
    knowledge.contains_key(candidate) && knowledge[candidate].knows(validator, kind)
}

/// Whether `peer` is known to have the statement of kind `kind` by `validator` on
/// `candidate`.
pub open spec fn peer_knows(
    knowledge: Map<CandidateHash, CandidateView>,
    peer: PeerId,
    candidate: CandidateHash,
    validator: ValidatorIndex,
    kind: StatementKind,
) -> bool {
    knowledge.contains_key(candidate) && knowledge[candidate].peer_knows(peer, validator, kind)
}

/// `knowledge` after `candidate` is taken up with the group `group`. A candidate that
/// is tracked already stays as it is, and a group in which a validator stands twice is
/// not taken up.
pub open spec fn taken_up(
    knowledge: Map<CandidateHash, CandidateView>,
    candidate: CandidateHash,
    group: Seq<ValidatorIndex>,
) -> Map<CandidateHash, CandidateView> {
    if !knowledge.contains_key(candidate) && group.no_duplicates() {
        knowledge.insert(candidate, CandidateView::blank(group))
    } else {
        knowledge
    }
}

/// `knowledge` after the statement of kind `kind` by `validator` on `candidate` is
/// recorded as known locally. A candidate that is not tracked changes nothing.
pub open spec fn recorded_local(
    knowledge: Map<CandidateHash, CandidateView>,
    candidate: CandidateHash,
    validator: ValidatorIndex,
    kind: StatementKind,
) -> Map<CandidateHash, CandidateView> {
    if knowledge.contains_key(candidate) {
        knowledge.insert(candidate, knowledge[candidate].with_local(validator, kind))
    } else {
        knowledge
    }
}

/// `knowledge` after the statement of kind `kind` by `validator` on `candidate` is
/// recorded as known to `peer`. A candidate that is not tracked changes nothing.
pub open spec fn recorded_peer(
    knowledge: Map<CandidateHash, CandidateView>,
    peer: PeerId,
    candidate: CandidateHash,
    validator: ValidatorIndex,
    kind: StatementKind,
) -> Map<CandidateHash, CandidateView> {
    if knowledge.contains_key(candidate) {
        knowledge.insert(candidate, knowledge[candidate].with_peer(peer, validator, kind))
    } else {
        knowledge
    }
}

/// Whether `later` tracks every candidate that `earlier` tracks, with the same group,
/// and holds every statement that `earlier` holds.
pub open spec fn knowledge_extends(
    later: Map<CandidateHash, CandidateView>,
    earlier: Map<CandidateHash, CandidateView>,
) -> bool {
    forall|candidate: CandidateHash| #[trigger]
        earlier.contains_key(candidate) ==> later.contains_key(candidate)
            && later[candidate].extends(earlier[candidate])
}

/// The mask of what is known locally of `candidate`, if it is tracked.
pub open spec fn mask_of(
    knowledge: Map<CandidateHash, CandidateView>,
    candidate: CandidateHash,
) -> Option<Seq<Known>> {
    if knowledge.contains_key(candidate) {
        Some(knowledge[candidate].local)
    } else {
        None
    }
}

struct CandidateRecord {
    group: Vec<ValidatorIndex>,
    local: StatementFilter,
    peers: Table<PeerId, StatementFilter>,
    touched: bool,
}

impl CandidateRecord {
    spec fn view(&self) -> CandidateView {
        CandidateView {
            group: self.group@,
            local: self.local@,
            peers: self.peers@.map_values(|mask: StatementFilter| mask@),
        }
    }

    spec fn wf(&self) -> bool {
        &&& self.peers.wf()
        &&& self@.valid()
        &&& self.touched == !self@.untouched()
    }

    fn new(group: Vec<ValidatorIndex>) -> (record: Self)
        requires
            group@.no_duplicates(),
        ensures
            record.wf(),
            record@ == CandidateView::blank(group@),
    {
        let local = StatementFilter::blank(group.len());
        let record = CandidateRecord { group, local, peers: Table::new(), touched: false };
        assert(record@.peers =~= Map::empty());
        record
    }

    fn position(&self, validator: ValidatorIndex) -> (found: Option<usize>)
        requires
            self.wf(),
        ensures
            found matches Some(p) ==> position_in(self@.group, validator) == Some(p as int) && p
                < self@.group.len(),
            found is None ==> position_in(self@.group, validator) is None,
    {
        find_position(&self.group, validator)
    }

    fn knows(&self, validator: ValidatorIndex, kind: StatementKind) -> (known: bool)
        requires
            self.wf(),
        ensures
            known == self@.knows(validator, kind),
    {
        match self.position(validator) {
            Some(p) => self.local.contains(p, kind),
            None => false,
        }
    }

    fn peer_knows(&self, peer: PeerId, validator: ValidatorIndex, kind: StatementKind) -> (known:
        bool)
        requires
            self.wf(),
        ensures
            known == self@.peer_knows(peer, validator, kind),
    {
        match self.position(validator) {
            Some(p) => match self.peers.get(&peer) {
                Some(mask) => mask.contains(p, kind),
                None => false,
            },
            None => false,
        }
    }

    fn record_local(&mut self, validator: ValidatorIndex, kind: StatementKind) -> (fresh: bool)
        requires
            old(self).wf(),
        ensures
            final(self).wf(),
            final(self)@ == old(self)@.with_local(validator, kind),
            fresh == (old(self)@.group.contains(validator) && !old(self)@.knows(validator, kind)),
    {
        match self.position(validator) {
            Some(p) => {
                let fresh = self.local.set(p, kind);
                self.touched = true;
                proof {
                    assert(self@.local[p as int].has(kind));
                    assert(!blank_mask(self@.group.len())[p as int].has(kind));
                    assert(self@.peers == old(self)@.peers);
                    assert(self@.valid());
                    assert(!self@.untouched());
                }
                fresh
            },
            None => false,
        }
    }

    fn record_peer(&mut self, peer: PeerId, validator: ValidatorIndex, kind: StatementKind) -> (fresh:
        bool)
        requires
            old(self).wf(),
        ensures
            final(self).wf(),
            final(self)@ == old(self)@.with_peer(peer, validator, kind),
            fresh == (old(self)@.group.contains(validator) && !old(self)@.peer_knows(
                peer,
                validator,
                kind,
            )),
    {
        match self.position(validator) {
            Some(p) => {
                let mut mask = match self.peers.remove(&peer) {
                    Some(mask) => mask,
                    None => StatementFilter::blank(self.group.len()),
                };
                assert(mask@ == old(self)@.peer_mask(peer));
                let fresh = mask.set(p, kind);
                let ghost marked = mask@;
                self.peers.insert(peer, mask);
                self.touched = true;
                proof {
                    assert(self@.peers =~= old(self)@.peers.insert(peer, marked));
                    assert(self@.peers.contains_key(peer));
                    assert(self@.peers[peer][p as int].has(kind));
                    assert(!blank_mask(self@.group.len())[p as int].has(kind));
                }
                fresh
            },
            None => false,
        }
    }
}

/// The knowledge store of one relay parent.
pub struct KnowledgeStore {
    candidates: Table<CandidateHash, CandidateRecord>,
}

impl View for KnowledgeStore {
    type V = Map<CandidateHash, CandidateView>;

    closed spec fn view(&self) -> Map<CandidateHash, CandidateView> {
        self.candidates@.map_values(|record: CandidateRecord| record@)
    }
}

impl KnowledgeStore {
    /// Whether the store is in order. Every store that the functions of this module hand
    /// out is, and then every candidate in it is valid.
    pub closed spec fn wf(&self) -> bool {
        &&& self.candidates.wf()
        &&& forall|candidate: CandidateHash| #[trigger]
            self.candidates@.contains_key(candidate) ==> self.candidates@[candidate].wf()
    }

    /// In a store that is in order every candidate is valid.
    pub proof fn lemma_wf_is_valid(&self)
        requires
            self.wf(),
        ensures
            knowledge_valid(self@),
    {
        assert forall|candidate: CandidateHash| #[trigger]
            self@.contains_key(candidate) implies self@[candidate].valid() by {
            assert(self.candidates@.contains_key(candidate));
        }
    }

    /// The store that tracks no candidate.
    pub fn new() -> (store: Self)
        ensures
            store.wf(),
            store@ == Map::<CandidateHash, CandidateView>::empty(),
    {
        let store = KnowledgeStore { candidates: Table::new() };
        assert(store@ =~= Map::<CandidateHash, CandidateView>::empty());
        store
    }

    /// Takes up `candidate` with the validator group `group`, and says whether it did. It
    /// does not where the candidate is tracked already, nor where a validator stands
    /// twice in the group.
    pub fn track(&mut self, candidate: CandidateHash, group: Vec<ValidatorIndex>) -> (added: bool)
        requires
            old(self).wf(),
        ensures
            final(self).wf(),
            final(self)@ == taken_up(old(self)@, candidate, group@),
            added == (!old(self)@.contains_key(candidate) && group@.no_duplicates()),
            knowledge_extends(final(self)@, old(self)@),
    {
        if self.candidates.contains(&candidate) || !is_distinct(&group) {
            return false;
        }
        let ghost members = group@;
        let record = CandidateRecord::new(group);
        self.candidates.insert(candidate, record);
        proof {
            assert(self@ =~= old(self)@.insert(candidate, CandidateView::blank(members)));
            lemma_extends_reflexive(old(self)@);
        }
        true
    }

    /// Whether `candidate` is tracked.
    pub fn is_tracked(&self, candidate: CandidateHash) -> (held: bool)
        requires
            self.wf(),
        ensures
            held == self@.contains_key(candidate),
    {
        self.candidates.contains(&candidate)
    }

    /// Records the statement of kind `kind` by `validator` on `candidate` as known
    /// locally, and says whether it was new. Recording what is known already changes
    /// nothing; neither does a candidate that is not tracked or a validator outside its
    /// group.
    pub fn record_local(
        &mut self,
        candidate: CandidateHash,
        validator: ValidatorIndex,
        kind: StatementKind,
    ) -> (fresh: bool)
        requires
            old(self).wf(),
        ensures
            final(self).wf(),
            final(self)@ == recorded_local(old(self)@, candidate, validator, kind),
            fresh == (old(self)@.contains_key(candidate) && old(self)@[candidate].group.contains(
                validator,
            ) && !knows_local(old(self)@, candidate, validator, kind)),
            knowledge_extends(final(self)@, old(self)@),
    {
        proof {
            lemma_recording_extends(old(self)@, PeerId(0), candidate, validator, kind);
        }
        match self.candidates.remove(&candidate) {
            Some(mut record) => {
                let fresh = record.record_local(validator, kind);
                let ghost after = record@;
                self.candidates.insert(candidate, record);
                proof {
                    assert(self@ =~= old(self)@.insert(candidate, after));
                }
                fresh
            },
            None => {
                proof {
                    assert(self@ =~= old(self)@);
                }
                false
            },
        }
    }

    /// Records the statement of kind `kind` by `validator` on `candidate` as known to
    /// `peer`, and says whether it was new. Recording what is known already changes
    /// nothing; neither does a candidate that is not tracked or a validator outside its
    /// group.
    pub fn record_peer(
        &mut self,
        peer: PeerId,
        candidate: CandidateHash,
        validator: ValidatorIndex,
        kind: StatementKind,
    ) -> (fresh: bool)
        requires
            old(self).wf(),
        ensures
            final(self).wf(),
            final(self)@ == recorded_peer(old(self)@, peer, candidate, validator, kind),
            fresh == (old(self)@.contains_key(candidate) && old(self)@[candidate].group.contains(
                validator,
            ) && !peer_knows(old(self)@, peer, candidate, validator, kind)),
            knowledge_extends(final(self)@, old(self)@),
    {
        proof {
            lemma_recording_extends(old(self)@, peer, candidate, validator, kind);
        }
        match self.candidates.remove(&candidate) {
            Some(mut record) => {
                let fresh = record.record_peer(peer, validator, kind);
                let ghost after = record@;
                self.candidates.insert(candidate, record);
                proof {
                    assert(self@ =~= old(self)@.insert(candidate, after));
                }
                fresh
            },
            None => {
                proof {
                    assert(self@ =~= old(self)@);
                }
                false
            },
        }
    }

    /// A snapshot of the mask of what is known locally of `candidate`, if it is tracked.
    /// Later recordings do not change a snapshot.
    pub fn mask_for(&self, candidate: CandidateHash) -> (mask: Option<StatementFilter>)
        requires
            self.wf(),
        ensures
            mask matches Some(m) ==> mask_of(self@, candidate) == Some(m@),
            mask is None ==> mask_of(self@, candidate) is None,
    {
        match self.candidates.get(&candidate) {
            Some(record) => Some(record.local.clone()),
            None => None,
        }
    }

    /// The validator group of `candidate`, if it is tracked.
    pub fn group_of(&self, candidate: CandidateHash) -> (group: Option<Vec<ValidatorIndex>>)
        requires
            self.wf(),
        ensures
            group matches Some(g) ==> self@.contains_key(candidate) && g@ == self@[candidate].group,
            group is None ==> !self@.contains_key(candidate),
    {
        match self.candidates.get(&candidate) {
            Some(record) => {
                let mut group: Vec<ValidatorIndex> = Vec::new();
                let mut i: usize = 0;
                while i < record.group.len()
                    invariant
                        i <= record.group@.len(),
                        group@ == record.group@.take(i as int),
                    decreases record.group@.len() - i,
                {
                    group.push(record.group[i]);
                    assert(group@ =~= record.group@.take(i + 1));
                    i += 1;
                }
                assert(group@ =~= record.group@);
                Some(group)
            },
            None => None,
        }
    }

    /// Whether the statement of kind `kind` by `validator` on `candidate` is known
    /// locally.
    pub fn is_known_locally(
        &self,
        candidate: CandidateHash,
        validator: ValidatorIndex,
        kind: StatementKind,
    ) -> (known: bool)
        requires
            self.wf(),
        ensures
            known == knows_local(self@, candidate, validator, kind),
    {
        match self.candidates.get(&candidate) {
            Some(record) => record.knows(validator, kind),
            None => false,
        }
    }

    /// Whether `peer` is known to have the statement of kind `kind` by `validator` on
    /// `candidate`.
    pub fn is_known_by_peer(
        &self,
        peer: PeerId,
        candidate: CandidateHash,
        validator: ValidatorIndex,
        kind: StatementKind,
    ) -> (known: bool)
        requires
            self.wf(),
        ensures
            known == peer_knows(self@, peer, candidate, validator, kind),
    {
        match self.candidates.get(&candidate) {
            Some(record) => record.peer_knows(peer, validator, kind),
            None => false,
        }
    }

    /// Whether `candidate` is tracked and both statements of every validator of its
    /// group are known locally.
    pub fn is_complete(&self, candidate: CandidateHash) -> (complete: bool)
        requires
            self.wf(),
        ensures
            complete == (self@.contains_key(candidate) && self@[candidate].complete()),
    {
        match self.candidates.get(&candidate) {
            Some(record) => record.local.is_complete(),
            None => false,
        }
    }

    /// How far `candidate` has come.
    pub fn state_of(&self, candidate: CandidateHash) -> (state: CandidateState)
        requires
            self.wf(),
        ensures
            state == state_in(self@, candidate),
    {
        match self.candidates.get(&candidate) {
            Some(record) => {
                if !record.touched {
                    CandidateState::Unknown
                } else if record.local.is_complete() {
                    CandidateState::FullyKnown
                } else {
                    CandidateState::PartiallyKnown
                }
            },
            None => CandidateState::Unknown,
        }
    }
}

/// Every store extends itself.
pub proof fn lemma_extends_reflexive(knowledge: Map<CandidateHash, CandidateView>)
    ensures
        knowledge_extends(knowledge, knowledge),
{
}

/// A store that extends one that extends a third extends the third.
pub proof fn lemma_extends_transitive(
    last: Map<CandidateHash, CandidateView>,
    middle: Map<CandidateHash, CandidateView>,
    first: Map<CandidateHash, CandidateView>,
)
    requires
        knowledge_extends(last, middle),
        knowledge_extends(middle, first),
    ensures
        knowledge_extends(last, first),
{
    assert forall|candidate: CandidateHash| #[trigger] first.contains_key(candidate) implies last.contains_key(
        candidate,
    ) && last[candidate].extends(first[candidate]) by {
        assert(middle.contains_key(candidate));
        let a = first[candidate];
        let b = middle[candidate];
        let c = last[candidate];
        assert(mask_extends(c.local, a.local)) by {
            assert forall|i: int, kind: StatementKind| 0 <= i < a.local.len() && (
            #[trigger] a.local[i].has(kind)) implies c.local[i].has(kind) by {
                assert(b.local[i].has(kind));
            }
        }
        assert forall|peer: PeerId| #[trigger] a.peers.contains_key(peer) implies c.peers.contains_key(
            peer,
        ) && mask_extends(c.peers[peer], a.peers[peer]) by {
            assert(b.peers.contains_key(peer));
            assert forall|i: int, kind: StatementKind| 0 <= i < a.peers[peer].len() && (
            #[trigger] a.peers[peer][i].has(kind)) implies c.peers[peer][i].has(kind) by {
                assert(b.peers[peer][i].has(kind));
            }
        }
    }
}

/// Mask monotonicity: taking up a candidate and recording a statement, as known
/// locally or as known to a peer, keep every candidate, its group, and every statement
/// that was known before.
pub proof fn lemma_recording_extends(
    knowledge: Map<CandidateHash, CandidateView>,
    peer: PeerId,
    candidate: CandidateHash,
    validator: ValidatorIndex,
    kind: StatementKind,
)
    ensures
        knowledge_extends(recorded_local(knowledge, candidate, validator, kind), knowledge),
        knowledge_extends(recorded_peer(knowledge, peer, candidate, validator, kind), knowledge),
        forall|group: Seq<ValidatorIndex>|
            knowledge_extends(#[trigger] taken_up(knowledge, candidate, group), knowledge),
{
    if knowledge.contains_key(candidate) {
        let before = knowledge[candidate];
        assert(before.with_local(validator, kind).extends(before));
        assert(before.with_peer(peer, validator, kind).extends(before)) by {
            let after = before.with_peer(peer, validator, kind);
            assert forall|other: PeerId| #[trigger] before.peers.contains_key(other) implies after.peers.contains_key(
                other,
            ) && mask_extends(after.peers[other], before.peers[other]) by {
                if other == peer {
                    assert(before.peer_mask(peer) == before.peers[peer]);
                }
            }
        }
    }
}

/// Idempotent recording: recording a statement that was recorded before changes
/// nothing, so recording it any number of times gives the store, and with it the mask,
/// that recording it once gives.
pub proof fn lemma_recording_is_idempotent(
    knowledge: Map<CandidateHash, CandidateView>,
    peer: PeerId,
    candidate: CandidateHash,
    validator: ValidatorIndex,
    kind: StatementKind,
    times: nat,
)
    requires
        times >= 1,
    ensures
        recorded_local_times(knowledge, candidate, validator, kind, times) == recorded_local(
            knowledge,
            candidate,
            validator,
            kind,
        ),
        mask_of(recorded_local_times(knowledge, candidate, validator, kind, times), candidate)
            == mask_of(recorded_local(knowledge, candidate, validator, kind), candidate),
        recorded_peer_times(knowledge, peer, candidate, validator, kind, times) == recorded_peer(
            knowledge,
            peer,
            candidate,
            validator,
            kind,
        ),
    decreases times,
{
    let once = recorded_local(knowledge, candidate, validator, kind);
    let once_peer = recorded_peer(knowledge, peer, candidate, validator, kind);
    if times == 1 {
        assert(recorded_local_times(knowledge, candidate, validator, kind, 0) == knowledge);
        assert(recorded_peer_times(knowledge, peer, candidate, validator, kind, 0) == knowledge);
    } else {
        lemma_recording_is_idempotent(knowledge, peer, candidate, validator, kind, (times - 1) as nat);
        if knowledge.contains_key(candidate) {
            let before = knowledge[candidate];
            let after = before.with_local(validator, kind);
            assert(after.with_local(validator, kind).local =~= after.local);
            assert(after.with_local(validator, kind) == after);
            let after_peer = before.with_peer(peer, validator, kind);
            match position_in(before.group, validator) {
                Some(position) => {
                    assert(after_peer.peer_mask(peer) == mask_with(before.peer_mask(peer), position, kind));
                    assert(mask_with(after_peer.peer_mask(peer), position, kind) =~= after_peer.peer_mask(peer));
                    assert(after_peer.with_peer(peer, validator, kind).peers =~= after_peer.peers);
                },
                None => {},
            }
            assert(after_peer.with_peer(peer, validator, kind) == after_peer);
        }
        assert(recorded_local(once, candidate, validator, kind) =~= once);
        assert(recorded_peer(once_peer, peer, candidate, validator, kind) =~= once_peer);
    }
}

/// `knowledge` after the same statement is recorded `times` times as known locally.
pub open spec fn recorded_local_times(
    knowledge: Map<CandidateHash, CandidateView>,
    candidate: CandidateHash,
    validator: ValidatorIndex,
    kind: StatementKind,
    times: nat,
) -> Map<CandidateHash, CandidateView>
    decreases times,
{
    if times == 0 {
        knowledge
    } else {
        recorded_local(
            recorded_local_times(knowledge, candidate, validator, kind, (times - 1) as nat),
            candidate,
            validator,
            kind,
        )
    }
}

/// `knowledge` after the same statement is recorded `times` times as known to `peer`.
pub open spec fn recorded_peer_times(
    knowledge: Map<CandidateHash, CandidateView>,
    peer: PeerId,
    candidate: CandidateHash,
    validator: ValidatorIndex,
    kind: StatementKind,
    times: nat,
) -> Map<CandidateHash, CandidateView>
    decreases times,
{
    if times == 0 {
        knowledge
    } else {
        recorded_peer(
            recorded_peer_times(knowledge, peer, candidate, validator, kind, (times - 1) as nat),
            peer,
            candidate,
            validator,
            kind,
        )
    }
}

impl CandidateState {
    /// The place of the state in the order in which a candidate passes through the
    /// states.
    pub open spec fn rank(self) -> nat {
        match self {
            CandidateState::Unknown => 0,
            CandidateState::PartiallyKnown => 1,
            CandidateState::FullyKnown => 2,
        }
    }
}

/// A candidate never goes back: as long as statements are only added, its state stays
/// or advances from unknown over partially known to fully known.
pub proof fn lemma_state_never_regresses(later: CandidateView, earlier: CandidateView)
    requires
        later.extends(earlier),
    ensures
        later.state().rank() >= earlier.state().rank(),
        earlier.complete() ==> later.complete(),
        later.untouched() ==> earlier.untouched(),
{
    if earlier.complete() {
        assert forall|i: int| 0 <= i < later.local.len() implies (#[trigger] later.local[i]).seconded
            && later.local[i].valid by {
            assert(earlier.local[i].has(StatementKind::Seconded));
            assert(earlier.local[i].has(StatementKind::Valid));
        }
    }
    if later.untouched() {
        let blank = blank_mask(later.group.len());
        assert forall|i: int| 0 <= i < earlier.local.len() implies earlier.local[i]
            == blank[i] by {
            if earlier.local[i].has(StatementKind::Seconded) {
                assert(later.local[i].has(StatementKind::Seconded));
            }
            if earlier.local[i].has(StatementKind::Valid) {
                assert(later.local[i].has(StatementKind::Valid));
            }
        }
        assert(earlier.local =~= blank);
        assert forall|peer: PeerId| #[trigger] earlier.peers.contains_key(peer) implies earlier.peers[peer]
            == blank by {
            let mask = earlier.peers[peer];
            assert(later.peers.contains_key(peer));
            assert(later.peers[peer] == blank);
            assert forall|i: int| 0 <= i < mask.len() implies mask[i] == blank[i] by {
                if mask[i].has(StatementKind::Seconded) {
                    assert(later.peers[peer][i].has(StatementKind::Seconded));
                }
                if mask[i].has(StatementKind::Valid) {
                    assert(later.peers[peer][i].has(StatementKind::Valid));
                }
            }
            assert(mask =~= blank);
        }
    }
}

} // verus!
