//! Identifiers that the reconciliation of statements works on.

use vstd::prelude::*;
use vstd::std_specs::cmp::PartialEqSpecImpl;

verus! {

/// A 256-bit digest.
#[derive(Clone, Copy, Debug, Eq)]
pub struct Hash256(pub [u8; 32]);

impl PartialEq for Hash256 {
    fn eq(&self, other: &Self) -> (equal: bool) {
        let mut i: usize = 0;
        while i < 32
            invariant
                i <= 32,
                forall|j: int| 0 <= j < i ==> self.0[j] == other.0[j],
            decreases 32 - i,
        {
            if self.0[i] != other.0[i] {
                return false;
            }
            i += 1;
        }
        assert(self.0 =~= other.0);
        true
    }
}

impl PartialEqSpecImpl for Hash256 {
    open spec fn obeys_eq_spec() -> bool {
        true
    }

    open spec fn eq_spec(&self, other: &Self) -> bool {
        self.0 == other.0
    }
}

impl Hash256 {
    /// The digest whose every byte is `byte`.
    pub fn repeat_byte(byte: u8) -> (hash: Self)
        ensures
            forall|i: int| 0 <= i < 32 ==> hash.0[i] == byte,
    {
        Hash256([byte; 32])
    }
}

/// The block under which statements are exchanged. It scopes a session and the
/// validator groups.
#[derive(Clone, Copy, Debug, Eq)]
pub struct RelayParent(pub Hash256);

impl PartialEq for RelayParent {
    fn eq(&self, other: &Self) -> (equal: bool) {
        self.0 == other.0
    }
}

impl PartialEqSpecImpl for RelayParent {
    open spec fn obeys_eq_spec() -> bool {
        true
    }

    open spec fn eq_spec(&self, other: &Self) -> bool {
        self.0 == other.0
    }
}

/// The content-derived identifier of a candidate block.
#[derive(Clone, Copy, Debug, Eq)]
pub struct CandidateHash(pub Hash256);

impl PartialEq for CandidateHash {
    fn eq(&self, other: &Self) -> (equal: bool) {
        self.0 == other.0
    }
}

impl PartialEqSpecImpl for CandidateHash {
    open spec fn obeys_eq_spec() -> bool {
        true
    }

    open spec fn eq_spec(&self, other: &Self) -> bool {
        self.0 == other.0
    }
}

/// The handle by which the connection layer names a peer.
#[derive(Clone, Copy, Debug, PartialEq, Eq, Structural)]
pub struct PeerId(pub u64);

/// The index of a validator in the validator set of the session.
#[derive(Clone, Copy, Debug, PartialEq, Eq, Structural)]
pub struct ValidatorIndex(pub u32);

/// What a statement asserts of its candidate.
#[derive(Clone, Copy, Debug, PartialEq, Eq, Structural)]
pub enum StatementKind {
    /// The validator proposes the candidate and vouches for it.
    Seconded,
    /// The validator has checked the candidate and found it valid.
    Valid,
}

/// The first position at which `validator` stands in `group`, if it stands there.
pub open spec fn position_in(group: Seq<ValidatorIndex>, validator: ValidatorIndex) -> Option<int> {
    if group.contains(validator) {
        Some(choose|i: int| is_first_position(group, validator, i))
    } else {
        None
    }
}

/// Whether `i` is the first position of `validator` in `group`.
pub open spec fn is_first_position(
    group: Seq<ValidatorIndex>,
    validator: ValidatorIndex,
    i: int,
) -> bool {
    &&& 0 <= i < group.len()
    &&& group[i] == validator
    &&& forall|j: int| 0 <= j < i ==> group[j] != validator
}

/// A validator that stands in a group has a first position there.
pub proof fn lemma_position_in(group: Seq<ValidatorIndex>, validator: ValidatorIndex)
    ensures
        match position_in(group, validator) {
            Some(position) => is_first_position(group, validator, position),
            None => !group.contains(validator),
        },
{
    if group.contains(validator) {
        let i = choose|i: int| 0 <= i < group.len() && group[i] == validator;
        lemma_first_position_exists(group, validator, i);
    }
}

proof fn lemma_first_position_exists(group: Seq<ValidatorIndex>, validator: ValidatorIndex, i: int)
    requires
        0 <= i < group.len(),
        group[i] == validator,
    ensures
        exists|k: int| is_first_position(group, validator, k),
    decreases i,
{
    if exists|j: int| 0 <= j < i && group[j] == validator {
        let j = choose|j: int| 0 <= j < i && group[j] == validator;
        lemma_first_position_exists(group, validator, j);
    } else {
        assert(is_first_position(group, validator, i));
    }
}

/// Finds the position of `validator` in `group`.
pub fn find_position(group: &Vec<ValidatorIndex>, validator: ValidatorIndex) -> (found: Option<
    usize,
>)
    ensures
        found matches Some(p) ==> position_in(group@, validator) == Some(p as int) && p
            < group@.len() && group@[p as int] == validator,
        found is None ==> position_in(group@, validator) is None,
{
    let mut i: usize = 0;
    while i < group.len()
        invariant
            i <= group@.len(),
            forall|j: int| 0 <= j < i ==> group@[j] != validator,
        decreases group@.len() - i,
    {
        if group[i] == validator {
            assert(is_first_position(group@, validator, i as int));
            assert(group@.contains(validator));
            let ghost chosen = choose|k: int| is_first_position(group@, validator, k);
            assert(is_first_position(group@, validator, chosen));
            assert(chosen == i);
            return Some(i);
        }
        i += 1;
    }
    assert(!group@.contains(validator));
    None
}

/// Whether no validator stands twice in `group`.
pub fn is_distinct(group: &Vec<ValidatorIndex>) -> (distinct: bool)
    ensures
        distinct == group@.no_duplicates(),
{
    let mut i: usize = 0;
    while i < group.len()
        invariant
            i <= group@.len(),
            forall|a: int, b: int| 0 <= a < b < i ==> group@[a] != group@[b],
        decreases group@.len() - i,
    {
        let mut j: usize = 0;
        while j < i
            invariant
                j <= i < group@.len(),
                forall|a: int| 0 <= a < j ==> group@[a] != group@[i as int],
            decreases i - j,
        {
            if group[j] == group[i] {
                return false;
            }
            j += 1;
        }
        i += 1;
    }
    assert forall|a: int, b: int| 0 <= a < group@.len() && 0 <= b < group@.len() && a != b implies group@[a] != group@[b] by {
        if a < b {
            assert(group@[a] != group@[b]);
        } else {
            assert(group@[b] != group@[a]);
        }
    }
    true
}

} // verus!
