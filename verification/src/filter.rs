//! The mask of statements already known for one candidate.

use crate::primitives::StatementKind;
use vstd::prelude::*;

verus! {

/// What is known of one validator's statements on one candidate.
#[derive(Clone, Copy, Debug, PartialEq, Eq, Structural)]
pub struct Known {
    /// Its `Seconded` statement is known.
    pub seconded: bool,
    /// Its `Valid` statement is known.
    pub valid: bool,
}

impl Known {
    /// Whether the statement of kind `kind` is known.
    pub open spec fn has(self, kind: StatementKind) -> bool {
        match kind {
            StatementKind::Seconded => self.seconded,
            StatementKind::Valid => self.valid,
        }
    }

    /// `self` with the statement of kind `kind` known as well.
    pub open spec fn with(self, kind: StatementKind) -> Known {
        match kind {
            StatementKind::Seconded => Known { seconded: true, valid: self.valid },
            StatementKind::Valid => Known { seconded: self.seconded, valid: true },
        }
    }

    /// Nothing known.
    pub open spec fn nothing() -> Known {
        Known { seconded: false, valid: false }
    }
}

/// The mask of a group of `group_size` validators of whom nothing is known.
pub open spec fn blank_mask(group_size: nat) -> Seq<Known> {
    Seq::new(group_size, |i: int| Known::nothing())
}

/// `mask` with the statement of kind `kind` of the validator at `position` known as
/// well. A position outside the mask changes nothing.
pub open spec fn mask_with(mask: Seq<Known>, position: int, kind: StatementKind) -> Seq<Known> {
    if 0 <= position < mask.len() {
        mask.update(position, mask[position].with(kind))
    } else {
        mask
    }
}

/// Whether `mask` marks the statement of kind `kind` of the validator at `position`.
pub open spec fn mask_has(mask: Seq<Known>, position: int, kind: StatementKind) -> bool {
    0 <= position < mask.len() && mask[position].has(kind)
}

/// Whether `mask` marks both statements of every validator of the group.
pub open spec fn mask_complete(mask: Seq<Known>) -> bool {
    forall|i: int| 0 <= i < mask.len() ==> (#[trigger] mask[i]).seconded && mask[i].valid
}

/// Whether `later` is a mask of the same group as `earlier` that marks everything
/// `earlier` marks.
pub open spec fn mask_extends(later: Seq<Known>, earlier: Seq<Known>) -> bool {
    &&& later.len() == earlier.len()
    &&& forall|i: int, kind: StatementKind|
        0 <= i < earlier.len() && (#[trigger] earlier[i].has(kind)) ==> later[i].has(kind)
}

/// A mask over the validators of one group, by their position in the group: for each
/// of them, which of its two statements on a candidate are already known to the party
/// that presents the mask.
#[derive(Debug, PartialEq, Eq)]
pub struct StatementFilter {
    slots: Vec<Known>,
}

impl View for StatementFilter {
    type V = Seq<Known>;

    closed spec fn view(&self) -> Seq<Known> {
        self.slots@
    }
}

impl Clone for StatementFilter {
    fn clone(&self) -> (copy: Self)
        ensures
            copy@ == self@,
    {
        let mut slots: Vec<Known> = Vec::new();
        let mut i: usize = 0;
        while i < self.slots.len()
            invariant
                i <= self.slots@.len(),
                slots@ == self.slots@.take(i as int),
            decreases self.slots@.len() - i,
        {
            slots.push(self.slots[i]);
            assert(slots@ =~= self.slots@.take(i + 1));
            i += 1;
        }
        assert(slots@ =~= self.slots@);
        StatementFilter { slots }
    }
}

impl StatementFilter {
    /// The mask of a group of `group_size` validators that marks nothing.
    pub fn blank(group_size: usize) -> (mask: Self)
        ensures
            mask@ == blank_mask(group_size as nat),
    {
        let mut slots: Vec<Known> = Vec::new();
        let mut i: usize = 0;
        while i < group_size
            invariant
                i <= group_size,
                slots@ == blank_mask(i as nat),
            decreases group_size - i,
        {
            slots.push(Known { seconded: false, valid: false });
            assert(slots@ =~= blank_mask((i + 1) as nat));
            i += 1;
        }
        StatementFilter { slots }
    }

    /// The size of the group that the mask is over.
    pub fn group_size(&self) -> (size: usize)
        ensures
            size == self@.len(),
    {
        self.slots.len()
    }

    /// Whether the mask marks the statement of kind `kind` of the validator at
    /// `position`. No position outside the group is marked.
    pub fn contains(&self, position: usize, kind: StatementKind) -> (marked: bool)
        ensures
            marked == mask_has(self@, position as int, kind),
    {
        if position < self.slots.len() {
            let slot = self.slots[position];
            match kind {
                StatementKind::Seconded => slot.seconded,
                StatementKind::Valid => slot.valid,
            }
        } else {
            false
        }
    }

    /// Marks the statement of kind `kind` of the validator at `position`, and says
    /// whether the mask changed by it. A position outside the group changes nothing.
    pub fn set(&mut self, position: usize, kind: StatementKind) -> (changed: bool)
        ensures
            final(self)@ == mask_with(old(self)@, position as int, kind),
            changed == (position < old(self)@.len() && !mask_has(
                old(self)@,
                position as int,
                kind,
            )),
    {
        if position < self.slots.len() {
            let slot = self.slots[position];
            let (marked, updated) = match kind {
                StatementKind::Seconded => (
                    slot.seconded,
                    Known { seconded: true, valid: slot.valid },
                ),
                StatementKind::Valid => (slot.valid, Known { seconded: slot.seconded, valid: true }),
            };
            self.slots.set(position, updated);
            !marked
        } else {
            false
        }
    }

    /// The mask as one bit for each validator of the group, in the order of the group:
    /// whether its statement of kind `kind` is marked.
    pub fn bits(&self, kind: StatementKind) -> (bits: Vec<bool>)
        ensures
            bits@ == Seq::new(self@.len(), |i: int| self@[i].has(kind)),
    {
        let mut bits: Vec<bool> = Vec::new();
        let mut i: usize = 0;
        while i < self.slots.len()
            invariant
                i <= self.slots@.len(),
                bits@ == Seq::new(i as nat, |k: int| self.slots@[k].has(kind)),
            decreases self.slots@.len() - i,
        {
            let slot = self.slots[i];
            let bit = match kind {
                StatementKind::Seconded => slot.seconded,
                StatementKind::Valid => slot.valid,
            };
            bits.push(bit);
            assert(bits@ =~= Seq::new((i + 1) as nat, |k: int| self.slots@[k].has(kind)));
            i += 1;
        }
        assert(bits@ =~= Seq::new(self@.len(), |i: int| self@[i].has(kind)));
        bits
    }

    /// Whether the mask marks both statements of every validator of the group.
    pub fn is_complete(&self) -> (complete: bool)
        ensures
            complete == mask_complete(self@),
    {
        let mut i: usize = 0;
        while i < self.slots.len()
            invariant
                i <= self.slots@.len(),
                forall|j: int| 0 <= j < i ==> (#[trigger] self.slots@[j]).seconded && self.slots@[j].valid,
            decreases self.slots@.len() - i,
        {
            let slot = self.slots[i];
            if !slot.seconded || !slot.valid {
                return false;
            }
            i += 1;
        }
        true
    }
}

} // verus!
