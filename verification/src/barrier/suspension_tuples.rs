//! [`CheckSuspension`] for tuples of checks, from the empty tuple to thirty members.
//!
//! Each tuple is its first member followed by the tuple of the others: it reports
//! suspension where its first member does, and else decides as the tuple of the others
//! does.

use super::{check_in_turn, first_or_rest_suspends, CheckSuspension, Outcome};
use staging_xcm::latest::{Instruction, MultiLocation, Weight};
use vstd::prelude::*;

verus! {

impl<Call> CheckSuspension<Call> for () {
    /// No check to ask: the message and the credit stay as they are, and execution is
    /// not suspended.
    open spec fn may_report(
        origin: MultiLocation,
        instructions: Seq<Instruction<Call>>,
        max_weight: Weight,
        weight_credit: Weight,
        outcome: Outcome<Call, bool>,
    ) -> bool {
        &&& outcome.instructions == instructions
        &&& outcome.weight_credit == weight_credit
        &&& !outcome.said
    }

    fn is_suspended(
        origin: &MultiLocation,
        instructions: &mut [Instruction<Call>],
        max_weight: Weight,
        weight_credit: &mut Weight,
    ) -> (suspended: bool) {
        false
    }
}

impl<Call, R0: CheckSuspension<Call>> CheckSuspension<Call> for (R0,) {
    open spec fn may_report(
        origin: MultiLocation,
        instructions: Seq<Instruction<Call>>,
        max_weight: Weight,
        weight_credit: Weight,
        outcome: Outcome<Call, bool>,
    ) -> bool {
        first_or_rest_suspends::<Call, R0, ()>(
            origin,
            instructions,
            max_weight,
            weight_credit,
            outcome,
        )
    }

    fn is_suspended(
        origin: &MultiLocation,
        instructions: &mut [Instruction<Call>],
        max_weight: Weight,
        weight_credit: &mut Weight,
    ) -> (suspended: bool) {
        check_in_turn::<Call, R0, ()>(origin, instructions, max_weight, weight_credit)
    }
}

impl<Call, R0: CheckSuspension<Call>, R1: CheckSuspension<Call>> CheckSuspension<Call> for (R0, R1) {
    open spec fn may_report(
        origin: MultiLocation,
        instructions: Seq<Instruction<Call>>,
        max_weight: Weight,
        weight_credit: Weight,
        outcome: Outcome<Call, bool>,
    ) -> bool {
        first_or_rest_suspends::<Call, R0, (R1,)>(
            origin,
            instructions,
            max_weight,
            weight_credit,
            outcome,
        )
    }

    fn is_suspended(
        origin: &MultiLocation,
        instructions: &mut [Instruction<Call>],
        max_weight: Weight,
        weight_credit: &mut Weight,
    ) -> (suspended: bool) {
        check_in_turn::<Call, R0, (R1,)>(origin, instructions, max_weight, weight_credit)
    }
}

impl<Call, R0: CheckSuspension<Call>, R1: CheckSuspension<Call>, R2: CheckSuspension<Call>> CheckSuspension<Call> for (R0, R1, R2) {
    open spec fn may_report(
        origin: MultiLocation,
        instructions: Seq<Instruction<Call>>,
        max_weight: Weight,
        weight_credit: Weight,
        outcome: Outcome<Call, bool>,
    ) -> bool {
        first_or_rest_suspends::<Call, R0, (R1, R2)>(
            origin,
            instructions,
            max_weight,
            weight_credit,
            outcome,
        )
    }

    fn is_suspended(
        origin: &MultiLocation,
        instructions: &mut [Instruction<Call>],
        max_weight: Weight,
        weight_credit: &mut Weight,
    ) -> (suspended: bool) {
        check_in_turn::<Call, R0, (R1, R2)>(origin, instructions, max_weight, weight_credit)
    }
}

impl<Call, R0: CheckSuspension<Call>, R1: CheckSuspension<Call>, R2: CheckSuspension<Call>, R3: CheckSuspension<Call>> CheckSuspension<Call> for (R0, R1, R2, R3) {
    open spec fn may_report(
        origin: MultiLocation,
        instructions: Seq<Instruction<Call>>,
        max_weight: Weight,
        weight_credit: Weight,
        outcome: Outcome<Call, bool>,
    ) -> bool {
        first_or_rest_suspends::<Call, R0, (R1, R2, R3)>(
            origin,
            instructions,
            max_weight,
            weight_credit,
            outcome,
        )
    }

    fn is_suspended(
        origin: &MultiLocation,
        instructions: &mut [Instruction<Call>],
        max_weight: Weight,
        weight_credit: &mut Weight,
    ) -> (suspended: bool) {
        check_in_turn::<Call, R0, (R1, R2, R3)>(origin, instructions, max_weight, weight_credit)
    }
}

impl<Call, R0: CheckSuspension<Call>, R1: CheckSuspension<Call>, R2: CheckSuspension<Call>, R3: CheckSuspension<Call>, R4: CheckSuspension<Call>> CheckSuspension<Call> for (R0, R1, R2, R3, R4) {
    open spec fn may_report(
        origin: MultiLocation,
        instructions: Seq<Instruction<Call>>,
        max_weight: Weight,
        weight_credit: Weight,
        outcome: Outcome<Call, bool>,
    ) -> bool {
        first_or_rest_suspends::<Call, R0, (R1, R2, R3, R4)>(
            origin,
            instructions,
            max_weight,
            weight_credit,
            outcome,
        )
    }

    fn is_suspended(
        origin: &MultiLocation,
        instructions: &mut [Instruction<Call>],
        max_weight: Weight,
        weight_credit: &mut Weight,
    ) -> (suspended: bool) {
        check_in_turn::<Call, R0, (R1, R2, R3, R4)>(origin, instructions, max_weight, weight_credit)
    }
}

impl<Call, R0: CheckSuspension<Call>, R1: CheckSuspension<Call>, R2: CheckSuspension<Call>, R3: CheckSuspension<Call>, R4: CheckSuspension<Call>, R5: CheckSuspension<Call>> CheckSuspension<Call> for (R0, R1, R2, R3, R4, R5) {
    open spec fn may_report(
        origin: MultiLocation,
        instructions: Seq<Instruction<Call>>,
        max_weight: Weight,
        weight_credit: Weight,
        outcome: Outcome<Call, bool>,
    ) -> bool {
        first_or_rest_suspends::<Call, R0, (R1, R2, R3, R4, R5)>(
            origin,
            instructions,
            max_weight,
            weight_credit,
            outcome,
        )
    }

    fn is_suspended(
        origin: &MultiLocation,
        instructions: &mut [Instruction<Call>],
        max_weight: Weight,
        weight_credit: &mut Weight,
    ) -> (suspended: bool) {
        check_in_turn::<Call, R0, (R1, R2, R3, R4, R5)>(origin, instructions, max_weight, weight_credit)
    }
}

impl<Call, R0: CheckSuspension<Call>, R1: CheckSuspension<Call>, R2: CheckSuspension<Call>, R3: CheckSuspension<Call>, R4: CheckSuspension<Call>, R5: CheckSuspension<Call>, R6: CheckSuspension<Call>> CheckSuspension<Call> for (R0, R1, R2, R3, R4, R5, R6) {
    open spec fn may_report(
        origin: MultiLocation,
        instructions: Seq<Instruction<Call>>,
        max_weight: Weight,
        weight_credit: Weight,
        outcome: Outcome<Call, bool>,
    ) -> bool {
        first_or_rest_suspends::<Call, R0, (R1, R2, R3, R4, R5, R6)>(
            origin,
            instructions,
            max_weight,
            weight_credit,
            outcome,
        )
    }

    fn is_suspended(
        origin: &MultiLocation,
        instructions: &mut [Instruction<Call>],
        max_weight: Weight,
        weight_credit: &mut Weight,
    ) -> (suspended: bool) {
        check_in_turn::<Call, R0, (R1, R2, R3, R4, R5, R6)>(origin, instructions, max_weight, weight_credit)
    }
}

impl<Call, R0: CheckSuspension<Call>, R1: CheckSuspension<Call>, R2: CheckSuspension<Call>, R3: CheckSuspension<Call>, R4: CheckSuspension<Call>, R5: CheckSuspension<Call>, R6: CheckSuspension<Call>, R7: CheckSuspension<Call>> CheckSuspension<Call> for (R0, R1, R2, R3, R4, R5, R6, R7) {
    open spec fn may_report(
        origin: MultiLocation,
        instructions: Seq<Instruction<Call>>,
        max_weight: Weight,
        weight_credit: Weight,
        outcome: Outcome<Call, bool>,
    ) -> bool {
        first_or_rest_suspends::<Call, R0, (R1, R2, R3, R4, R5, R6, R7)>(
            origin,
            instructions,
            max_weight,
            weight_credit,
            outcome,
        )
    }

    fn is_suspended(
        origin: &MultiLocation,
        instructions: &mut [Instruction<Call>],
        max_weight: Weight,
        weight_credit: &mut Weight,
    ) -> (suspended: bool) {
        check_in_turn::<Call, R0, (R1, R2, R3, R4, R5, R6, R7)>(origin, instructions, max_weight, weight_credit)
    }
}

impl<Call, R0: CheckSuspension<Call>, R1: CheckSuspension<Call>, R2: CheckSuspension<Call>, R3: CheckSuspension<Call>, R4: CheckSuspension<Call>, R5: CheckSuspension<Call>, R6: CheckSuspension<Call>, R7: CheckSuspension<Call>, R8: CheckSuspension<Call>> CheckSuspension<Call> for (R0, R1, R2, R3, R4, R5, R6, R7, R8) {
    open spec fn may_report(
        origin: MultiLocation,
        instructions: Seq<Instruction<Call>>,
        max_weight: Weight,
        weight_credit: Weight,
        outcome: Outcome<Call, bool>,
    ) -> bool {
        first_or_rest_suspends::<Call, R0, (R1, R2, R3, R4, R5, R6, R7, R8)>(
            origin,
            instructions,
            max_weight,
            weight_credit,
            outcome,
        )
    }

    fn is_suspended(
        origin: &MultiLocation,
        instructions: &mut [Instruction<Call>],
        max_weight: Weight,
        weight_credit: &mut Weight,
    ) -> (suspended: bool) {
        check_in_turn::<Call, R0, (R1, R2, R3, R4, R5, R6, R7, R8)>(origin, instructions, max_weight, weight_credit)
    }
}

impl<Call, R0: CheckSuspension<Call>, R1: CheckSuspension<Call>, R2: CheckSuspension<Call>, R3: CheckSuspension<Call>, R4: CheckSuspension<Call>, R5: CheckSuspension<Call>, R6: CheckSuspension<Call>, R7: CheckSuspension<Call>, R8: CheckSuspension<Call>, R9: CheckSuspension<Call>> CheckSuspension<Call> for (R0, R1, R2, R3, R4, R5, R6, R7, R8, R9) {
    open spec fn may_report(
        origin: MultiLocation,
        instructions: Seq<Instruction<Call>>,
        max_weight: Weight,
        weight_credit: Weight,
        outcome: Outcome<Call, bool>,
    ) -> bool {
        first_or_rest_suspends::<Call, R0, (R1, R2, R3, R4, R5, R6, R7, R8, R9)>(
            origin,
            instructions,
            max_weight,
            weight_credit,
            outcome,
        )
    }

    fn is_suspended(
        origin: &MultiLocation,
        instructions: &mut [Instruction<Call>],
        max_weight: Weight,
        weight_credit: &mut Weight,
    ) -> (suspended: bool) {
        check_in_turn::<Call, R0, (R1, R2, R3, R4, R5, R6, R7, R8, R9)>(origin, instructions, max_weight, weight_credit)
    }
}

impl<Call, R0: CheckSuspension<Call>, R1: CheckSuspension<Call>, R2: CheckSuspension<Call>, R3: CheckSuspension<Call>, R4: CheckSuspension<Call>, R5: CheckSuspension<Call>, R6: CheckSuspension<Call>, R7: CheckSuspension<Call>, R8: CheckSuspension<Call>, R9: CheckSuspension<Call>, R10: CheckSuspension<Call>> CheckSuspension<Call> for (R0, R1, R2, R3, R4, R5, R6, R7, R8, R9, R10) {
    open spec fn may_report(
        origin: MultiLocation,
        instructions: Seq<Instruction<Call>>,
        max_weight: Weight,
        weight_credit: Weight,
        outcome: Outcome<Call, bool>,
    ) -> bool {
        first_or_rest_suspends::<Call, R0, (R1, R2, R3, R4, R5, R6, R7, R8, R9, R10)>(
            origin,
            instructions,
            max_weight,
            weight_credit,
            outcome,
        )
    }

    fn is_suspended(
        origin: &MultiLocation,
        instructions: &mut [Instruction<Call>],
        max_weight: Weight,
        weight_credit: &mut Weight,
    ) -> (suspended: bool) {
        check_in_turn::<Call, R0, (R1, R2, R3, R4, R5, R6, R7, R8, R9, R10)>(origin, instructions, max_weight, weight_credit)
    }
}

impl<Call, R0: CheckSuspension<Call>, R1: CheckSuspension<Call>, R2: CheckSuspension<Call>, R3: CheckSuspension<Call>, R4: CheckSuspension<Call>, R5: CheckSuspension<Call>, R6: CheckSuspension<Call>, R7: CheckSuspension<Call>, R8: CheckSuspension<Call>, R9: CheckSuspension<Call>, R10: CheckSuspension<Call>, R11: CheckSuspension<Call>> CheckSuspension<Call> for (R0, R1, R2, R3, R4, R5, R6, R7, R8, R9, R10, R11) {
    open spec fn may_report(
        origin: MultiLocation,
        instructions: Seq<Instruction<Call>>,
        max_weight: Weight,
        weight_credit: Weight,
        outcome: Outcome<Call, bool>,
    ) -> bool {
        first_or_rest_suspends::<Call, R0, (R1, R2, R3, R4, R5, R6, R7, R8, R9, R10, R11)>(
            origin,
            instructions,
            max_weight,
            weight_credit,
            outcome,
        )
    }

    fn is_suspended(
        origin: &MultiLocation,
        instructions: &mut [Instruction<Call>],
        max_weight: Weight,
        weight_credit: &mut Weight,
    ) -> (suspended: bool) {
        check_in_turn::<Call, R0, (R1, R2, R3, R4, R5, R6, R7, R8, R9, R10, R11)>(origin, instructions, max_weight, weight_credit)
    }
}

impl<Call, R0: CheckSuspension<Call>, R1: CheckSuspension<Call>, R2: CheckSuspension<Call>, R3: CheckSuspension<Call>, R4: CheckSuspension<Call>, R5: CheckSuspension<Call>, R6: CheckSuspension<Call>, R7: CheckSuspension<Call>, R8: CheckSuspension<Call>, R9: CheckSuspension<Call>, R10: CheckSuspension<Call>, R11: CheckSuspension<Call>, R12: CheckSuspension<Call>> CheckSuspension<Call> for (R0, R1, R2, R3, R4, R5, R6, R7, R8, R9, R10, R11, R12) {
    open spec fn may_report(
        origin: MultiLocation,
        instructions: Seq<Instruction<Call>>,
        max_weight: Weight,
        weight_credit: Weight,
        outcome: Outcome<Call, bool>,
    ) -> bool {
        first_or_rest_suspends::<Call, R0, (R1, R2, R3, R4, R5, R6, R7, R8, R9, R10, R11, R12)>(
            origin,
            instructions,
            max_weight,
            weight_credit,
            outcome,
        )
    }

    fn is_suspended(
        origin: &MultiLocation,
        instructions: &mut [Instruction<Call>],
        max_weight: Weight,
        weight_credit: &mut Weight,
    ) -> (suspended: bool) {
        check_in_turn::<Call, R0, (R1, R2, R3, R4, R5, R6, R7, R8, R9, R10, R11, R12)>(origin, instructions, max_weight, weight_credit)
    }
}

impl<Call, R0: CheckSuspension<Call>, R1: CheckSuspension<Call>, R2: CheckSuspension<Call>, R3: CheckSuspension<Call>, R4: CheckSuspension<Call>, R5: CheckSuspension<Call>, R6: CheckSuspension<Call>, R7: CheckSuspension<Call>, R8: CheckSuspension<Call>, R9: CheckSuspension<Call>, R10: CheckSuspension<Call>, R11: CheckSuspension<Call>, R12: CheckSuspension<Call>, R13: CheckSuspension<Call>> CheckSuspension<Call> for (R0, R1, R2, R3, R4, R5, R6, R7, R8, R9, R10, R11, R12, R13) {
    open spec fn may_report(
        origin: MultiLocation,
        instructions: Seq<Instruction<Call>>,
        max_weight: Weight,
        weight_credit: Weight,
        outcome: Outcome<Call, bool>,
    ) -> bool {
        first_or_rest_suspends::<Call, R0, (R1, R2, R3, R4, R5, R6, R7, R8, R9, R10, R11, R12, R13)>(
            origin,
            instructions,
            max_weight,
            weight_credit,
            outcome,
        )
    }

    fn is_suspended(
        origin: &MultiLocation,
        instructions: &mut [Instruction<Call>],
        max_weight: Weight,
        weight_credit: &mut Weight,
    ) -> (suspended: bool) {
        check_in_turn::<Call, R0, (R1, R2, R3, R4, R5, R6, R7, R8, R9, R10, R11, R12, R13)>(origin, instructions, max_weight, weight_credit)
    }
}

impl<Call, R0: CheckSuspension<Call>, R1: CheckSuspension<Call>, R2: CheckSuspension<Call>, R3: CheckSuspension<Call>, R4: CheckSuspension<Call>, R5: CheckSuspension<Call>, R6: CheckSuspension<Call>, R7: CheckSuspension<Call>, R8: CheckSuspension<Call>, R9: CheckSuspension<Call>, R10: CheckSuspension<Call>, R11: CheckSuspension<Call>, R12: CheckSuspension<Call>, R13: CheckSuspension<Call>, R14: CheckSuspension<Call>> CheckSuspension<Call> for (R0, R1, R2, R3, R4, R5, R6, R7, R8, R9, R10, R11, R12, R13, R14) {
    open spec fn may_report(
        origin: MultiLocation,
        instructions: Seq<Instruction<Call>>,
        max_weight: Weight,
        weight_credit: Weight,
        outcome: Outcome<Call, bool>,
    ) -> bool {
        first_or_rest_suspends::<Call, R0, (R1, R2, R3, R4, R5, R6, R7, R8, R9, R10, R11, R12, R13, R14)>(
            origin,
            instructions,
            max_weight,
            weight_credit,
            outcome,
        )
    }

    fn is_suspended(
        origin: &MultiLocation,
        instructions: &mut [Instruction<Call>],
        max_weight: Weight,
        weight_credit: &mut Weight,
    ) -> (suspended: bool) {
        check_in_turn::<Call, R0, (R1, R2, R3, R4, R5, R6, R7, R8, R9, R10, R11, R12, R13, R14)>(origin, instructions, max_weight, weight_credit)
    }
}

impl<Call, R0: CheckSuspension<Call>, R1: CheckSuspension<Call>, R2: CheckSuspension<Call>, R3: CheckSuspension<Call>, R4: CheckSuspension<Call>, R5: CheckSuspension<Call>, R6: CheckSuspension<Call>, R7: CheckSuspension<Call>, R8: CheckSuspension<Call>, R9: CheckSuspension<Call>, R10: CheckSuspension<Call>, R11: CheckSuspension<Call>, R12: CheckSuspension<Call>, R13: CheckSuspension<Call>, R14: CheckSuspension<Call>, R15: CheckSuspension<Call>> CheckSuspension<Call> for (R0, R1, R2, R3, R4, R5, R6, R7, R8, R9, R10, R11, R12, R13, R14, R15) {
    open spec fn may_report(
        origin: MultiLocation,
        instructions: Seq<Instruction<Call>>,
        max_weight: Weight,
        weight_credit: Weight,
        outcome: Outcome<Call, bool>,
    ) -> bool {
        first_or_rest_suspends::<Call, R0, (R1, R2, R3, R4, R5, R6, R7, R8, R9, R10, R11, R12, R13, R14, R15)>(
            origin,
            instructions,
            max_weight,
            weight_credit,
            outcome,
        )
    }

    fn is_suspended(
        origin: &MultiLocation,
        instructions: &mut [Instruction<Call>],
        max_weight: Weight,
        weight_credit: &mut Weight,
    ) -> (suspended: bool) {
        check_in_turn::<Call, R0, (R1, R2, R3, R4, R5, R6, R7, R8, R9, R10, R11, R12, R13, R14, R15)>(origin, instructions, max_weight, weight_credit)
    }
}

impl<Call, R0: CheckSuspension<Call>, R1: CheckSuspension<Call>, R2: CheckSuspension<Call>, R3: CheckSuspension<Call>, R4: CheckSuspension<Call>, R5: CheckSuspension<Call>, R6: CheckSuspension<Call>, R7: CheckSuspension<Call>, R8: CheckSuspension<Call>, R9: CheckSuspension<Call>, R10: CheckSuspension<Call>, R11: CheckSuspension<Call>, R12: CheckSuspension<Call>, R13: CheckSuspension<Call>, R14: CheckSuspension<Call>, R15: CheckSuspension<Call>, R16: CheckSuspension<Call>> CheckSuspension<Call> for (R0, R1, R2, R3, R4, R5, R6, R7, R8, R9, R10, R11, R12, R13, R14, R15, R16) {
    open spec fn may_report(
        origin: MultiLocation,
        instructions: Seq<Instruction<Call>>,
        max_weight: Weight,
        weight_credit: Weight,
        outcome: Outcome<Call, bool>,
    ) -> bool {
        first_or_rest_suspends::<Call, R0, (R1, R2, R3, R4, R5, R6, R7, R8, R9, R10, R11, R12, R13, R14, R15, R16)>(
            origin,
            instructions,
            max_weight,
            weight_credit,
            outcome,
        )
    }

    fn is_suspended(
        origin: &MultiLocation,
        instructions: &mut [Instruction<Call>],
        max_weight: Weight,
        weight_credit: &mut Weight,
    ) -> (suspended: bool) {
        check_in_turn::<Call, R0, (R1, R2, R3, R4, R5, R6, R7, R8, R9, R10, R11, R12, R13, R14, R15, R16)>(origin, instructions, max_weight, weight_credit)
    }
}

impl<Call, R0: CheckSuspension<Call>, R1: CheckSuspension<Call>, R2: CheckSuspension<Call>, R3: CheckSuspension<Call>, R4: CheckSuspension<Call>, R5: CheckSuspension<Call>, R6: CheckSuspension<Call>, R7: CheckSuspension<Call>, R8: CheckSuspension<Call>, R9: CheckSuspension<Call>, R10: CheckSuspension<Call>, R11: CheckSuspension<Call>, R12: CheckSuspension<Call>, R13: CheckSuspension<Call>, R14: CheckSuspension<Call>, R15: CheckSuspension<Call>, R16: CheckSuspension<Call>, R17: CheckSuspension<Call>> CheckSuspension<Call> for (R0, R1, R2, R3, R4, R5, R6, R7, R8, R9, R10, R11, R12, R13, R14, R15, R16, R17) {
    open spec fn may_report(
        origin: MultiLocation,
        instructions: Seq<Instruction<Call>>,
        max_weight: Weight,
        weight_credit: Weight,
        outcome: Outcome<Call, bool>,
    ) -> bool {
        first_or_rest_suspends::<Call, R0, (R1, R2, R3, R4, R5, R6, R7, R8, R9, R10, R11, R12, R13, R14, R15, R16, R17)>(
            origin,
            instructions,
            max_weight,
            weight_credit,
            outcome,
        )
    }

    fn is_suspended(
        origin: &MultiLocation,
        instructions: &mut [Instruction<Call>],
        max_weight: Weight,
        weight_credit: &mut Weight,
    ) -> (suspended: bool) {
        check_in_turn::<Call, R0, (R1, R2, R3, R4, R5, R6, R7, R8, R9, R10, R11, R12, R13, R14, R15, R16, R17)>(origin, instructions, max_weight, weight_credit)
    }
}

impl<Call, R0: CheckSuspension<Call>, R1: CheckSuspension<Call>, R2: CheckSuspension<Call>, R3: CheckSuspension<Call>, R4: CheckSuspension<Call>, R5: CheckSuspension<Call>, R6: CheckSuspension<Call>, R7: CheckSuspension<Call>, R8: CheckSuspension<Call>, R9: CheckSuspension<Call>, R10: CheckSuspension<Call>, R11: CheckSuspension<Call>, R12: CheckSuspension<Call>, R13: CheckSuspension<Call>, R14: CheckSuspension<Call>, R15: CheckSuspension<Call>, R16: CheckSuspension<Call>, R17: CheckSuspension<Call>, R18: CheckSuspension<Call>> CheckSuspension<Call> for (R0, R1, R2, R3, R4, R5, R6, R7, R8, R9, R10, R11, R12, R13, R14, R15, R16, R17, R18) {
    open spec fn may_report(
        origin: MultiLocation,
        instructions: Seq<Instruction<Call>>,
        max_weight: Weight,
        weight_credit: Weight,
        outcome: Outcome<Call, bool>,
    ) -> bool {
        first_or_rest_suspends::<Call, R0, (R1, R2, R3, R4, R5, R6, R7, R8, R9, R10, R11, R12, R13, R14, R15, R16, R17, R18)>(
            origin,
            instructions,
            max_weight,
            weight_credit,
            outcome,
        )
    }

    fn is_suspended(
        origin: &MultiLocation,
        instructions: &mut [Instruction<Call>],
        max_weight: Weight,
        weight_credit: &mut Weight,
    ) -> (suspended: bool) {
        check_in_turn::<Call, R0, (R1, R2, R3, R4, R5, R6, R7, R8, R9, R10, R11, R12, R13, R14, R15, R16, R17, R18)>(origin, instructions, max_weight, weight_credit)
    }
}

impl<Call, R0: CheckSuspension<Call>, R1: CheckSuspension<Call>, R2: CheckSuspension<Call>, R3: CheckSuspension<Call>, R4: CheckSuspension<Call>, R5: CheckSuspension<Call>, R6: CheckSuspension<Call>, R7: CheckSuspension<Call>, R8: CheckSuspension<Call>, R9: CheckSuspension<Call>, R10: CheckSuspension<Call>, R11: CheckSuspension<Call>, R12: CheckSuspension<Call>, R13: CheckSuspension<Call>, R14: CheckSuspension<Call>, R15: CheckSuspension<Call>, R16: CheckSuspension<Call>, R17: CheckSuspension<Call>, R18: CheckSuspension<Call>, R19: CheckSuspension<Call>> CheckSuspension<Call> for (R0, R1, R2, R3, R4, R5, R6, R7, R8, R9, R10, R11, R12, R13, R14, R15, R16, R17, R18, R19) {
    open spec fn may_report(
        origin: MultiLocation,
        instructions: Seq<Instruction<Call>>,
        max_weight: Weight,
        weight_credit: Weight,
        outcome: Outcome<Call, bool>,
    ) -> bool {
        first_or_rest_suspends::<Call, R0, (R1, R2, R3, R4, R5, R6, R7, R8, R9, R10, R11, R12, R13, R14, R15, R16, R17, R18, R19)>(
            origin,
            instructions,
            max_weight,
            weight_credit,
            outcome,
        )
    }

    fn is_suspended(
        origin: &MultiLocation,
        instructions: &mut [Instruction<Call>],
        max_weight: Weight,
        weight_credit: &mut Weight,
    ) -> (suspended: bool) {
        check_in_turn::<Call, R0, (R1, R2, R3, R4, R5, R6, R7, R8, R9, R10, R11, R12, R13, R14, R15, R16, R17, R18, R19)>(origin, instructions, max_weight, weight_credit)
    }
}

impl<Call, R0: CheckSuspension<Call>, R1: CheckSuspension<Call>, R2: CheckSuspension<Call>, R3: CheckSuspension<Call>, R4: CheckSuspension<Call>, R5: CheckSuspension<Call>, R6: CheckSuspension<Call>, R7: CheckSuspension<Call>, R8: CheckSuspension<Call>, R9: CheckSuspension<Call>, R10: CheckSuspension<Call>, R11: CheckSuspension<Call>, R12: CheckSuspension<Call>, R13: CheckSuspension<Call>, R14: CheckSuspension<Call>, R15: CheckSuspension<Call>, R16: CheckSuspension<Call>, R17: CheckSuspension<Call>, R18: CheckSuspension<Call>, R19: CheckSuspension<Call>, R20: CheckSuspension<Call>> CheckSuspension<Call> for (R0, R1, R2, R3, R4, R5, R6, R7, R8, R9, R10, R11, R12, R13, R14, R15, R16, R17, R18, R19, R20) {
    open spec fn may_report(
        origin: MultiLocation,
        instructions: Seq<Instruction<Call>>,
        max_weight: Weight,
        weight_credit: Weight,
        outcome: Outcome<Call, bool>,
    ) -> bool {
        first_or_rest_suspends::<Call, R0, (R1, R2, R3, R4, R5, R6, R7, R8, R9, R10, R11, R12, R13, R14, R15, R16, R17, R18, R19, R20)>(
            origin,
            instructions,
            max_weight,
            weight_credit,
            outcome,
        )
    }

    fn is_suspended(
        origin: &MultiLocation,
        instructions: &mut [Instruction<Call>],
        max_weight: Weight,
        weight_credit: &mut Weight,
    ) -> (suspended: bool) {
        check_in_turn::<Call, R0, (R1, R2, R3, R4, R5, R6, R7, R8, R9, R10, R11, R12, R13, R14, R15, R16, R17, R18, R19, R20)>(origin, instructions, max_weight, weight_credit)
    }
}

impl<Call, R0: CheckSuspension<Call>, R1: CheckSuspension<Call>, R2: CheckSuspension<Call>, R3: CheckSuspension<Call>, R4: CheckSuspension<Call>, R5: CheckSuspension<Call>, R6: CheckSuspension<Call>, R7: CheckSuspension<Call>, R8: CheckSuspension<Call>, R9: CheckSuspension<Call>, R10: CheckSuspension<Call>, R11: CheckSuspension<Call>, R12: CheckSuspension<Call>, R13: CheckSuspension<Call>, R14: CheckSuspension<Call>, R15: CheckSuspension<Call>, R16: CheckSuspension<Call>, R17: CheckSuspension<Call>, R18: CheckSuspension<Call>, R19: CheckSuspension<Call>, R20: CheckSuspension<Call>, R21: CheckSuspension<Call>> CheckSuspension<Call> for (R0, R1, R2, R3, R4, R5, R6, R7, R8, R9, R10, R11, R12, R13, R14, R15, R16, R17, R18, R19, R20, R21) {
    open spec fn may_report(
        origin: MultiLocation,
        instructions: Seq<Instruction<Call>>,
        max_weight: Weight,
        weight_credit: Weight,
        outcome: Outcome<Call, bool>,
    ) -> bool {
        first_or_rest_suspends::<Call, R0, (R1, R2, R3, R4, R5, R6, R7, R8, R9, R10, R11, R12, R13, R14, R15, R16, R17, R18, R19, R20, R21)>(
            origin,
            instructions,
            max_weight,
            weight_credit,
            outcome,
        )
    }

    fn is_suspended(
        origin: &MultiLocation,
        instructions: &mut [Instruction<Call>],
        max_weight: Weight,
        weight_credit: &mut Weight,
    ) -> (suspended: bool) {
        check_in_turn::<Call, R0, (R1, R2, R3, R4, R5, R6, R7, R8, R9, R10, R11, R12, R13, R14, R15, R16, R17, R18, R19, R20, R21)>(origin, instructions, max_weight, weight_credit)
    }
}

impl<Call, R0: CheckSuspension<Call>, R1: CheckSuspension<Call>, R2: CheckSuspension<Call>, R3: CheckSuspension<Call>, R4: CheckSuspension<Call>, R5: CheckSuspension<Call>, R6: CheckSuspension<Call>, R7: CheckSuspension<Call>, R8: CheckSuspension<Call>, R9: CheckSuspension<Call>, R10: CheckSuspension<Call>, R11: CheckSuspension<Call>, R12: CheckSuspension<Call>, R13: CheckSuspension<Call>, R14: CheckSuspension<Call>, R15: CheckSuspension<Call>, R16: CheckSuspension<Call>, R17: CheckSuspension<Call>, R18: CheckSuspension<Call>, R19: CheckSuspension<Call>, R20: CheckSuspension<Call>, R21: CheckSuspension<Call>, R22: CheckSuspension<Call>> CheckSuspension<Call> for (R0, R1, R2, R3, R4, R5, R6, R7, R8, R9, R10, R11, R12, R13, R14, R15, R16, R17, R18, R19, R20, R21, R22) {
    open spec fn may_report(
        origin: MultiLocation,
        instructions: Seq<Instruction<Call>>,
        max_weight: Weight,
        weight_credit: Weight,
        outcome: Outcome<Call, bool>,
    ) -> bool {
        first_or_rest_suspends::<Call, R0, (R1, R2, R3, R4, R5, R6, R7, R8, R9, R10, R11, R12, R13, R14, R15, R16, R17, R18, R19, R20, R21, R22)>(
            origin,
            instructions,
            max_weight,
            weight_credit,
            outcome,
        )
    }

    fn is_suspended(
        origin: &MultiLocation,
        instructions: &mut [Instruction<Call>],
        max_weight: Weight,
        weight_credit: &mut Weight,
    ) -> (suspended: bool) {
        check_in_turn::<Call, R0, (R1, R2, R3, R4, R5, R6, R7, R8, R9, R10, R11, R12, R13, R14, R15, R16, R17, R18, R19, R20, R21, R22)>(origin, instructions, max_weight, weight_credit)
    }
}

impl<Call, R0: CheckSuspension<Call>, R1: CheckSuspension<Call>, R2: CheckSuspension<Call>, R3: CheckSuspension<Call>, R4: CheckSuspension<Call>, R5: CheckSuspension<Call>, R6: CheckSuspension<Call>, R7: CheckSuspension<Call>, R8: CheckSuspension<Call>, R9: CheckSuspension<Call>, R10: CheckSuspension<Call>, R11: CheckSuspension<Call>, R12: CheckSuspension<Call>, R13: CheckSuspension<Call>, R14: CheckSuspension<Call>, R15: CheckSuspension<Call>, R16: CheckSuspension<Call>, R17: CheckSuspension<Call>, R18: CheckSuspension<Call>, R19: CheckSuspension<Call>, R20: CheckSuspension<Call>, R21: CheckSuspension<Call>, R22: CheckSuspension<Call>, R23: CheckSuspension<Call>> CheckSuspension<Call> for (R0, R1, R2, R3, R4, R5, R6, R7, R8, R9, R10, R11, R12, R13, R14, R15, R16, R17, R18, R19, R20, R21, R22, R23) {
    open spec fn may_report(
        origin: MultiLocation,
        instructions: Seq<Instruction<Call>>,
        max_weight: Weight,
        weight_credit: Weight,
        outcome: Outcome<Call, bool>,
    ) -> bool {
        first_or_rest_suspends::<Call, R0, (R1, R2, R3, R4, R5, R6, R7, R8, R9, R10, R11, R12, R13, R14, R15, R16, R17, R18, R19, R20, R21, R22, R23)>(
            origin,
            instructions,
            max_weight,
            weight_credit,
            outcome,
        )
    }

    fn is_suspended(
        origin: &MultiLocation,
        instructions: &mut [Instruction<Call>],
        max_weight: Weight,
        weight_credit: &mut Weight,
    ) -> (suspended: bool) {
        check_in_turn::<Call, R0, (R1, R2, R3, R4, R5, R6, R7, R8, R9, R10, R11, R12, R13, R14, R15, R16, R17, R18, R19, R20, R21, R22, R23)>(origin, instructions, max_weight, weight_credit)
    }
}

impl<Call, R0: CheckSuspension<Call>, R1: CheckSuspension<Call>, R2: CheckSuspension<Call>, R3: CheckSuspension<Call>, R4: CheckSuspension<Call>, R5: CheckSuspension<Call>, R6: CheckSuspension<Call>, R7: CheckSuspension<Call>, R8: CheckSuspension<Call>, R9: CheckSuspension<Call>, R10: CheckSuspension<Call>, R11: CheckSuspension<Call>, R12: CheckSuspension<Call>, R13: CheckSuspension<Call>, R14: CheckSuspension<Call>, R15: CheckSuspension<Call>, R16: CheckSuspension<Call>, R17: CheckSuspension<Call>, R18: CheckSuspension<Call>, R19: CheckSuspension<Call>, R20: CheckSuspension<Call>, R21: CheckSuspension<Call>, R22: CheckSuspension<Call>, R23: CheckSuspension<Call>, R24: CheckSuspension<Call>> CheckSuspension<Call> for (R0, R1, R2, R3, R4, R5, R6, R7, R8, R9, R10, R11, R12, R13, R14, R15, R16, R17, R18, R19, R20, R21, R22, R23, R24) {
    open spec fn may_report(
        origin: MultiLocation,
        instructions: Seq<Instruction<Call>>,
        max_weight: Weight,
        weight_credit: Weight,
        outcome: Outcome<Call, bool>,
    ) -> bool {
        first_or_rest_suspends::<Call, R0, (R1, R2, R3, R4, R5, R6, R7, R8, R9, R10, R11, R12, R13, R14, R15, R16, R17, R18, R19, R20, R21, R22, R23, R24)>(
            origin,
            instructions,
            max_weight,
            weight_credit,
            outcome,
        )
    }

    fn is_suspended(
        origin: &MultiLocation,
        instructions: &mut [Instruction<Call>],
        max_weight: Weight,
        weight_credit: &mut Weight,
    ) -> (suspended: bool) {
        check_in_turn::<Call, R0, (R1, R2, R3, R4, R5, R6, R7, R8, R9, R10, R11, R12, R13, R14, R15, R16, R17, R18, R19, R20, R21, R22, R23, R24)>(origin, instructions, max_weight, weight_credit)
    }
}

impl<Call, R0: CheckSuspension<Call>, R1: CheckSuspension<Call>, R2: CheckSuspension<Call>, R3: CheckSuspension<Call>, R4: CheckSuspension<Call>, R5: CheckSuspension<Call>, R6: CheckSuspension<Call>, R7: CheckSuspension<Call>, R8: CheckSuspension<Call>, R9: CheckSuspension<Call>, R10: CheckSuspension<Call>, R11: CheckSuspension<Call>, R12: CheckSuspension<Call>, R13: CheckSuspension<Call>, R14: CheckSuspension<Call>, R15: CheckSuspension<Call>, R16: CheckSuspension<Call>, R17: CheckSuspension<Call>, R18: CheckSuspension<Call>, R19: CheckSuspension<Call>, R20: CheckSuspension<Call>, R21: CheckSuspension<Call>, R22: CheckSuspension<Call>, R23: CheckSuspension<Call>, R24: CheckSuspension<Call>, R25: CheckSuspension<Call>> CheckSuspension<Call> for (R0, R1, R2, R3, R4, R5, R6, R7, R8, R9, R10, R11, R12, R13, R14, R15, R16, R17, R18, R19, R20, R21, R22, R23, R24, R25) {
    open spec fn may_report(
        origin: MultiLocation,
        instructions: Seq<Instruction<Call>>,
        max_weight: Weight,
        weight_credit: Weight,
        outcome: Outcome<Call, bool>,
    ) -> bool {
        first_or_rest_suspends::<Call, R0, (R1, R2, R3, R4, R5, R6, R7, R8, R9, R10, R11, R12, R13, R14, R15, R16, R17, R18, R19, R20, R21, R22, R23, R24, R25)>(
            origin,
            instructions,
            max_weight,
            weight_credit,
            outcome,
        )
    }

    fn is_suspended(
        origin: &MultiLocation,
        instructions: &mut [Instruction<Call>],
        max_weight: Weight,
        weight_credit: &mut Weight,
    ) -> (suspended: bool) {
        check_in_turn::<Call, R0, (R1, R2, R3, R4, R5, R6, R7, R8, R9, R10, R11, R12, R13, R14, R15, R16, R17, R18, R19, R20, R21, R22, R23, R24, R25)>(origin, instructions, max_weight, weight_credit)
    }
}

impl<Call, R0: CheckSuspension<Call>, R1: CheckSuspension<Call>, R2: CheckSuspension<Call>, R3: CheckSuspension<Call>, R4: CheckSuspension<Call>, R5: CheckSuspension<Call>, R6: CheckSuspension<Call>, R7: CheckSuspension<Call>, R8: CheckSuspension<Call>, R9: CheckSuspension<Call>, R10: CheckSuspension<Call>, R11: CheckSuspension<Call>, R12: CheckSuspension<Call>, R13: CheckSuspension<Call>, R14: CheckSuspension<Call>, R15: CheckSuspension<Call>, R16: CheckSuspension<Call>, R17: CheckSuspension<Call>, R18: CheckSuspension<Call>, R19: CheckSuspension<Call>, R20: CheckSuspension<Call>, R21: CheckSuspension<Call>, R22: CheckSuspension<Call>, R23: CheckSuspension<Call>, R24: CheckSuspension<Call>, R25: CheckSuspension<Call>, R26: CheckSuspension<Call>> CheckSuspension<Call> for (R0, R1, R2, R3, R4, R5, R6, R7, R8, R9, R10, R11, R12, R13, R14, R15, R16, R17, R18, R19, R20, R21, R22, R23, R24, R25, R26) {
    open spec fn may_report(
        origin: MultiLocation,
        instructions: Seq<Instruction<Call>>,
        max_weight: Weight,
        weight_credit: Weight,
        outcome: Outcome<Call, bool>,
    ) -> bool {
        first_or_rest_suspends::<Call, R0, (R1, R2, R3, R4, R5, R6, R7, R8, R9, R10, R11, R12, R13, R14, R15, R16, R17, R18, R19, R20, R21, R22, R23, R24, R25, R26)>(
            origin,
            instructions,
            max_weight,
            weight_credit,
            outcome,
        )
    }

    fn is_suspended(
        origin: &MultiLocation,
        instructions: &mut [Instruction<Call>],
        max_weight: Weight,
        weight_credit: &mut Weight,
    ) -> (suspended: bool) {
        check_in_turn::<Call, R0, (R1, R2, R3, R4, R5, R6, R7, R8, R9, R10, R11, R12, R13, R14, R15, R16, R17, R18, R19, R20, R21, R22, R23, R24, R25, R26)>(origin, instructions, max_weight, weight_credit)
    }
}

impl<Call, R0: CheckSuspension<Call>, R1: CheckSuspension<Call>, R2: CheckSuspension<Call>, R3: CheckSuspension<Call>, R4: CheckSuspension<Call>, R5: CheckSuspension<Call>, R6: CheckSuspension<Call>, R7: CheckSuspension<Call>, R8: CheckSuspension<Call>, R9: CheckSuspension<Call>, R10: CheckSuspension<Call>, R11: CheckSuspension<Call>, R12: CheckSuspension<Call>, R13: CheckSuspension<Call>, R14: CheckSuspension<Call>, R15: CheckSuspension<Call>, R16: CheckSuspension<Call>, R17: CheckSuspension<Call>, R18: CheckSuspension<Call>, R19: CheckSuspension<Call>, R20: CheckSuspension<Call>, R21: CheckSuspension<Call>, R22: CheckSuspension<Call>, R23: CheckSuspension<Call>, R24: CheckSuspension<Call>, R25: CheckSuspension<Call>, R26: CheckSuspension<Call>, R27: CheckSuspension<Call>> CheckSuspension<Call> for (R0, R1, R2, R3, R4, R5, R6, R7, R8, R9, R10, R11, R12, R13, R14, R15, R16, R17, R18, R19, R20, R21, R22, R23, R24, R25, R26, R27) {
    open spec fn may_report(
        origin: MultiLocation,
        instructions: Seq<Instruction<Call>>,
        max_weight: Weight,
        weight_credit: Weight,
        outcome: Outcome<Call, bool>,
    ) -> bool {
        first_or_rest_suspends::<Call, R0, (R1, R2, R3, R4, R5, R6, R7, R8, R9, R10, R11, R12, R13, R14, R15, R16, R17, R18, R19, R20, R21, R22, R23, R24, R25, R26, R27)>(
            origin,
            instructions,
            max_weight,
            weight_credit,
            outcome,
        )
    }

    fn is_suspended(
        origin: &MultiLocation,
        instructions: &mut [Instruction<Call>],
        max_weight: Weight,
        weight_credit: &mut Weight,
    ) -> (suspended: bool) {
        check_in_turn::<Call, R0, (R1, R2, R3, R4, R5, R6, R7, R8, R9, R10, R11, R12, R13, R14, R15, R16, R17, R18, R19, R20, R21, R22, R23, R24, R25, R26, R27)>(origin, instructions, max_weight, weight_credit)
    }
}

impl<Call, R0: CheckSuspension<Call>, R1: CheckSuspension<Call>, R2: CheckSuspension<Call>, R3: CheckSuspension<Call>, R4: CheckSuspension<Call>, R5: CheckSuspension<Call>, R6: CheckSuspension<Call>, R7: CheckSuspension<Call>, R8: CheckSuspension<Call>, R9: CheckSuspension<Call>, R10: CheckSuspension<Call>, R11: CheckSuspension<Call>, R12: CheckSuspension<Call>, R13: CheckSuspension<Call>, R14: CheckSuspension<Call>, R15: CheckSuspension<Call>, R16: CheckSuspension<Call>, R17: CheckSuspension<Call>, R18: CheckSuspension<Call>, R19: CheckSuspension<Call>, R20: CheckSuspension<Call>, R21: CheckSuspension<Call>, R22: CheckSuspension<Call>, R23: CheckSuspension<Call>, R24: CheckSuspension<Call>, R25: CheckSuspension<Call>, R26: CheckSuspension<Call>, R27: CheckSuspension<Call>, R28: CheckSuspension<Call>> CheckSuspension<Call> for (R0, R1, R2, R3, R4, R5, R6, R7, R8, R9, R10, R11, R12, R13, R14, R15, R16, R17, R18, R19, R20, R21, R22, R23, R24, R25, R26, R27, R28) {
    open spec fn may_report(
        origin: MultiLocation,
        instructions: Seq<Instruction<Call>>,
        max_weight: Weight,
        weight_credit: Weight,
        outcome: Outcome<Call, bool>,
    ) -> bool {
        first_or_rest_suspends::<Call, R0, (R1, R2, R3, R4, R5, R6, R7, R8, R9, R10, R11, R12, R13, R14, R15, R16, R17, R18, R19, R20, R21, R22, R23, R24, R25, R26, R27, R28)>(
            origin,
            instructions,
            max_weight,
            weight_credit,
            outcome,
        )
    }

    fn is_suspended(
        origin: &MultiLocation,
        instructions: &mut [Instruction<Call>],
        max_weight: Weight,
        weight_credit: &mut Weight,
    ) -> (suspended: bool) {
        check_in_turn::<Call, R0, (R1, R2, R3, R4, R5, R6, R7, R8, R9, R10, R11, R12, R13, R14, R15, R16, R17, R18, R19, R20, R21, R22, R23, R24, R25, R26, R27, R28)>(origin, instructions, max_weight, weight_credit)
    }
}

impl<Call, R0: CheckSuspension<Call>, R1: CheckSuspension<Call>, R2: CheckSuspension<Call>, R3: CheckSuspension<Call>, R4: CheckSuspension<Call>, R5: CheckSuspension<Call>, R6: CheckSuspension<Call>, R7: CheckSuspension<Call>, R8: CheckSuspension<Call>, R9: CheckSuspension<Call>, R10: CheckSuspension<Call>, R11: CheckSuspension<Call>, R12: CheckSuspension<Call>, R13: CheckSuspension<Call>, R14: CheckSuspension<Call>, R15: CheckSuspension<Call>, R16: CheckSuspension<Call>, R17: CheckSuspension<Call>, R18: CheckSuspension<Call>, R19: CheckSuspension<Call>, R20: CheckSuspension<Call>, R21: CheckSuspension<Call>, R22: CheckSuspension<Call>, R23: CheckSuspension<Call>, R24: CheckSuspension<Call>, R25: CheckSuspension<Call>, R26: CheckSuspension<Call>, R27: CheckSuspension<Call>, R28: CheckSuspension<Call>, R29: CheckSuspension<Call>> CheckSuspension<Call> for (R0, R1, R2, R3, R4, R5, R6, R7, R8, R9, R10, R11, R12, R13, R14, R15, R16, R17, R18, R19, R20, R21, R22, R23, R24, R25, R26, R27, R28, R29) {
    open spec fn may_report(
        origin: MultiLocation,
        instructions: Seq<Instruction<Call>>,
        max_weight: Weight,
        weight_credit: Weight,
        outcome: Outcome<Call, bool>,
    ) -> bool {
        first_or_rest_suspends::<Call, R0, (R1, R2, R3, R4, R5, R6, R7, R8, R9, R10, R11, R12, R13, R14, R15, R16, R17, R18, R19, R20, R21, R22, R23, R24, R25, R26, R27, R28, R29)>(
            origin,
            instructions,
            max_weight,
            weight_credit,
            outcome,
        )
    }

    fn is_suspended(
        origin: &MultiLocation,
        instructions: &mut [Instruction<Call>],
        max_weight: Weight,
        weight_credit: &mut Weight,
    ) -> (suspended: bool) {
        check_in_turn::<Call, R0, (R1, R2, R3, R4, R5, R6, R7, R8, R9, R10, R11, R12, R13, R14, R15, R16, R17, R18, R19, R20, R21, R22, R23, R24, R25, R26, R27, R28, R29)>(origin, instructions, max_weight, weight_credit)
    }
}

} // verus!
