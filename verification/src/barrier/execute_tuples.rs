//! [`ShouldExecute`] for tuples of rules, from the empty tuple to thirty members.
//!
//! Each tuple is its first member followed by the tuple of the others: it decides as
//! its first member does where that accepts, and else as the tuple of the others does.

use super::{ask_in_turn, tuple_may_answer, Outcome, RejectReason, ShouldExecute};
use staging_xcm::latest::{Instruction, MultiLocation, Weight};
use vstd::prelude::*;

verus! {

impl<RuntimeCall> ShouldExecute<RuntimeCall> for () {
    /// No rule to ask: the message and the credit stay as they are, and the answer is
    /// [`RejectReason::NoRulesMatched`].
    open spec fn may_answer(
        origin: MultiLocation,
        instructions: Seq<Instruction<RuntimeCall>>,
        max_weight: Weight,
        weight_credit: Weight,
        outcome: Outcome<RuntimeCall, Result<(), RejectReason>>,
    ) -> bool {
        &&& outcome.instructions == instructions
        &&& outcome.weight_credit == weight_credit
        &&& outcome.said == Err::<(), RejectReason>(RejectReason::NoRulesMatched)
    }

    fn should_execute(
        origin: &MultiLocation,
        instructions: &mut [Instruction<RuntimeCall>],
        max_weight: Weight,
        weight_credit: &mut Weight,
    ) -> (verdict: Result<(), RejectReason>) {
        Err(RejectReason::NoRulesMatched)
    }
}

impl<RuntimeCall, R0: ShouldExecute<RuntimeCall>> ShouldExecute<RuntimeCall> for (R0,) {
    open spec fn may_answer(
        origin: MultiLocation,
        instructions: Seq<Instruction<RuntimeCall>>,
        max_weight: Weight,
        weight_credit: Weight,
        outcome: Outcome<RuntimeCall, Result<(), RejectReason>>,
    ) -> bool {
        tuple_may_answer::<RuntimeCall, R0, ()>(
            origin,
            instructions,
            max_weight,
            weight_credit,
            outcome,
        )
    }

    fn should_execute(
        origin: &MultiLocation,
        instructions: &mut [Instruction<RuntimeCall>],
        max_weight: Weight,
        weight_credit: &mut Weight,
    ) -> (verdict: Result<(), RejectReason>) {
        ask_in_turn::<RuntimeCall, R0, ()>(origin, instructions, max_weight, weight_credit)
    }
}

impl<RuntimeCall, R0: ShouldExecute<RuntimeCall>, R1: ShouldExecute<RuntimeCall>> ShouldExecute<RuntimeCall> for (R0, R1) {
    open spec fn may_answer(
        origin: MultiLocation,
        instructions: Seq<Instruction<RuntimeCall>>,
        max_weight: Weight,
        weight_credit: Weight,
        outcome: Outcome<RuntimeCall, Result<(), RejectReason>>,
    ) -> bool {
        tuple_may_answer::<RuntimeCall, R0, (R1,)>(
            origin,
            instructions,
            max_weight,
            weight_credit,
            outcome,
        )
    }

    fn should_execute(
        origin: &MultiLocation,
        instructions: &mut [Instruction<RuntimeCall>],
        max_weight: Weight,
        weight_credit: &mut Weight,
    ) -> (verdict: Result<(), RejectReason>) {
        ask_in_turn::<RuntimeCall, R0, (R1,)>(origin, instructions, max_weight, weight_credit)
    }
}

impl<RuntimeCall, R0: ShouldExecute<RuntimeCall>, R1: ShouldExecute<RuntimeCall>, R2: ShouldExecute<RuntimeCall>> ShouldExecute<RuntimeCall> for (R0, R1, R2) {
    open spec fn may_answer(
        origin: MultiLocation,
        instructions: Seq<Instruction<RuntimeCall>>,
        max_weight: Weight,
        weight_credit: Weight,
        outcome: Outcome<RuntimeCall, Result<(), RejectReason>>,
    ) -> bool {
        tuple_may_answer::<RuntimeCall, R0, (R1, R2)>(
            origin,
            instructions,
            max_weight,
            weight_credit,
            outcome,
        )
    }

    fn should_execute(
        origin: &MultiLocation,
        instructions: &mut [Instruction<RuntimeCall>],
        max_weight: Weight,
        weight_credit: &mut Weight,
    ) -> (verdict: Result<(), RejectReason>) {
        ask_in_turn::<RuntimeCall, R0, (R1, R2)>(origin, instructions, max_weight, weight_credit)
    }
}

impl<RuntimeCall, R0: ShouldExecute<RuntimeCall>, R1: ShouldExecute<RuntimeCall>, R2: ShouldExecute<RuntimeCall>, R3: ShouldExecute<RuntimeCall>> ShouldExecute<RuntimeCall> for (R0, R1, R2, R3) {
    open spec fn may_answer(
        origin: MultiLocation,
        instructions: Seq<Instruction<RuntimeCall>>,
        max_weight: Weight,
        weight_credit: Weight,
        outcome: Outcome<RuntimeCall, Result<(), RejectReason>>,
    ) -> bool {
        tuple_may_answer::<RuntimeCall, R0, (R1, R2, R3)>(
            origin,
            instructions,
            max_weight,
            weight_credit,
            outcome,
        )
    }

    fn should_execute(
        origin: &MultiLocation,
        instructions: &mut [Instruction<RuntimeCall>],
        max_weight: Weight,
        weight_credit: &mut Weight,
    ) -> (verdict: Result<(), RejectReason>) {
        ask_in_turn::<RuntimeCall, R0, (R1, R2, R3)>(origin, instructions, max_weight, weight_credit)
    }
}

impl<RuntimeCall, R0: ShouldExecute<RuntimeCall>, R1: ShouldExecute<RuntimeCall>, R2: ShouldExecute<RuntimeCall>, R3: ShouldExecute<RuntimeCall>, R4: ShouldExecute<RuntimeCall>> ShouldExecute<RuntimeCall> for (R0, R1, R2, R3, R4) {
    open spec fn may_answer(
        origin: MultiLocation,
        instructions: Seq<Instruction<RuntimeCall>>,
        max_weight: Weight,
        weight_credit: Weight,
        outcome: Outcome<RuntimeCall, Result<(), RejectReason>>,
    ) -> bool {
        tuple_may_answer::<RuntimeCall, R0, (R1, R2, R3, R4)>(
            origin,
            instructions,
            max_weight,
            weight_credit,
            outcome,
        )
    }

    fn should_execute(
        origin: &MultiLocation,
        instructions: &mut [Instruction<RuntimeCall>],
        max_weight: Weight,
        weight_credit: &mut Weight,
    ) -> (verdict: Result<(), RejectReason>) {
        ask_in_turn::<RuntimeCall, R0, (R1, R2, R3, R4)>(origin, instructions, max_weight, weight_credit)
    }
}

impl<RuntimeCall, R0: ShouldExecute<RuntimeCall>, R1: ShouldExecute<RuntimeCall>, R2: ShouldExecute<RuntimeCall>, R3: ShouldExecute<RuntimeCall>, R4: ShouldExecute<RuntimeCall>, R5: ShouldExecute<RuntimeCall>> ShouldExecute<RuntimeCall> for (R0, R1, R2, R3, R4, R5) {
    open spec fn may_answer(
        origin: MultiLocation,
        instructions: Seq<Instruction<RuntimeCall>>,
        max_weight: Weight,
        weight_credit: Weight,
        outcome: Outcome<RuntimeCall, Result<(), RejectReason>>,
    ) -> bool {
        tuple_may_answer::<RuntimeCall, R0, (R1, R2, R3, R4, R5)>(
            origin,
            instructions,
            max_weight,
            weight_credit,
            outcome,
        )
    }

    fn should_execute(
        origin: &MultiLocation,
        instructions: &mut [Instruction<RuntimeCall>],
        max_weight: Weight,
        weight_credit: &mut Weight,
    ) -> (verdict: Result<(), RejectReason>) {
        ask_in_turn::<RuntimeCall, R0, (R1, R2, R3, R4, R5)>(origin, instructions, max_weight, weight_credit)
    }
}

impl<RuntimeCall, R0: ShouldExecute<RuntimeCall>, R1: ShouldExecute<RuntimeCall>, R2: ShouldExecute<RuntimeCall>, R3: ShouldExecute<RuntimeCall>, R4: ShouldExecute<RuntimeCall>, R5: ShouldExecute<RuntimeCall>, R6: ShouldExecute<RuntimeCall>> ShouldExecute<RuntimeCall> for (R0, R1, R2, R3, R4, R5, R6) {
    open spec fn may_answer(
        origin: MultiLocation,
        instructions: Seq<Instruction<RuntimeCall>>,
        max_weight: Weight,
        weight_credit: Weight,
        outcome: Outcome<RuntimeCall, Result<(), RejectReason>>,
    ) -> bool {
        tuple_may_answer::<RuntimeCall, R0, (R1, R2, R3, R4, R5, R6)>(
            origin,
            instructions,
            max_weight,
            weight_credit,
            outcome,
        )
    }

    fn should_execute(
        origin: &MultiLocation,
        instructions: &mut [Instruction<RuntimeCall>],
        max_weight: Weight,
        weight_credit: &mut Weight,
    ) -> (verdict: Result<(), RejectReason>) {
        ask_in_turn::<RuntimeCall, R0, (R1, R2, R3, R4, R5, R6)>(origin, instructions, max_weight, weight_credit)
    }
}

impl<RuntimeCall, R0: ShouldExecute<RuntimeCall>, R1: ShouldExecute<RuntimeCall>, R2: ShouldExecute<RuntimeCall>, R3: ShouldExecute<RuntimeCall>, R4: ShouldExecute<RuntimeCall>, R5: ShouldExecute<RuntimeCall>, R6: ShouldExecute<RuntimeCall>, R7: ShouldExecute<RuntimeCall>> ShouldExecute<RuntimeCall> for (R0, R1, R2, R3, R4, R5, R6, R7) {
    open spec fn may_answer(
        origin: MultiLocation,
        instructions: Seq<Instruction<RuntimeCall>>,
        max_weight: Weight,
        weight_credit: Weight,
        outcome: Outcome<RuntimeCall, Result<(), RejectReason>>,
    ) -> bool {
        tuple_may_answer::<RuntimeCall, R0, (R1, R2, R3, R4, R5, R6, R7)>(
            origin,
            instructions,
            max_weight,
            weight_credit,
            outcome,
        )
    }

    fn should_execute(
        origin: &MultiLocation,
        instructions: &mut [Instruction<RuntimeCall>],
        max_weight: Weight,
        weight_credit: &mut Weight,
    ) -> (verdict: Result<(), RejectReason>) {
        ask_in_turn::<RuntimeCall, R0, (R1, R2, R3, R4, R5, R6, R7)>(origin, instructions, max_weight, weight_credit)
    }
}

impl<RuntimeCall, R0: ShouldExecute<RuntimeCall>, R1: ShouldExecute<RuntimeCall>, R2: ShouldExecute<RuntimeCall>, R3: ShouldExecute<RuntimeCall>, R4: ShouldExecute<RuntimeCall>, R5: ShouldExecute<RuntimeCall>, R6: ShouldExecute<RuntimeCall>, R7: ShouldExecute<RuntimeCall>, R8: ShouldExecute<RuntimeCall>> ShouldExecute<RuntimeCall> for (R0, R1, R2, R3, R4, R5, R6, R7, R8) {
    open spec fn may_answer(
        origin: MultiLocation,
        instructions: Seq<Instruction<RuntimeCall>>,
        max_weight: Weight,
        weight_credit: Weight,
        outcome: Outcome<RuntimeCall, Result<(), RejectReason>>,
    ) -> bool {
        tuple_may_answer::<RuntimeCall, R0, (R1, R2, R3, R4, R5, R6, R7, R8)>(
            origin,
            instructions,
            max_weight,
            weight_credit,
            outcome,
        )
    }

    fn should_execute(
        origin: &MultiLocation,
        instructions: &mut [Instruction<RuntimeCall>],
        max_weight: Weight,
        weight_credit: &mut Weight,
    ) -> (verdict: Result<(), RejectReason>) {
        ask_in_turn::<RuntimeCall, R0, (R1, R2, R3, R4, R5, R6, R7, R8)>(origin, instructions, max_weight, weight_credit)
    }
}

impl<RuntimeCall, R0: ShouldExecute<RuntimeCall>, R1: ShouldExecute<RuntimeCall>, R2: ShouldExecute<RuntimeCall>, R3: ShouldExecute<RuntimeCall>, R4: ShouldExecute<RuntimeCall>, R5: ShouldExecute<RuntimeCall>, R6: ShouldExecute<RuntimeCall>, R7: ShouldExecute<RuntimeCall>, R8: ShouldExecute<RuntimeCall>, R9: ShouldExecute<RuntimeCall>> ShouldExecute<RuntimeCall> for (R0, R1, R2, R3, R4, R5, R6, R7, R8, R9) {
    open spec fn may_answer(
        origin: MultiLocation,
        instructions: Seq<Instruction<RuntimeCall>>,
        max_weight: Weight,
        weight_credit: Weight,
        outcome: Outcome<RuntimeCall, Result<(), RejectReason>>,
    ) -> bool {
        tuple_may_answer::<RuntimeCall, R0, (R1, R2, R3, R4, R5, R6, R7, R8, R9)>(
            origin,
            instructions,
            max_weight,
            weight_credit,
            outcome,
        )
    }

    fn should_execute(
        origin: &MultiLocation,
        instructions: &mut [Instruction<RuntimeCall>],
        max_weight: Weight,
        weight_credit: &mut Weight,
    ) -> (verdict: Result<(), RejectReason>) {
        ask_in_turn::<RuntimeCall, R0, (R1, R2, R3, R4, R5, R6, R7, R8, R9)>(origin, instructions, max_weight, weight_credit)
    }
}

impl<RuntimeCall, R0: ShouldExecute<RuntimeCall>, R1: ShouldExecute<RuntimeCall>, R2: ShouldExecute<RuntimeCall>, R3: ShouldExecute<RuntimeCall>, R4: ShouldExecute<RuntimeCall>, R5: ShouldExecute<RuntimeCall>, R6: ShouldExecute<RuntimeCall>, R7: ShouldExecute<RuntimeCall>, R8: ShouldExecute<RuntimeCall>, R9: ShouldExecute<RuntimeCall>, R10: ShouldExecute<RuntimeCall>> ShouldExecute<RuntimeCall> for (R0, R1, R2, R3, R4, R5, R6, R7, R8, R9, R10) {
    open spec fn may_answer(
        origin: MultiLocation,
        instructions: Seq<Instruction<RuntimeCall>>,
        max_weight: Weight,
        weight_credit: Weight,
        outcome: Outcome<RuntimeCall, Result<(), RejectReason>>,
    ) -> bool {
        tuple_may_answer::<RuntimeCall, R0, (R1, R2, R3, R4, R5, R6, R7, R8, R9, R10)>(
            origin,
            instructions,
            max_weight,
            weight_credit,
            outcome,
        )
    }

    fn should_execute(
        origin: &MultiLocation,
        instructions: &mut [Instruction<RuntimeCall>],
        max_weight: Weight,
        weight_credit: &mut Weight,
    ) -> (verdict: Result<(), RejectReason>) {
        ask_in_turn::<RuntimeCall, R0, (R1, R2, R3, R4, R5, R6, R7, R8, R9, R10)>(origin, instructions, max_weight, weight_credit)
    }
}

impl<RuntimeCall, R0: ShouldExecute<RuntimeCall>, R1: ShouldExecute<RuntimeCall>, R2: ShouldExecute<RuntimeCall>, R3: ShouldExecute<RuntimeCall>, R4: ShouldExecute<RuntimeCall>, R5: ShouldExecute<RuntimeCall>, R6: ShouldExecute<RuntimeCall>, R7: ShouldExecute<RuntimeCall>, R8: ShouldExecute<RuntimeCall>, R9: ShouldExecute<RuntimeCall>, R10: ShouldExecute<RuntimeCall>, R11: ShouldExecute<RuntimeCall>> ShouldExecute<RuntimeCall> for (R0, R1, R2, R3, R4, R5, R6, R7, R8, R9, R10, R11) {
    open spec fn may_answer(
        origin: MultiLocation,
        instructions: Seq<Instruction<RuntimeCall>>,
        max_weight: Weight,
        weight_credit: Weight,
        outcome: Outcome<RuntimeCall, Result<(), RejectReason>>,
    ) -> bool {
        tuple_may_answer::<RuntimeCall, R0, (R1, R2, R3, R4, R5, R6, R7, R8, R9, R10, R11)>(
            origin,
            instructions,
            max_weight,
            weight_credit,
            outcome,
        )
    }

    fn should_execute(
        origin: &MultiLocation,
        instructions: &mut [Instruction<RuntimeCall>],
        max_weight: Weight,
        weight_credit: &mut Weight,
    ) -> (verdict: Result<(), RejectReason>) {
        ask_in_turn::<RuntimeCall, R0, (R1, R2, R3, R4, R5, R6, R7, R8, R9, R10, R11)>(origin, instructions, max_weight, weight_credit)
    }
}

impl<RuntimeCall, R0: ShouldExecute<RuntimeCall>, R1: ShouldExecute<RuntimeCall>, R2: ShouldExecute<RuntimeCall>, R3: ShouldExecute<RuntimeCall>, R4: ShouldExecute<RuntimeCall>, R5: ShouldExecute<RuntimeCall>, R6: ShouldExecute<RuntimeCall>, R7: ShouldExecute<RuntimeCall>, R8: ShouldExecute<RuntimeCall>, R9: ShouldExecute<RuntimeCall>, R10: ShouldExecute<RuntimeCall>, R11: ShouldExecute<RuntimeCall>, R12: ShouldExecute<RuntimeCall>> ShouldExecute<RuntimeCall> for (R0, R1, R2, R3, R4, R5, R6, R7, R8, R9, R10, R11, R12) {
    open spec fn may_answer(
        origin: MultiLocation,
        instructions: Seq<Instruction<RuntimeCall>>,
        max_weight: Weight,
        weight_credit: Weight,
        outcome: Outcome<RuntimeCall, Result<(), RejectReason>>,
    ) -> bool {
        tuple_may_answer::<RuntimeCall, R0, (R1, R2, R3, R4, R5, R6, R7, R8, R9, R10, R11, R12)>(
            origin,
            instructions,
            max_weight,
            weight_credit,
            outcome,
        )
    }

    fn should_execute(
        origin: &MultiLocation,
        instructions: &mut [Instruction<RuntimeCall>],
        max_weight: Weight,
        weight_credit: &mut Weight,
    ) -> (verdict: Result<(), RejectReason>) {
        ask_in_turn::<RuntimeCall, R0, (R1, R2, R3, R4, R5, R6, R7, R8, R9, R10, R11, R12)>(origin, instructions, max_weight, weight_credit)
    }
}

impl<RuntimeCall, R0: ShouldExecute<RuntimeCall>, R1: ShouldExecute<RuntimeCall>, R2: ShouldExecute<RuntimeCall>, R3: ShouldExecute<RuntimeCall>, R4: ShouldExecute<RuntimeCall>, R5: ShouldExecute<RuntimeCall>, R6: ShouldExecute<RuntimeCall>, R7: ShouldExecute<RuntimeCall>, R8: ShouldExecute<RuntimeCall>, R9: ShouldExecute<RuntimeCall>, R10: ShouldExecute<RuntimeCall>, R11: ShouldExecute<RuntimeCall>, R12: ShouldExecute<RuntimeCall>, R13: ShouldExecute<RuntimeCall>> ShouldExecute<RuntimeCall> for (R0, R1, R2, R3, R4, R5, R6, R7, R8, R9, R10, R11, R12, R13) {
    open spec fn may_answer(
        origin: MultiLocation,
        instructions: Seq<Instruction<RuntimeCall>>,
        max_weight: Weight,
        weight_credit: Weight,
        outcome: Outcome<RuntimeCall, Result<(), RejectReason>>,
    ) -> bool {
        tuple_may_answer::<RuntimeCall, R0, (R1, R2, R3, R4, R5, R6, R7, R8, R9, R10, R11, R12, R13)>(
            origin,
            instructions,
            max_weight,
            weight_credit,
            outcome,
        )
    }

    fn should_execute(
        origin: &MultiLocation,
        instructions: &mut [Instruction<RuntimeCall>],
        max_weight: Weight,
        weight_credit: &mut Weight,
    ) -> (verdict: Result<(), RejectReason>) {
        ask_in_turn::<RuntimeCall, R0, (R1, R2, R3, R4, R5, R6, R7, R8, R9, R10, R11, R12, R13)>(origin, instructions, max_weight, weight_credit)
    }
}

impl<RuntimeCall, R0: ShouldExecute<RuntimeCall>, R1: ShouldExecute<RuntimeCall>, R2: ShouldExecute<RuntimeCall>, R3: ShouldExecute<RuntimeCall>, R4: ShouldExecute<RuntimeCall>, R5: ShouldExecute<RuntimeCall>, R6: ShouldExecute<RuntimeCall>, R7: ShouldExecute<RuntimeCall>, R8: ShouldExecute<RuntimeCall>, R9: ShouldExecute<RuntimeCall>, R10: ShouldExecute<RuntimeCall>, R11: ShouldExecute<RuntimeCall>, R12: ShouldExecute<RuntimeCall>, R13: ShouldExecute<RuntimeCall>, R14: ShouldExecute<RuntimeCall>> ShouldExecute<RuntimeCall> for (R0, R1, R2, R3, R4, R5, R6, R7, R8, R9, R10, R11, R12, R13, R14) {
    open spec fn may_answer(
        origin: MultiLocation,
        instructions: Seq<Instruction<RuntimeCall>>,
        max_weight: Weight,
        weight_credit: Weight,
        outcome: Outcome<RuntimeCall, Result<(), RejectReason>>,
    ) -> bool {
        tuple_may_answer::<RuntimeCall, R0, (R1, R2, R3, R4, R5, R6, R7, R8, R9, R10, R11, R12, R13, R14)>(
            origin,
            instructions,
            max_weight,
            weight_credit,
            outcome,
        )
    }

    fn should_execute(
        origin: &MultiLocation,
        instructions: &mut [Instruction<RuntimeCall>],
        max_weight: Weight,
        weight_credit: &mut Weight,
    ) -> (verdict: Result<(), RejectReason>) {
        ask_in_turn::<RuntimeCall, R0, (R1, R2, R3, R4, R5, R6, R7, R8, R9, R10, R11, R12, R13, R14)>(origin, instructions, max_weight, weight_credit)
    }
}

impl<RuntimeCall, R0: ShouldExecute<RuntimeCall>, R1: ShouldExecute<RuntimeCall>, R2: ShouldExecute<RuntimeCall>, R3: ShouldExecute<RuntimeCall>, R4: ShouldExecute<RuntimeCall>, R5: ShouldExecute<RuntimeCall>, R6: ShouldExecute<RuntimeCall>, R7: ShouldExecute<RuntimeCall>, R8: ShouldExecute<RuntimeCall>, R9: ShouldExecute<RuntimeCall>, R10: ShouldExecute<RuntimeCall>, R11: ShouldExecute<RuntimeCall>, R12: ShouldExecute<RuntimeCall>, R13: ShouldExecute<RuntimeCall>, R14: ShouldExecute<RuntimeCall>, R15: ShouldExecute<RuntimeCall>> ShouldExecute<RuntimeCall> for (R0, R1, R2, R3, R4, R5, R6, R7, R8, R9, R10, R11, R12, R13, R14, R15) {
    open spec fn may_answer(
        origin: MultiLocation,
        instructions: Seq<Instruction<RuntimeCall>>,
        max_weight: Weight,
        weight_credit: Weight,
        outcome: Outcome<RuntimeCall, Result<(), RejectReason>>,
    ) -> bool {
        tuple_may_answer::<RuntimeCall, R0, (R1, R2, R3, R4, R5, R6, R7, R8, R9, R10, R11, R12, R13, R14, R15)>(
            origin,
            instructions,
            max_weight,
            weight_credit,
            outcome,
        )
    }

    fn should_execute(
        origin: &MultiLocation,
        instructions: &mut [Instruction<RuntimeCall>],
        max_weight: Weight,
        weight_credit: &mut Weight,
    ) -> (verdict: Result<(), RejectReason>) {
        ask_in_turn::<RuntimeCall, R0, (R1, R2, R3, R4, R5, R6, R7, R8, R9, R10, R11, R12, R13, R14, R15)>(origin, instructions, max_weight, weight_credit)
    }
}

impl<RuntimeCall, R0: ShouldExecute<RuntimeCall>, R1: ShouldExecute<RuntimeCall>, R2: ShouldExecute<RuntimeCall>, R3: ShouldExecute<RuntimeCall>, R4: ShouldExecute<RuntimeCall>, R5: ShouldExecute<RuntimeCall>, R6: ShouldExecute<RuntimeCall>, R7: ShouldExecute<RuntimeCall>, R8: ShouldExecute<RuntimeCall>, R9: ShouldExecute<RuntimeCall>, R10: ShouldExecute<RuntimeCall>, R11: ShouldExecute<RuntimeCall>, R12: ShouldExecute<RuntimeCall>, R13: ShouldExecute<RuntimeCall>, R14: ShouldExecute<RuntimeCall>, R15: ShouldExecute<RuntimeCall>, R16: ShouldExecute<RuntimeCall>> ShouldExecute<RuntimeCall> for (R0, R1, R2, R3, R4, R5, R6, R7, R8, R9, R10, R11, R12, R13, R14, R15, R16) {
    open spec fn may_answer(
        origin: MultiLocation,
        instructions: Seq<Instruction<RuntimeCall>>,
        max_weight: Weight,
        weight_credit: Weight,
        outcome: Outcome<RuntimeCall, Result<(), RejectReason>>,
    ) -> bool {
        tuple_may_answer::<RuntimeCall, R0, (R1, R2, R3, R4, R5, R6, R7, R8, R9, R10, R11, R12, R13, R14, R15, R16)>(
            origin,
            instructions,
            max_weight,
            weight_credit,
            outcome,
        )
    }

    fn should_execute(
        origin: &MultiLocation,
        instructions: &mut [Instruction<RuntimeCall>],
        max_weight: Weight,
        weight_credit: &mut Weight,
    ) -> (verdict: Result<(), RejectReason>) {
        ask_in_turn::<RuntimeCall, R0, (R1, R2, R3, R4, R5, R6, R7, R8, R9, R10, R11, R12, R13, R14, R15, R16)>(origin, instructions, max_weight, weight_credit)
    }
}

impl<RuntimeCall, R0: ShouldExecute<RuntimeCall>, R1: ShouldExecute<RuntimeCall>, R2: ShouldExecute<RuntimeCall>, R3: ShouldExecute<RuntimeCall>, R4: ShouldExecute<RuntimeCall>, R5: ShouldExecute<RuntimeCall>, R6: ShouldExecute<RuntimeCall>, R7: ShouldExecute<RuntimeCall>, R8: ShouldExecute<RuntimeCall>, R9: ShouldExecute<RuntimeCall>, R10: ShouldExecute<RuntimeCall>, R11: ShouldExecute<RuntimeCall>, R12: ShouldExecute<RuntimeCall>, R13: ShouldExecute<RuntimeCall>, R14: ShouldExecute<RuntimeCall>, R15: ShouldExecute<RuntimeCall>, R16: ShouldExecute<RuntimeCall>, R17: ShouldExecute<RuntimeCall>> ShouldExecute<RuntimeCall> for (R0, R1, R2, R3, R4, R5, R6, R7, R8, R9, R10, R11, R12, R13, R14, R15, R16, R17) {
    open spec fn may_answer(
        origin: MultiLocation,
        instructions: Seq<Instruction<RuntimeCall>>,
        max_weight: Weight,
        weight_credit: Weight,
        outcome: Outcome<RuntimeCall, Result<(), RejectReason>>,
    ) -> bool {
        tuple_may_answer::<RuntimeCall, R0, (R1, R2, R3, R4, R5, R6, R7, R8, R9, R10, R11, R12, R13, R14, R15, R16, R17)>(
            origin,
            instructions,
            max_weight,
            weight_credit,
            outcome,
        )
    }

    fn should_execute(
        origin: &MultiLocation,
        instructions: &mut [Instruction<RuntimeCall>],
        max_weight: Weight,
        weight_credit: &mut Weight,
    ) -> (verdict: Result<(), RejectReason>) {
        ask_in_turn::<RuntimeCall, R0, (R1, R2, R3, R4, R5, R6, R7, R8, R9, R10, R11, R12, R13, R14, R15, R16, R17)>(origin, instructions, max_weight, weight_credit)
    }
}

impl<RuntimeCall, R0: ShouldExecute<RuntimeCall>, R1: ShouldExecute<RuntimeCall>, R2: ShouldExecute<RuntimeCall>, R3: ShouldExecute<RuntimeCall>, R4: ShouldExecute<RuntimeCall>, R5: ShouldExecute<RuntimeCall>, R6: ShouldExecute<RuntimeCall>, R7: ShouldExecute<RuntimeCall>, R8: ShouldExecute<RuntimeCall>, R9: ShouldExecute<RuntimeCall>, R10: ShouldExecute<RuntimeCall>, R11: ShouldExecute<RuntimeCall>, R12: ShouldExecute<RuntimeCall>, R13: ShouldExecute<RuntimeCall>, R14: ShouldExecute<RuntimeCall>, R15: ShouldExecute<RuntimeCall>, R16: ShouldExecute<RuntimeCall>, R17: ShouldExecute<RuntimeCall>, R18: ShouldExecute<RuntimeCall>> ShouldExecute<RuntimeCall> for (R0, R1, R2, R3, R4, R5, R6, R7, R8, R9, R10, R11, R12, R13, R14, R15, R16, R17, R18) {
    open spec fn may_answer(
        origin: MultiLocation,
        instructions: Seq<Instruction<RuntimeCall>>,
        max_weight: Weight,
        weight_credit: Weight,
        outcome: Outcome<RuntimeCall, Result<(), RejectReason>>,
    ) -> bool {
        tuple_may_answer::<RuntimeCall, R0, (R1, R2, R3, R4, R5, R6, R7, R8, R9, R10, R11, R12, R13, R14, R15, R16, R17, R18)>(
            origin,
            instructions,
            max_weight,
            weight_credit,
            outcome,
        )
    }

    fn should_execute(
        origin: &MultiLocation,
        instructions: &mut [Instruction<RuntimeCall>],
        max_weight: Weight,
        weight_credit: &mut Weight,
    ) -> (verdict: Result<(), RejectReason>) {
        ask_in_turn::<RuntimeCall, R0, (R1, R2, R3, R4, R5, R6, R7, R8, R9, R10, R11, R12, R13, R14, R15, R16, R17, R18)>(origin, instructions, max_weight, weight_credit)
    }
}

impl<RuntimeCall, R0: ShouldExecute<RuntimeCall>, R1: ShouldExecute<RuntimeCall>, R2: ShouldExecute<RuntimeCall>, R3: ShouldExecute<RuntimeCall>, R4: ShouldExecute<RuntimeCall>, R5: ShouldExecute<RuntimeCall>, R6: ShouldExecute<RuntimeCall>, R7: ShouldExecute<RuntimeCall>, R8: ShouldExecute<RuntimeCall>, R9: ShouldExecute<RuntimeCall>, R10: ShouldExecute<RuntimeCall>, R11: ShouldExecute<RuntimeCall>, R12: ShouldExecute<RuntimeCall>, R13: ShouldExecute<RuntimeCall>, R14: ShouldExecute<RuntimeCall>, R15: ShouldExecute<RuntimeCall>, R16: ShouldExecute<RuntimeCall>, R17: ShouldExecute<RuntimeCall>, R18: ShouldExecute<RuntimeCall>, R19: ShouldExecute<RuntimeCall>> ShouldExecute<RuntimeCall> for (R0, R1, R2, R3, R4, R5, R6, R7, R8, R9, R10, R11, R12, R13, R14, R15, R16, R17, R18, R19) {
    open spec fn may_answer(
        origin: MultiLocation,
        instructions: Seq<Instruction<RuntimeCall>>,
        max_weight: Weight,
        weight_credit: Weight,
        outcome: Outcome<RuntimeCall, Result<(), RejectReason>>,
    ) -> bool {
        tuple_may_answer::<RuntimeCall, R0, (R1, R2, R3, R4, R5, R6, R7, R8, R9, R10, R11, R12, R13, R14, R15, R16, R17, R18, R19)>(
            origin,
            instructions,
            max_weight,
            weight_credit,
            outcome,
        )
    }

    fn should_execute(
        origin: &MultiLocation,
        instructions: &mut [Instruction<RuntimeCall>],
        max_weight: Weight,
        weight_credit: &mut Weight,
    ) -> (verdict: Result<(), RejectReason>) {
        ask_in_turn::<RuntimeCall, R0, (R1, R2, R3, R4, R5, R6, R7, R8, R9, R10, R11, R12, R13, R14, R15, R16, R17, R18, R19)>(origin, instructions, max_weight, weight_credit)
    }
}

impl<RuntimeCall, R0: ShouldExecute<RuntimeCall>, R1: ShouldExecute<RuntimeCall>, R2: ShouldExecute<RuntimeCall>, R3: ShouldExecute<RuntimeCall>, R4: ShouldExecute<RuntimeCall>, R5: ShouldExecute<RuntimeCall>, R6: ShouldExecute<RuntimeCall>, R7: ShouldExecute<RuntimeCall>, R8: ShouldExecute<RuntimeCall>, R9: ShouldExecute<RuntimeCall>, R10: ShouldExecute<RuntimeCall>, R11: ShouldExecute<RuntimeCall>, R12: ShouldExecute<RuntimeCall>, R13: ShouldExecute<RuntimeCall>, R14: ShouldExecute<RuntimeCall>, R15: ShouldExecute<RuntimeCall>, R16: ShouldExecute<RuntimeCall>, R17: ShouldExecute<RuntimeCall>, R18: ShouldExecute<RuntimeCall>, R19: ShouldExecute<RuntimeCall>, R20: ShouldExecute<RuntimeCall>> ShouldExecute<RuntimeCall> for (R0, R1, R2, R3, R4, R5, R6, R7, R8, R9, R10, R11, R12, R13, R14, R15, R16, R17, R18, R19, R20) {
    open spec fn may_answer(
        origin: MultiLocation,
        instructions: Seq<Instruction<RuntimeCall>>,
        max_weight: Weight,
        weight_credit: Weight,
        outcome: Outcome<RuntimeCall, Result<(), RejectReason>>,
    ) -> bool {
        tuple_may_answer::<RuntimeCall, R0, (R1, R2, R3, R4, R5, R6, R7, R8, R9, R10, R11, R12, R13, R14, R15, R16, R17, R18, R19, R20)>(
            origin,
            instructions,
            max_weight,
            weight_credit,
            outcome,
        )
    }

    fn should_execute(
        origin: &MultiLocation,
        instructions: &mut [Instruction<RuntimeCall>],
        max_weight: Weight,
        weight_credit: &mut Weight,
    ) -> (verdict: Result<(), RejectReason>) {
        ask_in_turn::<RuntimeCall, R0, (R1, R2, R3, R4, R5, R6, R7, R8, R9, R10, R11, R12, R13, R14, R15, R16, R17, R18, R19, R20)>(origin, instructions, max_weight, weight_credit)
    }
}

impl<RuntimeCall, R0: ShouldExecute<RuntimeCall>, R1: ShouldExecute<RuntimeCall>, R2: ShouldExecute<RuntimeCall>, R3: ShouldExecute<RuntimeCall>, R4: ShouldExecute<RuntimeCall>, R5: ShouldExecute<RuntimeCall>, R6: ShouldExecute<RuntimeCall>, R7: ShouldExecute<RuntimeCall>, R8: ShouldExecute<RuntimeCall>, R9: ShouldExecute<RuntimeCall>, R10: ShouldExecute<RuntimeCall>, R11: ShouldExecute<RuntimeCall>, R12: ShouldExecute<RuntimeCall>, R13: ShouldExecute<RuntimeCall>, R14: ShouldExecute<RuntimeCall>, R15: ShouldExecute<RuntimeCall>, R16: ShouldExecute<RuntimeCall>, R17: ShouldExecute<RuntimeCall>, R18: ShouldExecute<RuntimeCall>, R19: ShouldExecute<RuntimeCall>, R20: ShouldExecute<RuntimeCall>, R21: ShouldExecute<RuntimeCall>> ShouldExecute<RuntimeCall> for (R0, R1, R2, R3, R4, R5, R6, R7, R8, R9, R10, R11, R12, R13, R14, R15, R16, R17, R18, R19, R20, R21) {
    open spec fn may_answer(
        origin: MultiLocation,
        instructions: Seq<Instruction<RuntimeCall>>,
        max_weight: Weight,
        weight_credit: Weight,
        outcome: Outcome<RuntimeCall, Result<(), RejectReason>>,
    ) -> bool {
        tuple_may_answer::<RuntimeCall, R0, (R1, R2, R3, R4, R5, R6, R7, R8, R9, R10, R11, R12, R13, R14, R15, R16, R17, R18, R19, R20, R21)>(
            origin,
            instructions,
            max_weight,
            weight_credit,
            outcome,
        )
    }

    fn should_execute(
        origin: &MultiLocation,
        instructions: &mut [Instruction<RuntimeCall>],
        max_weight: Weight,
        weight_credit: &mut Weight,
    ) -> (verdict: Result<(), RejectReason>) {
        ask_in_turn::<RuntimeCall, R0, (R1, R2, R3, R4, R5, R6, R7, R8, R9, R10, R11, R12, R13, R14, R15, R16, R17, R18, R19, R20, R21)>(origin, instructions, max_weight, weight_credit)
    }
}

impl<RuntimeCall, R0: ShouldExecute<RuntimeCall>, R1: ShouldExecute<RuntimeCall>, R2: ShouldExecute<RuntimeCall>, R3: ShouldExecute<RuntimeCall>, R4: ShouldExecute<RuntimeCall>, R5: ShouldExecute<RuntimeCall>, R6: ShouldExecute<RuntimeCall>, R7: ShouldExecute<RuntimeCall>, R8: ShouldExecute<RuntimeCall>, R9: ShouldExecute<RuntimeCall>, R10: ShouldExecute<RuntimeCall>, R11: ShouldExecute<RuntimeCall>, R12: ShouldExecute<RuntimeCall>, R13: ShouldExecute<RuntimeCall>, R14: ShouldExecute<RuntimeCall>, R15: ShouldExecute<RuntimeCall>, R16: ShouldExecute<RuntimeCall>, R17: ShouldExecute<RuntimeCall>, R18: ShouldExecute<RuntimeCall>, R19: ShouldExecute<RuntimeCall>, R20: ShouldExecute<RuntimeCall>, R21: ShouldExecute<RuntimeCall>, R22: ShouldExecute<RuntimeCall>> ShouldExecute<RuntimeCall> for (R0, R1, R2, R3, R4, R5, R6, R7, R8, R9, R10, R11, R12, R13, R14, R15, R16, R17, R18, R19, R20, R21, R22) {
    open spec fn may_answer(
        origin: MultiLocation,
        instructions: Seq<Instruction<RuntimeCall>>,
        max_weight: Weight,
        weight_credit: Weight,
        outcome: Outcome<RuntimeCall, Result<(), RejectReason>>,
    ) -> bool {
        tuple_may_answer::<RuntimeCall, R0, (R1, R2, R3, R4, R5, R6, R7, R8, R9, R10, R11, R12, R13, R14, R15, R16, R17, R18, R19, R20, R21, R22)>(
            origin,
            instructions,
            max_weight,
            weight_credit,
            outcome,
        )
    }

    fn should_execute(
        origin: &MultiLocation,
        instructions: &mut [Instruction<RuntimeCall>],
        max_weight: Weight,
        weight_credit: &mut Weight,
    ) -> (verdict: Result<(), RejectReason>) {
        ask_in_turn::<RuntimeCall, R0, (R1, R2, R3, R4, R5, R6, R7, R8, R9, R10, R11, R12, R13, R14, R15, R16, R17, R18, R19, R20, R21, R22)>(origin, instructions, max_weight, weight_credit)
    }
}

impl<RuntimeCall, R0: ShouldExecute<RuntimeCall>, R1: ShouldExecute<RuntimeCall>, R2: ShouldExecute<RuntimeCall>, R3: ShouldExecute<RuntimeCall>, R4: ShouldExecute<RuntimeCall>, R5: ShouldExecute<RuntimeCall>, R6: ShouldExecute<RuntimeCall>, R7: ShouldExecute<RuntimeCall>, R8: ShouldExecute<RuntimeCall>, R9: ShouldExecute<RuntimeCall>, R10: ShouldExecute<RuntimeCall>, R11: ShouldExecute<RuntimeCall>, R12: ShouldExecute<RuntimeCall>, R13: ShouldExecute<RuntimeCall>, R14: ShouldExecute<RuntimeCall>, R15: ShouldExecute<RuntimeCall>, R16: ShouldExecute<RuntimeCall>, R17: ShouldExecute<RuntimeCall>, R18: ShouldExecute<RuntimeCall>, R19: ShouldExecute<RuntimeCall>, R20: ShouldExecute<RuntimeCall>, R21: ShouldExecute<RuntimeCall>, R22: ShouldExecute<RuntimeCall>, R23: ShouldExecute<RuntimeCall>> ShouldExecute<RuntimeCall> for (R0, R1, R2, R3, R4, R5, R6, R7, R8, R9, R10, R11, R12, R13, R14, R15, R16, R17, R18, R19, R20, R21, R22, R23) {
    open spec fn may_answer(
        origin: MultiLocation,
        instructions: Seq<Instruction<RuntimeCall>>,
        max_weight: Weight,
        weight_credit: Weight,
        outcome: Outcome<RuntimeCall, Result<(), RejectReason>>,
    ) -> bool {
        tuple_may_answer::<RuntimeCall, R0, (R1, R2, R3, R4, R5, R6, R7, R8, R9, R10, R11, R12, R13, R14, R15, R16, R17, R18, R19, R20, R21, R22, R23)>(
            origin,
            instructions,
            max_weight,
            weight_credit,
            outcome,
        )
    }

    fn should_execute(
        origin: &MultiLocation,
        instructions: &mut [Instruction<RuntimeCall>],
        max_weight: Weight,
        weight_credit: &mut Weight,
    ) -> (verdict: Result<(), RejectReason>) {
        ask_in_turn::<RuntimeCall, R0, (R1, R2, R3, R4, R5, R6, R7, R8, R9, R10, R11, R12, R13, R14, R15, R16, R17, R18, R19, R20, R21, R22, R23)>(origin, instructions, max_weight, weight_credit)
    }
}

impl<RuntimeCall, R0: ShouldExecute<RuntimeCall>, R1: ShouldExecute<RuntimeCall>, R2: ShouldExecute<RuntimeCall>, R3: ShouldExecute<RuntimeCall>, R4: ShouldExecute<RuntimeCall>, R5: ShouldExecute<RuntimeCall>, R6: ShouldExecute<RuntimeCall>, R7: ShouldExecute<RuntimeCall>, R8: ShouldExecute<RuntimeCall>, R9: ShouldExecute<RuntimeCall>, R10: ShouldExecute<RuntimeCall>, R11: ShouldExecute<RuntimeCall>, R12: ShouldExecute<RuntimeCall>, R13: ShouldExecute<RuntimeCall>, R14: ShouldExecute<RuntimeCall>, R15: ShouldExecute<RuntimeCall>, R16: ShouldExecute<RuntimeCall>, R17: ShouldExecute<RuntimeCall>, R18: ShouldExecute<RuntimeCall>, R19: ShouldExecute<RuntimeCall>, R20: ShouldExecute<RuntimeCall>, R21: ShouldExecute<RuntimeCall>, R22: ShouldExecute<RuntimeCall>, R23: ShouldExecute<RuntimeCall>, R24: ShouldExecute<RuntimeCall>> ShouldExecute<RuntimeCall> for (R0, R1, R2, R3, R4, R5, R6, R7, R8, R9, R10, R11, R12, R13, R14, R15, R16, R17, R18, R19, R20, R21, R22, R23, R24) {
    open spec fn may_answer(
        origin: MultiLocation,
        instructions: Seq<Instruction<RuntimeCall>>,
        max_weight: Weight,
        weight_credit: Weight,
        outcome: Outcome<RuntimeCall, Result<(), RejectReason>>,
    ) -> bool {
        tuple_may_answer::<RuntimeCall, R0, (R1, R2, R3, R4, R5, R6, R7, R8, R9, R10, R11, R12, R13, R14, R15, R16, R17, R18, R19, R20, R21, R22, R23, R24)>(
            origin,
            instructions,
            max_weight,
            weight_credit,
            outcome,
        )
    }

    fn should_execute(
        origin: &MultiLocation,
        instructions: &mut [Instruction<RuntimeCall>],
        max_weight: Weight,
        weight_credit: &mut Weight,
    ) -> (verdict: Result<(), RejectReason>) {
        ask_in_turn::<RuntimeCall, R0, (R1, R2, R3, R4, R5, R6, R7, R8, R9, R10, R11, R12, R13, R14, R15, R16, R17, R18, R19, R20, R21, R22, R23, R24)>(origin, instructions, max_weight, weight_credit)
    }
}

impl<RuntimeCall, R0: ShouldExecute<RuntimeCall>, R1: ShouldExecute<RuntimeCall>, R2: ShouldExecute<RuntimeCall>, R3: ShouldExecute<RuntimeCall>, R4: ShouldExecute<RuntimeCall>, R5: ShouldExecute<RuntimeCall>, R6: ShouldExecute<RuntimeCall>, R7: ShouldExecute<RuntimeCall>, R8: ShouldExecute<RuntimeCall>, R9: ShouldExecute<RuntimeCall>, R10: ShouldExecute<RuntimeCall>, R11: ShouldExecute<RuntimeCall>, R12: ShouldExecute<RuntimeCall>, R13: ShouldExecute<RuntimeCall>, R14: ShouldExecute<RuntimeCall>, R15: ShouldExecute<RuntimeCall>, R16: ShouldExecute<RuntimeCall>, R17: ShouldExecute<RuntimeCall>, R18: ShouldExecute<RuntimeCall>, R19: ShouldExecute<RuntimeCall>, R20: ShouldExecute<RuntimeCall>, R21: ShouldExecute<RuntimeCall>, R22: ShouldExecute<RuntimeCall>, R23: ShouldExecute<RuntimeCall>, R24: ShouldExecute<RuntimeCall>, R25: ShouldExecute<RuntimeCall>> ShouldExecute<RuntimeCall> for (R0, R1, R2, R3, R4, R5, R6, R7, R8, R9, R10, R11, R12, R13, R14, R15, R16, R17, R18, R19, R20, R21, R22, R23, R24, R25) {
    open spec fn may_answer(
        origin: MultiLocation,
        instructions: Seq<Instruction<RuntimeCall>>,
        max_weight: Weight,
        weight_credit: Weight,
        outcome: Outcome<RuntimeCall, Result<(), RejectReason>>,
    ) -> bool {
        tuple_may_answer::<RuntimeCall, R0, (R1, R2, R3, R4, R5, R6, R7, R8, R9, R10, R11, R12, R13, R14, R15, R16, R17, R18, R19, R20, R21, R22, R23, R24, R25)>(
            origin,
            instructions,
            max_weight,
            weight_credit,
            outcome,
        )
    }

    fn should_execute(
        origin: &MultiLocation,
        instructions: &mut [Instruction<RuntimeCall>],
        max_weight: Weight,
        weight_credit: &mut Weight,
    ) -> (verdict: Result<(), RejectReason>) {
        ask_in_turn::<RuntimeCall, R0, (R1, R2, R3, R4, R5, R6, R7, R8, R9, R10, R11, R12, R13, R14, R15, R16, R17, R18, R19, R20, R21, R22, R23, R24, R25)>(origin, instructions, max_weight, weight_credit)
    }
}

impl<RuntimeCall, R0: ShouldExecute<RuntimeCall>, R1: ShouldExecute<RuntimeCall>, R2: ShouldExecute<RuntimeCall>, R3: ShouldExecute<RuntimeCall>, R4: ShouldExecute<RuntimeCall>, R5: ShouldExecute<RuntimeCall>, R6: ShouldExecute<RuntimeCall>, R7: ShouldExecute<RuntimeCall>, R8: ShouldExecute<RuntimeCall>, R9: ShouldExecute<RuntimeCall>, R10: ShouldExecute<RuntimeCall>, R11: ShouldExecute<RuntimeCall>, R12: ShouldExecute<RuntimeCall>, R13: ShouldExecute<RuntimeCall>, R14: ShouldExecute<RuntimeCall>, R15: ShouldExecute<RuntimeCall>, R16: ShouldExecute<RuntimeCall>, R17: ShouldExecute<RuntimeCall>, R18: ShouldExecute<RuntimeCall>, R19: ShouldExecute<RuntimeCall>, R20: ShouldExecute<RuntimeCall>, R21: ShouldExecute<RuntimeCall>, R22: ShouldExecute<RuntimeCall>, R23: ShouldExecute<RuntimeCall>, R24: ShouldExecute<RuntimeCall>, R25: ShouldExecute<RuntimeCall>, R26: ShouldExecute<RuntimeCall>> ShouldExecute<RuntimeCall> for (R0, R1, R2, R3, R4, R5, R6, R7, R8, R9, R10, R11, R12, R13, R14, R15, R16, R17, R18, R19, R20, R21, R22, R23, R24, R25, R26) {
    open spec fn may_answer(
        origin: MultiLocation,
        instructions: Seq<Instruction<RuntimeCall>>,
        max_weight: Weight,
        weight_credit: Weight,
        outcome: Outcome<RuntimeCall, Result<(), RejectReason>>,
    ) -> bool {
        tuple_may_answer::<RuntimeCall, R0, (R1, R2, R3, R4, R5, R6, R7, R8, R9, R10, R11, R12, R13, R14, R15, R16, R17, R18, R19, R20, R21, R22, R23, R24, R25, R26)>(
            origin,
            instructions,
            max_weight,
            weight_credit,
            outcome,
        )
    }

    fn should_execute(
        origin: &MultiLocation,
        instructions: &mut [Instruction<RuntimeCall>],
        max_weight: Weight,
        weight_credit: &mut Weight,
    ) -> (verdict: Result<(), RejectReason>) {
        ask_in_turn::<RuntimeCall, R0, (R1, R2, R3, R4, R5, R6, R7, R8, R9, R10, R11, R12, R13, R14, R15, R16, R17, R18, R19, R20, R21, R22, R23, R24, R25, R26)>(origin, instructions, max_weight, weight_credit)
    }
}

impl<RuntimeCall, R0: ShouldExecute<RuntimeCall>, R1: ShouldExecute<RuntimeCall>, R2: ShouldExecute<RuntimeCall>, R3: ShouldExecute<RuntimeCall>, R4: ShouldExecute<RuntimeCall>, R5: ShouldExecute<RuntimeCall>, R6: ShouldExecute<RuntimeCall>, R7: ShouldExecute<RuntimeCall>, R8: ShouldExecute<RuntimeCall>, R9: ShouldExecute<RuntimeCall>, R10: ShouldExecute<RuntimeCall>, R11: ShouldExecute<RuntimeCall>, R12: ShouldExecute<RuntimeCall>, R13: ShouldExecute<RuntimeCall>, R14: ShouldExecute<RuntimeCall>, R15: ShouldExecute<RuntimeCall>, R16: ShouldExecute<RuntimeCall>, R17: ShouldExecute<RuntimeCall>, R18: ShouldExecute<RuntimeCall>, R19: ShouldExecute<RuntimeCall>, R20: ShouldExecute<RuntimeCall>, R21: ShouldExecute<RuntimeCall>, R22: ShouldExecute<RuntimeCall>, R23: ShouldExecute<RuntimeCall>, R24: ShouldExecute<RuntimeCall>, R25: ShouldExecute<RuntimeCall>, R26: ShouldExecute<RuntimeCall>, R27: ShouldExecute<RuntimeCall>> ShouldExecute<RuntimeCall> for (R0, R1, R2, R3, R4, R5, R6, R7, R8, R9, R10, R11, R12, R13, R14, R15, R16, R17, R18, R19, R20, R21, R22, R23, R24, R25, R26, R27) {
    open spec fn may_answer(
        origin: MultiLocation,
        instructions: Seq<Instruction<RuntimeCall>>,
        max_weight: Weight,
        weight_credit: Weight,
        outcome: Outcome<RuntimeCall, Result<(), RejectReason>>,
    ) -> bool {
        tuple_may_answer::<RuntimeCall, R0, (R1, R2, R3, R4, R5, R6, R7, R8, R9, R10, R11, R12, R13, R14, R15, R16, R17, R18, R19, R20, R21, R22, R23, R24, R25, R26, R27)>(
            origin,
            instructions,
            max_weight,
            weight_credit,
            outcome,
        )
    }

    fn should_execute(
        origin: &MultiLocation,
        instructions: &mut [Instruction<RuntimeCall>],
        max_weight: Weight,
        weight_credit: &mut Weight,
    ) -> (verdict: Result<(), RejectReason>) {
        ask_in_turn::<RuntimeCall, R0, (R1, R2, R3, R4, R5, R6, R7, R8, R9, R10, R11, R12, R13, R14, R15, R16, R17, R18, R19, R20, R21, R22, R23, R24, R25, R26, R27)>(origin, instructions, max_weight, weight_credit)
    }
}

impl<RuntimeCall, R0: ShouldExecute<RuntimeCall>, R1: ShouldExecute<RuntimeCall>, R2: ShouldExecute<RuntimeCall>, R3: ShouldExecute<RuntimeCall>, R4: ShouldExecute<RuntimeCall>, R5: ShouldExecute<RuntimeCall>, R6: ShouldExecute<RuntimeCall>, R7: ShouldExecute<RuntimeCall>, R8: ShouldExecute<RuntimeCall>, R9: ShouldExecute<RuntimeCall>, R10: ShouldExecute<RuntimeCall>, R11: ShouldExecute<RuntimeCall>, R12: ShouldExecute<RuntimeCall>, R13: ShouldExecute<RuntimeCall>, R14: ShouldExecute<RuntimeCall>, R15: ShouldExecute<RuntimeCall>, R16: ShouldExecute<RuntimeCall>, R17: ShouldExecute<RuntimeCall>, R18: ShouldExecute<RuntimeCall>, R19: ShouldExecute<RuntimeCall>, R20: ShouldExecute<RuntimeCall>, R21: ShouldExecute<RuntimeCall>, R22: ShouldExecute<RuntimeCall>, R23: ShouldExecute<RuntimeCall>, R24: ShouldExecute<RuntimeCall>, R25: ShouldExecute<RuntimeCall>, R26: ShouldExecute<RuntimeCall>, R27: ShouldExecute<RuntimeCall>, R28: ShouldExecute<RuntimeCall>> ShouldExecute<RuntimeCall> for (R0, R1, R2, R3, R4, R5, R6, R7, R8, R9, R10, R11, R12, R13, R14, R15, R16, R17, R18, R19, R20, R21, R22, R23, R24, R25, R26, R27, R28) {
    open spec fn may_answer(
        origin: MultiLocation,
        instructions: Seq<Instruction<RuntimeCall>>,
        max_weight: Weight,
        weight_credit: Weight,
        outcome: Outcome<RuntimeCall, Result<(), RejectReason>>,
    ) -> bool {
        tuple_may_answer::<RuntimeCall, R0, (R1, R2, R3, R4, R5, R6, R7, R8, R9, R10, R11, R12, R13, R14, R15, R16, R17, R18, R19, R20, R21, R22, R23, R24, R25, R26, R27, R28)>(
            origin,
            instructions,
            max_weight,
            weight_credit,
            outcome,
        )
    }

    fn should_execute(
        origin: &MultiLocation,
        instructions: &mut [Instruction<RuntimeCall>],
        max_weight: Weight,
        weight_credit: &mut Weight,
    ) -> (verdict: Result<(), RejectReason>) {
        ask_in_turn::<RuntimeCall, R0, (R1, R2, R3, R4, R5, R6, R7, R8, R9, R10, R11, R12, R13, R14, R15, R16, R17, R18, R19, R20, R21, R22, R23, R24, R25, R26, R27, R28)>(origin, instructions, max_weight, weight_credit)
    }
}

impl<RuntimeCall, R0: ShouldExecute<RuntimeCall>, R1: ShouldExecute<RuntimeCall>, R2: ShouldExecute<RuntimeCall>, R3: ShouldExecute<RuntimeCall>, R4: ShouldExecute<RuntimeCall>, R5: ShouldExecute<RuntimeCall>, R6: ShouldExecute<RuntimeCall>, R7: ShouldExecute<RuntimeCall>, R8: ShouldExecute<RuntimeCall>, R9: ShouldExecute<RuntimeCall>, R10: ShouldExecute<RuntimeCall>, R11: ShouldExecute<RuntimeCall>, R12: ShouldExecute<RuntimeCall>, R13: ShouldExecute<RuntimeCall>, R14: ShouldExecute<RuntimeCall>, R15: ShouldExecute<RuntimeCall>, R16: ShouldExecute<RuntimeCall>, R17: ShouldExecute<RuntimeCall>, R18: ShouldExecute<RuntimeCall>, R19: ShouldExecute<RuntimeCall>, R20: ShouldExecute<RuntimeCall>, R21: ShouldExecute<RuntimeCall>, R22: ShouldExecute<RuntimeCall>, R23: ShouldExecute<RuntimeCall>, R24: ShouldExecute<RuntimeCall>, R25: ShouldExecute<RuntimeCall>, R26: ShouldExecute<RuntimeCall>, R27: ShouldExecute<RuntimeCall>, R28: ShouldExecute<RuntimeCall>, R29: ShouldExecute<RuntimeCall>> ShouldExecute<RuntimeCall> for (R0, R1, R2, R3, R4, R5, R6, R7, R8, R9, R10, R11, R12, R13, R14, R15, R16, R17, R18, R19, R20, R21, R22, R23, R24, R25, R26, R27, R28, R29) {
    open spec fn may_answer(
        origin: MultiLocation,
        instructions: Seq<Instruction<RuntimeCall>>,
        max_weight: Weight,
        weight_credit: Weight,
        outcome: Outcome<RuntimeCall, Result<(), RejectReason>>,
    ) -> bool {
        tuple_may_answer::<RuntimeCall, R0, (R1, R2, R3, R4, R5, R6, R7, R8, R9, R10, R11, R12, R13, R14, R15, R16, R17, R18, R19, R20, R21, R22, R23, R24, R25, R26, R27, R28, R29)>(
            origin,
            instructions,
            max_weight,
            weight_credit,
            outcome,
        )
    }

    fn should_execute(
        origin: &MultiLocation,
        instructions: &mut [Instruction<RuntimeCall>],
        max_weight: Weight,
        weight_credit: &mut Weight,
    ) -> (verdict: Result<(), RejectReason>) {
        ask_in_turn::<RuntimeCall, R0, (R1, R2, R3, R4, R5, R6, R7, R8, R9, R10, R11, R12, R13, R14, R15, R16, R17, R18, R19, R20, R21, R22, R23, R24, R25, R26, R27, R28, R29)>(origin, instructions, max_weight, weight_credit)
    }
}

} // verus!
