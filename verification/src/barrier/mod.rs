//! Rules that decide whether a cross-consensus message may be executed.
//!
//! A rule is a type; it is asked through [`ShouldExecute::should_execute`]. Rules are
//! combined by putting them in a tuple: the tuple asks its members in order and
//! accepts as soon as one of them does. [`CheckSuspension`] combines in the same way.

use staging_xcm::latest::{Instruction, MultiLocation, Weight};
use vstd::prelude::*;

pub mod execute_tuples;
pub mod suspension_tuples;

verus! {

/// `staging_xcm::latest::MultiLocation`: the sender of a message. Nothing is
/// claimed of its contents; values are only handed on to the rules.
#[verifier::external_type_specification]
#[verifier::external_body]
pub struct ExMultiLocation(MultiLocation);

/// `staging_xcm::latest::Weight`: an amount of execution weight. Nothing is
/// claimed of its contents; values are only handed on to the rules.
#[verifier::external_type_specification]
#[verifier::external_body]
pub struct ExWeight(Weight);

/// `staging_xcm::latest::Instruction`: one instruction of a message. Nothing is
/// claimed of its contents; values are only handed on to the rules.
#[verifier::external_type_specification]
#[verifier::external_body]
#[verifier::reject_recursive_types(Call)]
pub struct ExInstruction<Call>(Instruction<Call>);

/// The reason why a given message is not permitted to execute.
#[derive(Clone, Debug, PartialEq, Eq, Structural)]
pub enum RejectReason {
    /// The supplied weight credit is not enough to pay for the weight required.
    InsufficientCredit,
    /// None of the rules in a tuple accepted the message.
    NoRulesMatched,
    /// The series of `DescendOrigin` instructions would overflow the origin location.
    OriginMultiLocationTooLong,
    /// Does not pass yet, but might pass in a later block.
    Suspended,
    /// The rule does not recognize the format of the incoming message.
    UnexpectedMessageFormat,
    /// The receiving chain did not expect a response from the origin.
    UnexpectedResponse,
    /// The origin is not trusted to pass this rule.
    UntrustedOrigin,
    /// The message carries a weight limit that is lower than the weight it requires, as
    /// weighed by the receiver.
    WeightLimitTooLow,
}

/// What asking a rule leaves behind: the message and the credit as the rule left
/// them, and what the rule said.
#[verifier::reject_recursive_types(Call)]
pub ghost struct Outcome<Call, R> {
    pub instructions: Seq<Instruction<Call>>,
    pub weight_credit: Weight,
    pub said: R,
}

/// Decides whether the execution engine should execute a given message.
///
/// Implemented for tuples of up to thirty rules: a tuple accepts with the first of its
/// members that accepts, and rejects with [`RejectReason::NoRulesMatched`] if none does.
pub trait ShouldExecute<RuntimeCall> {
    /// Whether this rule, asked about the message `instructions` sent by `origin`, with
    /// `max_weight` as the estimate of its execution weight and `weight_credit` as the
    /// weight already granted to it, may end in `outcome`. A rule may depend on state of
    /// its own, so more than one outcome may be possible for one question.
    ///
    /// A rule that does not say what it may end in may end in anything.
    open spec fn may_answer(
        origin: MultiLocation,
        instructions: Seq<Instruction<RuntimeCall>>,
        max_weight: Weight,
        weight_credit: Weight,
        outcome: Outcome<RuntimeCall, Result<(), RejectReason>>,
    ) -> bool {
        true
    }

    /// Returns `Ok(())` if the given message may be executed.
    ///
    /// - `origin`: the sender of the message.
    /// - `instructions`: the message itself.
    /// - `max_weight`: the (possibly over-) estimation of the weight of execution of the
    ///   message.
    /// - `weight_credit`: the amount of weight that the system has already determined this
    ///   message may use in its execution.
    fn should_execute(
        origin: &MultiLocation,
        instructions: &mut [Instruction<RuntimeCall>],
        max_weight: Weight,
        weight_credit: &mut Weight,
    ) -> (verdict: Result<(), RejectReason>)
        ensures
            Self::may_answer(
                *origin,
                old(instructions)@,
                max_weight,
                *old(weight_credit),
                (Outcome {
                    instructions: final(instructions)@,
                    weight_credit: *final(weight_credit),
                    said: verdict,
                }),
            ),
    ;
}

/// What asking `First` and then, if it rejects, `Rest` may end in: either `First`
/// accepts and `outcome` is what it left, or `First` rejects and `outcome` is what
/// `Rest` makes of the message and the credit as `First` left them.
pub open spec fn first_or_rest<Call, First: ShouldExecute<Call>, Rest: ShouldExecute<Call>>(
    origin: MultiLocation,
    instructions: Seq<Instruction<Call>>,
    max_weight: Weight,
    weight_credit: Weight,
    outcome: Outcome<Call, Result<(), RejectReason>>,
) -> bool {
    ||| outcome.said is Ok && First::may_answer(
        origin,
        instructions,
        max_weight,
        weight_credit,
        outcome,
    )
    ||| exists|between: Outcome<Call, Result<(), RejectReason>>|
        {
            &&& between.said is Err
            &&& #[trigger] First::may_answer(
                origin,
                instructions,
                max_weight,
                weight_credit,
                between,
            )
            &&& Rest::may_answer(
                origin,
                between.instructions,
                max_weight,
                between.weight_credit,
                outcome,
            )
        }
}

/// What a tuple made of the rule `First` and the tuple `Rest` of further rules may end
/// in: it asks `First`, then `Rest`, and the only reason it ever rejects with is
/// [`RejectReason::NoRulesMatched`].
pub open spec fn tuple_may_answer<Call, First: ShouldExecute<Call>, Rest: ShouldExecute<Call>>(
    origin: MultiLocation,
    instructions: Seq<Instruction<Call>>,
    max_weight: Weight,
    weight_credit: Weight,
    outcome: Outcome<Call, Result<(), RejectReason>>,
) -> bool {
    &&& first_or_rest::<Call, First, Rest>(origin, instructions, max_weight, weight_credit, outcome)
    &&& outcome.said is Err ==> outcome.said == Err::<(), RejectReason>(
        RejectReason::NoRulesMatched,
    )
}

/// Asks `First`; if it rejects, asks `Rest` about the message and the credit as `First`
/// left them. The reason that `First` gave is dropped.
pub fn ask_in_turn<Call, First: ShouldExecute<Call>, Rest: ShouldExecute<Call>>(
    origin: &MultiLocation,
    instructions: &mut [Instruction<Call>],
    max_weight: Weight,
    weight_credit: &mut Weight,
) -> (verdict: Result<(), RejectReason>)
    ensures
        first_or_rest::<Call, First, Rest>(
            *origin,
            old(instructions)@,
            max_weight,
            *old(weight_credit),
            (Outcome {
                instructions: final(instructions)@,
                weight_credit: *final(weight_credit),
                said: verdict,
            }),
        ),
{
    let first = First::should_execute(origin, instructions, max_weight, weight_credit);
    if first.is_ok() {
        first
    } else {
        let ghost between = Outcome {
            instructions: instructions@,
            weight_credit: *weight_credit,
            said: first,
        };
        let verdict = Rest::should_execute(origin, instructions, max_weight, weight_credit);
        proof {
            assert(First::may_answer(
                *origin,
                old(instructions)@,
                max_weight,
                *old(weight_credit),
                between,
            ));
        }
        verdict
    }
}

/// Decides whether the execution engine is suspended from executing a given message.
///
/// The method is given the same parameters as [`ShouldExecute::should_execute`], so that
/// the implementer has all the context necessary to decide.
///
/// Implemented for tuples of up to thirty checks: a tuple reports suspension as soon as
/// one of its members does, and reports none if no member does.
pub trait CheckSuspension<Call> {
    /// Whether this check, asked about the message `instructions` sent by `origin`, may
    /// end in `outcome`.
    ///
    /// A check that does not say what it may end in may end in anything.
    open spec fn may_report(
        origin: MultiLocation,
        instructions: Seq<Instruction<Call>>,
        max_weight: Weight,
        weight_credit: Weight,
        outcome: Outcome<Call, bool>,
    ) -> bool {
        true
    }

    /// Returns `true` if execution is suspended for the given message.
    fn is_suspended(
        origin: &MultiLocation,
        instructions: &mut [Instruction<Call>],
        max_weight: Weight,
        weight_credit: &mut Weight,
    ) -> (suspended: bool)
        ensures
            Self::may_report(
                *origin,
                old(instructions)@,
                max_weight,
                *old(weight_credit),
                (Outcome {
                    instructions: final(instructions)@,
                    weight_credit: *final(weight_credit),
                    said: suspended,
                }),
            ),
    ;
}

/// What asking `First` and then, if it reports no suspension, `Rest` may end in.
pub open spec fn first_or_rest_suspends<
    Call,
    First: CheckSuspension<Call>,
    Rest: CheckSuspension<Call>,
>(
    origin: MultiLocation,
    instructions: Seq<Instruction<Call>>,
    max_weight: Weight,
    weight_credit: Weight,
    outcome: Outcome<Call, bool>,
) -> bool {
    ||| outcome.said && First::may_report(origin, instructions, max_weight, weight_credit, outcome)
    ||| exists|between: Outcome<Call, bool>|
        {
            &&& !between.said
            &&& #[trigger] First::may_report(
                origin,
                instructions,
                max_weight,
                weight_credit,
                between,
            )
            &&& Rest::may_report(
                origin,
                between.instructions,
                max_weight,
                between.weight_credit,
                outcome,
            )
        }
}

/// Asks `First`; if it reports no suspension, asks `Rest` about the message and the
/// credit as `First` left them.
pub fn check_in_turn<Call, First: CheckSuspension<Call>, Rest: CheckSuspension<Call>>(
    origin: &MultiLocation,
    instructions: &mut [Instruction<Call>],
    max_weight: Weight,
    weight_credit: &mut Weight,
) -> (suspended: bool)
    ensures
        first_or_rest_suspends::<Call, First, Rest>(
            *origin,
            old(instructions)@,
            max_weight,
            *old(weight_credit),
            (Outcome {
                instructions: final(instructions)@,
                weight_credit: *final(weight_credit),
                said: suspended,
            }),
        ),
{
    let first = First::is_suspended(origin, instructions, max_weight, weight_credit);
    if first {
        true
    } else {
        let ghost between = Outcome {
            instructions: instructions@,
            weight_credit: *weight_credit,
            said: first,
        };
        let suspended = Rest::is_suspended(origin, instructions, max_weight, weight_credit);
        proof {
            assert(First::may_report(
                *origin,
                old(instructions)@,
                max_weight,
                *old(weight_credit),
                between,
            ));
        }
        suspended
    }
}

/// A tuple of one rule accepts exactly where the rule accepts, and leaves what the rule
/// left. Where the rule rejects, the tuple rejects with
/// [`RejectReason::NoRulesMatched`] in place of the rule's reason.
pub proof fn lemma_single_rule<Call, Rule: ShouldExecute<Call>>(
    origin: MultiLocation,
    instructions: Seq<Instruction<Call>>,
    max_weight: Weight,
    weight_credit: Weight,
    outcome: Outcome<Call, Result<(), RejectReason>>,
)
    ensures
        <(Rule,) as ShouldExecute<Call>>::may_answer(
            origin,
            instructions,
            max_weight,
            weight_credit,
            outcome,
        ) <==> {
            ||| outcome.said is Ok && Rule::may_answer(
                origin,
                instructions,
                max_weight,
                weight_credit,
                outcome,
            )
            ||| outcome.said == Err::<(), RejectReason>(RejectReason::NoRulesMatched) && exists|
                reason: RejectReason,
            | #[trigger]
                Rule::may_answer(
                    origin,
                    instructions,
                    max_weight,
                    weight_credit,
                    Outcome { said: Err(reason), ..outcome },
                )
        },
{
    let tuple = <(Rule,) as ShouldExecute<Call>>::may_answer(
        origin,
        instructions,
        max_weight,
        weight_credit,
        outcome,
    );
    if tuple && outcome.said is Err {
        let between = choose|between: Outcome<Call, Result<(), RejectReason>>|
            {
                &&& between.said is Err
                &&& #[trigger] Rule::may_answer(
                    origin,
                    instructions,
                    max_weight,
                    weight_credit,
                    between,
                )
                &&& <() as ShouldExecute<Call>>::may_answer(
                    origin,
                    between.instructions,
                    max_weight,
                    between.weight_credit,
                    outcome,
                )
            };
        let reason = between.said->Err_0;
        assert(between == Outcome { said: Err::<(), RejectReason>(reason), ..outcome });
    }
    if outcome.said == Err::<(), RejectReason>(RejectReason::NoRulesMatched) && exists|
        reason: RejectReason,
    | #[trigger]
        Rule::may_answer(
            origin,
            instructions,
            max_weight,
            weight_credit,
            Outcome { said: Err(reason), ..outcome },
        ) {
        let reason = choose|reason: RejectReason| #[trigger]
            Rule::may_answer(
                origin,
                instructions,
                max_weight,
                weight_credit,
                Outcome { said: Err(reason), ..outcome },
            );
        let between = Outcome { said: Err::<(), RejectReason>(reason), ..outcome };
        assert(Rule::may_answer(origin, instructions, max_weight, weight_credit, between));
        assert(<() as ShouldExecute<Call>>::may_answer(
            origin,
            between.instructions,
            max_weight,
            between.weight_credit,
            outcome,
        ));
    }
}

/// A tuple of one check reports suspension exactly where the check does, and leaves
/// what the check left.
pub proof fn lemma_single_check<Call, Check: CheckSuspension<Call>>(
    origin: MultiLocation,
    instructions: Seq<Instruction<Call>>,
    max_weight: Weight,
    weight_credit: Weight,
    outcome: Outcome<Call, bool>,
)
    ensures
        <(Check,) as CheckSuspension<Call>>::may_report(
            origin,
            instructions,
            max_weight,
            weight_credit,
            outcome,
        ) <==> Check::may_report(origin, instructions, max_weight, weight_credit, outcome),
{
    let tuple = <(Check,) as CheckSuspension<Call>>::may_report(
        origin,
        instructions,
        max_weight,
        weight_credit,
        outcome,
    );
    if tuple && !outcome.said {
        let between = choose|between: Outcome<Call, bool>|
            {
                &&& !between.said
                &&& #[trigger] Check::may_report(
                    origin,
                    instructions,
                    max_weight,
                    weight_credit,
                    between,
                )
                &&& <() as CheckSuspension<Call>>::may_report(
                    origin,
                    between.instructions,
                    max_weight,
                    between.weight_credit,
                    outcome,
                )
            };
        assert(between == outcome);
    }
    if Check::may_report(origin, instructions, max_weight, weight_credit, outcome) && !outcome.said {
        assert(<() as CheckSuspension<Call>>::may_report(
            origin,
            outcome.instructions,
            max_weight,
            outcome.weight_credit,
            outcome,
        ));
    }
}

} // verus!
