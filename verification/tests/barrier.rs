use staging_xcm::latest::{Instruction, MultiLocation, Weight};
use statement_distribution::barrier::{CheckSuspension, RejectReason, ShouldExecute};

/// Accepts, and notes in the credit that it was asked.
struct Accepts;

/// Rejects as an untrusted origin, and notes in the credit that it was asked.
struct Distrusts;

/// Rejects for want of credit, and notes in the credit that it was asked.
struct Starves;

fn note(weight_credit: &mut Weight) {
    *weight_credit = weight_credit.saturating_add(Weight::from_parts(1, 0));
}

impl<Call> ShouldExecute<Call> for Accepts {
    fn should_execute(
        _origin: &MultiLocation,
        _instructions: &mut [Instruction<Call>],
        _max_weight: Weight,
        weight_credit: &mut Weight,
    ) -> Result<(), RejectReason> {
        note(weight_credit);
        Ok(())
    }
}

impl<Call> ShouldExecute<Call> for Distrusts {
    fn should_execute(
        _origin: &MultiLocation,
        _instructions: &mut [Instruction<Call>],
        _max_weight: Weight,
        weight_credit: &mut Weight,
    ) -> Result<(), RejectReason> {
        note(weight_credit);
        Err(RejectReason::UntrustedOrigin)
    }
}

impl<Call> ShouldExecute<Call> for Starves {
    fn should_execute(
        _origin: &MultiLocation,
        _instructions: &mut [Instruction<Call>],
        _max_weight: Weight,
        weight_credit: &mut Weight,
    ) -> Result<(), RejectReason> {
        note(weight_credit);
        Err(RejectReason::InsufficientCredit)
    }
}

/// Reports suspension, and notes in the credit that it was asked.
struct Suspends;

/// Reports no suspension, and notes in the credit that it was asked.
struct Passes;

impl<Call> CheckSuspension<Call> for Suspends {
    fn is_suspended(
        _origin: &MultiLocation,
        _instructions: &mut [Instruction<Call>],
        _max_weight: Weight,
        weight_credit: &mut Weight,
    ) -> bool {
        note(weight_credit);
        true
    }
}

impl<Call> CheckSuspension<Call> for Passes {
    fn is_suspended(
        _origin: &MultiLocation,
        _instructions: &mut [Instruction<Call>],
        _max_weight: Weight,
        weight_credit: &mut Weight,
    ) -> bool {
        note(weight_credit);
        false
    }
}

fn ask<B: ShouldExecute<()>>() -> (Result<(), RejectReason>, u64) {
    let origin = MultiLocation::here();
    let mut message: Vec<Instruction<()>> = vec![Instruction::ClearOrigin];
    let mut credit = Weight::zero();
    let verdict = B::should_execute(&origin, &mut message, Weight::from_parts(10, 10), &mut credit);
    (verdict, credit.ref_time())
}

fn check<B: CheckSuspension<()>>() -> (bool, u64) {
    let origin = MultiLocation::parent();
    let mut message: Vec<Instruction<()>> = vec![Instruction::ClearOrigin];
    let mut credit = Weight::zero();
    let suspended = B::is_suspended(&origin, &mut message, Weight::from_parts(10, 10), &mut credit);
    (suspended, credit.ref_time())
}

#[test]
fn empty_tuple_matches_no_rule() {
    assert_eq!(ask::<()>(), (Err(RejectReason::NoRulesMatched), 0));
}

#[test]
fn single_rule_accepts() {
    assert_eq!(ask::<(Accepts,)>(), (Ok(()), 1));
}

#[test]
fn single_rule_reason_is_replaced() {
    assert_eq!(ask::<(Distrusts,)>(), (Err(RejectReason::NoRulesMatched), 1));
}

#[test]
fn first_accepting_rule_ends_the_trial() {
    assert_eq!(ask::<(Distrusts, Accepts, Starves)>(), (Ok(()), 2));
    assert_eq!(ask::<(Accepts, Distrusts)>(), (Ok(()), 1));
}

#[test]
fn all_rules_reject() {
    assert_eq!(ask::<(Distrusts, Starves, Distrusts)>(), (Err(RejectReason::NoRulesMatched), 3));
}

#[test]
fn nested_tuples_decide_like_flat_ones() {
    assert_eq!(
        ask::<(Distrusts, (Starves, Accepts), Distrusts)>(),
        ask::<(Distrusts, Starves, Accepts, Distrusts)>()
    );
    assert_eq!(
        ask::<((Distrusts, Starves), (Distrusts,))>(),
        ask::<(Distrusts, Starves, Distrusts)>()
    );
}

#[test]
fn thirty_rules_are_asked_in_order() {
    type Long = (
        Distrusts, Starves, Distrusts, Starves, Distrusts, Starves, Distrusts, Starves, Distrusts, Starves,
        Distrusts, Starves, Distrusts, Starves, Distrusts, Starves, Distrusts, Starves, Distrusts, Starves,
        Distrusts, Starves, Distrusts, Starves, Distrusts, Starves, Distrusts, Starves, Distrusts, Accepts,
    );
    assert_eq!(ask::<Long>(), (Ok(()), 30));
}

#[test]
fn empty_tuple_is_not_suspended() {
    assert_eq!(check::<()>(), (false, 0));
}

#[test]
fn first_suspending_check_ends_the_round() {
    assert_eq!(check::<(Passes, Suspends, Passes)>(), (true, 2));
    assert_eq!(check::<(Suspends,)>(), (true, 1));
}

#[test]
fn no_check_suspends() {
    assert_eq!(check::<(Passes, Passes)>(), (false, 2));
}

#[test]
fn reject_reasons_compare_by_variant() {
    assert_eq!(RejectReason::Suspended, RejectReason::Suspended.clone());
    assert_ne!(RejectReason::WeightLimitTooLow, RejectReason::UnexpectedResponse);
    assert_ne!(RejectReason::OriginMultiLocationTooLong, RejectReason::UnexpectedMessageFormat);
}
