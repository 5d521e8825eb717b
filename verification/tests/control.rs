//! Direct tests of the crate's decision logic: the validation tables, the
//! entry plan of the incomplete beta ratio, the Soper countdown machine,
//! and the dispatch tables of the normal CDF.

use stat_fns::domain::{betain_plan, check_beta_params, BetainPlan, ProbClass, Sign};
use stat_fns::error::StatFuncError;
use stat_fns::pnorm::{classify_dispatch, classify_region, tail_complements, NormDispatch, NormRegion};
use stat_fns::soper::{SoperControl, SoperRegime, SOPER_STEP_LIMIT};
use stat_fns::students_t::{check_students_t_param, t_cdf_complements};

#[test]
fn beta_param_table() {
    let ok = [Sign::Positive, Sign::NotANumber];
    let bad = [Sign::Negative, Sign::Zero];
    for &p in &ok {
        for &q in &ok {
            assert!(check_beta_params(p, q).is_ok());
        }
        for &q in &bad {
            assert_eq!(check_beta_params(p, q).unwrap_err(), StatFuncError::InvalidBetaParameters);
            assert_eq!(check_beta_params(q, p).unwrap_err(), StatFuncError::InvalidBetaParameters);
        }
    }
    for &p in &bad {
        for &q in &bad {
            assert_eq!(check_beta_params(p, q).unwrap_err(), StatFuncError::InvalidBetaParameters);
        }
    }
}

#[test]
fn students_t_param_table() {
    assert!(check_students_t_param(Sign::Positive).is_ok());
    assert!(check_students_t_param(Sign::NotANumber).is_ok());
    assert_eq!(
        check_students_t_param(Sign::Zero).unwrap_err(),
        StatFuncError::InvalidStudentsTParameter
    );
    assert_eq!(
        check_students_t_param(Sign::Negative).unwrap_err(),
        StatFuncError::InvalidStudentsTParameter
    );
}

#[test]
fn betain_plan_table() {
    let p = Sign::Positive;
    assert_eq!(betain_plan(Sign::Zero, p, ProbClass::Inside, false), BetainPlan::RejectParams);
    assert_eq!(betain_plan(p, Sign::Negative, ProbClass::Zero, true), BetainPlan::RejectParams);
    assert_eq!(betain_plan(p, p, ProbClass::BelowZero, false), BetainPlan::RejectProbability);
    assert_eq!(betain_plan(p, p, ProbClass::AboveOne, false), BetainPlan::RejectProbability);
    assert_eq!(betain_plan(p, p, ProbClass::NotANumber, true), BetainPlan::RejectProbability);
    assert_eq!(betain_plan(p, p, ProbClass::Zero, false), BetainPlan::ReturnArgument);
    assert_eq!(betain_plan(p, p, ProbClass::One, true), BetainPlan::ReturnArgument);
    assert_eq!(betain_plan(p, p, ProbClass::Inside, false), BetainPlan::Series { flip: false });
    assert_eq!(betain_plan(p, p, ProbClass::Inside, true), BetainPlan::Series { flip: true });
}

#[test]
fn soper_machine_descends_pivots_then_shifts() {
    let mut ctl = SoperControl::new(3);
    assert!(!ctl.ratio_plain());
    assert!(!ctl.exhausted());
    assert_eq!(ctl.advance(), SoperRegime::Descending);
    assert!(!ctl.ratio_plain());
    assert_eq!(ctl.advance(), SoperRegime::Descending);
    assert_eq!(ctl.advance(), SoperRegime::Pivot);
    assert!(ctl.ratio_plain());
    assert_eq!(ctl.advance(), SoperRegime::Shifted);
    assert_eq!(ctl.advance(), SoperRegime::Shifted);
    assert!(ctl.ratio_plain());
    assert!(!ctl.exhausted());
}

#[test]
fn soper_machine_starting_at_zero_is_already_plain() {
    let mut ctl = SoperControl::new(0);
    assert!(ctl.ratio_plain());
    assert_eq!(ctl.advance(), SoperRegime::Shifted);
    assert_eq!(ctl.advance(), SoperRegime::Shifted);
}

#[test]
fn soper_step_limit_is_generous() {
    assert!(SOPER_STEP_LIMIT >= 1000000);
}

#[test]
fn soper_machine_reaches_its_ceiling() {
    let mut ctl = SoperControl::new(5);
    let mut n: u64 = 0;
    while !ctl.exhausted() {
        ctl.advance();
        n += 1;
    }
    assert_eq!(n, SOPER_STEP_LIMIT);
    assert!(ctl.ratio_plain());
}

#[test]
fn norm_dispatch_table() {
    for &lower in &[true, false] {
        for &neg in &[true, false] {
            assert_eq!(classify_dispatch(true, false, neg, lower), NormDispatch::PropagateNan);
            assert_eq!(classify_dispatch(false, false, neg, lower), NormDispatch::Finite);
        }
    }
    assert_eq!(classify_dispatch(false, true, true, true), NormDispatch::ZeroLimit);
    assert_eq!(classify_dispatch(false, true, true, false), NormDispatch::OneLimit);
    assert_eq!(classify_dispatch(false, true, false, true), NormDispatch::OneLimit);
    assert_eq!(classify_dispatch(false, true, false, false), NormDispatch::ZeroLimit);
}

#[test]
fn norm_region_ladder() {
    assert_eq!(classify_region(true, true, true, true), NormRegion::CentralTiny);
    assert_eq!(classify_region(false, true, true, true), NormRegion::Central);
    assert_eq!(classify_region(false, false, true, true), NormRegion::Middle);
    assert_eq!(classify_region(false, false, false, true), NormRegion::Tail);
    assert_eq!(classify_region(false, false, false, false), NormRegion::Underflow);
}

#[test]
fn tail_swap_table() {
    assert!(!tail_complements(true, true));
    assert!(tail_complements(true, false));
    assert!(tail_complements(false, true));
    assert!(!tail_complements(false, false));
    for &neg in &[true, false] {
        for &lower in &[true, false] {
            assert_eq!(tail_complements(neg, lower), tail_complements(!neg, !lower));
        }
    }
}

#[test]
fn t_cdf_complement_table() {
    assert!(!t_cdf_complements(true));
    assert!(t_cdf_complements(false));
}

#[test]
fn error_messages() {
    assert_eq!(
        StatFuncError::InvalidBetaParameters.message(),
        "Invalid parameters for beta function (alpha and beta must be >0"
    );
    assert_eq!(
        StatFuncError::InvalidProbability.message(),
        "Invalid probability parameter (must be between 0 and 1"
    );
    assert_eq!(
        StatFuncError::InvalidStudentsTParameter.message(),
        "Invalid degrees of freedom parameter for Students-t distribution (must be > 0)"
    );
    assert_eq!(
        StatFuncError::NonConvergence.message(),
        "Numerical non-convergence in incomplete beta function iteration"
    );
}
