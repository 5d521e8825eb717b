use vstd::prelude::*;

use crate::error::StatFuncError;

verus! {

/// What parameter validation reads of one floating-point argument: its
/// relation to zero. A value that compares with nothing (an IEEE NaN) is a
/// case of its own, and in particular is *not* `<= 0`, so it passes the
/// positivity checks below exactly as it does in ordinary `f64` comparison.
#[derive(Clone, Copy, Debug, PartialEq, Eq, Structural)]
pub enum Sign {
    Negative,
    Zero,
    Positive,
    NotANumber,
}

/// What the incomplete beta ratio reads of its probability argument `x`:
/// where it stands relative to the interval `[0, 1]`.
#[derive(Clone, Copy, Debug, PartialEq, Eq, Structural)]
pub enum ProbClass {
    BelowZero,
    Zero,
    Inside,
    One,
    AboveOne,
    NotANumber,
}

/// Whether a pair of beta shape parameters passes validation: a parameter
/// fails exactly when it is `<= 0`, that is, when it is negative or zero.
pub open spec fn beta_params_ok(p: Sign, q: Sign) -> bool {
    p != Sign::Negative && p != Sign::Zero && q != Sign::Negative && q != Sign::Zero
}

/// Validates the two shape parameters of the beta functions `lbeta`, `beta`
/// and `betain`: both must be strictly positive.
pub fn check_beta_params(p: Sign, q: Sign) -> (r: Result<(), StatFuncError>)
    ensures
        r is Ok <==> beta_params_ok(p, q),
        !beta_params_ok(p, q) ==> r == Result::<(), StatFuncError>::Err(
            StatFuncError::InvalidBetaParameters,
        ),
{
    let p_bad = match p {
        Sign::Negative => true,
        Sign::Zero => true,
        _ => false,
    };
    let q_bad = match q {
        Sign::Negative => true,
        Sign::Zero => true,
        _ => false,
    };
    if p_bad || q_bad {
        Err(StatFuncError::InvalidBetaParameters)
    } else {
        Ok(())
    }
}

/// How a call of the incomplete beta ratio proceeds, settled before any
/// floating-point work beyond the comparisons encoded in the arguments.
#[derive(Clone, Copy, Debug, PartialEq, Eq, Structural)]
pub enum BetainPlan {
    /// A shape parameter is `<= 0`: fail with `InvalidBetaParameters`.
    RejectParams,
    /// `x` is outside `[0, 1]` or NaN: fail with `InvalidProbability`.
    RejectProbability,
    /// `x` is exactly `0` or exactly `1`: return `x` verbatim, no iteration.
    ReturnArgument,
    /// Run Soper's reduction. With `flip` the complementary tail is the
    /// numerically stable one: the series is evaluated on the working
    /// arguments `xx = 1 - x`, `cx = x`, `pp = q`, `qq = p`, and the final
    /// value is flipped back as `1 - value`. Without it the series runs on
    /// `xx = x`, `cx = 1 - x`, `pp = p`, `qq = q` directly.
    Series { flip: bool },
}

/// The entry plan of `betain(p, q, x)`. `complement_tail` carries the one
/// comparison the tail selection needs: `p < (p + q) * x`.
pub open spec fn betain_plan_spec(
    p: Sign,
    q: Sign,
    x: ProbClass,
    complement_tail: bool,
) -> BetainPlan {
    if !beta_params_ok(p, q) {
        BetainPlan::RejectParams
    } else if x == ProbClass::BelowZero || x == ProbClass::AboveOne || x == ProbClass::NotANumber {
        BetainPlan::RejectProbability
    } else if x == ProbClass::Zero || x == ProbClass::One {
        BetainPlan::ReturnArgument
    } else {
        BetainPlan::Series { flip: complement_tail }
    }
}

/// Decides how a call of the incomplete beta ratio proceeds: validation
/// first, then the boundary shortcut, then tail selection for the series.
/// `complement_tail` is the tail-switch comparison `p < (p + q) * x`,
/// computed by the caller on the floating-point values; it is read only
/// when the plan is to run the series.
pub fn betain_plan(p: Sign, q: Sign, x: ProbClass, complement_tail: bool) -> (r: BetainPlan)
    ensures
        r == betain_plan_spec(p, q, x, complement_tail),
{
    match check_beta_params(p, q) {
        Err(_) => BetainPlan::RejectParams,
        Ok(()) => match x {
            ProbClass::BelowZero => BetainPlan::RejectProbability,
            ProbClass::AboveOne => BetainPlan::RejectProbability,
            ProbClass::NotANumber => BetainPlan::RejectProbability,
            ProbClass::Zero => BetainPlan::ReturnArgument,
            ProbClass::One => BetainPlan::ReturnArgument,
            ProbClass::Inside => BetainPlan::Series { flip: complement_tail },
        },
    }
}

/// The class of the exact complement `1 - x`. (This is the mathematical
/// complement: a floating-point `1.0 - x` can round across a class
/// boundary when `x` is within an ulp of a boundary.)
pub open spec fn prob_complement(x: ProbClass) -> ProbClass {
    match x {
        ProbClass::BelowZero => ProbClass::AboveOne,
        ProbClass::Zero => ProbClass::One,
        ProbClass::Inside => ProbClass::Inside,
        ProbClass::One => ProbClass::Zero,
        ProbClass::AboveOne => ProbClass::BelowZero,
        ProbClass::NotANumber => ProbClass::NotANumber,
    }
}

/// The discrete half of the complement identity
/// `betain(p, q, x) + betain(q, p, 1 - x) == 1`: a call and its
/// complementary call — shape parameters swapped, argument exactly
/// complemented — are rejected together, for the same reason, take the
/// boundary shortcut together, and enter the series together. That the
/// two series values then sum to one is a floating-point fact outside
/// this crate's model.
pub proof fn lemma_entry_plan_complement(p: Sign, q: Sign, x: ProbClass, c1: bool, c2: bool)
    ensures
        betain_plan_spec(p, q, x, c1) == BetainPlan::RejectParams <==> betain_plan_spec(
            q,
            p,
            prob_complement(x),
            c2,
        ) == BetainPlan::RejectParams,
        betain_plan_spec(p, q, x, c1) == BetainPlan::RejectProbability <==> betain_plan_spec(
            q,
            p,
            prob_complement(x),
            c2,
        ) == BetainPlan::RejectProbability,
        betain_plan_spec(p, q, x, c1) == BetainPlan::ReturnArgument <==> betain_plan_spec(
            q,
            p,
            prob_complement(x),
            c2,
        ) == BetainPlan::ReturnArgument,
        (betain_plan_spec(p, q, x, c1) is Series) <==> (betain_plan_spec(
            q,
            p,
            prob_complement(x),
            c2,
        ) is Series),
{
}

} // verus!
