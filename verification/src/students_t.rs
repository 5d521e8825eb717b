use vstd::prelude::*;

use crate::domain::Sign;
use crate::error::StatFuncError;

verus! {

/// Whether a degrees-of-freedom parameter passes validation: it fails
/// exactly when it is `<= 0`, that is, when it is negative or zero. A NaN
/// passes, as it does in ordinary `f64` comparison.
pub open spec fn students_t_param_ok(v: Sign) -> bool {
    v != Sign::Negative && v != Sign::Zero
}

/// Validates the degrees-of-freedom parameter of the Student's-t layer:
/// it must be strictly positive.
pub fn check_students_t_param(v: Sign) -> (r: Result<(), StatFuncError>)
    ensures
        r is Ok <==> students_t_param_ok(v),
        !students_t_param_ok(v) ==> r == Result::<(), StatFuncError>::Err(
            StatFuncError::InvalidStudentsTParameter,
        ),
{
    match v {
        Sign::Negative => Err(StatFuncError::InvalidStudentsTParameter),
        Sign::Zero => Err(StatFuncError::InvalidStudentsTParameter),
        _ => Ok(()),
    }
}

/// Decides the final step of the Student's-t CDF. The incomplete beta
/// ratio hands back the mass `z` of one tail of the symmetric
/// distribution; for a negative statistic that tail is the answer, and
/// for any other statistic (including NaN, which fails `t < 0`) the
/// answer is the complement `1 - z`.
pub fn t_cdf_complements(t_negative: bool) -> (r: bool)
    ensures
        r == !t_negative,
{
    !t_negative
}

} // verus!
