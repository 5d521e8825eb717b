use vstd::prelude::*;

verus! {

/// The ways a query can fail: the three parameter-domain violations, each
/// detected before any iteration begins, and the defensive ceiling on the
/// series iteration of the incomplete beta ratio.
#[derive(Clone, Copy, Debug, PartialEq, Eq, Structural)]
pub enum StatFuncError {
    /// A beta-function shape parameter was not strictly positive.
    InvalidBetaParameters,
    /// The argument of the incomplete beta ratio was outside `[0, 1]`.
    InvalidProbability,
    /// The degrees-of-freedom parameter was not strictly positive.
    InvalidStudentsTParameter,
    /// The series iteration reached its step ceiling without converging.
    NonConvergence,
}

impl StatFuncError {
    /// The diagnostic text of this error, as a sequence of characters.
    pub open spec fn message_spec(self) -> Seq<char> {
        match self {
            StatFuncError::InvalidBetaParameters => "Invalid parameters for beta function (alpha and beta must be >0"@,
            StatFuncError::InvalidProbability => "Invalid probability parameter (must be between 0 and 1"@,
            StatFuncError::InvalidStudentsTParameter => "Invalid degrees of freedom parameter for Students-t distribution (must be > 0)"@,
            StatFuncError::NonConvergence => "Numerical non-convergence in incomplete beta function iteration"@,
        }
    }

    /// The diagnostic text of this error.
    pub fn message(&self) -> (r: &'static str)
        ensures
            r@ == self.message_spec(),
    {
        match self {
            StatFuncError::InvalidBetaParameters => "Invalid parameters for beta function (alpha and beta must be >0",
            StatFuncError::InvalidProbability => "Invalid probability parameter (must be between 0 and 1",
            StatFuncError::InvalidStudentsTParameter => "Invalid degrees of freedom parameter for Students-t distribution (must be > 0)",
            StatFuncError::NonConvergence => "Numerical non-convergence in incomplete beta function iteration",
        }
    }
}

} // verus!
