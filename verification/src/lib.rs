//! Discrete control logic for a small library of statistical special
//! functions: the regularized incomplete beta function ratio (algorithm
//! AS 63, Soper's reduction), the standard normal CDF (a three-region
//! rational approximation), and the Student's-t layer built on them.
//!
//! The floating-point evaluation itself lives outside this crate: the
//! verifier does not model IEEE-754 arithmetic. What is verified here is
//! everything the algorithms decide rather than compute: parameter
//! validation, the entry plan of the incomplete beta ratio (rejection,
//! boundary shortcut, tail selection), the three-regime countdown that
//! drives Soper's reduction, and the dispatch tables of the normal CDF
//! (infinite limits, region ladder, tail swapping). A numerical driver
//! computes floating-point predicates, hands them to these functions as
//! plain values, and obeys the returned decisions.

pub mod domain;
pub mod error;
pub mod pnorm;
pub mod soper;
pub mod students_t;
