use vstd::prelude::*;

verus! {

/// Which formula the normal CDF uses for an argument, read off the IEEE
/// predicates of the argument before any arithmetic.
#[derive(Clone, Copy, Debug, PartialEq, Eq, Structural)]
pub enum NormDispatch {
    /// The argument is NaN: it is returned unchanged.
    PropagateNan,
    /// The argument is infinite and the requested tail has no mass there:
    /// the result is exactly `0`.
    ZeroLimit,
    /// The argument is infinite and the requested tail has all the mass
    /// there: the result is exactly `1`.
    OneLimit,
    /// The argument is finite: evaluate the rational approximation.
    Finite,
}

/// The fixed dispatch table of the normal CDF. An infinite argument is
/// keyed on its sign and the requested tail: the lower tail at `-inf` and
/// the upper tail at `+inf` hold no mass, the other two hold all of it.
pub open spec fn dispatch_spec(
    is_nan: bool,
    is_infinite: bool,
    negative: bool,
    lower_tail: bool,
) -> NormDispatch {
    if is_infinite {
        if negative == lower_tail {
            NormDispatch::ZeroLimit
        } else {
            NormDispatch::OneLimit
        }
    } else if is_nan {
        NormDispatch::PropagateNan
    } else {
        NormDispatch::Finite
    }
}

/// Decides which formula the normal CDF uses: the infinite-limit table, a
/// NaN passthrough, or the finite three-region approximation.
pub fn classify_dispatch(is_nan: bool, is_infinite: bool, negative: bool, lower_tail: bool) -> (r:
    NormDispatch)
    ensures
        r == dispatch_spec(is_nan, is_infinite, negative, lower_tail),
{
    if is_infinite {
        if negative == lower_tail {
            NormDispatch::ZeroLimit
        } else {
            NormDispatch::OneLimit
        }
    } else if is_nan {
        NormDispatch::PropagateNan
    } else {
        NormDispatch::Finite
    }
}

/// The region of the three-part rational approximation for a finite
/// argument, keyed on `y = |x|`.
#[derive(Clone, Copy, Debug, PartialEq, Eq, Structural)]
pub enum NormRegion {
    /// `y` is below half a machine epsilon: the central polynomial would
    /// evaluate on a value indistinguishable from zero, so its
    /// accumulation short-circuits to `(0, 0)` before the final division.
    CentralTiny,
    /// `y <= 0.67448975`: the central rational polynomial in `x^2`,
    /// giving `0.5 +- x * (num / den)`.
    Central,
    /// `0.67448975 < y <= sqrt(32)`: the middle rational polynomial in `y`
    /// with the cancellation-avoidance split of `exp(-x^2 / 2)`.
    Middle,
    /// `y > sqrt(32)` but still inside the exponent range of the
    /// asymptotic expansion: the tail polynomial in `1 / x^2`, with the
    /// same split.
    Tail,
    /// Beyond even the asymptotic range: the tail probability underflows
    /// to exactly `0`, and only the tail swap is applied.
    Underflow,
}

/// The region ladder for a finite argument. Each flag carries one
/// comparison on `y = |x|` (or, for `in_expansion_range`, on `x` and the
/// requested tail), tested in the order of the ladder.
pub open spec fn region_spec(
    below_eps: bool,
    central: bool,
    middle: bool,
    in_expansion_range: bool,
) -> NormRegion {
    if central {
        if below_eps {
            NormRegion::CentralTiny
        } else {
            NormRegion::Central
        }
    } else if middle {
        NormRegion::Middle
    } else if in_expansion_range {
        NormRegion::Tail
    } else {
        NormRegion::Underflow
    }
}

/// Decides which region of the rational approximation a finite argument
/// falls in. The flags are the caller's comparisons: `below_eps` is
/// `y <= EPSILON / 2`, `central` is `y <= 0.67448975`, `middle` is
/// `y <= sqrt(32)`, and `in_expansion_range` says the argument is inside
/// the exponent range of the asymptotic expansion for the requested tail.
pub fn classify_region(below_eps: bool, central: bool, middle: bool, in_expansion_range: bool) -> (
    r: NormRegion)
    ensures
        r == region_spec(below_eps, central, middle, in_expansion_range),
{
    if central {
        if below_eps {
            NormRegion::CentralTiny
        } else {
            NormRegion::Central
        }
    } else if middle {
        NormRegion::Middle
    } else if in_expansion_range {
        NormRegion::Tail
    } else {
        NormRegion::Underflow
    }
}

/// Whether the tail swap turns the computed tail magnitude `p` into
/// `1 - p`: the middle and tail regions compute the mass of the far tail
/// on the side of `|x|`, which is the requested quadrant exactly when the
/// argument's sign and the requested tail point the same way.
pub open spec fn swap_tail_complements(x_negative: bool, lower_tail: bool) -> bool {
    x_negative != lower_tail
}

/// Decides the tail swap: the computed magnitude is returned as is for a
/// negative argument with the lower tail and for a positive argument with
/// the upper tail, and complemented as `1 - p` in the other two quadrants.
pub fn tail_complements(x_negative: bool, lower_tail: bool) -> (r: bool)
    ensures
        r == swap_tail_complements(x_negative, lower_tail),
{
    x_negative != lower_tail
}

/// Negating the argument while swapping the requested tail lands in the
/// same quadrant of the swap table. Together with the regions being keyed
/// on `|x|` alone, this is the discrete half of the symmetry
/// `pnorm(-z, lower) == pnorm(z, upper)`; the floating-point half is that
/// the central polynomial is odd in its argument.
pub proof fn lemma_tail_swap_symmetry(x_negative: bool, lower_tail: bool)
    ensures
        swap_tail_complements(x_negative, lower_tail) == swap_tail_complements(
            !x_negative,
            !lower_tail,
        ),
{
}

/// The infinite limits obey the same symmetry: the dispatch for an
/// infinite argument equals the dispatch for its negation with the
/// opposite tail.
pub proof fn lemma_infinite_limit_symmetry(negative: bool, lower_tail: bool)
    ensures
        dispatch_spec(false, true, negative, lower_tail) == dispatch_spec(
            false,
            true,
            !negative,
            !lower_tail,
        ),
{
}

/// At an infinite argument the two tails complement each other exactly:
/// one limit is `0` precisely where the other is `1`.
pub proof fn lemma_infinite_limits_complement(negative: bool, lower_tail: bool)
    ensures
        dispatch_spec(false, true, negative, lower_tail) == NormDispatch::ZeroLimit <==>
            dispatch_spec(false, true, negative, !lower_tail) == NormDispatch::OneLimit,
{
}

} // verus!
