use vstd::prelude::*;

verus! {

/// How many series steps the driver may take before giving up and
/// reporting non-convergence. The reduction itself has no step bound; this
/// ceiling is a defensive policy, generous enough that every convergent
/// input is unaffected by it.
pub const SOPER_STEP_LIMIT: u64 = 1000000;

/// The regime of one step of Soper's reduction for the incomplete beta
/// ratio, read off the integer countdown `ns`. The countdown starts at
/// `floor(qq + cx * (p + q))` and falls by one each step.
#[derive(Clone, Copy, Debug, PartialEq, Eq, Structural)]
pub enum SoperRegime {
    /// `ns` is still positive: the next term factor is `qq - ai` and the
    /// ratio stays `xx / cx`.
    Descending,
    /// `ns` has just reached zero: the next term factor is still
    /// `qq - ai`, and from here on the ratio is plain `xx`.
    Pivot,
    /// `ns` has gone negative: the next term factor is the shifted `psq`,
    /// which then grows by one each further step.
    Shifted,
}

/// The regime that belongs to a countdown value.
pub open spec fn regime_of(ns: int) -> SoperRegime {
    if ns >= 1 {
        SoperRegime::Descending
    } else if ns == 0 {
        SoperRegime::Pivot
    } else {
        SoperRegime::Shifted
    }
}

/// The control state of Soper's reduction: the countdown and the step
/// count. The driver performs the floating-point term updates; this state
/// machine decides, step by step, which recurrence the update follows.
pub struct SoperControl {
    start: i64,
    steps: u64,
}

impl SoperControl {
    /// The countdown value the machine started from.
    pub closed spec fn start_index(self) -> int {
        self.start as int
    }

    /// How many steps have been taken.
    pub closed spec fn steps_taken(self) -> int {
        self.steps as int
    }

    /// The current countdown value.
    pub open spec fn countdown(self) -> int {
        self.start_index() - self.steps_taken()
    }

    /// Well-formedness: the countdown began at or above zero (it is the
    /// floor of a positive quantity) and the step count is within the
    /// ceiling.
    pub open spec fn wf(self) -> bool {
        0 <= self.start_index() && self.steps_taken() <= SOPER_STEP_LIMIT
    }

    /// Whether the term ratio has switched from `xx / cx` to plain `xx`:
    /// it does so the moment the countdown is no longer positive.
    pub open spec fn ratio_is_plain(self) -> bool {
        self.countdown() <= 0
    }

    /// How many `Shifted` steps have been taken, which is how often the
    /// driver has incremented its shifted recurrence parameter `psq`.
    pub open spec fn shift_count(self) -> int {
        if self.countdown() < 0 {
            -self.countdown()
        } else {
            0
        }
    }

    /// Starts the machine on the initial countdown `floor(qq + cx * (p + q))`,
    /// which is at or above zero because `qq`, `cx` and `p + q` are positive.
    pub fn new(start: i64) -> (r: SoperControl)
        requires
            0 <= start,
        ensures
            r.wf(),
            r.start_index() == start,
            r.steps_taken() == 0,
            r.ratio_is_plain() <==> start == 0,
            r.shift_count() == 0,
    {
        SoperControl { start, steps: 0 }
    }

    /// Whether the term ratio is currently the plain `xx`. On entry this
    /// settles the initial ratio: `xx` when the countdown starts at zero,
    /// `xx / cx` otherwise.
    pub fn ratio_plain(&self) -> (r: bool)
        requires
            self.wf(),
        ensures
            r == self.ratio_is_plain(),
    {
        self.start <= (self.steps as i64)
    }

    /// Whether the step ceiling has been reached; the driver then reports
    /// non-convergence instead of taking another step.
    pub fn exhausted(&self) -> (r: bool)
        ensures
            r == (self.steps_taken() >= SOPER_STEP_LIMIT),
    {
        self.steps >= SOPER_STEP_LIMIT
    }

    /// Takes one step: the countdown falls by one and the regime of the
    /// new countdown says which recurrence the driver's term update
    /// follows. The ratio switches to plain `xx` at the `Pivot` step and
    /// never switches back; each `Shifted` step increments the shift count.
    pub fn advance(&mut self) -> (r: SoperRegime)
        requires
            old(self).wf(),
            old(self).steps_taken() < SOPER_STEP_LIMIT,
        ensures
            final(self).wf(),
            final(self).start_index() == old(self).start_index(),
            final(self).steps_taken() == old(self).steps_taken() + 1,
            r == regime_of(final(self).countdown()),
            final(self).ratio_is_plain() <==> r != SoperRegime::Descending,
            old(self).ratio_is_plain() ==> r == SoperRegime::Shifted,
            r == SoperRegime::Shifted ==> final(self).shift_count() == old(self).shift_count() + 1,
            r != SoperRegime::Shifted ==> final(self).shift_count() == old(self).shift_count(),
    {
        self.steps = self.steps + 1;
        let down: i64 = self.start - (self.steps as i64);
        if down >= 1 {
            SoperRegime::Descending
        } else if down == 0 {
            SoperRegime::Pivot
        } else {
            SoperRegime::Shifted
        }
    }
}

/// Once the countdown has gone negative it never comes back: the shifted
/// recurrence, once entered, carries the series to convergence.
pub proof fn lemma_shifted_absorbing(ns: int)
    requires
        regime_of(ns) == SoperRegime::Shifted,
    ensures
        regime_of(ns - 1) == SoperRegime::Shifted,
{
}

/// The pivot happens at most once along a run: two steps of a run that
/// both pivot are the same step. (Step `k` of a run that starts at `start`
/// sees countdown `start - k`.)
pub proof fn lemma_pivot_unique(start: int, i: int, j: int)
    requires
        regime_of(start - i) == SoperRegime::Pivot,
        regime_of(start - j) == SoperRegime::Pivot,
    ensures
        i == j,
{
}

/// The three phases of a run in one statement: step `k` of a run that
/// starts at countdown `start` descends while `k < start`, pivots exactly
/// at `k == start`, and follows the shifted recurrence ever after. So the
/// ratio, once plain, stays plain.
pub proof fn lemma_regime_phases(start: int, k: int)
    ensures
        regime_of(start - k) == SoperRegime::Descending <==> k < start,
        regime_of(start - k) == SoperRegime::Pivot <==> k == start,
        regime_of(start - k) == SoperRegime::Shifted <==> k > start,
{
}

} // verus!
