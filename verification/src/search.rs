//! The bisection that searches the safe fraction of equity to risk per trade.
//!
//! One search keeps a lower and an upper bound. Each step tries the middle of
//! the two (the caller computes it), simulates the tail risk there and reports
//! how it compares with the target: within the desired accuracy stops the
//! search, above the target moves the upper bound down to the tried fraction,
//! anything else moves the lower bound up to it. A search takes at most
//! `MAX_SEARCH_STEPS` steps. The bounds are held as values of any copyable
//! type, so that the arithmetic on them stays with the caller.
use vstd::prelude::*;

verus! {

/// The most steps that one search takes.
pub const MAX_SEARCH_STEPS: u32 = 1000;

/// How the tail risk simulated at a tried fraction compares with the target.
#[derive(Clone, Copy, Debug, PartialEq, Eq, Structural)]
pub enum TailRiskOutcome {
    /// Closer to the target than the desired accuracy: the search stops.
    WithinTolerance,
    /// Above the target: the tried fraction is too large.
    AboveTarget,
    /// Neither of the two above: the tried fraction is too small.
    BelowTarget,
}

/// The state of one search for the safe fraction.
pub struct FractionSearch<T> {
    lower: T,
    upper: T,
    fraction: T,
    steps: u32,
    done: bool,
}

impl<T> FractionSearch<T> {
    #[verifier::type_invariant]
    spec fn inv(self) -> bool {
        self.steps <= MAX_SEARCH_STEPS
    }

    /// The lower bound of the search.
    pub closed spec fn lower_bound(self) -> T {
        self.lower
    }

    /// The upper bound of the search.
    pub closed spec fn upper_bound(self) -> T {
        self.upper
    }

    /// The fraction tried last (the starting value before any step).
    pub closed spec fn last_fraction(self) -> T {
        self.fraction
    }

    /// How many steps the search has taken.
    pub closed spec fn steps_taken(self) -> nat {
        self.steps as nat
    }

    /// Whether a tried fraction came within the desired accuracy.
    pub closed spec fn finished(self) -> bool {
        self.done
    }

    /// Whether the search takes another step.
    pub open spec fn running(self) -> bool {
        !self.finished() && self.steps_taken() < MAX_SEARCH_STEPS
    }

    /// The state after trying `fraction` with the given outcome.
    pub closed spec fn after(self, fraction: T, outcome: TailRiskOutcome) -> Self {
        FractionSearch {
            lower: if outcome is BelowTarget { fraction } else { self.lower },
            upper: if outcome is AboveTarget { fraction } else { self.upper },
            fraction: fraction,
            steps: (self.steps + 1) as u32,
            done: outcome is WithinTolerance,
        }
    }

    /// The state after the steps of `trials` that a search takes from `self`:
    /// each in turn while the search is running.
    pub open spec fn run(self, trials: Seq<(T, TailRiskOutcome)>) -> Self
        decreases trials.len(),
    {
        if trials.len() == 0 || !self.running() {
            self
        } else {
            self.after(trials[0].0, trials[0].1).run(trials.drop_first())
        }
    }

    /// How many of `trials` the search takes from `self` before it stops.
    pub open spec fn steps_used(self, trials: Seq<(T, TailRiskOutcome)>) -> nat
        decreases trials.len(),
    {
        if trials.len() == 0 || !self.running() {
            0
        } else {
            1 + self.after(trials[0].0, trials[0].1).steps_used(trials.drop_first())
        }
    }

}

impl<T: Copy> FractionSearch<T> {
    /// Starts a search between `lower` and `upper`; `start` is what the search
    /// reports as its fraction if it never takes a step.
    pub fn new(lower: T, upper: T, start: T) -> (s: Self)
        ensures
            s.lower_bound() == lower,
            s.upper_bound() == upper,
            s.last_fraction() == start,
            s.steps_taken() == 0,
            !s.finished(),
            s.running(),
    {
        FractionSearch { lower, upper, fraction: start, steps: 0, done: false }
    }

    /// Whether the search takes another step.
    pub fn is_running(&self) -> (r: bool)
        ensures
            r == self.running(),
    {
        !self.done && self.steps < MAX_SEARCH_STEPS
    }

    /// The lower bound.
    pub fn lower(&self) -> (r: T)
        ensures
            r == self.lower_bound(),
    {
        self.lower
    }

    /// The upper bound.
    pub fn upper(&self) -> (r: T)
        ensures
            r == self.upper_bound(),
    {
        self.upper
    }

    /// The fraction tried last: the result of the search once it stops.
    pub fn fraction(&self) -> (r: T)
        ensures
            r == self.last_fraction(),
    {
        self.fraction
    }

    /// How many steps the search has taken; never more than `MAX_SEARCH_STEPS`.
    pub fn steps(&self) -> (r: u32)
        ensures
            r == self.steps_taken(),
            r <= MAX_SEARCH_STEPS,
    {
        proof {
            use_type_invariant(self);
        }
        self.steps
    }

    /// Records one step: `fraction` was tried and its tail risk compared with
    /// the target as `outcome` says.
    pub fn record(&mut self, fraction: T, outcome: TailRiskOutcome)
        requires
            old(self).running(),
        ensures
            *final(self) == old(self).after(fraction, outcome),
            final(self).last_fraction() == fraction,
            final(self).steps_taken() == old(self).steps_taken() + 1,
            final(self).finished() == (outcome == TailRiskOutcome::WithinTolerance),
            final(self).upper_bound() == (if outcome == TailRiskOutcome::AboveTarget {
                fraction
            } else {
                old(self).upper_bound()
            }),
            final(self).lower_bound() == (if outcome == TailRiskOutcome::BelowTarget {
                fraction
            } else {
                old(self).lower_bound()
            }),
    {
        proof {
            use_type_invariant(&*self);
        }
        match outcome {
            TailRiskOutcome::WithinTolerance => {
                self.done = true;
            },
            TailRiskOutcome::AboveTarget => {
                self.upper = fraction;
            },
            TailRiskOutcome::BelowTarget => {
                self.lower = fraction;
            },
        }
        self.fraction = fraction;
        self.steps = self.steps + 1;
    }
}

/// A search stops: from any state, it takes at most the steps that are left
/// of `MAX_SEARCH_STEPS`, counts each one, and if it leaves trials unused it is
/// no longer running.
pub proof fn lemma_search_stops<T>(s: FractionSearch<T>, trials: Seq<(T, TailRiskOutcome)>)
    requires
        s.steps_taken() <= MAX_SEARCH_STEPS,
    ensures
        s.steps_used(trials) <= MAX_SEARCH_STEPS - s.steps_taken(),
        s.steps_used(trials) <= trials.len(),
        s.run(trials).steps_taken() == s.steps_taken() + s.steps_used(trials),
        s.steps_used(trials) < trials.len() ==> !s.run(trials).running(),
    decreases trials.len(),
{
    if trials.len() == 0 || !s.running() {
    } else {
        let next = s.after(trials[0].0, trials[0].1);
        lemma_search_stops(next, trials.drop_first());
    }
}

/// The bounds of a search, and the fraction it reports, are always either
/// where it started or fractions that it tried.
pub proof fn lemma_bounds_are_tried_fractions<T>(
    s: FractionSearch<T>,
    trials: Seq<(T, TailRiskOutcome)>,
)
    ensures
        s.run(trials).lower_bound() == s.lower_bound() || exists|k: int|
            0 <= k < trials.len() && #[trigger] trials[k].0 == s.run(trials).lower_bound(),
        s.run(trials).upper_bound() == s.upper_bound() || exists|k: int|
            0 <= k < trials.len() && #[trigger] trials[k].0 == s.run(trials).upper_bound(),
        s.run(trials).last_fraction() == s.last_fraction() || exists|k: int|
            0 <= k < trials.len() && #[trigger] trials[k].0 == s.run(trials).last_fraction(),
    decreases trials.len(),
{
    if trials.len() == 0 || !s.running() {
    } else {
        let next = s.after(trials[0].0, trials[0].1);
        let rest = trials.drop_first();
        lemma_bounds_are_tried_fractions(next, rest);
        let end = s.run(trials);
        assert(end == next.run(rest));
        assert(trials[0].0 == next.lower_bound() || next.lower_bound() == s.lower_bound());
        if end.lower_bound() != next.lower_bound() {
            let k = choose|k: int| 0 <= k < rest.len() && #[trigger] rest[k].0 == end.lower_bound();
            assert(trials[k + 1].0 == end.lower_bound());
        }
        if end.upper_bound() != next.upper_bound() {
            let k = choose|k: int| 0 <= k < rest.len() && #[trigger] rest[k].0 == end.upper_bound();
            assert(trials[k + 1].0 == end.upper_bound());
        }
        if end.last_fraction() != next.last_fraction() {
            let k = choose|k: int| 0 <= k < rest.len() && #[trigger] rest[k].0 == end.last_fraction();
            assert(trials[k + 1].0 == end.last_fraction());
        }
        assert(trials[0].0 == next.last_fraction());
    }
}

} // verus!
