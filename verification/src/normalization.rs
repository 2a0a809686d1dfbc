//! The repetitions of a risk normalisation. Each repetition searches the safe
//! fraction (see `search`), then simulates a fixed number of equity paths at
//! that fraction and takes the CAR25 of their returns (see `percentile`). This
//! module keeps what the repetitions have produced so far; the simulations,
//! which compute on real numbers, are the caller's.
use vstd::prelude::*;
use crate::percentile::car25_position;
use crate::percentile::select_car25;
use crate::error::RiskNormalizationError;

verus! {

/// The progress of one risk normalisation.
pub struct NormalizationRun<T> {
    repetitions: usize,
    paths: usize,
    safe_fractions: Vec<T>,
    car25s: Vec<T>,
}

impl<T> NormalizationRun<T> {
    /// What every run keeps: one CAR25 per safe fraction, and no more
    /// repetitions done than asked for.
    #[verifier::type_invariant]
    spec fn inv(self) -> bool {
        &&& self.safe_fractions@.len() == self.car25s@.len()
        &&& self.safe_fractions@.len() <= self.repetitions
    }

    /// How many repetitions the normalisation runs.
    pub closed spec fn repetitions(self) -> nat {
        self.repetitions as nat
    }

    /// How many equity paths each repetition simulates.
    pub closed spec fn paths_per_repetition(self) -> nat {
        self.paths as nat
    }

    /// The safe fraction found by each repetition done so far, in order.
    pub closed spec fn safe_fractions(self) -> Seq<T> {
        self.safe_fractions@
    }

    /// The CAR25 of each repetition done so far, in order.
    pub closed spec fn car25s(self) -> Seq<T> {
        self.car25s@
    }

    /// How many repetitions are done.
    pub open spec fn done(self) -> nat {
        self.safe_fractions().len()
    }

    /// Whether a repetition is still to run.
    pub open spec fn pending(self) -> bool {
        self.done() < self.repetitions()
    }
}

impl<T: Copy> NormalizationRun<T> {
    /// Starts a normalisation of `repetitions` repetitions, each simulating
    /// `paths` equity paths at the fraction that it finds.
    pub fn new(repetitions: usize, paths: usize) -> (r: Self)
        ensures
            r.repetitions() == repetitions,
            r.paths_per_repetition() == paths,
            r.safe_fractions() == Seq::<T>::empty(),
            r.car25s() == Seq::<T>::empty(),
    {
        NormalizationRun {
            repetitions,
            paths,
            safe_fractions: Vec::new(),
            car25s: Vec::new(),
        }
    }

    /// The index (from zero) of the next repetition.
    pub fn next_repetition(&self) -> (i: usize)
        ensures
            i == self.done(),
            i <= self.repetitions(),
    {
        proof {
            use_type_invariant(self);
        }
        self.safe_fractions.len()
    }

    /// Whether a repetition is still to run.
    pub fn has_pending(&self) -> (b: bool)
        ensures
            b == self.pending(),
    {
        self.safe_fractions.len() < self.repetitions
    }

    /// How many equity paths each repetition simulates.
    pub fn paths(&self) -> (n: usize)
        ensures
            n == self.paths_per_repetition(),
    {
        self.paths
    }

    /// Ends the next repetition: `fraction` is the safe fraction that its search
    /// found and `sorted_returns` the returns of its equity paths, sorted in
    /// ascending order. Records the fraction and the CAR25 of the returns; with
    /// no return (no path per repetition) it fails, naming the repetition, and
    /// records nothing.
    pub fn finish_repetition(&mut self, fraction: T, sorted_returns: &Vec<T>) -> (r: Result<
        (),
        RiskNormalizationError,
    >)
        requires
            old(self).pending(),
            sorted_returns@.len() == old(self).paths_per_repetition(),
        ensures
            final(self).repetitions() == old(self).repetitions(),
            final(self).paths_per_repetition() == old(self).paths_per_repetition(),
            (r is Ok) == (old(self).paths_per_repetition() > 0),
            r is Ok ==> final(self).safe_fractions() == old(self).safe_fractions().push(fraction),
            r is Ok ==> final(self).car25s() == old(self).car25s().push(
                sorted_returns@[car25_position(sorted_returns@.len()) as int],
            ),
            r is Err ==> r->Err_0 == (RiskNormalizationError::Car25Unavailable {
                repetition: old(self).done() as usize,
            }),
            r is Err ==> *final(self) == *old(self),
    {
        proof {
            use_type_invariant(&*self);
        }
        let rep = self.safe_fractions.len();
        let car25 = select_car25(sorted_returns, rep);
        match car25 {
            Ok(c) => {
                let mut taken = NormalizationRun {
                    repetitions: self.repetitions,
                    paths: self.paths,
                    safe_fractions: Vec::new(),
                    car25s: Vec::new(),
                };
                std::mem::swap(self, &mut taken);
                let NormalizationRun { repetitions, paths, mut safe_fractions, mut car25s } = taken;
                safe_fractions.push(fraction);
                car25s.push(c);
                *self = NormalizationRun { repetitions, paths, safe_fractions, car25s };
                Ok(())
            },
            Err(e) => Err(e),
        }
    }

    /// The safe fractions and the CAR25s of all repetitions, in order, once
    /// every repetition is done.
    pub fn into_results(self) -> (r: (Vec<T>, Vec<T>))
        requires
            !self.pending(),
        ensures
            r.0@ == self.safe_fractions(),
            r.1@ == self.car25s(),
            r.0@.len() == self.repetitions(),
            r.1@.len() == self.repetitions(),
    {
        proof {
            use_type_invariant(&self);
        }
        (self.safe_fractions, self.car25s)
    }
}

} // verus!
