//! Verified building blocks of a Monte-Carlo risk normalisation: the random
//! choice of trades for each simulated equity path, the bisection that searches
//! the safe fraction, and the choice of the CAR25 entry among simulated returns.
pub mod sampling;
pub mod search;
pub mod percentile;
pub mod normalization;
pub mod error;
