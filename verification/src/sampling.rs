//! Random selection of historical trades for one simulated equity path.
use vstd::prelude::*;
use rand::distributions::Distribution;
use rand::distributions::Uniform;
use rand::rngs::StdRng;

verus! {

#[verifier::external_type_specification]
#[verifier::external_body]
pub struct ExStdRng(StdRng);

/// Draws one position uniformly from `0..count` with `rand`'s
/// `Uniform::from(0..count)` and its `Distribution::sample`. `Uniform::from`
/// panics on an empty range, hence `count > 0`; for a range `low..high`,
/// `UniformInt::sample` returns `low + hi` with `hi < high - low`, so the
/// position is below `count`. Which position comes out depends on the state of
/// the generator and is not stated.
#[verifier::external_body]
fn sample_trade_index(rng: &mut StdRng, count: usize) -> (i: usize)
    requires
        count > 0,
    ensures
        i < count,
{
    Uniform::from(0..count).sample(rng)
}

/// Draws the trades of one simulated equity path: `path_len` positions in a list
/// of `trade_count` historical trades, each drawn uniformly and independently.
/// With no position to draw, the generator is left as it was.
pub fn draw_trade_indices(rng: &mut StdRng, trade_count: usize, path_len: usize) -> (picks: Vec<usize>)
    requires
        trade_count > 0,
    ensures
        picks@.len() == path_len,
        forall|k: int| 0 <= k < picks@.len() ==> #[trigger] picks@[k] < trade_count,
        path_len == 0 ==> *final(rng) == *old(rng),
{
    let mut picks: Vec<usize> = Vec::new();
    let mut n: usize = 0;
    while n < path_len
        invariant
            n <= path_len,
            trade_count > 0,
            picks@.len() == n,
            n == 0 ==> *rng == *old(rng),
            forall|k: int| 0 <= k < picks@.len() ==> #[trigger] picks@[k] < trade_count,
        decreases path_len - n,
    {
        let i = sample_trade_index(rng, trade_count);
        picks.push(i);
        n = n + 1;
    }
    picks
}

} // verus!
