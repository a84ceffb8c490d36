//! The seeded generator that the draw uses. Its view is the seed it was
//! made with and the bound of each draw made so far; only the functions of
//! this module make one or change it.

use rand::rngs::StdRng;
use rand::seq::IteratorRandom;
use rand::SeedableRng;
use vstd::prelude::*;

verus! {

#[verifier::external_type_specification]
#[verifier::external_body]
pub struct ExStdRng(rand::rngs::StdRng);

/// The index below the last bound of `bounds` that a `StdRng` seeded with
/// `seed` draws after one draw for each earlier bound. rand documents the
/// generator as deterministic; with its version fixed by the lock file the
/// draw depends on the seed and the bounds alone.
pub uninterp spec fn drawn_index(seed: u64, bounds: Seq<usize>) -> usize;

/// A seeded generator and the draws made from it.
pub struct Draws {
    rng: StdRng,
    seed: Ghost<u64>,
    bounds: Ghost<Seq<usize>>,
}

impl View for Draws {
    type V = (u64, Seq<usize>);

    closed spec fn view(&self) -> (u64, Seq<usize>) {
        (self.seed@, self.bounds@)
    }
}

/// Relies on rand's `SeedableRng::seed_from_u64` for `StdRng`: a generator
/// whose whole output is set by the seed.
#[verifier::external_body]
pub fn seeded(seed: u64) -> (r: Draws)
    ensures
        r@ == (seed, Seq::<usize>::empty()),
{
    Draws { rng: StdRng::seed_from_u64(seed), seed: Ghost(seed), bounds: Ghost(Seq::empty()) }
}

/// Relies on rand's `IteratorRandom::choose_multiple`: asked for one item of
/// the range `0..n`, with `n > 0`, it returns a vector holding one item of
/// that range, drawn uniformly.
#[verifier::external_body]
pub fn draw_index(g: &mut Draws, n: usize) -> (r: usize)
    requires
        n > 0,
    ensures
        r < n,
        r == drawn_index(old(g)@.0, old(g)@.1.push(n)),
        final(g)@ == (old(g)@.0, old(g)@.1.push(n)),
{
    g.bounds = Ghost(g.bounds@.push(n));
    (0..n).choose_multiple(&mut g.rng, 1)[0]
}

} // verus!
