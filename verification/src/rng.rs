//! The game's source of chance.  Every draw from the generator goes through
//! one of the calls below; nothing is promised of what they return beyond
//! what holds of every outcome.
use vstd::prelude::*;
use rand::rngs::SmallRng;
use rand::Rng;
use rand::SeedableRng;
use rand::seq::SliceRandom;

verus! {

#[verifier::external_type_specification]
#[verifier::external_body]
pub struct ExSmallRng(SmallRng);

/// `SmallRng::seed_from_u64`: a generator seeded from `seed`.
#[verifier::external_body]
pub(crate) fn rng_from_seed(seed: u64) -> SmallRng {
    SmallRng::seed_from_u64(seed)
}

/// `Rng::gen_ratio(1, 2)`: a fair coin, `true` one time in two.  It draws
/// one 64-bit value and answers whether it lies below 2^63: the same draw
/// and answer as an even-odds `gen_bool`, or as asking whether a uniform
/// number of `[0, 1)` falls below one half.
#[verifier::external_body]
pub(crate) fn coin_below_half(rng: &mut SmallRng) -> bool {
    rng.gen_ratio(1, 2)
}

/// `Rng::gen::<bool>`: a fair coin; `true` is heads.
#[verifier::external_body]
pub(crate) fn flip_coin(rng: &mut SmallRng) -> bool {
    rng.gen::<bool>()
}

/// `Rng::gen_range(0..n)`: an index below `n` (the range must not be empty).
#[verifier::external_body]
pub(crate) fn random_index(rng: &mut SmallRng, n: usize) -> (r: usize)
    requires
        n > 0,
    ensures
        r < n,
{
    rng.gen_range(0..n)
}

/// `SliceRandom::shuffle`: permutes the cards in place.
#[verifier::external_body]
pub(crate) fn shuffle_cards(rng: &mut SmallRng, cards: &mut Vec<u16>)
    ensures
        final(cards)@.to_multiset() == old(cards)@.to_multiset(),
        final(cards)@.len() == old(cards)@.len(),
{
    cards.as_mut_slice().shuffle(rng)
}

}
