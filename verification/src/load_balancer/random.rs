//! Random draws.

use rand::rngs::StdRng;
use rand::seq::IteratorRandom;
use rand::{Rng, SeedableRng};
use vstd::prelude::*;

verus! {

#[verifier::external_type_specification]
#[verifier::external_body]
pub struct ExStdRng(StdRng);

/// A generator seeded from the thread's generator, with `rand::SeedableRng::from_rng` on
/// `rand::rng()`. Nothing is known of what it will draw.
#[verifier::external_body]
pub(crate) fn new_rng() -> (rng: StdRng) {
    StdRng::from_rng(&mut rand::rng())
}

/// Draws a number from `low` up to, but not including, `high`, with `rand::Rng::random_range`,
/// which panics on an empty range.
#[verifier::external_body]
pub(crate) fn random_index(rng: &mut StdRng, low: usize, high: usize) -> (drawn: usize)
    requires
        low < high,
    ensures
        low <= drawn < high,
{
    rng.random_range(low..high)
}

/// Draws `true` in `numerator` of `denominator` cases, with `rand::Rng::random_ratio`, which
/// panics unless the ratio lies between 0 and 1.
#[verifier::external_body]
pub(crate) fn random_ratio(rng: &mut StdRng, numerator: u32, denominator: u32) -> (drawn: bool)
    requires
        0 < denominator,
        numerator <= denominator,
    ensures
        numerator == denominator ==> drawn,
        numerator == 0 ==> !drawn,
{
    rng.random_ratio(numerator, denominator)
}

/// How many a sample has: as many as are asked for, at most all that there are.
pub open spec fn sample_size(amount: int, available: int) -> int {
    if amount <= available {
        amount
    } else {
        available
    }
}

/// Whether `sample` takes `amount` of `items`, or all of them where there are not so many, and
/// none of them twice.
pub open spec fn is_sample(items: Seq<usize>, amount: int, sample: Seq<usize>) -> bool {
    &&& sample.len() == sample_size(amount, items.len() as int)
    &&& sample.no_duplicates()
    &&& forall|i: int| 0 <= i < sample.len() ==> items.contains(#[trigger] sample[i])
}

/// Draws `amount` of `items`, or all of them where there are not so many, with
/// `rand::seq::IteratorRandom::choose_multiple_fill`: it puts distinct elements of the iterator
/// into the buffer and returns how many there are.
#[verifier::external_body]
pub(crate) fn random_sample(rng: &mut StdRng, items: &Vec<usize>, amount: usize) -> (sample: Vec<
    usize,
>)
    requires
        items@.no_duplicates(),
    ensures
        is_sample(items@, amount as int, sample@),
{
    let mut sample = vec![0; amount];
    let filled = items.iter().copied().choose_multiple_fill(rng, &mut sample);
    sample.truncate(filled);
    sample
}

} // verus!
