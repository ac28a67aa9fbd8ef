//! The arithmetic on scores that a caller supplies.

use super::score::Score;
use vstd::prelude::*;

verus! {

/// Calculations with scores, in milliseconds. `exceeds(from, to, limit)` says whether `to - from`
/// is more than `limit`. `unlock(waited, from, to, factor)` gives what is left of `waited` when
/// `factor * (to - from)` is taken from it, or `None` where that is more than there is.
/// `queue_limit(floor, ceil)` gives the longest queue time that a request accepts between two
/// bounds.
pub struct Measures<E, U, L> {
    pub exceeds: E,
    pub unlock: U,
    pub queue_limit: L,
}

impl<
    E: Fn(Score, Score, u64) -> bool,
    U: Fn(Score, Score, Score, Score) -> Option<Score>,
    L: Fn(u64, u64) -> Score,
> Measures<E, U, L> {
    /// Every calculation can be asked for on all numbers.
    pub open spec fn total(&self) -> bool {
        &&& forall|from: Score, to: Score, limit: u64|
            #[trigger] call_requires(self.exceeds, (from, to, limit))
        &&& forall|waited: Score, from: Score, to: Score, factor: Score|
            #[trigger] call_requires(self.unlock, (waited, from, to, factor))
        &&& forall|floor: u64, ceil: u64| #[trigger] call_requires(self.queue_limit, (floor, ceil))
    }

    /// Whether `answer` is an answer to the question whether `to - from` is more than `limit`.
    pub open spec fn says_exceeds(&self, from: Score, to: Score, limit: u64, answer: bool) -> bool {
        call_ensures(self.exceeds, (from, to, limit), answer)
    }

    /// Whether `left` is what is left of `waited`.
    pub open spec fn says_unlock(
        &self,
        waited: Score,
        from: Score,
        to: Score,
        factor: Score,
        left: Option<Score>,
    ) -> bool {
        call_ensures(self.unlock, (waited, from, to, factor), left)
    }

    /// Whether `limit` is the longest queue time between two bounds.
    pub open spec fn says_queue_limit(&self, floor: u64, ceil: u64, limit: Score) -> bool {
        call_ensures(self.queue_limit, (floor, ceil), limit)
    }

    /// Whether `to - from` is more than `limit`.
    pub fn gap_exceeds(&self, from: Score, to: Score, limit: u64) -> (answer: bool)
        requires
            self.total(),
        ensures
            self.says_exceeds(from, to, limit, answer),
    {
        (self.exceeds)(from, to, limit)
    }

    /// What is left of `waited` once the gap is paid for.
    pub fn pay_for_gap(&self, waited: Score, from: Score, to: Score, factor: Score) -> (left:
        Option<Score>)
        requires
            self.total(),
        ensures
            self.says_unlock(waited, from, to, factor, left),
    {
        (self.unlock)(waited, from, to, factor)
    }

    /// The longest queue time between two bounds.
    pub fn longest_queue(&self, floor: u64, ceil: u64) -> (limit: Score)
        requires
            self.total(),
        ensures
            self.says_queue_limit(floor, ceil, limit),
    {
        (self.queue_limit)(floor, ceil)
    }
}

} // verus!
