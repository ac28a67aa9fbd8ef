//! How long a request of a given priority is expected to queue.

use std::collections::HashMap;
use vstd::prelude::*;

verus! {

/// The nearest priority at or below a priority that an estimate is known for.
pub open spec fn is_nearest_priority(
    estimates: Map<u32, u64>,
    priority: u32,
    nearest: u32,
) -> bool {
    &&& estimates.contains_key(nearest)
    &&& nearest <= priority
    &&& forall|other: u32| #[trigger]
        estimates.contains_key(other) && other <= priority ==> other <= nearest
}

/// Whether an estimate is known for a priority or for one below it.
pub open spec fn covers_priority(estimates: Map<u32, u64>, priority: u32) -> bool {
    exists|known: u32| #[trigger] estimates.contains_key(known) && known <= priority
}

/// The estimate for the nearest priority at or below a priority, if there is one.
pub fn priority_map_estimate_ms_for_priority(estimates: &HashMap<u32, u64>, priority: u32) -> (
    estimate: Option<u64>)
    ensures
        estimate is Some <==> covers_priority(estimates@, priority),
        estimate matches Some(queue_ms) ==> exists|nearest: u32| #[trigger]
            is_nearest_priority(estimates@, priority, nearest) && queue_ms == estimates@[nearest],
{
    broadcast use vstd::std_specs::hash::group_hash_axioms;

    let mut best: Option<u32> = None;
    for known in walk: estimates.keys()
        invariant
            walk.seq().unref().to_set() == estimates@.dom(),
            best is None <==> forall|i: int|
                0 <= i < walk.index() ==> *(#[trigger] walk.seq()[i]) > priority,
            best matches Some(nearest) ==> {
                &&& estimates@.contains_key(nearest)
                &&& nearest <= priority
                &&& forall|i: int|
                    0 <= i < walk.index() && *(#[trigger] walk.seq()[i]) <= priority
                        ==> *walk.seq()[i] <= nearest
            },
    {
        assert(walk.seq()[walk.index()] == known);
        assert(walk.seq().unref()[walk.index()] == *known);
        assert(walk.seq().unref().contains(*known));
        assert(estimates@.contains_key(*known));
        if *known <= priority {
            best = match best {
                Some(nearest) => if *known > nearest {
                    Some(*known)
                } else {
                    Some(nearest)
                },
                None => Some(*known),
            };
        }
    }
    match best {
        Some(nearest) => {
            assert(is_nearest_priority(estimates@, priority, nearest));
            match estimates.get(&nearest) {
                Some(queue_ms) => Some(*queue_ms),
                None => None,
            }
        },
        None => None,
    }
}

/// The time that a request of a priority is expected to queue: the estimate for the nearest
/// priority at or below it, none at all where only requests below it queue, and the estimate over
/// all requests where there are none by priority.
pub fn queue_time_estimate_ms_for_priority(
    estimates: &HashMap<u32, u64>,
    aggregate_ms: Option<u64>,
    priority: u32,
) -> (estimate: Option<u64>)
    ensures
        estimates@.len() == 0 ==> estimate == aggregate_ms,
        estimates@.len() > 0 && !covers_priority(estimates@, priority) ==> estimate == Some(0u64),
        estimates@.len() > 0 && covers_priority(estimates@, priority) ==> exists|nearest: u32|
            #[trigger] is_nearest_priority(estimates@, priority, nearest) && estimate == Some(
                estimates@[nearest],
            ),
{
    broadcast use vstd::std_specs::hash::group_hash_axioms;

    if estimates.len() > 0 {
        match priority_map_estimate_ms_for_priority(estimates, priority) {
            Some(queue_ms) => Some(queue_ms),
            None => Some(0),
        }
    } else {
        aggregate_ms
    }
}

/// There is one nearest priority at most.
pub proof fn nearest_priority_is_unique(
    estimates: Map<u32, u64>,
    priority: u32,
    one: u32,
    other: u32,
)
    requires
        is_nearest_priority(estimates, priority, one),
        is_nearest_priority(estimates, priority, other),
    ensures
        one == other,
{
}

/// The estimate is that of the request's own priority where there is one, else of the highest below
/// it; nothing queues where only higher priorities are known, and without any the aggregate stands.
pub proof fn the_estimate_is_of_the_nearest_priority(
    estimates: HashMap<u32, u64>,
    aggregate_ms: Option<u64>,
    priority: u32,
    known: u32,
    estimate: Option<u64>,
    from_map: Option<u64>,
)
    requires
        call_ensures(
            queue_time_estimate_ms_for_priority,
            (&estimates, aggregate_ms, priority),
            estimate,
        ),
        call_ensures(priority_map_estimate_ms_for_priority, (&estimates, priority), from_map),
    ensures
        estimates@.len() == 0 ==> estimate == aggregate_ms,
        estimates@.len() > 0 ==> estimate == match from_map {
            Some(queue_ms) => Some(queue_ms),
            None => Some(0u64),
        },
        estimates@.contains_key(priority) ==> from_map == Some(estimates@[priority]),
        estimates@.contains_key(known) && known <= priority && (forall|other: u32|
            known < other <= priority ==> !(#[trigger] estimates@.contains_key(other)))
            ==> from_map == Some(estimates@[known]),
        (forall|other: u32| other <= priority ==> !(#[trigger] estimates@.contains_key(other)))
            ==> from_map is None,
{
    if from_map is Some {
        let nearest = choose|nearest: u32|
            #[trigger] is_nearest_priority(estimates@, priority, nearest) && from_map->0
                == estimates@[nearest];
        assert(estimates@.contains_key(nearest));
    }
    if estimates@.len() > 0 && covers_priority(estimates@, priority) {
        let one = choose|nearest: u32|
            #[trigger] is_nearest_priority(estimates@, priority, nearest) && from_map->0
                == estimates@[nearest];
        let other = choose|nearest: u32|
            #[trigger] is_nearest_priority(estimates@, priority, nearest) && estimate == Some(
                estimates@[nearest],
            );
        nearest_priority_is_unique(estimates@, priority, one, other);
    }
}

} // verus!
