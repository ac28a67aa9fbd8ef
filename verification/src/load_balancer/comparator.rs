//! Signals by which clusters are compared.

use super::request::RoutedClusterSnapshot;
use super::score::{
    count_bits, counts_keep_their_order, order_of, Order, Score, SIGNIFICAND_START,
};
use vstd::prelude::*;

verus! {

/// The signal by which sampled clusters are compared.
#[derive(Clone, Copy, Debug, PartialEq, Eq, Structural)]
pub enum ClusterComparator {
    /// Round trip, queue delay and prefill time together.
    EstimatedTtft,
    /// Queue delay.
    QueueTime,
    /// Queued and requested input tokens by input rate.
    InputWorkSeconds,
    /// Running queries by concurrency.
    Utilization,
    /// Requests in the queue.
    NumRequestsQueued,
}

impl Default for ClusterComparator {
    fn default() -> (comparator: Self)
        ensures
            comparator == ClusterComparator::EstimatedTtft,
    {
        ClusterComparator::EstimatedTtft
    }
}

/// A signal by which two clusters were compared, with the score of the one chosen and the parts
/// that make it up.
#[derive(Clone, Copy, Debug, PartialEq, Eq, Structural)]
pub struct ClusterComparatorTrace {
    pub comparator: ClusterComparator,
    pub score: Score,
    pub queue_ms: Option<Score>,
    pub prefill_ms: Option<Score>,
    pub rtt_ms: Option<Score>,
}

impl ClusterComparator {
    /// The name of the signal.
    pub open spec fn label(self) -> Seq<char> {
        match self {
            ClusterComparator::EstimatedTtft => "estimated-ttft"@,
            ClusterComparator::QueueTime => "queue-time"@,
            ClusterComparator::InputWorkSeconds => "input-work-seconds"@,
            ClusterComparator::Utilization => "utilization"@,
            ClusterComparator::NumRequestsQueued => "num-requests-queued"@,
        }
    }

    /// The name of the signal.
    pub fn as_str(self) -> (label: &'static str)
        ensures
            label@ == self.label(),
    {
        match self {
            ClusterComparator::EstimatedTtft => "estimated-ttft",
            ClusterComparator::QueueTime => "queue-time",
            ClusterComparator::InputWorkSeconds => "input-work-seconds",
            ClusterComparator::Utilization => "utilization",
            ClusterComparator::NumRequestsQueued => "num-requests-queued",
        }
    }

    /// The place of a cluster among others by this signal: a smaller number is preferred.
    pub open spec fn key(self, candidate: RoutedClusterSnapshot) -> int {
        match self {
            ClusterComparator::EstimatedTtft => candidate.scores.ttft_ms.rank(),
            ClusterComparator::QueueTime => candidate.scores.queue_ms.rank(),
            ClusterComparator::InputWorkSeconds => candidate.scores.input_work_seconds.rank(),
            ClusterComparator::Utilization => candidate.scores.utilization.rank(),
            ClusterComparator::NumRequestsQueued => candidate.stats.queue_size as int,
        }
    }

    /// How two clusters compare by this signal; the lesser is preferred.
    pub fn compare(self, a: &RoutedClusterSnapshot, b: &RoutedClusterSnapshot) -> (order: Order)
        ensures
            order == order_of(self.key(*a), self.key(*b)),
    {
        match self {
            ClusterComparator::EstimatedTtft => a.scores.ttft_ms.compare(b.scores.ttft_ms),
            ClusterComparator::QueueTime => a.scores.queue_ms.compare(b.scores.queue_ms),
            ClusterComparator::InputWorkSeconds => a.scores.input_work_seconds.compare(
                b.scores.input_work_seconds,
            ),
            ClusterComparator::Utilization => a.scores.utilization.compare(b.scores.utilization),
            ClusterComparator::NumRequestsQueued => {
                if a.stats.queue_size < b.stats.queue_size {
                    Order::Less
                } else if a.stats.queue_size == b.stats.queue_size {
                    Order::Equal
                } else {
                    Order::Greater
                }
            },
        }
    }

    /// The score of a cluster by this signal, with its parts where it has parts.
    pub open spec fn traced(self, candidate: RoutedClusterSnapshot) -> ClusterComparatorTrace {
        let scores = candidate.scores;
        ClusterComparatorTrace {
            comparator: self,
            score: match self {
                ClusterComparator::EstimatedTtft => scores.ttft_ms,
                ClusterComparator::QueueTime => scores.queue_ms,
                ClusterComparator::InputWorkSeconds => scores.input_work_seconds,
                ClusterComparator::Utilization => scores.utilization,
                ClusterComparator::NumRequestsQueued => Score {
                    bits: count_bits(candidate.stats.queue_size) as u64,
                },
            },
            queue_ms: if self is EstimatedTtft || self is QueueTime {
                Some(scores.queue_ms)
            } else {
                None
            },
            prefill_ms: if self is EstimatedTtft {
                Some(scores.prefill_ms)
            } else {
                None
            },
            rtt_ms: if self is EstimatedTtft {
                Some(scores.rtt_ms)
            } else {
                None
            },
        }
    }

    /// The score of a cluster by this signal, with its parts where it has parts.
    pub fn trace(self, candidate: &RoutedClusterSnapshot) -> (trace: ClusterComparatorTrace)
        ensures
            trace == self.traced(*candidate),
    {
        let scores = &candidate.scores;
        match self {
            ClusterComparator::EstimatedTtft => ClusterComparatorTrace {
                comparator: self,
                score: scores.ttft_ms,
                queue_ms: Some(scores.queue_ms),
                prefill_ms: Some(scores.prefill_ms),
                rtt_ms: Some(scores.rtt_ms),
            },
            ClusterComparator::QueueTime => ClusterComparatorTrace {
                comparator: self,
                score: scores.queue_ms,
                queue_ms: Some(scores.queue_ms),
                prefill_ms: None,
                rtt_ms: None,
            },
            ClusterComparator::InputWorkSeconds => ClusterComparatorTrace {
                comparator: self,
                score: scores.input_work_seconds,
                queue_ms: None,
                prefill_ms: None,
                rtt_ms: None,
            },
            ClusterComparator::Utilization => ClusterComparatorTrace {
                comparator: self,
                score: scores.utilization,
                queue_ms: None,
                prefill_ms: None,
                rtt_ms: None,
            },
            ClusterComparator::NumRequestsQueued => ClusterComparatorTrace {
                comparator: self,
                score: Score::of_count(candidate.stats.queue_size),
                queue_ms: None,
                prefill_ms: None,
                rtt_ms: None,
            },
        }
    }
}

/// Two clusters compare as the scores that are shown for them, as long as fewer than two to the
/// power of 53 requests are queued on them: beyond that, numbers of queued requests that differ may
/// show as one score.
pub proof fn comparing_is_comparing_scores(
    comparator: ClusterComparator,
    a: RoutedClusterSnapshot,
    b: RoutedClusterSnapshot,
)
    requires
        a.stats.queue_size < 2 * SIGNIFICAND_START,
        b.stats.queue_size < 2 * SIGNIFICAND_START,
    ensures
        order_of(comparator.key(a), comparator.key(b)) == order_of(
            comparator.traced(a).score.rank(),
            comparator.traced(b).score.rank(),
        ),
        order_of(comparator.key(a), comparator.key(a)) == Order::Equal,
{
    counts_keep_their_order(a.stats.queue_size, b.stats.queue_size);
}

/// A comparison is a total preorder: it can be read backwards, and carries over.
pub proof fn comparisons_are_consistent(
    comparator: ClusterComparator,
    a: RoutedClusterSnapshot,
    b: RoutedClusterSnapshot,
    c: RoutedClusterSnapshot,
)
    ensures
        ({
            let order = |x: RoutedClusterSnapshot, y: RoutedClusterSnapshot|
                order_of(comparator.key(x), comparator.key(y));
            &&& order(a, b) is Less <==> order(b, a) is Greater
            &&& order(a, b) is Equal <==> order(b, a) is Equal
            &&& !(order(a, b) is Greater) && !(order(b, c) is Greater) ==> !(order(a, c)
                is Greater)
        }),
{
}

} // verus!
