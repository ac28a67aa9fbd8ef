//! Scores by which clusters are compared.

use vstd::arithmetic::div_mod::lemma_fundamental_div_mod;
use vstd::arithmetic::power2::{lemma2_to64, lemma_pow2_pos, lemma_pow2_unfold, pow2};
use vstd::prelude::*;

verus! {

/// A double-precision number, given by its bits. The library orders such numbers and tells finite
/// ones from others; it does not calculate with them.
#[derive(Clone, Copy, Debug, PartialEq, Eq, Structural)]
pub struct Score {
    pub bits: u64,
}

/// The bit that marks negative numbers.
pub const SIGN_BIT: u64 = 0x8000_0000_0000_0000;

/// The bits of positive infinity. Numbers without sign that are not below it are not finite.
pub const INFINITY_BITS: u64 = 0x7ff0_0000_0000_0000;

/// Two to the power of 52: the significands of double-precision numbers lie between it and twice
/// it.
pub const SIGNIFICAND_START: u64 = 0x10_0000_0000_0000;

/// How two things compare.
#[derive(Clone, Copy, Debug, PartialEq, Eq, Structural)]
pub enum Order {
    Less,
    Equal,
    Greater,
}

/// How two numbers compare.
pub open spec fn order_of(a: int, b: int) -> Order {
    if a < b {
        Order::Less
    } else if a == b {
        Order::Equal
    } else {
        Order::Greater
    }
}

/// The bits of a significand, above 0 and below twice `SIGNIFICAND_START`, with a biased exponent:
/// it is doubled, and the exponent lowered, until the significand lies where significands lie.
pub open spec fn significand_bits(significand: int, exponent: int) -> int
    decreases 2 * SIGNIFICAND_START - significand,
{
    if significand <= 0 || significand >= SIGNIFICAND_START {
        (exponent - 1) * SIGNIFICAND_START + significand
    } else {
        significand_bits(2 * significand, exponent - 1)
    }
}

/// The bits of a count that is larger than significands are: it is divided by `divisor`, twice as
/// much each time as the exponent is raised, until what is left is a significand, which is rounded
/// to the nearest, of two equally near ones to the even one.
pub open spec fn rounded_bits(count: int, divisor: int, exponent: int) -> int
    decreases 2 * count - divisor,
{
    if divisor <= 0 || divisor >= count || count / divisor < 2 * SIGNIFICAND_START {
        let quotient = count / divisor;
        let rest = count % divisor;
        let up = 2 * rest > divisor || (2 * rest == divisor && quotient % 2 == 1);
        (exponent - 1) * SIGNIFICAND_START + quotient + if up {
            1int
        } else {
            0
        }
    } else {
        rounded_bits(count, 2 * divisor, exponent + 1)
    }
}

/// The bits of the double-precision number nearest to a count.
pub open spec fn count_bits(count: u64) -> int {
    if count == 0 {
        0
    } else if count < 2 * SIGNIFICAND_START {
        significand_bits(count as int, 1075)
    } else {
        rounded_bits(count as int, 2, 1076)
    }
}

/// Numbers with smaller significands have smaller bits.
proof fn lemma_significands_in_order(a: int, b: int, exponent: int)
    requires
        0 < a < b < 2 * SIGNIFICAND_START,
    ensures
        significand_bits(a, exponent) < significand_bits(b, exponent),
    decreases 2 * SIGNIFICAND_START - a,
{
    if a < SIGNIFICAND_START {
        if b < SIGNIFICAND_START {
            lemma_significands_in_order(2 * a, 2 * b, exponent - 1);
        } else {
            lemma_small_significand(a, exponent);
        }
    }
}

/// A significand that is doubled gives smaller bits than any with that exponent.
proof fn lemma_small_significand(significand: int, exponent: int)
    requires
        0 < significand < SIGNIFICAND_START,
    ensures
        significand_bits(significand, exponent) < exponent * SIGNIFICAND_START,
    decreases 2 * SIGNIFICAND_START - significand,
{
    if 2 * significand < SIGNIFICAND_START {
        lemma_small_significand(2 * significand, exponent - 1);
    } else {
        reveal_with_fuel(significand_bits, 2);
    }
}

/// A significand that is doubled often enough gives bits of a number without sign, and not 0.
proof fn lemma_significand_bounds(significand: int, exponent: int)
    requires
        0 < significand < 2 * SIGNIFICAND_START,
    ensures
        significand_bits(significand, exponent) < (exponent + 1) * SIGNIFICAND_START,
{
    if significand < SIGNIFICAND_START {
        lemma_small_significand(significand, exponent);
    }
}

/// Counts below two to the power of 53 are ordered as the numbers that stand for them.
pub proof fn counts_keep_their_order(a: u64, b: u64)
    requires
        a < 2 * SIGNIFICAND_START,
        b < 2 * SIGNIFICAND_START,
    ensures
        order_of(a as int, b as int) == order_of(
            (Score { bits: count_bits(a) as u64 }).rank(),
            (Score { bits: count_bits(b) as u64 }).rank(),
        ),
{
    lemma_count_bits(a);
    lemma_count_bits(b);
    if 0 < a < b {
        lemma_significands_in_order(a as int, b as int, 1075);
    } else if 0 < b < a {
        lemma_significands_in_order(b as int, a as int, 1075);
    }
}

/// The bits of a small count are those of a number without sign, above 0 for a count above 0.
proof fn lemma_count_bits(count: u64)
    requires
        count < 2 * SIGNIFICAND_START,
    ensures
        0 <= count_bits(count) < SIGN_BIT,
        count > 0 ==> count_bits(count) >= 1023 * SIGNIFICAND_START,
{
    if count > 0 {
        lemma_significand_bounds(count as int, 1075);
        if count > 1 {
            lemma_significands_in_order(1, count as int, 1075);
        }
        assert(significand_bits(1, 1075) == 1023 * SIGNIFICAND_START) by {
            reveal_with_fuel(significand_bits, 54);
        }
    }
}

impl Score {
    /// The double-precision number nearest to a count.
    pub fn of_count(count: u64) -> (score: Score)
        ensures
            score.bits == count_bits(count),
    {
        if count == 0 {
            return Score { bits: 0 };
        }
        if count < 2 * SIGNIFICAND_START {
            let mut significand: u64 = count;
            let mut exponent: u64 = 1075;
            proof {
                lemma_count_bits(count);
            }
            while significand < SIGNIFICAND_START
                invariant
                    0 < significand < 2 * SIGNIFICAND_START,
                    exponent <= 1075,
                    significand_bits(significand as int, exponent as int) == count_bits(count),
                    count_bits(count) >= 1023 * SIGNIFICAND_START,
                decreases 2 * SIGNIFICAND_START - significand,
            {
                proof {
                    lemma_significand_bounds(significand as int, exponent as int);
                }
                significand = significand * 2;
                exponent = exponent - 1;
            }
            proof {
                lemma_significand_bounds(significand as int, exponent as int);
            }
            return Score { bits: (exponent - 1) * SIGNIFICAND_START + significand };
        }
        let mut divisor: u64 = 2;
        let mut exponent: u64 = 1076;
        while count / divisor >= 2 * SIGNIFICAND_START
            invariant
                1076 <= exponent,
                divisor == 2 || divisor == 4 || divisor == 8 || divisor == 16 || divisor == 32
                    || divisor == 64 || divisor == 128 || divisor == 256 || divisor == 512
                    || divisor == 1024 || divisor == 2048,
                exponent - 1076 <= divisor / 2 - 1,
                count >= 2 * SIGNIFICAND_START,
                rounded_bits(count as int, divisor as int, exponent as int) == count_bits(count),
            decreases 4096 - divisor,
        {
            assert(divisor < 2048) by {
                if divisor == 2048 {
                    assert(count / 2048 < 2 * SIGNIFICAND_START);
                }
            }
            divisor = divisor * 2;
            exponent = exponent + 1;
        }
        let quotient: u64 = count / divisor;
        let rest: u64 = count % divisor;
        let up: bool = 2 * rest > divisor || (2 * rest == divisor && quotient % 2 == 1);
        let bits: u64 = (exponent - 1) * SIGNIFICAND_START + quotient;
        if up {
            Score { bits: bits + 1 }
        } else {
            Score { bits }
        }
    }

    /// The place of a number in the total order of all double-precision numbers: larger bits are
    /// larger numbers where the sign bit is clear, smaller numbers where it is set.
    pub open spec fn rank(self) -> int {
        if self.bits < SIGN_BIT {
            self.bits as int
        } else {
            SIGN_BIT - 1 - self.bits
        }
    }

    /// Whether the number is neither infinite nor undefined.
    pub open spec fn finite(self) -> bool {
        if self.bits < SIGN_BIT {
            self.bits < INFINITY_BITS
        } else {
            self.bits - SIGN_BIT < INFINITY_BITS
        }
    }

    /// How two numbers compare in the total order.
    pub fn compare(self, other: Score) -> (order: Order)
        ensures
            order == order_of(self.rank(), other.rank()),
    {
        if self.bits == other.bits {
            return Order::Equal;
        }
        let less: bool = if self.bits < SIGN_BIT {
            other.bits < SIGN_BIT && self.bits < other.bits
        } else {
            other.bits < SIGN_BIT || self.bits > other.bits
        };
        if less {
            Order::Less
        } else {
            Order::Greater
        }
    }

    /// Whether the number is neither infinite nor undefined.
    pub fn is_finite(self) -> (finite: bool)
        ensures
            finite == self.finite(),
    {
        if self.bits < SIGN_BIT {
            self.bits < INFINITY_BITS
        } else {
            self.bits - SIGN_BIT < INFINITY_BITS
        }
    }
}

/// The total order tells different numbers apart.
pub proof fn ranks_are_distinct(a: Score, b: Score)
    ensures
        a.rank() == b.rank() <==> a == b,
{
}

/// A finite number without sign comes before infinity.
pub proof fn finite_scores_come_before_infinity(a: Score)
    requires
        a.bits < SIGN_BIT,
    ensures
        a.finite() <==> a.rank() < (Score { bits: INFINITY_BITS }).rank(),
{
}

proof fn lemma_exact(count: int, significand: int, done: nat, exponent: int) -> (doublings: nat)
    requires
        0 < significand < 2 * SIGNIFICAND_START,
        significand == count * pow2(done),
    ensures
        SIGNIFICAND_START <= count * pow2(doublings) < 2 * SIGNIFICAND_START,
        significand_bits(significand, exponent) == (exponent - (doublings - done) - 1)
            * SIGNIFICAND_START + count * pow2(doublings),
    decreases 2 * SIGNIFICAND_START - significand,
{
    if significand < SIGNIFICAND_START {
        lemma_pow2_unfold(done + 1);
        assert(count * (2 * pow2(done)) == 2 * (count * pow2(done))) by (nonlinear_arith);
        lemma_exact(count, 2 * significand, done + 1, exponent - 1)
    } else {
        done
    }
}

/// A count below two to the power of 53 is represented exactly: its significand is the count doubled
/// until it lies where significands lie, and its exponent is smaller by as many doublings.
pub proof fn small_counts_are_exact(count: u64, score: Score) -> (doublings: nat)
    requires
        0 < count < 0x20_0000_0000_0000,
        call_ensures(Score::of_count, (count,), score),
    ensures
        0x10_0000_0000_0000 <= count * pow2(doublings) < 0x20_0000_0000_0000,
        score.bits == (1075 - doublings) * 0x10_0000_0000_0000 + (count * pow2(doublings)
            - 0x10_0000_0000_0000),
{
    lemma2_to64();
    assert(count * pow2(0) == count);
    lemma_exact(count as int, count as int, 0, 1075)
}

proof fn lemma_rounded(count: int, halvings: nat) -> (taken: (nat, int))
    requires
        1 <= halvings <= 11,
        0x20_0000_0000_0000 <= count < 0x1_0000_0000_0000_0000,
        count >= 0x10_0000_0000_0000 * pow2(halvings),
    ensures
        1 <= taken.0 <= 11,
        rounded_bits(count, pow2(halvings) as int, 1075 + halvings as int) == (1074 + taken.0)
            * SIGNIFICAND_START + taken.1,
        SIGNIFICAND_START <= taken.1 <= 2 * SIGNIFICAND_START,
        -(pow2(taken.0) as int) <= 2 * (taken.1 * pow2(taken.0) - count) <= pow2(taken.0),
        2 * (taken.1 * pow2(taken.0) - count) == pow2(taken.0) || 2 * (taken.1 * pow2(taken.0)
            - count) == -(pow2(taken.0) as int) ==> taken.1 % 2 == 0,
    decreases 12 - halvings,
{
    let divisor = pow2(halvings) as int;
    lemma2_to64();
    lemma_pow2_pos(halvings);
    let quotient = count / divisor;
    let rest = count % divisor;
    assert(2 <= divisor <= 2048) by {
        lemma_pow2_small(halvings);
    }
    lemma_fundamental_div_mod(count, divisor);
    assert(quotient >= SIGNIFICAND_START) by (nonlinear_arith)
        requires
            count == divisor * quotient + rest,
            0 <= rest < divisor,
            count >= SIGNIFICAND_START * divisor,
            divisor > 0,
    ;
    assert(quotient < 2 * SIGNIFICAND_START || halvings < 11) by (nonlinear_arith)
        requires
            count == divisor * quotient + rest,
            0 <= rest,
            count < 0x1_0000_0000_0000_0000,
            halvings == 11 ==> divisor == 2048,
            halvings <= 11,
    ;
    if quotient < 2 * SIGNIFICAND_START {
        let up = 2 * rest > divisor || (2 * rest == divisor && quotient % 2 == 1);
        let nearest = quotient + if up {
            1int
        } else {
            0
        };
        assert(nearest * divisor - count == (if up {
            divisor
        } else {
            0
        }) - rest) by (nonlinear_arith)
            requires
                count == divisor * quotient + rest,
                nearest == quotient + (if up {
                    1int
                } else {
                    0
                }),
        ;
        (halvings, nearest)
    } else {
        assert(count >= 2 * SIGNIFICAND_START * divisor) by (nonlinear_arith)
            requires
                count == divisor * quotient + rest,
                0 <= rest,
                quotient >= 2 * SIGNIFICAND_START,
                divisor > 0,
        ;
        lemma_pow2_unfold(halvings + 1);
        lemma_rounded(count, halvings + 1)
    }
}

proof fn lemma_pow2_small(exponent: nat)
    requires
        1 <= exponent <= 11,
    ensures
        2 <= pow2(exponent) <= 2048,
        exponent == 11 ==> pow2(exponent) == 2048,
{
    lemma2_to64();
}

/// A count from two to the power of 53 on is rounded to the nearest number that has a significand, and
/// of two that are equally near to the one whose significand is even: it differs from the count by no
/// more than half of what a unit of its significand stands for.
pub proof fn large_counts_are_rounded_to_the_nearest(count: u64, score: Score) -> (taken: (nat, int))
    requires
        count >= 0x20_0000_0000_0000,
        call_ensures(Score::of_count, (count,), score),
    ensures
        score.bits == (1074 + taken.0) * 0x10_0000_0000_0000 + taken.1,
        0x10_0000_0000_0000 <= taken.1 <= 0x20_0000_0000_0000,
        -(pow2(taken.0) as int) <= 2 * (taken.1 * pow2(taken.0) - count) <= pow2(taken.0),
        2 * (taken.1 * pow2(taken.0) - count) == pow2(taken.0) || 2 * (taken.1 * pow2(taken.0)
            - count) == -(pow2(taken.0) as int) ==> taken.1 % 2 == 0,
{
    lemma2_to64();
    lemma_rounded(count as int, 1)
}

} // verus!
