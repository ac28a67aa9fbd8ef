//! The proleptic Gregorian calendar, counted in days from 1970-01-01.

use vstd::prelude::*;

verus! {

/// Whether `year` has a 29 February.
pub open spec fn is_leap_year(year: int) -> bool {
    year % 4 == 0 && (year % 100 != 0 || year % 400 == 0)
}

/// The number of days in a month; 0 for a month number outside 1 to 12.
pub open spec fn month_length(year: int, month: int) -> int {
    if month == 2 {
        if is_leap_year(year) {
            29
        } else {
            28
        }
    } else if month == 4 || month == 6 || month == 9 || month == 11 {
        30
    } else if 1 <= month <= 12 {
        31
    } else {
        0
    }
}

/// The days of `year` before the first day of `month`.
pub open spec fn days_before_month(year: int, month: int) -> int
    decreases month,
{
    if month <= 1 {
        0
    } else {
        days_before_month(year, month - 1) + month_length(year, month - 1)
    }
}

/// The days between 1 January of year 1 and 1 January of `year`: one year in four is a leap
/// year, except one in a hundred, except one in four hundred.
pub open spec fn days_before_year(year: int) -> int {
    365 * (year - 1) + (year - 1) / 4 - (year - 1) / 100 + (year - 1) / 400
}

/// Whether the triple names a day of the calendar.
pub open spec fn is_civil_date(year: int, month: int, day: int) -> bool {
    1 <= month <= 12 && 1 <= day <= month_length(year, month)
}

/// The day number of a date, with 1970-01-01 as day 0.
pub open spec fn civil_day_number(year: int, month: int, day: int) -> int {
    days_before_year(year) + days_before_month(year, month) + day - 1 - 719_162
}

/// The date that follows a date.
pub open spec fn next_civil_date(year: int, month: int, day: int) -> (int, int, int) {
    if day < month_length(year, month) {
        (year, month, day + 1)
    } else if month < 12 {
        (year, month + 1, 1)
    } else {
        (year + 1, 1, 1)
    }
}

/// Whether one date is earlier than another.
pub open spec fn earlier_date(a: (int, int, int), b: (int, int, int)) -> bool {
    a.0 < b.0 || (a.0 == b.0 && (a.1 < b.1 || (a.1 == b.1 && a.2 < b.2)))
}

/// The years for which a day number, and the second of that day, fit in 64 bits with room to
/// spare.
pub open spec fn is_supported_year(year: int) -> bool {
    -100_000_000_000 <= year <= 100_000_000_000
}

/// The number of days in `month` of `year`; 0 for a month number outside 1 to 12.
pub fn days_in_month(year: i64, month: i64) -> (days: i64)
    ensures
        days == month_length(year as int, month as int),
{
    if month == 2 {
        if leap_year(year) {
            29
        } else {
            28
        }
    } else if month == 4 || month == 6 || month == 9 || month == 11 {
        30
    } else if 1 <= month && month <= 12 {
        31
    } else {
        0
    }
}

/// Whether `year` is a leap year.
fn leap_year(year: i64) -> (leap: bool)
    ensures
        leap == is_leap_year(year as int),
{
    let every_fourth: bool = year % 4 == 0;
    assert(every_fourth == (year as int % 4 == 0));
    let every_hundredth: bool = year % 100 == 0;
    assert(every_hundredth == (year as int % 100 == 0));
    let every_four_hundredth: bool = year % 400 == 0;
    assert(every_four_hundredth == (year as int % 400 == 0));
    every_fourth && (!every_hundredth || every_four_hundredth)
}

/// The number of days from 1970-01-01 to the given date, negative for earlier dates.
pub fn days_from_civil(year: i64, month: i64, day: i64) -> (days: i64)
    requires
        is_supported_year(year as int),
        1 <= month <= 12,
        0 <= day <= 1_000_000,
    ensures
        days == civil_day_number(year as int, month as int, day as int),
{
    let adjusted_year: i64 = if month <= 2 { year - 1 } else { year };
    let era: i64 = if adjusted_year >= 0 {
        adjusted_year / 400
    } else {
        -((399 - adjusted_year) / 400)
    };
    let year_of_era: i64 = adjusted_year - era * 400;
    let shifted_month: i64 = if month > 2 { month - 3 } else { month + 9 };
    let day_of_year: i64 = (153 * shifted_month + 2) / 5 + day - 1;
    let day_of_era: i64 = year_of_era * 365 + year_of_era / 4 - year_of_era / 100 + day_of_year;
    proof {
        lemma_days_before_month(year as int, month as int);
        lemma_era(year as int, month as int, era as int);
    }
    era * 146_097 + day_of_era - 719_468
}

/// The lengths of the months before `month`, added up.
proof fn lemma_days_before_month(year: int, month: int)
    requires
        1 <= month <= 12,
    ensures
        days_before_month(year, month) == (if month <= 2 {
            31 * (month - 1)
        } else {
            (153 * (month - 3) + 2) / 5 + 59 + (if is_leap_year(year) {
                1int
            } else {
                0
            })
        }),
{
    reveal_with_fuel(days_before_month, 13);
}

/// Counting years from 1 March, in eras of 400 years, reaches the same 1 March.
proof fn lemma_era(year: int, month: int, era: int)
    requires
        1 <= month <= 12,
        ({
            let adjusted = if month <= 2 {
                year - 1
            } else {
                year
            };
            era * 400 <= adjusted < era * 400 + 400
        }),
    ensures
        ({
            let adjusted = if month <= 2 {
                year - 1
            } else {
                year
            };
            let of_era = adjusted - era * 400;
            let leap_day = if month > 2 && is_leap_year(year) {
                1int
            } else {
                0
            };
            era * 146_097 + of_era * 365 + of_era / 4 - of_era / 100 == days_before_year(year)
                + leap_day + (if month > 2 {
                365int
            } else {
                0
            })
        }),
{
    let adjusted = if month <= 2 {
        year - 1
    } else {
        year
    };
    let of_era = adjusted - era * 400;
    assert(adjusted / 4 == era * 100 + of_era / 4);
    assert(adjusted / 100 == era * 4 + of_era / 100);
    assert(adjusted / 400 == era);
    lemma_year_length(adjusted);
}

proof fn lemma_year_length(year: int)
    ensures
        days_before_year(year + 1) == days_before_year(year) + 365 + (if is_leap_year(year) {
            1int
        } else {
            0
        }),
{
    lemma_next_multiple(year, 4);
    lemma_next_multiple(year, 100);
    lemma_next_multiple(year, 400);
}

proof fn lemma_next_multiple(n: int, d: int)
    requires
        d == 4 || d == 100 || d == 400,
    ensures
        n / d == (n - 1) / d + (if n % d == 0 {
            1int
        } else {
            0
        }),
{
}

/// Dates of the years 0 to 9999 have day numbers below four million in size.
pub proof fn lemma_day_number_bound(year: int, month: int, day: int)
    requires
        0 <= year < 10_000,
        is_civil_date(year, month, day),
    ensures
        -4_000_000 < civil_day_number(year, month, day) < 4_000_000,
{
    lemma_days_before_month(year, month);
}

/// Day numbers count days: the date after a date has the next number.
pub proof fn day_numbers_are_consecutive(year: int, month: int, day: int)
    requires
        is_civil_date(year, month, day),
    ensures
        ({
            let next = next_civil_date(year, month, day);
            &&& is_civil_date(next.0, next.1, next.2)
            &&& civil_day_number(next.0, next.1, next.2) == civil_day_number(year, month, day) + 1
        }),
{
    lemma_days_before_month(year, month);
    lemma_days_before_month(year, 12);
    if month < 12 {
        lemma_days_before_month(year, month + 1);
    }
    lemma_days_before_month(year + 1, 1);
    lemma_year_length(year);
}

/// The epoch is day 0.
pub proof fn epoch_is_day_zero()
    ensures
        civil_day_number(1970, 1, 1) == 0,
{
}

#[verifier::spinoff_prover]
proof fn lemma_year_is_strictly_later(a: int, b: int)
    requires
        a < b,
    ensures
        days_before_year(a) + 365 + (if is_leap_year(a) {
            1int
        } else {
            0
        }) <= days_before_year(b),
    decreases b - a,
{
    if a + 1 < b {
        lemma_year_is_strictly_later(a, b - 1);
        lemma_year_length(b - 1);
    } else {
        lemma_year_length(a);
    }
}

/// Day numbers keep the order of dates: an earlier date has a smaller number, so two dates with
/// one number are the same date.
pub proof fn day_numbers_keep_date_order(a: (int, int, int), b: (int, int, int))
    requires
        is_civil_date(a.0, a.1, a.2),
        is_civil_date(b.0, b.1, b.2),
    ensures
        earlier_date(a, b) <==> civil_day_number(a.0, a.1, a.2) < civil_day_number(b.0, b.1, b.2),
        a == b <==> civil_day_number(a.0, a.1, a.2) == civil_day_number(b.0, b.1, b.2),
{
    lemma_days_before_month(a.0, a.1);
    lemma_days_before_month(b.0, b.1);
    if a.0 < b.0 {
        lemma_year_is_strictly_later(a.0, b.0);
    }
    if b.0 < a.0 {
        lemma_year_is_strictly_later(b.0, a.0);
    }
}

/// The months but February alternate between 31 and 30 days, beginning with 31 in January and again
/// in August. February has 28, and one more in a year that has one more.
pub proof fn months_alternate(year: i64, month: i64, days: i64)
    requires
        1 <= month <= 12,
        call_ensures(days_in_month, (year, month), days),
    ensures
        month != 2 && month <= 7 ==> days == 30 + month % 2,
        month >= 8 ==> days == 31 - month % 2,
        month == 2 ==> 28 + civil_day_number(year + 1, 1, 1) - civil_day_number(year as int, 1, 1)
            - 365 == days,
{
    lemma_year_length(year as int);
}

/// The calendar repeats every 400 years, which have 146,097 days. Every fourth year has a day more,
/// but for the first of each of three centuries.
pub proof fn the_calendar_repeats_every_400_years(year: int, month: int, day: int)
    requires
        1 <= month <= 12,
    ensures
        civil_day_number(year + 400, month, day) == civil_day_number(year, month, day) + 146_097,
        month_length(year + 400, month) == month_length(year, month),
        year % 4 != 0 ==> civil_day_number(year + 1, 1, 1) - civil_day_number(year, 1, 1) == 365,
        year % 4 == 0 && year % 100 != 0 ==> civil_day_number(year + 1, 1, 1) - civil_day_number(
            year,
            1,
            1,
        ) == 366,
        year % 100 == 0 && year % 400 != 0 ==> civil_day_number(year + 1, 1, 1)
            - civil_day_number(year, 1, 1) == 365,
        year % 400 == 0 ==> civil_day_number(year + 1, 1, 1) - civil_day_number(year, 1, 1) == 366,
{
    lemma_year_length(year);
    lemma_four_centuries(year);
    lemma_leap_days(year);
    lemma_same_months(year, month);
}

#[verifier::spinoff_prover]
proof fn lemma_four_centuries(year: int)
    ensures
        days_before_year(year + 400) == days_before_year(year) + 146_097,
{
    assert((year + 399) / 4 == (year - 1) / 4 + 100);
    assert((year + 399) / 100 == (year - 1) / 100 + 4);
    assert((year + 399) / 400 == (year - 1) / 400 + 1);
}

#[verifier::spinoff_prover]
proof fn lemma_leap_days(year: int)
    ensures
        is_leap_year(year + 400) == is_leap_year(year),
        year % 4 != 0 ==> !is_leap_year(year),
        year % 4 == 0 && year % 100 != 0 ==> is_leap_year(year),
        year % 100 == 0 && year % 400 != 0 ==> !is_leap_year(year),
        year % 400 == 0 ==> is_leap_year(year),
{
    assert((year + 400) % 4 == year % 4);
    assert((year + 400) % 100 == year % 100);
    assert((year + 400) % 400 == year % 400);
    assert(year % 400 == 0 ==> year % 4 == 0);
}

proof fn lemma_same_months(year: int, month: int)
    ensures
        days_before_month(year + 400, month) == days_before_month(year, month),
        is_leap_year(year + 400) == is_leap_year(year),
    decreases month,
{
    lemma_leap_days(year);
    if month > 1 {
        lemma_same_months(year, month - 1);
    }
}

/// A day number is counted from the first of 1970, a day for each day of the month.
pub proof fn days_are_counted_one_by_one(year: i64, month: i64, day: i64, days: i64, later: i64)
    requires
        is_supported_year(year as int),
        1 <= month <= 12,
        0 <= day < 1_000_000,
        call_ensures(days_from_civil, (year, month, day), days),
        call_ensures(days_from_civil, (year, month, (day + 1) as i64), later),
    ensures
        later == days + 1,
        year == 1970 && month == 1 && day == 1 ==> days == 0,
{
    epoch_is_day_zero();
}

} // verus!
