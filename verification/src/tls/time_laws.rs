//! What holds of the times in certificates, whatever they are.

use super::calendar::{
    civil_day_number, day_numbers_are_consecutive, day_numbers_keep_date_order, earlier_date,
    is_civil_date, month_length, next_civil_date,
};
use super::der::{
    all_digits, certificate_window, decimal, decimal_value, der_element, der_time, encoded_length,
    reading_returns_what_was_encoded, tbs_window, utc_time, validity_window, x509_time,
};
use super::error::TlsError;
use vstd::prelude::*;

verus! {

/// A number below 100 in two digits.
pub open spec fn two_digits(number: int) -> Seq<u8> {
    seq![(48 + number / 10) as u8, (48 + number % 10) as u8]
}

/// A date and a time of day.
pub struct CivilTime {
    pub year: int,
    pub month: int,
    pub day: int,
    pub hour: int,
    pub minute: int,
    pub second: int,
}

impl CivilTime {
    /// The date is one of the calendar, in a year of four digits, and the time of day is one.
    pub open spec fn valid(self) -> bool {
        &&& 0 <= self.year < 10_000
        &&& 1 <= self.month <= 12
        &&& 1 <= self.day <= month_length(self.year, self.month)
        &&& 0 <= self.hour < 24
        &&& 0 <= self.minute < 60
        &&& 0 <= self.second < 60
    }

    /// Whether the year can be written in two digits: 1950 to 2049.
    pub open spec fn short(self) -> bool {
        1950 <= self.year < 2050
    }

    /// What is written behind the year.
    pub open spec fn rest(self) -> Seq<u8> {
        two_digits(self.month) + two_digits(self.day) + two_digits(self.hour) + two_digits(
            self.minute,
        ) + two_digits(self.second) + seq![90u8]
    }

    /// The time with four digits of year.
    pub open spec fn generalized(self) -> Seq<u8> {
        two_digits(self.year / 100) + two_digits(self.year % 100) + self.rest()
    }

    /// The time with two digits of year.
    pub open spec fn utc(self) -> Seq<u8> {
        two_digits(self.year % 100) + self.rest()
    }

    /// The second that follows.
    pub open spec fn next(self) -> CivilTime {
        let tomorrow = next_civil_date(self.year, self.month, self.day);
        if self.second < 59 {
            CivilTime { second: self.second + 1, ..self }
        } else if self.minute < 59 {
            CivilTime { minute: self.minute + 1, second: 0, ..self }
        } else if self.hour < 23 {
            CivilTime { hour: self.hour + 1, minute: 0, second: 0, ..self }
        } else {
            CivilTime {
                year: tomorrow.0,
                month: tomorrow.1,
                day: tomorrow.2,
                hour: 0,
                minute: 0,
                second: 0,
            }
        }
    }

    /// Whether one time is earlier than another: the first part in which they differ, from the
    /// year on, is less.
    pub open spec fn earlier(self, other: CivilTime) -> bool {
        self.year < other.year || (self.year == other.year && (self.month < other.month || (
        self.month == other.month && (self.day < other.day || (self.day == other.day && (self.hour
            < other.hour || (self.hour == other.hour && (self.minute < other.minute || (self.minute
            == other.minute && self.second < other.second)))))))))
    }
}

/// The tags of the two kinds of time.
pub open spec fn time_tag(generalized: bool) -> u8 {
    if generalized {
        0x18
    } else {
        0x17
    }
}

/// A time as it is written in one of the two kinds.
pub open spec fn written(time: CivilTime, generalized: bool) -> Seq<u8> {
    if generalized {
        time.generalized()
    } else {
        time.utc()
    }
}

/// The seconds that are read from a time as it is written.
pub open spec fn read_seconds(time: CivilTime, generalized: bool) -> Result<int, TlsError> {
    x509_time(time_tag(generalized), written(time, generalized))
}

proof fn lemma_two_digits(number: int)
    requires
        0 <= number < 100,
    ensures
        decimal(two_digits(number)) == Ok::<int, TlsError>(number),
{
    let digits = two_digits(number);
    reveal_with_fuel(decimal_value, 3);
    assert(digits.drop_last().last() == digits[0]);
    assert(digits.drop_last().drop_last() =~= Seq::<u8>::empty());
    assert(all_digits(digits));
}

proof fn lemma_four_digits(number: int)
    requires
        0 <= number < 10_000,
    ensures
        decimal(two_digits(number / 100) + two_digits(number % 100)) == Ok::<int, TlsError>(number),
{
    let digits = two_digits(number / 100) + two_digits(number % 100);
    reveal_with_fuel(decimal_value, 5);
    let three = digits.drop_last();
    let two = three.drop_last();
    let one = two.drop_last();
    assert(three.last() == digits[2]);
    assert(two.last() == digits[1]);
    assert(one.last() == digits[0]);
    assert(one.drop_last() =~= Seq::<u8>::empty());
    assert(all_digits(digits));
}

proof fn lemma_rest(time: CivilTime)
    ensures
        time.rest().len() == 11,
        time.rest().subrange(0, 2) == two_digits(time.month),
        time.rest().subrange(2, 4) == two_digits(time.day),
        time.rest().subrange(4, 6) == two_digits(time.hour),
        time.rest().subrange(6, 8) == two_digits(time.minute),
        time.rest().subrange(8, 10) == two_digits(time.second),
        time.rest().last() == 90,
{
    assert(time.rest().subrange(0, 2) =~= two_digits(time.month));
    assert(time.rest().subrange(2, 4) =~= two_digits(time.day));
    assert(time.rest().subrange(4, 6) =~= two_digits(time.hour));
    assert(time.rest().subrange(6, 8) =~= two_digits(time.minute));
    assert(time.rest().subrange(8, 10) =~= two_digits(time.second));
}

#[verifier::spinoff_prover]
#[verifier::rlimit(50)]
proof fn lemma_rest_is_read(time: CivilTime)
    requires
        time.valid(),
    ensures
        time.rest().len() == 11,
        utc_time(time.year, time.rest()) == Ok::<int, TlsError>(
            civil_day_number(time.year, time.month, time.day) * 86_400 + time.hour * 3_600
                + time.minute * 60 + time.second,
        ),
{
    lemma_rest(time);
    lemma_two_digits(time.month);
    lemma_two_digits(time.day);
    lemma_two_digits(time.hour);
    lemma_two_digits(time.minute);
    lemma_two_digits(time.second);
}

#[verifier::spinoff_prover]
proof fn lemma_long_kind(value: Seq<u8>, year: int)
    requires
        value.len() == 15,
        decimal(value.subrange(0, 4)) == Ok::<int, TlsError>(year),
    ensures
        x509_time(0x18, value) == utc_time(year, value.subrange(4, 15)),
{
}

#[verifier::spinoff_prover]
proof fn lemma_short_kind(value: Seq<u8>, short: int)
    requires
        value.len() == 13,
        decimal(value.subrange(0, 2)) == Ok::<int, TlsError>(short),
    ensures
        x509_time(0x17, value) == utc_time(
            if short >= 50 {
                1900 + short
            } else {
                2000 + short
            },
            value.subrange(2, 13),
        ),
{
}

proof fn lemma_long_form(time: CivilTime)
    requires
        time.valid(),
    ensures
        time.generalized().len() == 15,
        time.generalized().subrange(0, 4) == two_digits(time.year / 100) + two_digits(
            time.year % 100,
        ),
        time.generalized().subrange(4, 15) == time.rest(),
{
    lemma_rest(time);
    assert(time.generalized().subrange(0, 4) =~= two_digits(time.year / 100) + two_digits(
        time.year % 100,
    ));
    assert(time.generalized().subrange(4, 15) =~= time.rest());
}

proof fn lemma_short_form(time: CivilTime)
    requires
        time.valid(),
    ensures
        time.utc().len() == 13,
        time.utc().subrange(0, 2) == two_digits(time.year % 100),
        time.utc().subrange(2, 13) == time.rest(),
{
    lemma_rest(time);
    assert(time.utc().subrange(0, 2) =~= two_digits(time.year % 100));
    assert(time.utc().subrange(2, 13) =~= time.rest());
}

#[verifier::spinoff_prover]
#[verifier::rlimit(50)]
proof fn lemma_read_seconds(time: CivilTime, generalized: bool)
    requires
        time.valid(),
        generalized || time.short(),
    ensures
        read_seconds(time, generalized) == Ok::<int, TlsError>(
            civil_day_number(time.year, time.month, time.day) * 86_400 + time.hour * 3_600
                + time.minute * 60 + time.second,
        ),
{
    lemma_rest_is_read(time);
    if generalized {
        lemma_four_digits(time.year);
        lemma_long_form(time);
        lemma_long_kind(time.generalized(), time.year);
    } else {
        lemma_two_digits(time.year % 100);
        lemma_short_form(time);
        lemma_short_kind(time.utc(), time.year % 100);
    }
}

/// Every time can be read as it is written, in both kinds to the same second: with four digits of
/// year, and, from 1950 to 2049, with two.
pub proof fn times_are_read_as_written(time: CivilTime)
    requires
        time.valid(),
    ensures
        read_seconds(time, true) is Ok,
        time.short() ==> read_seconds(time, false) == read_seconds(time, true),
{
    lemma_read_seconds(time, true);
    if time.short() {
        lemma_read_seconds(time, false);
    }
}

/// Seconds are counted one by one: the second that follows a time, be it in the next minute, the
/// next hour or on the next day, is read as one more, in both kinds.
pub proof fn the_next_second_is_one_more(time: CivilTime, generalized: bool)
    requires
        time.valid(),
        time.next().valid(),
        generalized || (time.short() && time.next().short()),
    ensures
        read_seconds(time, generalized) is Ok,
        read_seconds(time.next(), generalized) is Ok,
        read_seconds(time.next(), generalized)->Ok_0 == read_seconds(time, generalized)->Ok_0 + 1,
{
    lemma_read_seconds(time, generalized);
    lemma_read_seconds(time.next(), generalized);
    day_numbers_are_consecutive(time.year, time.month, time.day);
}

/// The count starts with the year 1970.
pub proof fn the_count_starts_in_1970(generalized: bool)
    ensures
        ({
            let start = CivilTime { year: 1970, month: 1, day: 1, hour: 0, minute: 0, second: 0 };
            read_seconds(start, generalized) == Ok::<int, TlsError>(0)
        }),
{
    let start = CivilTime { year: 1970, month: 1, day: 1, hour: 0, minute: 0, second: 0 };
    lemma_read_seconds(start, generalized);
}

/// Times keep their order: an earlier time is read as fewer seconds, and only the same time as the
/// same, whatever the kinds.
pub proof fn times_keep_their_order(
    time: CivilTime,
    generalized: bool,
    other: CivilTime,
    other_generalized: bool,
)
    requires
        time.valid(),
        other.valid(),
        generalized || time.short(),
        other_generalized || other.short(),
    ensures
        time.earlier(other) <==> read_seconds(time, generalized)->Ok_0 < read_seconds(
            other,
            other_generalized,
        )->Ok_0,
        time == other <==> read_seconds(time, generalized)->Ok_0 == read_seconds(
            other,
            other_generalized,
        )->Ok_0,
{
    lemma_read_seconds(time, generalized);
    lemma_read_seconds(other, other_generalized);
    day_numbers_keep_date_order(
        (time.year, time.month, time.day),
        (other.year, other.month, other.day),
    );
    let a = civil_day_number(time.year, time.month, time.day);
    let b = civil_day_number(other.year, other.month, other.day);
    assert(earlier_date((time.year, time.month, time.day), (other.year, other.month, other.day))
        <==> a < b);
    assert(a == b ==> (time.year, time.month, time.day) == (other.year, other.month, other.day));
}

proof fn lemma_spelled(digits: Seq<u8>)
    requires
        digits.len() == 2,
        decimal(digits) is Ok,
    ensures
        0 <= decimal(digits)->Ok_0 < 100,
        digits == two_digits(decimal(digits)->Ok_0),
{
    reveal_with_fuel(decimal_value, 3);
    assert(digits.drop_last().last() == digits[0]);
    assert(digits.drop_last().drop_last() =~= Seq::<u8>::empty());
    assert(48 <= digits[0] <= 57 && 48 <= digits[1] <= 57);
    let number = decimal(digits)->Ok_0;
    assert(number == (digits[0] - 48) * 10 + (digits[1] - 48));
    assert(digits =~= two_digits(number));
}

proof fn lemma_year_spelled(digits: Seq<u8>)
    requires
        digits.len() == 4,
        decimal(digits) is Ok,
    ensures
        0 <= decimal(digits)->Ok_0 < 10_000,
        digits == two_digits(decimal(digits)->Ok_0 / 100) + two_digits(
            decimal(digits)->Ok_0 % 100,
        ),
{
    reveal_with_fuel(decimal_value, 5);
    let three = digits.drop_last();
    let two = three.drop_last();
    let one = two.drop_last();
    assert(three.last() == digits[2]);
    assert(two.last() == digits[1]);
    assert(one.last() == digits[0]);
    assert(one.drop_last() =~= Seq::<u8>::empty());
    assert(48 <= digits[0] <= 57 && 48 <= digits[1] <= 57 && 48 <= digits[2] <= 57 && 48
        <= digits[3] <= 57);
    let number = decimal(digits)->Ok_0;
    assert(number == (digits[0] - 48) * 1000 + (digits[1] - 48) * 100 + (digits[2] - 48) * 10 + (
    digits[3] - 48));
    assert(digits =~= two_digits(number / 100) + two_digits(number % 100));
}

/// Nothing but a written time is read as a time: what is accepted is a time of the calendar,
/// written in the kind that its tag names.
pub proof fn only_written_times_are_read(tag: u8, value: Seq<u8>) -> (time: CivilTime)
    requires
        x509_time(tag, value) is Ok,
    ensures
        time.valid(),
        tag == 0x17 || tag == 0x18,
        tag == 0x17 ==> time.short() && value == time.utc(),
        tag == 0x18 ==> value == time.generalized(),
{
    lemma_kinds(tag, value);
    if tag == 0x18 {
        let digits = value.subrange(0, 4);
        lemma_year_spelled(digits);
        let year = decimal(digits)->Ok_0;
        lemma_long_kind(value, year);
        let rest = value.subrange(4, 15);
        let time = lemma_rest_spelled(year, rest);
        assert(value =~= digits + rest);
        assert(value =~= time.generalized());
        time
    } else {
        let digits = value.subrange(0, 2);
        lemma_spelled(digits);
        let short = decimal(digits)->Ok_0;
        lemma_short_kind(value, short);
        let rest = value.subrange(2, 13);
        let year = if short >= 50 {
            1900 + short
        } else {
            2000 + short
        };
        let time = lemma_rest_spelled(year, rest);
        assert(value =~= digits + rest);
        assert(time.year % 100 == short);
        assert(value =~= time.utc());
        time
    }
}

#[verifier::spinoff_prover]
proof fn lemma_kinds(tag: u8, value: Seq<u8>)
    requires
        x509_time(tag, value) is Ok,
    ensures
        tag == 0x17 || tag == 0x18,
        tag == 0x17 ==> value.len() == 13 && decimal(value.subrange(0, 2)) is Ok,
        tag == 0x18 ==> value.len() == 15 && decimal(value.subrange(0, 4)) is Ok,
{
}

#[verifier::spinoff_prover]
proof fn lemma_rest_parts(year: int, rest: Seq<u8>)
    requires
        utc_time(year, rest) is Ok,
    ensures
        rest.last() == 90,
        decimal(rest.subrange(0, 2)) is Ok,
        decimal(rest.subrange(2, 4)) is Ok,
        decimal(rest.subrange(4, 6)) is Ok,
        decimal(rest.subrange(6, 8)) is Ok,
        decimal(rest.subrange(8, 10)) is Ok,
        is_civil_date(
            year,
            decimal(rest.subrange(0, 2))->Ok_0,
            decimal(rest.subrange(2, 4))->Ok_0,
        ),
        decimal(rest.subrange(4, 6))->Ok_0 < 24,
        decimal(rest.subrange(6, 8))->Ok_0 < 60,
        decimal(rest.subrange(8, 10))->Ok_0 < 60,
{
}

#[verifier::spinoff_prover]
proof fn lemma_rest_spelled(year: int, rest: Seq<u8>) -> (time: CivilTime)
    requires
        rest.len() == 11,
        0 <= year < 10_000,
        utc_time(year, rest) is Ok,
    ensures
        time.valid(),
        time.year == year,
        rest == time.rest(),
{
    lemma_rest_parts(year, rest);
    let month = rest.subrange(0, 2);
    let day = rest.subrange(2, 4);
    let hour = rest.subrange(4, 6);
    let minute = rest.subrange(6, 8);
    let second = rest.subrange(8, 10);
    lemma_spelled(month);
    lemma_spelled(day);
    lemma_spelled(hour);
    lemma_spelled(minute);
    lemma_spelled(second);
    let time = CivilTime {
        year,
        month: decimal(month)->Ok_0,
        day: decimal(day)->Ok_0,
        hour: decimal(hour)->Ok_0,
        minute: decimal(minute)->Ok_0,
        second: decimal(second)->Ok_0,
    };
    assert(rest =~= month + day + hour + minute + second + seq![rest.last()]);
    assert(rest =~= time.rest());
    time
}

/// A time that is written in digits but is none is refused for the first that is wrong with it: a month
/// that there is none of, a day that the month does not have, or no time of a day.
#[verifier::spinoff_prover]
#[verifier::rlimit(50)]
pub proof fn impossible_times_are_refused_for_what_is_wrong(time: CivilTime)
    requires
        0 <= time.month < 100,
        0 <= time.day < 100,
        0 <= time.hour < 100,
        0 <= time.minute < 100,
        0 <= time.second < 100,
    ensures
        ({
            let read = utc_time(time.year, time.rest());
            let month_is_right = 1 <= time.month <= 12;
            let day_is_right = 1 <= time.day <= month_length(time.year, time.month);
            let hour_is_right = time.hour <= 23 && time.minute <= 59 && time.second <= 59;
            &&& read == Err::<int, TlsError>(TlsError::InvalidMonth) <==> !month_is_right
            &&& read == Err::<int, TlsError>(TlsError::InvalidDay) <==> month_is_right
                && !day_is_right
            &&& read == Err::<int, TlsError>(TlsError::InvalidTimeOfDay) <==> month_is_right
                && day_is_right && !hour_is_right
            &&& read is Ok <==> month_is_right && day_is_right && hour_is_right
        }),
{
    lemma_rest(time);
    lemma_two_digits(time.month);
    lemma_two_digits(time.day);
    lemma_two_digits(time.hour);
    lemma_two_digits(time.minute);
    lemma_two_digits(time.second);
}

/// A time without the sign of universal time at its end, of another length than its kind has, or of no
/// kind is refused.
#[verifier::spinoff_prover]
pub proof fn times_of_another_form_are_refused(tag: u8, value: Seq<u8>)
    ensures
        tag != 0x17 && tag != 0x18 ==> x509_time(tag, value) == Err::<int, TlsError>(
            TlsError::InvalidTimeTag,
        ),
        tag == 0x17 && value.len() != 13 ==> x509_time(tag, value) == Err::<int, TlsError>(
            TlsError::InvalidUtcTime,
        ),
        tag == 0x18 && value.len() != 15 ==> x509_time(tag, value) == Err::<int, TlsError>(
            TlsError::InvalidGeneralizedTime,
        ),
        tag == 0x17 && value.len() == 13 && decimal(value.subrange(0, 2)) is Ok && value.last() != 90
            ==> x509_time(tag, value) == Err::<int, TlsError>(TlsError::TimeNotUtc),
        tag == 0x18 && value.len() == 15 && decimal(value.subrange(0, 4)) is Ok && value.last() != 90
            ==> x509_time(tag, value) == Err::<int, TlsError>(TlsError::TimeNotUtc),
{
    if tag == 0x17 && value.len() == 13 && decimal(value.subrange(0, 2)) is Ok {
        lemma_short_kind(value, decimal(value.subrange(0, 2))->Ok_0);
        assert(value.subrange(2, 13).last() == value.last());
    }
    if tag == 0x18 && value.len() == 15 && decimal(value.subrange(0, 4)) is Ok {
        lemma_long_kind(value, decimal(value.subrange(0, 4))->Ok_0);
        assert(value.subrange(4, 15).last() == value.last());
    }
}

/// An encoded element.
#[verifier::opaque]
pub open spec fn encoded(tag: u8, value: Seq<u8>) -> Seq<u8> {
    seq![tag] + encoded_length(value.len()) + value
}

proof fn lemma_first_element(tag: u8, value: Seq<u8>, behind: Seq<u8>)
    requires
        value.len() < 0x1_0000_0000,
        6 + value.len() <= usize::MAX,
    ensures
        der_element(encoded(tag, value) + behind, 0, tag) == Ok::<(Seq<u8>, int), TlsError>(
            (value, encoded(tag, value).len() as int),
        ),
{
    reveal(encoded);
    let none = Seq::<u8>::empty();
    reading_returns_what_was_encoded(none, tag, value, behind);
    assert(none + encoded(tag, value) + behind =~= encoded(tag, value) + behind);
    assert(none + encoded(tag, value) =~= encoded(tag, value));
}

proof fn lemma_encoded_time(before: Seq<u8>, time: CivilTime, generalized: bool, behind: Seq<u8>)
    requires
        time.valid(),
        generalized || time.short(),
        before.len() + 100 <= usize::MAX,
    ensures
        ({
            let element = encoded(time_tag(generalized), written(time, generalized));
            der_time(before + element + behind, before.len() as int) == Ok::<
                (int, int),
                TlsError,
            >((read_seconds(time, generalized)->Ok_0, (before + element).len() as int))
        }),
        encoded(time_tag(generalized), written(time, generalized)).len() < 20,
{
    let value = written(time, generalized);
    let tag = time_tag(generalized);
    lemma_rest(time);
    lemma_read_seconds(time, generalized);
    reveal(encoded);
    reading_returns_what_was_encoded(before, tag, value, behind);
    assert((before + encoded(tag, value) + behind)[before.len() as int] == tag);
}

/// The parts of a certificate around its validity: its version, if it has one, its serial number,
/// its signature algorithm, its issuer, what follows the validity, and what follows the contents.
pub struct CertificateParts {
    pub version: Option<Seq<u8>>,
    pub serial: Seq<u8>,
    pub algorithm: Seq<u8>,
    pub issuer: Seq<u8>,
    pub rest: Seq<u8>,
    pub signature: Seq<u8>,
}

impl CertificateParts {
    /// What stands before the validity.
    pub open spec fn front(self) -> Seq<u8> {
        (match self.version {
            Some(version) => encoded(0xa0, version),
            None => Seq::empty(),
        }) + encoded(0x02, self.serial) + encoded(0x30, self.algorithm) + encoded(
            0x30,
            self.issuer,
        )
    }

    /// The contents of the certificate with a validity.
    pub open spec fn contents(self, validity: Seq<u8>) -> Seq<u8> {
        self.front() + encoded(0x30, validity) + self.rest
    }

    /// The certificate with a validity.
    pub open spec fn certificate(self, validity: Seq<u8>) -> Seq<u8> {
        encoded(0x30, encoded(0x30, self.contents(validity)) + self.signature)
    }
}

proof fn lemma_element_at(input: Seq<u8>, at: int, tag: u8, value: Seq<u8>)
    requires
        0 <= at,
        at + encoded(tag, value).len() <= input.len() < 0x1_0000_0000,
        input.len() + 6 <= usize::MAX,
        input.subrange(at, at + encoded(tag, value).len()) == encoded(tag, value),
    ensures
        der_element(input, at, tag) == Ok::<(Seq<u8>, int), TlsError>(
            (value, at + encoded(tag, value).len()),
        ),
{
    reveal(encoded);
    let element = encoded(tag, value);
    let before = input.subrange(0, at);
    let behind = input.subrange(at + element.len(), input.len() as int);
    assert(before + element + behind =~= input);
    reading_returns_what_was_encoded(before, tag, value, behind);
}

proof fn lemma_validity(
    from: CivilTime,
    from_generalized: bool,
    to: CivilTime,
    to_generalized: bool,
)
    requires
        from.valid(),
        to.valid(),
        from_generalized || from.short(),
        to_generalized || to.short(),
    ensures
        validity_window(
            encoded(time_tag(from_generalized), written(from, from_generalized)) + encoded(
                time_tag(to_generalized),
                written(to, to_generalized),
            ),
        ) == if to.earlier(from) {
            Err::<(int, int), TlsError>(TlsError::InvalidWindow)
        } else {
            Ok(
                (
                    read_seconds(from, from_generalized)->Ok_0,
                    read_seconds(to, to_generalized)->Ok_0,
                ),
            )
        },
{
    let one = encoded(time_tag(from_generalized), written(from, from_generalized));
    let two = encoded(time_tag(to_generalized), written(to, to_generalized));
    let none = Seq::<u8>::empty();
    lemma_encoded_time(none, from, from_generalized, two);
    assert(none + one + two =~= one + two);
    assert(none + one =~= one);
    lemma_encoded_time(one, to, to_generalized, none);
    assert(one + two + none =~= one + two);
    times_keep_their_order(to, to_generalized, from, from_generalized);
}

proof fn lemma_parts_in_a_row(
    one: Seq<u8>,
    two: Seq<u8>,
    three: Seq<u8>,
    four: Seq<u8>,
    five: Seq<u8>,
    six: Seq<u8>,
)
    ensures
        ({
            let row = one + two + three + four + five + six;
            let b = one.len() + two.len();
            let c = b + three.len();
            let d = c + four.len();
            let e = d + five.len();
            &&& row.len() == e + six.len()
            &&& row.subrange(0, one.len() as int) == one
            &&& row.subrange(one.len() as int, b as int) == two
            &&& row.subrange(b as int, c as int) == three
            &&& row.subrange(c as int, d as int) == four
            &&& row.subrange(d as int, e as int) == five
            &&& one.len() > 0 ==> row[0] == one[0]
            &&& one.len() == 0 && two.len() > 0 ==> row[0] == two[0]
        }),
{
    let row = one + two + three + four + five + six;
    let b = one.len() + two.len();
    let c = b + three.len();
    let d = c + four.len();
    let e = d + five.len();
    assert(row.subrange(0, one.len() as int) =~= one);
    assert(row.subrange(one.len() as int, b as int) =~= two);
    assert(row.subrange(b as int, c as int) =~= three);
    assert(row.subrange(c as int, d as int) =~= four);
    assert(row.subrange(d as int, e as int) =~= five);
}

proof fn lemma_encoded(tag: u8, value: Seq<u8>)
    ensures
        encoded(tag, value).len() > 0,
        encoded(tag, value)[0] == tag,
        encoded(tag, value).len() >= value.len(),
{
    reveal(encoded);
}

#[verifier::rlimit(100)]
#[verifier::spinoff_prover]
proof fn lemma_contents(parts: CertificateParts, validity: Seq<u8>)
    requires
        parts.contents(validity).len() < 0x1_0000_0000,
        parts.contents(validity).len() + 6 <= usize::MAX,
    ensures
        tbs_window(parts.contents(validity)) == validity_window(validity),
{
    let tbs = parts.contents(validity);
    let version = match parts.version {
        Some(version) => encoded(0xa0, version),
        None => Seq::empty(),
    };
    let serial = encoded(0x02, parts.serial);
    let algorithm = encoded(0x30, parts.algorithm);
    let issuer = encoded(0x30, parts.issuer);
    let window = encoded(0x30, validity);
    let a = version.len() as int;
    let b = a + serial.len();
    let c = b + algorithm.len();
    let d = c + issuer.len();
    lemma_parts_in_a_row(version, serial, algorithm, issuer, window, parts.rest);
    lemma_encoded(0x02, parts.serial);
    lemma_element_at(tbs, a, 0x02, parts.serial);
    lemma_element_at(tbs, b, 0x30, parts.algorithm);
    lemma_element_at(tbs, c, 0x30, parts.issuer);
    lemma_element_at(tbs, d, 0x30, validity);
    if parts.version is Some {
        lemma_encoded(0xa0, parts.version->0);
        lemma_element_at(tbs, 0, 0xa0, parts.version->0);
    }
}

/// A certificate is valid from the first time that it states to the second, with or without a
/// version, whatever else it holds and in whichever kind its times are written. One whose second
/// time comes before its first is refused.
pub proof fn certificates_are_valid_from_the_first_time_to_the_second(
    parts: CertificateParts,
    from: CivilTime,
    from_generalized: bool,
    to: CivilTime,
    to_generalized: bool,
)
    requires
        from.valid(),
        to.valid(),
        from_generalized || from.short(),
        to_generalized || to.short(),
        ({
            let validity = encoded(time_tag(from_generalized), written(from, from_generalized))
                + encoded(time_tag(to_generalized), written(to, to_generalized));
            parts.certificate(validity).len() + 12 < 0x1_0000_0000 && parts.certificate(
                validity,
            ).len() + 12 <= usize::MAX
        }),
    ensures
        ({
            let validity = encoded(time_tag(from_generalized), written(from, from_generalized))
                + encoded(time_tag(to_generalized), written(to, to_generalized));
            let start = read_seconds(from, from_generalized)->Ok_0;
            let end = read_seconds(to, to_generalized)->Ok_0;
            certificate_window(parts.certificate(validity)) == if to.earlier(from) {
                Err::<(int, int), TlsError>(TlsError::InvalidWindow)
            } else {
                Ok((start, end))
            }
        }),
{
    let validity = encoded(time_tag(from_generalized), written(from, from_generalized)) + encoded(
        time_tag(to_generalized),
        written(to, to_generalized),
    );
    let none = Seq::<u8>::empty();
    let tbs = parts.contents(validity);
    let inner = encoded(0x30, tbs) + parts.signature;
    lemma_validity(from, from_generalized, to, to_generalized);
    lemma_encoded(0x30, inner);
    lemma_encoded(0x30, tbs);
    lemma_contents(parts, validity);
    lemma_first_element(0x30, inner, none);
    assert(encoded(0x30, inner) + none =~= parts.certificate(validity));
    lemma_first_element(0x30, tbs, parts.signature);
    reveal(certificate_window);
}

} // verus!
