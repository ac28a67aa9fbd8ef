//! Distinguished Encoding Rules, as far as the validity window of an X.509 certificate needs
//! them.

use super::calendar::{civil_day_number, days_from_civil, days_in_month, is_civil_date};
use super::error::TlsError;
use vstd::prelude::*;
use vstd::slice::slice_subrange;

verus! {

/// The tag of a SEQUENCE.
pub const TAG_SEQUENCE: u8 = 0x30;

/// The tag of an INTEGER.
pub const TAG_INTEGER: u8 = 0x02;

/// The tag of the explicit version field of a certificate.
pub const TAG_VERSION: u8 = 0xa0;

/// The tag of a UTCTime.
pub const TAG_UTC_TIME: u8 = 0x17;

/// The tag of a GeneralizedTime.
pub const TAG_GENERALIZED_TIME: u8 = 0x18;

/// Bytes read as one number, most significant first.
pub open spec fn big_endian(bytes: Seq<u8>) -> nat
    decreases bytes.len(),
{
    if bytes.len() == 0 {
        0
    } else {
        big_endian(bytes.drop_last()) * 256 + bytes.last() as nat
    }
}

/// The bytes that a length field at `at` takes, and the length it gives: below 128 the first
/// byte is the length, else its low seven bits say how many bytes of length follow.
pub open spec fn der_length(input: Seq<u8>, at: int) -> Result<(int, nat), TlsError> {
    if at >= input.len() {
        Err(TlsError::MissingDerLength)
    } else if input[at] < 128 {
        Ok((1, input[at] as nat))
    } else {
        let count = input[at] - 128;
        if !(1 <= count <= 4) {
            Err(TlsError::UnsupportedDerLength)
        } else if at + 1 + count > input.len() {
            Err(TlsError::TruncatedDerLength)
        } else {
            Ok((1 + count, big_endian(input.subrange(at + 1, at + 1 + count))))
        }
    }
}

/// The value of the element with tag `tag` at `at`, and the offset behind it.
pub open spec fn der_element(input: Seq<u8>, at: int, tag: u8) -> Result<
    (Seq<u8>, int),
    TlsError,
> {
    if at >= input.len() || input[at] != tag {
        Err(TlsError::UnexpectedDerTag)
    } else {
        match der_length(input, at + 1) {
            Err(error) => Err(error),
            Ok((taken, length)) => {
                let start = at + 1 + taken;
                if start + length > usize::MAX {
                    Err(TlsError::DerOffsetOverflow)
                } else if start + length > input.len() {
                    Err(TlsError::TruncatedDerValue)
                } else {
                    Ok((input.subrange(start, start + length), start + length))
                }
            },
        }
    }
}

/// Where a reader stands that could not read an element with tag `tag` at `at`: behind what it had
/// read of the tag and of the length.
pub open spec fn refused_at(input: Seq<u8>, at: int, tag: u8) -> int {
    if at >= input.len() || input[at] != tag {
        at
    } else {
        match der_length(input, at + 1) {
            Err(TlsError::MissingDerLength) => at + 1,
            Err(_) => at + 2,
            Ok((taken, _)) => at + 1 + taken,
        }
    }
}

/// Reads DER elements one behind the other.
pub struct DerReader<'a> {
    input: &'a [u8],
    offset: usize,
}

impl<'a> DerReader<'a> {
    /// The bytes that are read from.
    pub closed spec fn input(&self) -> Seq<u8> {
        self.input@
    }

    /// Where the next element starts.
    pub closed spec fn offset(&self) -> int {
        self.offset as int
    }

    /// The next element starts inside the input, or right behind it.
    pub open spec fn wf(&self) -> bool {
        0 <= self.offset() <= self.input().len()
    }

    /// A reader at the start of `input`.
    pub fn new(input: &'a [u8]) -> (reader: DerReader<'a>)
        ensures
            reader.wf(),
            reader.input() == input@,
            reader.offset() == 0,
    {
        DerReader { input, offset: 0 }
    }

    /// The tag of the next element, or `None` at the end of the input.
    pub fn peek_tag(&self) -> (tag: Option<u8>)
        requires
            self.wf(),
        ensures
            tag == if self.offset() < self.input().len() {
                Some(self.input()[self.offset()])
            } else {
                None
            },
    {
        if self.offset < self.input.len() {
            Some(self.input[self.offset])
        } else {
            None
        }
    }

    /// Reads the next element, which must have the tag `expected_tag`, and returns its value. On an
    /// error the reader stands behind what it had read of the element.
    pub fn read(&mut self, expected_tag: u8) -> (value: Result<&'a [u8], TlsError>)
        requires
            old(self).wf(),
        ensures
            final(self).wf(),
            final(self).input() == old(self).input(),
            match (value, der_element(old(self).input(), old(self).offset(), expected_tag)) {
                (Ok(read), Ok((element, end))) => read@ == element && final(self).offset() == end,
                (Err(error), Err(expected)) => error == expected && final(self).offset()
                    == refused_at(old(self).input(), old(self).offset(), expected_tag),
                _ => false,
            },
    {
        let input: &'a [u8] = self.input;
        let mut at: usize = self.offset;
        if at >= input.len() || input[at] != expected_tag {
            return Err(TlsError::UnexpectedDerTag);
        }
        at = at + 1;
        self.offset = at;
        if at >= input.len() {
            return Err(TlsError::MissingDerLength);
        }
        let first_length: u8 = input[at];
        at = at + 1;
        self.offset = at;
        let mut length: usize = 0;
        if first_length < 128 {
            length = first_length as usize;
        } else {
            let length_bytes: usize = (first_length - 128) as usize;
            if length_bytes < 1 || 4 < length_bytes {
                return Err(TlsError::UnsupportedDerLength);
            }
            if length_bytes > input.len() - at {
                return Err(TlsError::TruncatedDerLength);
            }
            let ghost start = at as int;
            let mut taken: usize = 0;
            while taken < length_bytes
                invariant
                    taken <= length_bytes <= 4,
                    start + length_bytes <= input@.len() <= usize::MAX,
                    at == start,
                    length == big_endian(input@.subrange(start, start + taken)),
                    taken == 0 ==> length == 0,
                    taken == 1 ==> length < 0x100,
                    taken == 2 ==> length < 0x1_0000,
                    taken == 3 ==> length < 0x100_0000,
                    taken == 4 ==> length < 0x1_0000_0000,
                decreases length_bytes - taken,
            {
                proof {
                    let longer = input@.subrange(start, start + taken + 1);
                    assert(longer.drop_last() =~= input@.subrange(start, start + taken));
                    assert(longer.last() == input@[start + taken]);
                }
                length = length * 256 + input[at + taken] as usize;
                taken = taken + 1;
            }
            at = at + length_bytes;
            self.offset = at;
        }
        if length > usize::MAX - at {
            return Err(TlsError::DerOffsetOverflow);
        }
        if length > input.len() - at {
            return Err(TlsError::TruncatedDerValue);
        }
        let end: usize = at + length;
        let value: &'a [u8] = slice_subrange(input, at, end);
        self.offset = end;
        Ok(value)
    }
}

/// Whether every byte is an ASCII digit.
pub open spec fn all_digits(input: Seq<u8>) -> bool {
    forall|i: int| 0 <= i < input.len() ==> 48 <= #[trigger] input[i] <= 57
}

/// The number that a run of ASCII digits spells.
pub open spec fn decimal_value(input: Seq<u8>) -> nat
    decreases input.len(),
{
    if input.len() == 0 {
        0
    } else {
        decimal_value(input.drop_last()) * 10 + (input.last() - 48) as nat
    }
}

/// What `parse_decimal` makes of its input.
pub open spec fn decimal(input: Seq<u8>) -> Result<int, TlsError> {
    if !all_digits(input) {
        Err(TlsError::InvalidDecimal)
    } else if decimal_value(input) > i64::MAX {
        Err(TlsError::DecimalOverflow)
    } else {
        Ok(decimal_value(input) as int)
    }
}

/// The number that ASCII digits spell.
pub fn parse_decimal(input: &[u8]) -> (value: Result<i64, TlsError>)
    ensures
        match (value, decimal(input@)) {
            (Ok(parsed), Ok(expected)) => parsed == expected,
            (Err(error), Err(expected)) => error == expected,
            _ => false,
        },
{
    let mut checked: usize = 0;
    while checked < input.len()
        invariant
            checked <= input@.len(),
            all_digits(input@.take(checked as int)),
        decreases input@.len() - checked,
    {
        if input[checked] < 48 || 57 < input[checked] {
            return Err(TlsError::InvalidDecimal);
        }
        proof {
            let longer = input@.take(checked + 1);
            assert forall|i: int| 0 <= i < longer.len() implies 48 <= #[trigger] longer[i] <= 57 by {
                if i < checked {
                    assert(input@.take(checked as int)[i] == longer[i]);
                }
            }
        }
        checked = checked + 1;
    }
    assert(input@.take(checked as int) =~= input@);
    let mut value: i64 = 0;
    let mut at: usize = 0;
    assert(input@.take(0).len() == 0);
    while at < input.len()
        invariant
            at <= input@.len(),
            all_digits(input@),
            0 <= value,
            value == decimal_value(input@.take(at as int)),
        decreases input@.len() - at,
    {
        let digit: i64 = (input[at] - 48) as i64;
        proof {
            assert(input@.take(at + 1).drop_last() =~= input@.take(at as int));
            assert(input@.take(at + 1).last() == input@[at as int]);
            lemma_decimal_prefix(input@, at + 1);
        }
        if value > (i64::MAX - digit) / 10 {
            return Err(TlsError::DecimalOverflow);
        }
        value = value * 10 + digit;
        at = at + 1;
    }
    assert(input@.take(at as int) =~= input@);
    Ok(value)
}

/// A run of digits spells at least the number that its first digits spell.
proof fn lemma_decimal_prefix(input: Seq<u8>, count: int)
    requires
        0 <= count <= input.len(),
    ensures
        decimal_value(input.take(count)) <= decimal_value(input),
    decreases input.len(),
{
    if count < input.len() {
        lemma_decimal_prefix(input.drop_last(), count);
        assert(input.drop_last().take(count) =~= input.take(count));
    } else {
        assert(input.take(count) =~= input);
    }
}

/// Month, day, hour, minute and second from ten digits, checked as a date of `year`.
pub open spec fn time_of_year(year: int, digits: Seq<u8>) -> Result<int, TlsError> {
    let month = decimal(digits.subrange(0, 2));
    let day = decimal(digits.subrange(2, 4));
    let hour = decimal(digits.subrange(4, 6));
    let minute = decimal(digits.subrange(6, 8));
    let second = decimal(digits.subrange(8, 10));
    if month is Err {
        month
    } else if day is Err {
        day
    } else if hour is Err {
        hour
    } else if minute is Err {
        minute
    } else if second is Err {
        second
    } else if !(1 <= month->Ok_0 <= 12) {
        Err(TlsError::InvalidMonth)
    } else if !is_civil_date(year, month->Ok_0, day->Ok_0) {
        Err(TlsError::InvalidDay)
    } else if hour->Ok_0 >= 24 || minute->Ok_0 >= 60 || second->Ok_0 >= 60 {
        Err(TlsError::InvalidTimeOfDay)
    } else {
        Ok(
            civil_day_number(year, month->Ok_0, day->Ok_0) * 86_400 + hour->Ok_0 * 3_600
                + minute->Ok_0 * 60 + second->Ok_0,
        )
    }
}

/// Seconds from 1970 to a time whose year is known and whose remaining text is `rest`: ten
/// digits and a `Z`.
pub open spec fn utc_time(year: int, rest: Seq<u8>) -> Result<int, TlsError> {
    if rest.last() != 90 {
        Err(TlsError::TimeNotUtc)
    } else {
        time_of_year(year, rest)
    }
}

/// Seconds from 1970 to an X.509 time: a UTCTime has two digits of year, of which 50 and above
/// fall in the twentieth century, a GeneralizedTime has four.
pub open spec fn x509_time(tag: u8, value: Seq<u8>) -> Result<int, TlsError> {
    if tag == TAG_UTC_TIME {
        if value.len() != 13 {
            Err(TlsError::InvalidUtcTime)
        } else {
            match decimal(value.subrange(0, 2)) {
                Err(error) => Err(error),
                Ok(short) => utc_time(
                    if short >= 50 {
                        1900 + short
                    } else {
                        2000 + short
                    },
                    value.subrange(2, 13),
                ),
            }
        }
    } else if tag == TAG_GENERALIZED_TIME {
        if value.len() != 15 {
            Err(TlsError::InvalidGeneralizedTime)
        } else {
            match decimal(value.subrange(0, 4)) {
                Err(error) => Err(error),
                Ok(year) => utc_time(year, value.subrange(4, 15)),
            }
        }
    } else {
        Err(TlsError::InvalidTimeTag)
    }
}

/// The time at `at`, and the offset behind it.
pub open spec fn der_time(input: Seq<u8>, at: int) -> Result<(int, int), TlsError> {
    if at >= input.len() {
        Err(TlsError::MissingTime)
    } else {
        match der_element(input, at, input[at]) {
            Err(error) => Err(error),
            Ok((value, end)) => match x509_time(input[at], value) {
                Err(error) => Err(error),
                Ok(seconds) => Ok((seconds, end)),
            },
        }
    }
}

/// Whether an executable result is the specified one.
pub open spec fn same_number(value: Result<i64, TlsError>, expected: Result<int, TlsError>) -> bool {
    match (value, expected) {
        (Ok(parsed), Ok(number)) => parsed == number,
        (Err(error), Err(reason)) => error == reason,
        _ => false,
    }
}

proof fn lemma_short_decimal(input: Seq<u8>)
    requires
        all_digits(input),
        input.len() == 2 || input.len() == 4,
    ensures
        decimal_value(input) < (if input.len() == 2 {
            100nat
        } else {
            10_000nat
        }),
{
    reveal_with_fuel(decimal_value, 5);
    assert(input.drop_last().last() == input[input.len() - 2]);
    if input.len() == 4 {
        assert(input.drop_last().drop_last().last() == input[1]);
        assert(input.drop_last().drop_last().drop_last().last() == input[0]);
    }
}

/// Seconds from 1970 to the time of `year` that `rest` spells.
fn read_utc_time(year: i64, rest: &[u8]) -> (seconds: Result<i64, TlsError>)
    requires
        0 <= year < 10_000,
        rest@.len() == 11,
    ensures
        same_number(seconds, utc_time(year as int, rest@)),
{
    if rest[10] != 90 {
        return Err(TlsError::TimeNotUtc);
    }
    let month: i64 = match parse_decimal(slice_subrange(rest, 0, 2)) {
        Ok(value) => value,
        Err(error) => return Err(error),
    };
    let day: i64 = match parse_decimal(slice_subrange(rest, 2, 4)) {
        Ok(value) => value,
        Err(error) => return Err(error),
    };
    let hour: i64 = match parse_decimal(slice_subrange(rest, 4, 6)) {
        Ok(value) => value,
        Err(error) => return Err(error),
    };
    let minute: i64 = match parse_decimal(slice_subrange(rest, 6, 8)) {
        Ok(value) => value,
        Err(error) => return Err(error),
    };
    let second: i64 = match parse_decimal(slice_subrange(rest, 8, 10)) {
        Ok(value) => value,
        Err(error) => return Err(error),
    };
    if month < 1 || 12 < month {
        return Err(TlsError::InvalidMonth);
    }
    if day < 1 || days_in_month(year, month) < day {
        return Err(TlsError::InvalidDay);
    }
    if hour >= 24 || minute >= 60 || second >= 60 {
        return Err(TlsError::InvalidTimeOfDay);
    }
    proof {
        super::calendar::lemma_day_number_bound(year as int, month as int, day as int);
    }
    let days: i64 = days_from_civil(year, month, day);
    Ok(days * 86_400 + hour * 3_600 + minute * 60 + second)
}

/// Where a reader stands that could not read a validity time at `at`: where reading the element was
/// refused, or behind the element where it is no such time.
pub open spec fn time_refused_at(input: Seq<u8>, at: int) -> int {
    if at >= input.len() {
        at
    } else {
        match der_element(input, at, input[at]) {
            Err(_) => refused_at(input, at, input[at]),
            Ok((_, end)) => end,
        }
    }
}

/// Reads one validity time, in seconds from 1970.
pub fn read_der_time(reader: &mut DerReader<'_>) -> (seconds: Result<i64, TlsError>)
    requires
        old(reader).wf(),
    ensures
        final(reader).wf(),
        final(reader).input() == old(reader).input(),
        match (seconds, der_time(old(reader).input(), old(reader).offset())) {
            (Ok(parsed), Ok((number, end))) => parsed == number && final(reader).offset() == end,
            (Err(error), Err(reason)) => error == reason && final(reader).offset()
                == time_refused_at(old(reader).input(), old(reader).offset()),
            _ => false,
        },
{
    let tag: u8 = match reader.peek_tag() {
        Some(tag) => tag,
        None => return Err(TlsError::MissingTime),
    };
    let value: &[u8] = match reader.read(tag) {
        Ok(value) => value,
        Err(error) => return Err(error),
    };
    if tag == TAG_UTC_TIME {
        if value.len() != 13 {
            return Err(TlsError::InvalidUtcTime);
        }
        let short: i64 = match parse_decimal(slice_subrange(value, 0, 2)) {
            Ok(year) => year,
            Err(error) => return Err(error),
        };
        proof {
            lemma_short_decimal(value@.subrange(0, 2));
        }
        let year: i64 = if short >= 50 { 1900 + short } else { 2000 + short };
        read_utc_time(year, slice_subrange(value, 2, 13))
    } else if tag == TAG_GENERALIZED_TIME {
        if value.len() != 15 {
            return Err(TlsError::InvalidGeneralizedTime);
        }
        let year: i64 = match parse_decimal(slice_subrange(value, 0, 4)) {
            Ok(year) => year,
            Err(error) => return Err(error),
        };
        proof {
            lemma_short_decimal(value@.subrange(0, 4));
        }
        read_utc_time(year, slice_subrange(value, 4, 15))
    } else {
        Err(TlsError::InvalidTimeTag)
    }
}

/// The first and last second of a validity window.
#[derive(Clone, Copy, Debug, PartialEq, Eq, Structural)]
pub struct CertificateValidity {
    pub not_before_unix_seconds: i64,
    pub not_after_unix_seconds: i64,
}

impl CertificateValidity {
    /// Whether `now` falls inside the window, both ends counted.
    pub open spec fn contains(self, now: int) -> bool {
        self.not_before_unix_seconds <= now <= self.not_after_unix_seconds
    }
}

/// The window that starts and ends at the two times at the start of `input`.
pub open spec fn validity_window(input: Seq<u8>) -> Result<(int, int), TlsError> {
    match der_time(input, 0) {
        Err(error) => Err(error),
        Ok((not_before, middle)) => match der_time(input, middle) {
            Err(error) => Err(error),
            Ok((not_after, end)) => if not_before <= not_after {
                Ok((not_before, not_after))
            } else {
                Err(TlsError::InvalidWindow)
            },
        },
    }
}

/// The contents of a certificate from `at` on: serial number, signature algorithm, issuer and
/// validity.
pub open spec fn window_behind_version(tbs: Seq<u8>, at: int) -> Result<(int, int), TlsError> {
    match der_element(tbs, at, TAG_INTEGER) {
        Err(error) => Err(error),
        Ok((serial, after_serial)) => match der_element(tbs, after_serial, TAG_SEQUENCE) {
            Err(error) => Err(error),
            Ok((algorithm, after_algorithm)) => match der_element(
                tbs,
                after_algorithm,
                TAG_SEQUENCE,
            ) {
                Err(error) => Err(error),
                Ok((issuer, after_issuer)) => match der_element(tbs, after_issuer, TAG_SEQUENCE) {
                    Err(error) => Err(error),
                    Ok((validity, end)) => validity_window(validity),
                },
            },
        },
    }
}

/// The validity window of the contents of a certificate, which may start with a version.
pub open spec fn tbs_window(tbs: Seq<u8>) -> Result<(int, int), TlsError> {
    if tbs.len() > 0 && tbs[0] == TAG_VERSION {
        match der_element(tbs, 0, TAG_VERSION) {
            Err(error) => Err(error),
            Ok((version, after_version)) => window_behind_version(tbs, after_version),
        }
    } else {
        window_behind_version(tbs, 0)
    }
}

/// The validity window of a DER certificate: a sequence whose first element is the sequence of
/// its contents.
#[verifier::opaque]
pub open spec fn certificate_window(cert: Seq<u8>) -> Result<(int, int), TlsError> {
    match der_element(cert, 0, TAG_SEQUENCE) {
        Err(error) => Err(error),
        Ok((certificate, end)) => match der_element(certificate, 0, TAG_SEQUENCE) {
            Err(error) => Err(error),
            Ok((tbs, tbs_end)) => tbs_window(tbs),
        },
    }
}

/// Whether an executable window is the specified one.
pub open spec fn same_window(
    value: Result<CertificateValidity, TlsError>,
    expected: Result<(int, int), TlsError>,
) -> bool {
    match (value, expected) {
        (Ok(window), Ok((not_before, not_after))) => window.not_before_unix_seconds == not_before
            && window.not_after_unix_seconds == not_after,
        (Err(error), Err(reason)) => error == reason,
        _ => false,
    }
}

fn read_validity_window(input: &[u8]) -> (window: Result<CertificateValidity, TlsError>)
    ensures
        same_window(window, validity_window(input@)),
{
    let mut validity = DerReader::new(input);
    let not_before: i64 = match read_der_time(&mut validity) {
        Ok(seconds) => seconds,
        Err(error) => return Err(error),
    };
    let not_after: i64 = match read_der_time(&mut validity) {
        Ok(seconds) => seconds,
        Err(error) => return Err(error),
    };
    if not_before > not_after {
        return Err(TlsError::InvalidWindow);
    }
    Ok(
        CertificateValidity {
            not_before_unix_seconds: not_before,
            not_after_unix_seconds: not_after,
        },
    )
}

/// The validity window of a DER-encoded certificate.
pub fn parse_certificate_validity(cert_der: &[u8]) -> (window: Result<
    CertificateValidity,
    TlsError,
>)
    ensures
        same_window(window, certificate_window(cert_der@)),
        window is Ok ==> window->Ok_0.not_before_unix_seconds
            <= window->Ok_0.not_after_unix_seconds,
{
    reveal(certificate_window);
    let mut outer = DerReader::new(cert_der);
    let certificate_sequence: &[u8] = match outer.read(TAG_SEQUENCE) {
        Ok(value) => value,
        Err(error) => return Err(error),
    };
    let mut certificate = DerReader::new(certificate_sequence);
    let tbs_certificate: &[u8] = match certificate.read(TAG_SEQUENCE) {
        Ok(value) => value,
        Err(error) => return Err(error),
    };
    let mut tbs = DerReader::new(tbs_certificate);
    if let Some(tag) = tbs.peek_tag() {
        if tag == TAG_VERSION {
            if let Err(error) = tbs.read(TAG_VERSION) {
                return Err(error);
            }
        }
    }
    if let Err(error) = tbs.read(TAG_INTEGER) {
        return Err(error);
    }
    if let Err(error) = tbs.read(TAG_SEQUENCE) {
        return Err(error);
    }
    if let Err(error) = tbs.read(TAG_SEQUENCE) {
        return Err(error);
    }
    match tbs.read(TAG_SEQUENCE) {
        Ok(validity) => read_validity_window(validity),
        Err(error) => Err(error),
    }
}

/// The byte that starts a DER length below 128, or the bytes that spell a longer one.
pub open spec fn encoded_length(length: nat) -> Seq<u8> {
    if length < 128 {
        seq![length as u8]
    } else {
        seq![
            132u8,
            (length / 0x100_0000) as u8,
            (length / 0x1_0000 % 256) as u8,
            (length / 0x100 % 256) as u8,
            (length % 256) as u8,
        ]
    }
}

/// An encoded element is read back as it was written, whatever stands before and behind it.
pub proof fn reading_returns_what_was_encoded(
    before: Seq<u8>,
    tag: u8,
    value: Seq<u8>,
    behind: Seq<u8>,
)
    requires
        value.len() < 0x1_0000_0000,
        before.len() + 6 + value.len() <= usize::MAX,
    ensures
        ({
            let element = seq![tag] + encoded_length(value.len()) + value;
            der_element(before + element + behind, before.len() as int, tag) == Ok::<
                (Seq<u8>, int),
                TlsError,
            >((value, (before + element).len() as int))
        }),
{
    let length = encoded_length(value.len());
    let element = seq![tag] + length + value;
    let input = before + element + behind;
    let at = before.len() as int;
    assert(input[at] == tag);
    assert(input[at + 1] == length[0]);
    if value.len() >= 128 {
        let digits = input.subrange(at + 2, at + 6);
        assert(digits =~= length.subrange(1, 5));
        let n = value.len();
        reveal_with_fuel(big_endian, 5);
        assert(digits.drop_last().last() == digits[2]);
        assert(digits.drop_last().drop_last().last() == digits[1]);
        assert(digits.drop_last().drop_last().drop_last().last() == digits[0]);
        assert(n / 0x100_0000 < 256);
        assert(big_endian(digits) == n);
    }
    let start = at + 1 + length.len();
    assert(input.subrange(start, start + value.len()) =~= value);
}

} // verus!
