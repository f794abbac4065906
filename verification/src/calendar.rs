//! Calendar dates in UTC, as far as the normalisation of publish dates needs
//! them.

use chrono::Datelike;
use vstd::prelude::*;
use vstd::string::StringSliceAdditionalSpecFns;

verus! {

/// A day of the proleptic Gregorian calendar.
#[derive(Clone, Copy, Debug, PartialEq, Eq, Structural, Hash)]
pub struct CalendarDate {
    pub year: i32,
    pub month: u32,
    pub day: u32,
}

/// The UTC calendar day `(year, month, day)` on which the instant `millis`
/// milliseconds after 1970-01-01T00:00:00Z falls, or `None` where the
/// calendar in use cannot represent that instant.
pub uninterp spec fn utc_calendar_date(millis: int) -> Option<(int, int, int)>;

impl CalendarDate {
    /// The date as a triple of mathematical integers.
    pub open spec fn triple(self) -> (int, int, int) {
        (self.year as int, self.month as int, self.day as int)
    }

    /// The triple of an optional date.
    pub open spec fn triple_of(date: Option<CalendarDate>) -> Option<(int, int, int)> {
        match date {
            Some(d) => Some(d.triple()),
            None => None,
        }
    }

    /// Trusted: calls `chrono::DateTime::from_timestamp_millis` and reads the
    /// year, month and day of the UTC date it returns through
    /// `DateTime::date_naive` and `chrono::Datelike`. The contract only names
    /// that result: it is `None` exactly where chrono reports the instant as
    /// out of range, and otherwise the day chrono computes.
    #[verifier::external_body]
    pub(crate) fn from_epoch_millis(millis: i64) -> (date: Option<CalendarDate>)
        ensures
            CalendarDate::triple_of(date) == utc_calendar_date(millis as int),
    {
        match chrono::DateTime::from_timestamp_millis(millis) {
            Some(instant) => {
                let day = instant.date_naive();
                Some(CalendarDate { year: day.year(), month: day.month(), day: day.day() })
            },
            None => None,
        }
    }
}

/// Whether a byte is an ASCII decimal digit.
pub open spec fn is_digit(byte: u8) -> bool {
    48 <= byte <= 57
}

/// Whether every byte is an ASCII decimal digit.
pub open spec fn all_digits(bytes: Seq<u8>) -> bool {
    forall|i: int| 0 <= i < bytes.len() ==> is_digit(#[trigger] bytes[i])
}

/// The number that a run of decimal digits writes.
pub open spec fn digits_value(digits: Seq<u8>) -> int
    decreases digits.len(),
{
    if digits.len() == 0 {
        0
    } else {
        digits_value(digits.drop_last()) * 10 + (digits.last() - 48)
    }
}

/// The length of the sign at the start of a text: one where the text begins
/// with `+` or `-`, zero otherwise.
pub open spec fn sign_length(text: Seq<u8>) -> int {
    if text.len() > 0 && (text[0] == 43 || text[0] == 45) {
        1
    } else {
        0
    }
}

/// The integer that a text writes in decimal: an optional sign followed by
/// one or more digits and nothing else. Any other text writes no integer.
pub open spec fn integer_of_text(text: Seq<u8>) -> Option<int> {
    let digits = text.skip(sign_length(text));
    if digits.len() == 0 || !all_digits(digits) {
        None
    } else if text[0] == 45 {
        Some(-digits_value(digits))
    } else {
        Some(digits_value(digits))
    }
}

/// The timestamp in epoch milliseconds that a text stands for: the integer
/// it writes, where it writes one that a timestamp can hold.
pub open spec fn timestamp_of_text(text: Seq<u8>) -> Option<i64> {
    match integer_of_text(text) {
        Some(value) => if i64::MIN <= value <= i64::MAX {
            Some(value as i64)
        } else {
            None
        },
        None => None,
    }
}

/// A run of digits writes a number that is not negative and not smaller
/// than the number any of its beginnings writes.
pub proof fn lemma_digits_value_grows(digits: Seq<u8>, k: int)
    requires
        all_digits(digits),
        0 <= k <= digits.len(),
    ensures
        0 <= digits_value(digits.take(k)) <= digits_value(digits),
    decreases digits.len(),
{
    if k == digits.len() {
        assert(digits.take(k) =~= digits);
        if digits.len() > 0 {
            lemma_digits_value_grows(digits.drop_last(), k - 1);
            assert(digits.drop_last().take(k - 1) =~= digits.drop_last());
            assert(is_digit(digits[digits.len() - 1]));
        }
    } else {
        lemma_digits_value_grows(digits.drop_last(), k);
        assert(digits.drop_last().take(k) =~= digits.take(k));
        assert(is_digit(digits[digits.len() - 1]));
    }
}

/// Reads a timestamp in epoch milliseconds from the text of a raw payload
/// field. The text must be a decimal integer in UTF-8: an optional sign, then
/// digits. Text that is no such integer, or one too large for a timestamp,
/// gives `None`: the field then counts as absent.
pub fn parse_timestamp(text: &str) -> (millis: Option<i64>)
    ensures
        millis == timestamp_of_text(text.spec_bytes()),
{
    let bytes = text.as_bytes();
    let n = bytes.len();
    let negative = n > 0 && bytes[0] == 45;
    let start: usize = if n > 0 && (bytes[0] == 43 || bytes[0] == 45) {
        1
    } else {
        0
    };
    let ghost digits = bytes@.skip(start as int);
    if start == n {
        return None;
    }
    let limit: i128 = 0x8000_0000_0000_0000;
    let mut value: i128 = 0;
    let mut i: usize = start;
    assert(digits.take(0) =~= Seq::<u8>::empty());
    while i < n
        invariant
            start <= i <= n,
            n == bytes@.len(),
            bytes@ == text.spec_bytes(),
            start == sign_length(bytes@),
            digits == bytes@.skip(start as int),
            limit == 0x8000_0000_0000_0000,
            0 <= value <= limit,
            value == digits_value(digits.take(i - start)),
            all_digits(digits.take(i - start)),
        decreases n - i,
    {
        let byte = bytes[i];
        assert(digits[i - start] == byte);
        if byte < 48 || byte > 57 {
            assert(!is_digit(digits[i - start]));
            return None;
        }
        assert(digits.take(i - start + 1).drop_last() =~= digits.take(i - start));
        assert(all_digits(digits.take(i - start + 1))) by {
            assert forall|j: int| 0 <= j < i - start + 1 implies is_digit(
                #[trigger] digits.take(i - start + 1)[j],
            ) by {
                if j < i - start {
                    assert(is_digit(digits.take(i - start)[j]));
                }
            }
        }
        value = value * 10 + (byte - 48) as i128;
        i += 1;
        if value > limit {
            proof {
                if all_digits(digits) {
                    lemma_digits_value_grows(digits, i - start);
                }
            }
            return None;
        }
    }
    assert(digits.take(n - start) =~= digits);
    if negative {
        Some((-value) as i64)
    } else if value == limit {
        None
    } else {
        Some(value as i64)
    }
}

/// The UTC day that an optional timestamp in epoch milliseconds falls on. A
/// missing timestamp, or one outside the calendar, gives no date.
pub open spec fn published_on(millis: Option<i64>) -> Option<CalendarDate> {
    match millis {
        Some(ms) => match utc_calendar_date(ms as int) {
            Some(day) => Some(
                CalendarDate { year: day.0 as i32, month: day.1 as u32, day: day.2 as u32 },
            ),
            None => None,
        },
        None => None,
    }
}

/// Turns an optional timestamp in epoch milliseconds into the UTC day it
/// falls on. The result is absent when the timestamp is absent or out of the
/// calendar's range; it is never replaced by a default.
pub fn publish_date(millis: Option<i64>) -> (date: Option<CalendarDate>)
    ensures
        date == published_on(millis),
{
    match millis {
        Some(ms) => CalendarDate::from_epoch_millis(ms),
        None => None,
    }
}

} // verus!
