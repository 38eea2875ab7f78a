//! Publication-date handling: a `YYYY-MM-DD` string from the upstream JSON is
//! parsed into a calendar date and formatted per RFC 2822 for the feed. A
//! string that fails any step yields no date at all — the feed item simply
//! omits the field.

use vstd::prelude::*;

verus! {

/// A calendar date at midnight UTC, as the feed logic reads it.
#[derive(Clone, Copy, Debug, PartialEq, Eq, Structural)]
pub struct Date {
    pub year: i32,
    pub month: u8,
    pub day: u8,
}

pub open spec fn is_digit(c: char) -> bool {
    48 <= c as u32 && c as u32 <= 57
}

pub open spec fn digit_val(c: char) -> int {
    c as u32 - 48
}

pub open spec fn all_digits(s: Seq<char>) -> bool {
    forall|i: int| 0 <= i < s.len() ==> is_digit(#[trigger] s[i])
}

/// The value of a string of decimal digits.
pub open spec fn digits_val(s: Seq<char>) -> int
    decreases s.len(),
{
    if s.len() == 0 {
        0
    } else {
        digits_val(s.drop_last()) * 10 + digit_val(s.last())
    }
}

/// What parsing a run of decimal digits yields: at least one digit, nothing
/// else.
pub open spec fn parse_digits(s: Seq<char>) -> Option<int> {
    if s.len() > 0 && all_digits(s) {
        Some(digits_val(s))
    } else {
        None
    }
}

/// What parsing an unsigned integer segment yields: an optional `+`, then at
/// least one digit.
pub open spec fn parse_uint(s: Seq<char>) -> Option<int> {
    if s.len() > 0 && s[0] == '+' {
        parse_digits(s.drop_first())
    } else {
        parse_digits(s)
    }
}

/// What parsing a signed integer segment yields: an optional `+` or `-`, then
/// at least one digit.
pub open spec fn parse_int(s: Seq<char>) -> Option<int> {
    if s.len() > 0 && s[0] == '-' {
        match parse_digits(s.drop_first()) {
            Some(v) => Some(-v),
            None => None,
        }
    } else {
        parse_uint(s)
    }
}

/// The proleptic Gregorian leap-year rule, written over the year's magnitude
/// (the rule is symmetric around year zero).
pub open spec fn spec_is_leap_year(y: int) -> bool {
    let a = if y < 0 {
        -y
    } else {
        y
    };
    a % 4 == 0 && (a % 100 != 0 || a % 400 == 0)
}

pub open spec fn spec_days_in_month(y: int, m: int) -> int {
    if m == 2 {
        if spec_is_leap_year(y) {
            29
        } else {
            28
        }
    } else if m == 4 || m == 6 || m == 9 || m == 11 {
        30
    } else {
        31
    }
}

/// A calendar date the feed accepts: a four-digit-representable year, a real
/// month, and a day that exists in that month of that year.
pub open spec fn spec_valid_date(y: int, m: int, d: int) -> bool {
    &&& -9999 <= y <= 9999
    &&& 1 <= m <= 12
    &&& 1 <= d <= spec_days_in_month(y, m)
}

/// The whole date-parsing rule: exactly ten characters, with characters
/// [0, 4) the year, [5, 7) the month and [8, 10) the day (the separators at
/// positions 4 and 7 are never looked at), each segment an integer, and the
/// three segments a valid calendar date.
pub open spec fn spec_parse_date(s: Seq<char>) -> Option<(int, int, int)> {
    if s.len() != 10 {
        None
    } else {
        match (parse_int(s.subrange(0, 4)), parse_uint(s.subrange(5, 7)), parse_uint(
            s.subrange(8, 10),
        )) {
            (Some(y), Some(m), Some(d)) => if spec_valid_date(y, m, d) {
                Some((y, m, d))
            } else {
                None
            },
            _ => None,
        }
    }
}

spec fn pow10(n: nat) -> int
    decreases n,
{
    if n == 0 {
        1
    } else {
        10 * pow10((n - 1) as nat)
    }
}

proof fn lemma_digits_val_bound(s: Seq<char>)
    requires
        all_digits(s),
    ensures
        0 <= digits_val(s) < pow10(s.len()),
    decreases s.len(),
{
    if s.len() > 0 {
        assert(all_digits(s.drop_last())) by {
            assert(forall|i: int|
                0 <= i < s.len() - 1 ==> #[trigger] s.drop_last()[i] == s[i]);
        }
        lemma_digits_val_bound(s.drop_last());
        assert(is_digit(s.last()));
    }
}

fn is_leap_year(year: i32) -> (r: bool)
    requires
        -9999 <= year <= 9999,
    ensures
        r == spec_is_leap_year(year as int),
{
    let a: i32 = if year < 0 {
        -year
    } else {
        year
    };
    a % 4 == 0 && (a % 100 != 0 || a % 400 == 0)
}

/// How many days the given month of the given year has. The year must
/// already be range-validated, as every calendar rule here assumes.
pub fn days_in_month(year: i32, month: u8) -> (r: u8)
    requires
        -9999 <= year <= 9999,
        1 <= month <= 12,
    ensures
        r as int == spec_days_in_month(year as int, month as int),
{
    if month == 2 {
        if is_leap_year(year) {
            29
        } else {
            28
        }
    } else if month == 4 || month == 6 || month == 9 || month == 11 {
        30
    } else {
        31
    }
}

fn parse_digits_exec(s: &str, from: usize, to: usize) -> (r: Option<u32>)
    requires
        from <= to <= s@.len(),
        to - from <= 4,
    ensures
        match r {
            Some(v) => parse_digits(s@.subrange(from as int, to as int)) == Some(v as int),
            None => parse_digits(s@.subrange(from as int, to as int)) is None,
        },
{
    if from == to {
        return None;
    }
    let mut i: usize = from;
    let mut acc: u32 = 0;
    while i < to
        invariant
            from <= i <= to <= s@.len(),
            to - from <= 4,
            all_digits(s@.subrange(from as int, i as int)),
            acc as int == digits_val(s@.subrange(from as int, i as int)),
        decreases to - i,
    {
        let c = s.get_char(i);
        let cv = c as u32;
        if cv < 48 || cv > 57 {
            proof {
                assert(s@.subrange(from as int, to as int)[i - from] == s@[i as int]);
            }
            return None;
        }
        proof {
            let prefix = s@.subrange(from as int, i as int);
            let next = s@.subrange(from as int, i + 1);
            assert(next.drop_last() =~= prefix);
            assert(next.last() == s@[i as int]);
            assert(forall|j: int| 0 <= j < next.len() ==> is_digit(#[trigger] next[j]));
            lemma_digits_val_bound(prefix);
            assert(pow10(0) == 1 && pow10(1) == 10 && pow10(2) == 100 && pow10(3) == 1000);
            let k = (i - from) as nat;
            assert(k == 0 || k == 1 || k == 2 || k == 3);
            assert(pow10(k) <= 1000);
        }
        acc = acc * 10 + (cv - 48);
        i = i + 1;
    }
    Some(acc)
}

fn parse_uint_exec(s: &str, from: usize, to: usize) -> (r: Option<u32>)
    requires
        from <= to <= s@.len(),
        to - from <= 4,
    ensures
        match r {
            Some(v) => parse_uint(s@.subrange(from as int, to as int)) == Some(v as int),
            None => parse_uint(s@.subrange(from as int, to as int)) is None,
        },
{
    if to > from && s.get_char(from) == '+' {
        let r = parse_digits_exec(s, from + 1, to);
        proof {
            assert(s@.subrange(from as int, to as int).drop_first() =~= s@.subrange(
                from + 1,
                to as int,
            ));
        }
        r
    } else {
        parse_digits_exec(s, from, to)
    }
}

fn parse_int_exec(s: &str, from: usize, to: usize) -> (r: Option<i32>)
    requires
        from <= to <= s@.len(),
        to - from <= 4,
    ensures
        match r {
            Some(v) => parse_int(s@.subrange(from as int, to as int)) == Some(v as int),
            None => parse_int(s@.subrange(from as int, to as int)) is None,
        },
{
    if to > from && s.get_char(from) == '-' {
        match parse_digits_exec(s, from + 1, to) {
            Some(v) => {
                proof {
                    let rest = s@.subrange(from + 1, to as int);
                    assert(s@.subrange(from as int, to as int).drop_first() =~= rest);
                    lemma_digits_val_bound(rest);
                    reveal_with_fuel(pow10, 5);
                    assert(pow10(0) == 1 && pow10(1) == 10 && pow10(2) == 100 && pow10(3) == 1000
                        && pow10(4) == 10000);
                    assert(rest.len() <= 4);
                    assert(pow10(rest.len()) <= 10000);
                }
                Some(-(v as i32))
            },
            None => {
                proof {
                    assert(s@.subrange(from as int, to as int).drop_first() =~= s@.subrange(
                        from + 1,
                        to as int,
                    ));
                }
                None
            },
        }
    } else {
        match parse_uint_exec(s, from, to) {
            Some(v) => {
                proof {
                    let seg = s@.subrange(from as int, to as int);
                    let body = if seg.len() > 0 && seg[0] == '+' {
                        seg.drop_first()
                    } else {
                        seg
                    };
                    lemma_digits_val_bound(body);
                    reveal_with_fuel(pow10, 5);
                    assert(pow10(0) == 1 && pow10(1) == 10 && pow10(2) == 100 && pow10(3) == 1000
                        && pow10(4) == 10000);
                    assert(body.len() <= 4);
                    assert(pow10(body.len()) <= 10000);
                }
                Some(v as i32)
            },
            None => None,
        }
    }
}

/// Parse an upstream date string per the feed's rule (see `spec_parse_date`).
/// Anything malformed — wrong length, a non-numeric segment, a month or day
/// out of range — yields `None` rather than an error.
pub fn parse_date(date: &str) -> (r: Option<Date>)
    ensures
        match r {
            Some(d) => spec_parse_date(date@) == Some(
                (d.year as int, d.month as int, d.day as int),
            ),
            None => spec_parse_date(date@) is None,
        },
{
    let n = date.unicode_len();
    if n != 10 {
        return None;
    }
    let year: i32 = match parse_int_exec(date, 0, 4) {
        Some(v) => v,
        None => {
            return None;
        },
    };
    let month_v: u32 = match parse_uint_exec(date, 5, 7) {
        Some(v) => v,
        None => {
            return None;
        },
    };
    let day_v: u32 = match parse_uint_exec(date, 8, 10) {
        Some(v) => v,
        None => {
            return None;
        },
    };
    if year < -9999 || year > 9999 {
        return None;
    }
    if month_v < 1 || month_v > 12 {
        return None;
    }
    let month: u8 = month_v as u8;
    if day_v < 1 || day_v > 31 {
        return None;
    }
    let day: u8 = day_v as u8;
    if day > days_in_month(year, month) {
        return None;
    }
    Some(Date { year, month, day })
}

/// The RFC 2822 rendering of a calendar date at midnight UTC, e.g.
/// `Tue, 05 Jan 2021 00:00:00 +0000`. Computing it (the weekday above all) is
/// left to the `time` crate; the name stands for that result, which depends
/// on the three numbers alone.
pub uninterp spec fn rfc2822_of(year: int, month: int, day: int) -> Seq<char>;

/// Relies on `time`'s `OffsetDateTime::format` with the `Rfc2822` well-known
/// format: for a valid calendar date at midnight UTC the output is a function
/// of year, month and day alone, and formatting succeeds exactly when the
/// year is at least 1900 (the format insists on four-digit years and its
/// epoch starts there).
#[verifier::external_body]
fn format_rfc2822(year: i32, month: u8, day: u8) -> (r: Option<String>)
    requires
        spec_valid_date(year as int, month as int, day as int),
    ensures
        r is Some <==> year >= 1900,
        r matches Some(s) ==> s@ == rfc2822_of(year as int, month as int, day as int),
{
    let month = time::Month::try_from(month).ok()?;
    let date = time::Date::from_calendar_date(year, month, day).ok()?;
    let dt = time::PrimitiveDateTime::new(date, time::Time::MIDNIGHT).assume_offset(
        time::UtcOffset::UTC,
    );
    dt.format(&time::format_description::well_known::Rfc2822).ok()
}

/// What a feed item's publication date is for a given upstream date string:
/// the RFC 2822 rendering of the parsed date, or nothing if the string does
/// not parse or the date cannot be rendered.
pub open spec fn spec_pub_date(s: Seq<char>) -> Option<Seq<char>> {
    match spec_parse_date(s) {
        Some((y, m, d)) => if y >= 1900 {
            Some(rfc2822_of(y, m, d))
        } else {
            None
        },
        None => None,
    }
}

/// The publication date of a feed item: the upstream date string parsed and
/// rendered per RFC 2822, or `None` if either step fails.
pub fn format_pub_date(date: &str) -> (r: Option<String>)
    ensures
        match r {
            Some(s) => spec_pub_date(date@) == Some(s@),
            None => spec_pub_date(date@) is None,
        },
{
    match parse_date(date) {
        Some(d) => format_rfc2822(d.year, d.month, d.day),
        None => None,
    }
}

} // verus!
