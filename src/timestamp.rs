//! Timestamps that the exchange writes either as an integer of milliseconds
//! (a JSON number or a numeric string) or as an ISO datetime without time
//! zone, always read as milliseconds since the Unix epoch (UTC).

use vstd::prelude::*;

verus! {

/// An ASCII decimal digit.
pub open spec fn is_digit(c: char) -> bool {
    48 <= (c as u32) && (c as u32) <= 57
}

/// The value of the decimal digits `s`.
pub open spec fn digits_value(s: Seq<char>) -> int
    decreases s.len(),
{
    if s.len() == 0 {
        0
    } else {
        digits_value(s.drop_last()) * 10 + ((s.last() as u32) - 48)
    }
}

/// One or more decimal digits.
pub open spec fn all_digits(s: Seq<char>) -> bool {
    s.len() > 0 && forall|i: int| 0 <= i < s.len() ==> is_digit(#[trigger] s[i])
}

/// The integer that `s` writes: an optional `+` or `-` sign, then one or
/// more decimal digits, nothing else.
pub open spec fn integer_text_value(s: Seq<char>) -> Option<int> {
    if s.len() > 0 && s[0] == '-' {
        if all_digits(s.drop_first()) {
            Some(-digits_value(s.drop_first()))
        } else {
            None
        }
    } else if s.len() > 0 && s[0] == '+' {
        if all_digits(s.drop_first()) {
            Some(digits_value(s.drop_first()))
        } else {
            None
        }
    } else if all_digits(s) {
        Some(digits_value(s))
    } else {
        None
    }
}

/// The `i64` that `s` writes, where it is one in range.
pub open spec fn parsed_i64(s: Seq<char>) -> Option<i64> {
    match integer_text_value(s) {
        Some(v) => if i64::MIN <= v <= i64::MAX {
            Some(v as i64)
        } else {
            None
        },
        None => None,
    }
}

proof fn lemma_digits_nonneg(s: Seq<char>)
    requires
        forall|i: int| 0 <= i < s.len() ==> is_digit(#[trigger] s[i]),
    ensures
        digits_value(s) >= 0,
    decreases s.len(),
{
    if s.len() > 0 {
        lemma_digits_nonneg(s.drop_last());
    }
}

/// Appending digits never lowers the value.
proof fn lemma_digits_grow(s: Seq<char>, i: int)
    requires
        0 <= i <= s.len(),
        forall|j: int| 0 <= j < s.len() ==> is_digit(#[trigger] s[j]),
    ensures
        digits_value(s.subrange(0, i)) <= digits_value(s),
    decreases s.len() - i,
{
    if i < s.len() {
        lemma_digits_grow(s, i + 1);
        let p = s.subrange(0, i + 1);
        assert(p.drop_last() =~= s.subrange(0, i));
        lemma_digits_nonneg(s.subrange(0, i));
    } else {
        assert(s.subrange(0, i) =~= s);
    }
}

/// The value of the digits of `s` from `start`, or `None` where one is not a
/// digit, there are none, or the value passes 2^63.
fn digits_from(s: &str, start: usize) -> (r: Option<u64>)
    requires
        start <= s@.len(),
    ensures
        match r {
            Some(v) => all_digits(s@.subrange(start as int, s@.len() as int)) && v as int == digits_value(
                s@.subrange(start as int, s@.len() as int),
            ) && v <= 0x8000_0000_0000_0000,
            None => !all_digits(s@.subrange(start as int, s@.len() as int)) || digits_value(
                s@.subrange(start as int, s@.len() as int),
            ) > 0x8000_0000_0000_0000,
        },
{
    let n = s.unicode_len();
    let ghost d = s@.subrange(start as int, n as int);
    if start == n {
        return None;
    }
    let mut acc: u64 = 0;
    let mut i: usize = start;
    while i < n
        invariant
            n == s@.len(),
            start < n,
            start <= i <= n,
            d == s@.subrange(start as int, n as int),
            forall|j: int| start <= j < i ==> is_digit(#[trigger] s@[j]),
            acc as int == digits_value(s@.subrange(start as int, i as int)),
            acc <= 0x8000_0000_0000_0000,
        decreases n - i,
    {
        let c = s.get_char(i);
        if !(48 <= (c as u32) && (c as u32) <= 57) {
            assert(d[i - start] == c);
            return None;
        }
        let digit = (c as u32 - 48) as u64;
        let ghost prefix = s@.subrange(start as int, i + 1);
        assert(prefix.drop_last() =~= s@.subrange(start as int, i as int));
        if acc > 0x0CCC_CCCC_CCCC_CCCC {
            // acc * 10 already passes 2^63, and more digits only add
            proof {
                assert forall|j: int| 0 <= j < prefix.len() implies is_digit(#[trigger] prefix[j]) by {
                    assert(prefix[j] == s@[start + j]);
                }
                lemma_digits_nonneg(prefix);
                assert(digits_value(prefix) > 0x8000_0000_0000_0000) by (nonlinear_arith)
                    requires
                        digits_value(prefix) == acc * 10 + digit,
                        acc > 0x0CCC_CCCC_CCCC_CCCC,
                        digit >= 0,
                ;
                if all_digits(d) {
                    lemma_digits_grow(d, i + 1 - start);
                    assert(d.subrange(0, i + 1 - start) =~= prefix);
                }
            }
            return None;
        }
        let next = acc * 10 + digit;
        if next > 0x8000_0000_0000_0000 {
            proof {
                assert forall|j: int| 0 <= j < prefix.len() implies is_digit(#[trigger] prefix[j]) by {
                    assert(prefix[j] == s@[start + j]);
                }
                if all_digits(d) {
                    lemma_digits_grow(d, i + 1 - start);
                    assert(d.subrange(0, i + 1 - start) =~= prefix);
                }
            }
            return None;
        }
        acc = next;
        i = i + 1;
    }
    assert(forall|j: int| 0 <= j < d.len() ==> #[trigger] d[j] == s@[start + j]);
    Some(acc)
}

/// Reads an `i64` from decimal text: an optional sign, then digits only.
pub fn parse_i64(s: &str) -> (r: Option<i64>)
    ensures
        r == parsed_i64(s@),
{
    let n = s.unicode_len();
    if n == 0 {
        return None;
    }
    let first = s.get_char(0);
    let negative = first == '-';
    let start: usize = if first == '-' || first == '+' { 1 } else { 0 };
    assert(s@.subrange(0, n as int) =~= s@);
    assert(s@.subrange(1, n as int) =~= s@.drop_first());
    match digits_from(s, start) {
        Some(v) => {
            if negative {
                if v == 0x8000_0000_0000_0000 {
                    Some(i64::MIN)
                } else {
                    Some(-(v as i64))
                }
            } else if v > 0x7FFF_FFFF_FFFF_FFFF {
                None
            } else {
                Some(v as i64)
            }
        },
        None => None,
    }
}

/// The message of the error for a timestamp text that is neither form.
pub const INVALID_DATETIME: &'static str = "invalid datetime format";

/// The message of the error for an unsigned number past `i64::MAX`.
pub const VALUE_TOO_LARGE: &'static str = "value too large";

/// The milliseconds since the Unix epoch of a datetime written in `format`
/// and read as UTC, or `None` where the text does not match the format.
pub uninterp spec fn datetime_millis(s: Seq<char>, format: Seq<char>) -> Option<i64>;

/// Relies on chrono's `NaiveDateTime::parse_from_str`, `and_utc` and
/// `timestamp_millis`.
#[verifier::external_body]
fn parse_datetime_millis(s: &str, format: &str) -> (r: Option<i64>)
    ensures
        r == datetime_millis(s@, format@),
{
    chrono::NaiveDateTime::parse_from_str(s, format).ok().map(|d| d.and_utc().timestamp_millis())
}

/// ISO datetime with milliseconds, no time zone.
pub const ISO_MILLIS_FORMAT: &'static str = "%Y-%m-%dT%H:%M:%S%.3f";

/// ISO datetime to the second, no time zone.
pub const ISO_SECONDS_FORMAT: &'static str = "%Y-%m-%dT%H:%M:%S";

/// What a timestamp text stands for: its integer value where it is an
/// integer, else the ISO datetime with milliseconds, else the one to the
/// second.
pub open spec fn timestamp_of_text(s: Seq<char>) -> Option<i64> {
    match parsed_i64(s) {
        Some(v) => Some(v),
        None => match datetime_millis(s, ISO_MILLIS_FORMAT@) {
            Some(v) => Some(v),
            None => datetime_millis(s, ISO_SECONDS_FORMAT@),
        },
    }
}

/// Reads a timestamp written as text, in milliseconds since the epoch.
pub fn parse_timestamp_str(s: &str) -> (r: Result<i64, String>)
    ensures
        match timestamp_of_text(s@) {
            Some(v) => r == Ok::<i64, String>(v),
            None => r matches Err(m) && m@ == INVALID_DATETIME@,
        },
{
    if let Some(v) = parse_i64(s) {
        return Ok(v);
    }
    if let Some(v) = parse_datetime_millis(s, ISO_MILLIS_FORMAT) {
        return Ok(v);
    }
    match parse_datetime_millis(s, ISO_SECONDS_FORMAT) {
        Some(v) => Ok(v),
        None => Err(String::from_str(INVALID_DATETIME)),
    }
}

/// Reads a timestamp given as an unsigned JSON number; values past
/// `i64::MAX` wrap, as a cast does.
pub fn timestamp_from_u64(v: u64) -> (r: i64)
    ensures
        r == v as i64,
{
    v as i64
}

/// Reads an integer given as text; it must be an `i64`. The error's text is
/// left open.
pub fn str_or_i64_from_str(s: &str) -> (r: Result<i64, String>)
    ensures
        match parsed_i64(s@) {
            Some(v) => r == Ok::<i64, String>(v),
            None => r is Err,
        },
{
    match parse_i64(s) {
        Some(v) => Ok(v),
        None => Err(String::from_str("not an i64 integer")),
    }
}

/// Reads an integer given as an unsigned JSON number; it must fit an `i64`.
pub fn str_or_i64_from_u64(v: u64) -> (r: Result<i64, String>)
    ensures
        v <= i64::MAX ==> r == Ok::<i64, String>(v as i64),
        v > i64::MAX ==> (r matches Err(m) && m@ == VALUE_TOO_LARGE@),
{
    if v <= 0x7FFF_FFFF_FFFF_FFFF {
        Ok(v as i64)
    } else {
        Err(String::from_str(VALUE_TOO_LARGE))
    }
}

} // verus!
