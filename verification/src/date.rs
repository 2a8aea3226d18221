use vstd::prelude::*;

use crate::feed::FeedDate;
use crate::text::{all_dec_digits, dec_digit, digit_str, digit_val, digits_val, is_dec_digit};

verus! {

/// A number zero-padded to two decimal digits.
pub open spec fn pad2(n: int) -> Seq<char> {
    seq![dec_digit(n / 10 % 10), dec_digit(n % 10)]
}

/// A number zero-padded to four decimal digits.
pub open spec fn pad4(n: int) -> Seq<char> {
    seq![
        dec_digit(n / 1000 % 10),
        dec_digit(n / 100 % 10),
        dec_digit(n / 10 % 10),
        dec_digit(n % 10),
    ]
}

/// The ISO-8601 rendering of UTC midnight of a date:
/// year, month and day zero-padded, then `T00:00:00Z`.
pub open spec fn iso_midnight_chars(d: FeedDate) -> Seq<char> {
    pad4(d.year as int) + "-"@ + pad2(d.month as int) + "-"@ + pad2(d.day as int)
        + "T00:00:00Z"@
}

impl FeedDate {
    /// Render UTC midnight of this date in ISO-8601 form.
    pub fn iso_midnight(&self) -> (r: String)
        ensures
            r@ == iso_midnight_chars(*self),
    {
        let y = self.year as u64;
        let m = self.month as u64;
        let d = self.day as u64;
        let mut s = String::new();
        s.append(digit_str(y / 1000 % 10));
        s.append(digit_str(y / 100 % 10));
        s.append(digit_str(y / 10 % 10));
        s.append(digit_str(y % 10));
        s.append("-");
        s.append(digit_str(m / 10 % 10));
        s.append(digit_str(m % 10));
        s.append("-");
        s.append(digit_str(d / 10 % 10));
        s.append(digit_str(d % 10));
        s.append("T00:00:00Z");
        proof {
            assert(s@ =~= iso_midnight_chars(*self));
        }
        s
    }
}

/// Powers of ten, for bounding the value of a digit string.
pub open spec fn pow10(n: nat) -> int
    decreases n,
{
    if n == 0 {
        1
    } else {
        10 * pow10((n - 1) as nat)
    }
}

/// The small powers of ten the date parser works with.
pub proof fn lemma_pow10_small()
    ensures
        pow10(0) == 1,
        pow10(1) == 10,
        pow10(2) == 100,
        pow10(3) == 1000,
        pow10(4) == 10000,
{
    assert(pow10(0) == 1);
    assert(pow10(1) == 10);
    assert(pow10(2) == 100);
    assert(pow10(3) == 1000);
    assert(pow10(4) == 10000);
}

/// A digit string of length `n` has a value in `[0, pow10(n))`.
pub proof fn lemma_digits_val_bound(s: Seq<char>)
    requires
        all_dec_digits(s),
    ensures
        0 <= digits_val(s) < pow10(s.len()),
    decreases s.len(),
{
    if s.len() > 0 {
        assert(all_dec_digits(s.drop_last())) by {
            assert(forall|i: int|
                0 <= i < s.len() - 1 ==> s.drop_last()[i] == s[i] && is_dec_digit(#[trigger] s[i]));
        }
        lemma_digits_val_bound(s.drop_last());
    }
}

/// Proleptic Gregorian leap-year rule.
pub open spec fn is_leap_year(y: int) -> bool {
    y % 4 == 0 && (y % 100 != 0 || y % 400 == 0)
}

/// Number of days of month `m` in year `y`.
pub open spec fn days_in_month(y: int, m: int) -> int {
    if m == 2 {
        if is_leap_year(y) {
            29
        } else {
            28
        }
    } else if m == 4 || m == 6 || m == 9 || m == 11 {
        30
    } else {
        31
    }
}

/// Whether year/month/day form a real calendar date.
pub open spec fn valid_ymd(y: int, m: int, d: int) -> bool {
    1 <= m <= 12 && 1 <= d <= days_in_month(y, m)
}

/// Whether `s` is a well-formed compact date: exactly 8 decimal digits,
/// year-month-day, naming a real calendar date.
pub open spec fn valid_compact_date(s: Seq<char>) -> bool {
    &&& s.len() == 8
    &&& all_dec_digits(s)
    &&& valid_ymd(
        digits_val(s.subrange(0, 4)),
        digits_val(s.subrange(4, 6)),
        digits_val(s.subrange(6, 8)),
    )
}

/// The date a well-formed compact date string names.
pub open spec fn compact_date(s: Seq<char>) -> FeedDate {
    FeedDate {
        year: digits_val(s.subrange(0, 4)) as u16,
        month: digits_val(s.subrange(4, 6)) as u8,
        day: digits_val(s.subrange(6, 8)) as u8,
    }
}

/// Read the decimal number in `s[from..to]`, or report that some character
/// there is not a digit.
fn read_number(s: &str, from: usize, to: usize) -> (r: Option<u32>)
    requires
        from <= to <= s@.len(),
        to - from <= 4,
    ensures
        match r {
            Some(v) => {
                &&& all_dec_digits(s@.subrange(from as int, to as int))
                &&& v == digits_val(s@.subrange(from as int, to as int))
            },
            None => !all_dec_digits(s@.subrange(from as int, to as int)),
        },
{
    let mut acc: u32 = 0;
    let mut i = from;
    while i < to
        invariant
            from <= i <= to <= s@.len(),
            to - from <= 4,
            all_dec_digits(s@.subrange(from as int, i as int)),
            acc == digits_val(s@.subrange(from as int, i as int)),
        decreases to - i,
    {
        let c = s.get_char(i);
        let u = c as u32;
        if u < 48 || u > 57 {
            proof {
                assert(s@.subrange(from as int, to as int)[i - from] == s@[i as int]);
            }
            return None;
        }
        proof {
            lemma_digits_val_bound(s@.subrange(from as int, i as int));
            lemma_pow10_small();
        }
        acc = acc * 10 + (u - 48);
        i = i + 1;
        proof {
            let sub = s@.subrange(from as int, i as int);
            assert(sub.drop_last() =~= s@.subrange(from as int, i - 1));
            assert(sub.last() == s@[i - 1]);
        }
    }
    proof {
        assert(s@.subrange(from as int, i as int) =~= s@.subrange(from as int, to as int));
    }
    Some(acc)
}

/// Parse an 8-digit year-month-day string into a date. Returns `None` — a
/// fatal construction error for the caller — exactly when the string is not
/// a well-formed compact date.
pub fn parse_compact_date(s: &str) -> (r: Option<FeedDate>)
    ensures
        match r {
            Some(d) => valid_compact_date(s@) && d == compact_date(s@),
            None => !valid_compact_date(s@),
        },
{
    let n = s.unicode_len();
    if n != 8 {
        return None;
    }
    let y = match read_number(s, 0, 4) {
        Some(v) => v,
        None => {
            return None;
        },
    };
    let m = match read_number(s, 4, 6) {
        Some(v) => v,
        None => {
            return None;
        },
    };
    let d = match read_number(s, 6, 8) {
        Some(v) => v,
        None => {
            return None;
        },
    };
    proof {
        assert forall|j: int| 0 <= j < s@.len() implies is_dec_digit(s@[j]) by {
            if j < 4 {
                assert(s@.subrange(0, 4)[j] == s@[j]);
            } else if j < 6 {
                assert(s@.subrange(4, 6)[j - 4] == s@[j]);
            } else {
                assert(s@.subrange(6, 8)[j - 6] == s@[j]);
            }
        }
        lemma_digits_val_bound(s@.subrange(0, 4));
        lemma_digits_val_bound(s@.subrange(4, 6));
        lemma_digits_val_bound(s@.subrange(6, 8));
        lemma_pow10_small();
    }
    if m < 1 || m > 12 {
        return None;
    }
    let max_day = days_in_month_of(y, m);
    if d < 1 || d > max_day as u32 {
        return None;
    }
    Some(FeedDate { year: y as u16, month: m as u8, day: d as u8 })
}

/// Number of days of month `m` in year `y`.
fn days_in_month_of(y: u32, m: u32) -> (r: u8)
    requires
        1 <= m <= 12,
    ensures
        r == days_in_month(y as int, m as int),
{
    if m == 2 {
        if (y % 4 == 0 && y % 100 != 0) || y % 400 == 0 {
            29
        } else {
            28
        }
    } else if m == 4 || m == 6 || m == 9 || m == 11 {
        30
    } else {
        31
    }
}

} // verus!
