//! Parsers for the textual time formats the data sources use: wall-clock
//! times, iqama offsets, calendar dates, and free text holding a clock time.

use vstd::prelude::*;
use vstd::string::StrSliceExecFns;

verus! {

pub open spec fn spec_is_digit(c: char) -> bool {
    '0' <= c <= '9'
}

/// Numeric value of a digit character.
pub open spec fn spec_digit_val(c: char) -> int {
    c as int - '0' as int
}

fn is_digit(c: char) -> (r: bool)
    ensures
        r == spec_is_digit(c),
{
    '0' <= c && c <= '9'
}

fn digit_val(c: char) -> (r: u32)
    requires
        spec_is_digit(c),
    ensures
        r == spec_digit_val(c),
        r <= 9,
{
    (c as u32) - ('0' as u32)
}

/// A wall-clock time: one or two hour digits, a colon, two minute digits,
/// naming a time of day.
pub open spec fn spec_clock_ok(s: Seq<char>) -> bool {
    if s.len() == 4 {
        &&& spec_is_digit(s[0])
        &&& s[1] == ':'
        &&& spec_is_digit(s[2])
        &&& spec_is_digit(s[3])
        &&& spec_digit_val(s[0]) < 24
        &&& spec_digit_val(s[2]) * 10 + spec_digit_val(s[3]) < 60
    } else if s.len() == 5 {
        &&& spec_is_digit(s[0])
        &&& spec_is_digit(s[1])
        &&& s[2] == ':'
        &&& spec_is_digit(s[3])
        &&& spec_is_digit(s[4])
        &&& spec_digit_val(s[0]) * 10 + spec_digit_val(s[1]) < 24
        &&& spec_digit_val(s[3]) * 10 + spec_digit_val(s[4]) < 60
    } else {
        false
    }
}

/// The minute of the day a valid clock text names.
pub open spec fn spec_clock_minutes(s: Seq<char>) -> int
    recommends
        spec_clock_ok(s),
{
    if s.len() == 4 {
        spec_digit_val(s[0]) * 60 + spec_digit_val(s[2]) * 10 + spec_digit_val(s[3])
    } else {
        (spec_digit_val(s[0]) * 10 + spec_digit_val(s[1])) * 60 + spec_digit_val(s[3]) * 10
            + spec_digit_val(s[4])
    }
}

/// Parses a wall-clock time into its minute of the day; `None` exactly when
/// the text is not a valid `H:MM` or `HH:MM` time.
pub fn parse_clock_minutes(s: &str) -> (r: Option<u32>)
    ensures
        (r is Some) == spec_clock_ok(s@),
        spec_clock_ok(s@) ==> r->Some_0 == spec_clock_minutes(s@),
        r is Some ==> r->Some_0 < 1440,
{
    let n = s.unicode_len();
    if n == 4 {
        let c0 = s.get_char(0);
        let c1 = s.get_char(1);
        let c2 = s.get_char(2);
        let c3 = s.get_char(3);
        if is_digit(c0) && c1 == ':' && is_digit(c2) && is_digit(c3) {
            let h = digit_val(c0);
            let m = digit_val(c2) * 10 + digit_val(c3);
            if h < 24 && m < 60 {
                Some(h * 60 + m)
            } else {
                None
            }
        } else {
            None
        }
    } else if n == 5 {
        let c0 = s.get_char(0);
        let c1 = s.get_char(1);
        let c2 = s.get_char(2);
        let c3 = s.get_char(3);
        let c4 = s.get_char(4);
        if is_digit(c0) && is_digit(c1) && c2 == ':' && is_digit(c3) && is_digit(c4) {
            let h = digit_val(c0) * 10 + digit_val(c1);
            let m = digit_val(c3) * 10 + digit_val(c4);
            if h < 24 && m < 60 {
                Some(h * 60 + m)
            } else {
                None
            }
        } else {
            None
        }
    } else {
        None
    }
}

/// The minute of the day a clock text names, read leniently: zero when the
/// text is not a valid clock time.
pub fn clock_minutes_or_zero(s: &str) -> (r: i64)
    ensures
        spec_clock_ok(s@) ==> r == spec_clock_minutes(s@),
        !spec_clock_ok(s@) ==> r == 0,
        0 <= r < 1440,
{
    match parse_clock_minutes(s) {
        Some(m) => m as i64,
        None => 0,
    }
}

/// Value of an unsigned digit run, most significant first.
pub open spec fn spec_digits_val(s: Seq<char>) -> int
    decreases s.len(),
{
    if s.len() == 0 {
        0
    } else {
        spec_digits_val(s.drop_last()) * 10 + spec_digit_val(s.last())
    }
}

pub open spec fn spec_all_digits(s: Seq<char>) -> bool {
    forall|i: int| 0 <= i < s.len() ==> spec_is_digit(#[trigger] s[i])
}

/// An iqama offset: an optional sign, then one to four digits, counting
/// minutes relative to the adhan.
pub open spec fn spec_offset_body(s: Seq<char>) -> Seq<char> {
    if s.len() > 0 && (s[0] == '+' || s[0] == '-') {
        s.drop_first()
    } else {
        s
    }
}

pub open spec fn spec_offset_ok(s: Seq<char>) -> bool {
    &&& 1 <= spec_offset_body(s).len() <= 4
    &&& spec_all_digits(spec_offset_body(s))
}

pub open spec fn spec_offset_minutes(s: Seq<char>) -> int
    recommends
        spec_offset_ok(s),
{
    if s.len() > 0 && s[0] == '-' {
        -spec_digits_val(spec_offset_body(s))
    } else {
        spec_digits_val(spec_offset_body(s))
    }
}

/// A digit run's value is bounded by its length.
proof fn lemma_digits_val_bound(s: Seq<char>)
    requires
        spec_all_digits(s),
    ensures
        0 <= spec_digits_val(s),
        s.len() <= 1 ==> spec_digits_val(s) <= 9,
        s.len() <= 2 ==> spec_digits_val(s) <= 99,
        s.len() <= 3 ==> spec_digits_val(s) <= 999,
        s.len() <= 4 ==> spec_digits_val(s) <= 9999,
    decreases s.len(),
{
    if s.len() > 0 {
        assert(spec_all_digits(s.drop_last())) by {
            assert(forall|i: int|
                0 <= i < s.len() - 1 ==> #[trigger] s.drop_last()[i] == s[i]);
        }
        lemma_digits_val_bound(s.drop_last());
    }
}

/// Parses an iqama offset such as `+30`, `15` or `-5` into minutes; `None`
/// exactly when the text is not a signed run of one to four digits.
pub fn parse_offset_minutes(s: &str) -> (r: Option<i32>)
    ensures
        (r is Some) == spec_offset_ok(s@),
        spec_offset_ok(s@) ==> r->Some_0 == spec_offset_minutes(s@),
        r is Some ==> -9999 <= r->Some_0 <= 9999,
{
    let n = s.unicode_len();
    if n == 0 {
        return None;
    }
    let first = s.get_char(0);
    let negative = first == '-';
    let start: usize = if first == '+' || first == '-' {
        1
    } else {
        0
    };
    let body_len = n - start;
    if body_len < 1 || body_len > 4 {
        return None;
    }
    let ghost body = spec_offset_body(s@);
    proof {
        assert(body =~= s@.subrange(start as int, n as int));
    }
    let mut value: u32 = 0;
    let mut i: usize = start;
    while i < n
        invariant
            start <= i <= n,
            n == s@.len(),
            start + 1 <= n,
            start <= 1,
            n - start <= 4,
            body == spec_offset_body(s@),
            body == s@.subrange(start as int, n as int),
            negative == (s@[0] == '-'),
            spec_all_digits(s@.subrange(start as int, i as int)),
            value == spec_digits_val(s@.subrange(start as int, i as int)),
        decreases n - i,
    {
        let c = s.get_char(i);
        if !is_digit(c) {
            proof {
                assert(body[i - start] == s@[i as int]);
            }
            return None;
        }
        proof {
            let pre = s@.subrange(start as int, i as int);
            let post = s@.subrange(start as int, i + 1 as int);
            assert(post.drop_last() =~= pre);
            assert(post.last() == s@[i as int]);
            lemma_digits_val_bound(pre);
        }
        value = value * 10 + digit_val(c);
        i = i + 1;
    }
    proof {
        assert(s@.subrange(start as int, n as int) =~= body);
        lemma_digits_val_bound(body);
    }
    if negative {
        Some(-(value as i32))
    } else {
        Some(value as i32)
    }
}

/// Whether a year is a leap year.
pub open spec fn spec_is_leap(y: int) -> bool {
    y % 4 == 0 && (y % 100 != 0 || y % 400 == 0)
}

/// Days in a month of a year.
pub open spec fn spec_days_in_month(y: int, m: int) -> int {
    if m == 2 {
        if spec_is_leap(y) {
            29
        } else {
            28
        }
    } else if m == 4 || m == 6 || m == 9 || m == 11 {
        30
    } else {
        31
    }
}

/// The `YYYY-MM-DD` date grammar.
pub open spec fn spec_date_text_ok(s: Seq<char>) -> bool {
    &&& s.len() == 10
    &&& spec_is_digit(s[0])
    &&& spec_is_digit(s[1])
    &&& spec_is_digit(s[2])
    &&& spec_is_digit(s[3])
    &&& s[4] == '-'
    &&& spec_is_digit(s[5])
    &&& spec_is_digit(s[6])
    &&& s[7] == '-'
    &&& spec_is_digit(s[8])
    &&& spec_is_digit(s[9])
}

pub open spec fn spec_date_year(s: Seq<char>) -> int {
    spec_digit_val(s[0]) * 1000 + spec_digit_val(s[1]) * 100 + spec_digit_val(s[2]) * 10
        + spec_digit_val(s[3])
}

pub open spec fn spec_date_month(s: Seq<char>) -> int {
    spec_digit_val(s[5]) * 10 + spec_digit_val(s[6])
}

pub open spec fn spec_date_day(s: Seq<char>) -> int {
    spec_digit_val(s[8]) * 10 + spec_digit_val(s[9])
}

/// A date text is valid when it fits the grammar, names a real month, and
/// a day that exists in that month of that year.
pub open spec fn spec_date_valid(s: Seq<char>) -> bool {
    &&& spec_date_text_ok(s)
    &&& 1 <= spec_date_year(s)
    &&& 1 <= spec_date_month(s) <= 12
    &&& 1 <= spec_date_day(s) <= spec_days_in_month(spec_date_year(s), spec_date_month(s))
}

/// Parses a `YYYY-MM-DD` date; `None` exactly when the text does not name a
/// real calendar date in that format.
pub fn parse_date_ymd(s: &str) -> (r: Option<(i64, i64, i64)>)
    ensures
        (r is Some) == spec_date_valid(s@),
        spec_date_valid(s@) ==> {
            &&& r->Some_0.0 == spec_date_year(s@)
            &&& r->Some_0.1 == spec_date_month(s@)
            &&& r->Some_0.2 == spec_date_day(s@)
        },
{
    let n = s.unicode_len();
    if n != 10 {
        return None;
    }
    let c0 = s.get_char(0);
    let c1 = s.get_char(1);
    let c2 = s.get_char(2);
    let c3 = s.get_char(3);
    let c4 = s.get_char(4);
    let c5 = s.get_char(5);
    let c6 = s.get_char(6);
    let c7 = s.get_char(7);
    let c8 = s.get_char(8);
    let c9 = s.get_char(9);
    if !(is_digit(c0) && is_digit(c1) && is_digit(c2) && is_digit(c3) && c4 == '-' && is_digit(c5)
        && is_digit(c6) && c7 == '-' && is_digit(c8) && is_digit(c9)) {
        return None;
    }
    let y: i64 = (digit_val(c0) * 1000 + digit_val(c1) * 100 + digit_val(c2) * 10 + digit_val(c3))
        as i64;
    let m: i64 = (digit_val(c5) * 10 + digit_val(c6)) as i64;
    let d: i64 = (digit_val(c8) * 10 + digit_val(c9)) as i64;
    if y < 1 || m < 1 || m > 12 {
        return None;
    }
    let leap = y % 4 == 0 && (y % 100 != 0 || y % 400 == 0);
    let month_days: i64 = if m == 2 {
        if leap {
            29
        } else {
            28
        }
    } else if m == 4 || m == 6 || m == 9 || m == 11 {
        30
    } else {
        31
    };
    if d < 1 || d > month_days {
        return None;
    }
    Some((y, m, d))
}

/// Days from the epoch to a civil date, by the standard era decomposition:
/// years are shifted to start in March, grouped in 400-year eras, and the
/// day count is assembled from era, year-of-era and day-of-year.
pub open spec fn spec_epoch_day(y: int, m: int, d: int) -> int
    recommends
        1 <= y,
        1 <= m <= 12,
        1 <= d <= 31,
{
    let ys = if m <= 2 {
        y - 1
    } else {
        y
    };
    let era = ys / 400;
    let yoe = ys - era * 400;
    let mp = if m > 2 {
        m - 3
    } else {
        m + 9
    };
    let doy = (153 * mp + 2) / 5 + d - 1;
    let doe = yoe * 365 + yoe / 4 - yoe / 100 + doy;
    era * 146097 + doe - 719468
}

/// Day number of a civil date, relative to the epoch.
pub fn epoch_day_from_ymd(y: i64, m: i64, d: i64) -> (r: i64)
    requires
        1 <= y <= 9999,
        1 <= m <= 12,
        1 <= d <= 31,
    ensures
        r == spec_epoch_day(y as int, m as int, d as int),
        -720000 <= r <= 3000000,
{
    let ys: i64 = if m <= 2 {
        y - 1
    } else {
        y
    };
    let era: i64 = ((ys as u64) / 400) as i64;
    let yoe: i64 = ys - era * 400;
    let mp: i64 = if m > 2 {
        m - 3
    } else {
        m + 9
    };
    let doy: i64 = (((153 * (mp as u64) + 2) / 5) as i64) + d - 1;
    let doe: i64 = yoe * 365 + ((yoe as u64) / 4) as i64 - ((yoe as u64) / 100) as i64 + doy;
    era * 146097 + doe - 719468
}

/// Whether a non-negative epoch day falls on a Friday; day zero was a
/// Thursday.
pub fn is_friday_epoch_day(day: i64) -> (r: bool)
    requires
        0 <= day,
    ensures
        r == crate::prayer::spec_is_friday_day(day as int),
{
    (((day as u64) + 3) % 7) == 4
}

/// A clock time `H:MM` or `HH:MM` standing at a position in free text, the
/// two-digit form taking precedence.
pub open spec fn spec_time_at(s: Seq<char>, i: int) -> bool {
    ||| (i + 5 <= s.len() && spec_is_digit(s[i]) && spec_is_digit(s[i + 1]) && s[i + 2] == ':'
        && spec_is_digit(s[i + 3]) && spec_is_digit(s[i + 4]))
    ||| (i + 4 <= s.len() && spec_is_digit(s[i]) && s[i + 1] == ':' && spec_is_digit(s[i + 2])
        && spec_is_digit(s[i + 3]))
}

/// Hour and minute read at a match position.
pub open spec fn spec_time_at_value(s: Seq<char>, i: int) -> (int, int)
    recommends
        spec_time_at(s, i),
{
    if i + 5 <= s.len() && spec_is_digit(s[i + 1]) {
        (
            spec_digit_val(s[i]) * 10 + spec_digit_val(s[i + 1]),
            spec_digit_val(s[i + 3]) * 10 + spec_digit_val(s[i + 4]),
        )
    } else {
        (spec_digit_val(s[i]), spec_digit_val(s[i + 2]) * 10 + spec_digit_val(s[i + 3]))
    }
}

/// Finds the first clock time in free text, as the hour and minute written
/// there; `None` exactly when no position holds one.
pub fn find_time_in_text(s: &str) -> (r: Option<(u32, u32)>)
    ensures
        (r is Some) == (exists|i: int| 0 <= i < s@.len() && spec_time_at(s@, i)),
        r is Some ==> exists|i: int|
            {
                &&& 0 <= i < s@.len()
                &&& #[trigger] spec_time_at(s@, i)
                &&& (forall|j: int| 0 <= j < i ==> !spec_time_at(s@, j))
                &&& r->Some_0.0 == spec_time_at_value(s@, i).0
                &&& r->Some_0.1 == spec_time_at_value(s@, i).1
            },
{
    let n = s.unicode_len();
    let mut i: usize = 0;
    while i < n
        invariant
            0 <= i <= n,
            n == s@.len(),
            forall|j: int| 0 <= j < i ==> !spec_time_at(s@, j),
        decreases n - i,
    {
        if n - i >= 5 {
            let c0 = s.get_char(i);
            let c1 = s.get_char(i + 1);
            let c2 = s.get_char(i + 2);
            let c3 = s.get_char(i + 3);
            let c4 = s.get_char(i + 4);
            if is_digit(c0) && is_digit(c1) && c2 == ':' && is_digit(c3) && is_digit(c4) {
                proof {
                    assert(spec_time_at(s@, i as int));
                    assert(spec_time_at_value(s@, i as int).0 == spec_digit_val(c0) * 10
                        + spec_digit_val(c1));
                }
                return Some(
                    (digit_val(c0) * 10 + digit_val(c1), digit_val(c3) * 10 + digit_val(c4)),
                );
            }
        }
        if n - i >= 4 {
            let c0 = s.get_char(i);
            let c1 = s.get_char(i + 1);
            let c2 = s.get_char(i + 2);
            let c3 = s.get_char(i + 3);
            if is_digit(c0) && c1 == ':' && is_digit(c2) && is_digit(c3) {
                proof {
                    assert(spec_time_at(s@, i as int));
                    assert(!(i + 5 <= s@.len() && spec_is_digit(s@[i as int + 1])));
                    assert(spec_time_at_value(s@, i as int).0 == spec_digit_val(c0));
                }
                return Some((digit_val(c0), digit_val(c2) * 10 + digit_val(c3)));
            }
        }
        i = i + 1;
    }
    None
}

} // verus!
