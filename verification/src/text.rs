//! Decimal rendering and duration formatting.

use vstd::prelude::*;

verus! {

/// The decimal digit character for a value below ten.
pub open spec fn spec_digit_char(d: int) -> char {
    if d == 0 {
        '0'
    } else if d == 1 {
        '1'
    } else if d == 2 {
        '2'
    } else if d == 3 {
        '3'
    } else if d == 4 {
        '4'
    } else if d == 5 {
        '5'
    } else if d == 6 {
        '6'
    } else if d == 7 {
        '7'
    } else if d == 8 {
        '8'
    } else {
        '9'
    }
}

/// Decimal representation of a non-negative value, most significant digit
/// first, without leading zeroes (a single zero for zero itself).
pub open spec fn spec_dec_digits(n: int) -> Seq<char>
    recommends
        n >= 0,
    decreases n,
{
    if n < 10 {
        seq![spec_digit_char(n)]
    } else {
        spec_dec_digits(n / 10).push(spec_digit_char(n % 10))
    }
}

/// A second count rendered as hours and minutes when at least an hour,
/// as minutes and seconds when at least a minute, else as seconds.
pub open spec fn spec_format_duration(secs: int) -> Seq<char>
    recommends
        secs >= 0,
{
    let h = secs / 3600;
    let m = (secs % 3600) / 60;
    let s = secs % 60;
    if h > 0 {
        spec_dec_digits(h) + "h "@ + spec_dec_digits(m) + "m"@
    } else if m > 0 {
        spec_dec_digits(m) + "m "@ + spec_dec_digits(s) + "s"@
    } else {
        spec_dec_digits(s) + "s"@
    }
}

fn digit_str(d: u64) -> (r: &'static str)
    requires
        d < 10,
    ensures
        r@ == seq![spec_digit_char(d as int)],
{
    proof {
        reveal_strlit("0");
        reveal_strlit("1");
        reveal_strlit("2");
        reveal_strlit("3");
        reveal_strlit("4");
        reveal_strlit("5");
        reveal_strlit("6");
        reveal_strlit("7");
        reveal_strlit("8");
        reveal_strlit("9");
    }
    if d == 0 {
        proof {
            assert("0"@ =~= seq![spec_digit_char(0)]);
        }
        "0"
    } else if d == 1 {
        proof {
            assert("1"@ =~= seq![spec_digit_char(1)]);
        }
        "1"
    } else if d == 2 {
        proof {
            assert("2"@ =~= seq![spec_digit_char(2)]);
        }
        "2"
    } else if d == 3 {
        proof {
            assert("3"@ =~= seq![spec_digit_char(3)]);
        }
        "3"
    } else if d == 4 {
        proof {
            assert("4"@ =~= seq![spec_digit_char(4)]);
        }
        "4"
    } else if d == 5 {
        proof {
            assert("5"@ =~= seq![spec_digit_char(5)]);
        }
        "5"
    } else if d == 6 {
        proof {
            assert("6"@ =~= seq![spec_digit_char(6)]);
        }
        "6"
    } else if d == 7 {
        proof {
            assert("7"@ =~= seq![spec_digit_char(7)]);
        }
        "7"
    } else if d == 8 {
        proof {
            assert("8"@ =~= seq![spec_digit_char(8)]);
        }
        "8"
    } else {
        proof {
            assert("9"@ =~= seq![spec_digit_char(9)]);
        }
        "9"
    }
}

/// A minute of the day written as a two-digit hour, a colon and a
/// two-digit minute.
pub open spec fn spec_clock_text(m: int) -> Seq<char>
    recommends
        0 <= m < 1440,
{
    seq![
        spec_digit_char(m / 60 / 10),
        spec_digit_char(m / 60 % 10),
        ':',
        spec_digit_char(m % 60 / 10),
        spec_digit_char(m % 60 % 10),
    ]
}

/// Renders a minute of the day as `HH:MM`.
pub fn clock_text(minutes: u32) -> (r: String)
    requires
        minutes < 1440,
    ensures
        r@ == spec_clock_text(minutes as int),
{
    let h: u32 = minutes / 60;
    let m: u32 = minutes % 60;
    let r = String::from_str(digit_str((h / 10) as u64)).concat(digit_str((h % 10) as u64))
        .concat(":").concat(digit_str((m / 10) as u64)).concat(digit_str((m % 10) as u64));
    proof {
        reveal_strlit(":");
        assert(":"@ =~= seq![':']);
        assert(r@ =~= spec_clock_text(minutes as int));
    }
    r
}

/// Renders a non-negative value in decimal.
pub fn u64_to_string(n: u64) -> (r: String)
    ensures
        r@ == spec_dec_digits(n as int),
    decreases n,
{
    if n < 10 {
        String::from_str(digit_str(n))
    } else {
        let prefix = u64_to_string(n / 10);
        prefix.concat(digit_str(n % 10))
    }
}

/// Renders a second count; the exact shape is `spec_format_duration`.
pub fn render_duration(seconds: i64) -> (r: String)
    requires
        0 <= seconds,
    ensures
        r@ == spec_format_duration(seconds as int),
{
    let s: u64 = seconds as u64;
    let hours: u64 = s / 3600;
    let minutes: u64 = (s % 3600) / 60;
    let secs: u64 = s % 60;
    if hours > 0 {
        u64_to_string(hours).concat("h ").concat(u64_to_string(minutes).as_str()).concat("m")
    } else if minutes > 0 {
        u64_to_string(minutes).concat("m ").concat(u64_to_string(secs).as_str()).concat("s")
    } else {
        u64_to_string(secs).concat("s")
    }
}

} // verus!
