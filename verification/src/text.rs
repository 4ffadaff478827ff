use vstd::prelude::*;

use crate::clock::ClockFormat;

verus! {

/// The character of a decimal digit.
pub open spec fn digit_char(d: nat) -> char {
    if d == 0 {
        '0'
    } else if d == 1 {
        '1'
    } else if d == 2 {
        '2'
    } else if d == 3 {
        '3'
    } else if d == 4 {
        '4'
    } else if d == 5 {
        '5'
    } else if d == 6 {
        '6'
    } else if d == 7 {
        '7'
    } else if d == 8 {
        '8'
    } else {
        '9'
    }
}

/// Decimal notation of a natural number, without leading zeros.
pub open spec fn decimal(n: nat) -> Seq<char>
    decreases n,
{
    if n < 10 {
        seq![digit_char(n)]
    } else {
        decimal(n / 10).push(digit_char(n % 10))
    }
}

/// Decimal notation padded with a leading zero to at least two digits (`{:02}`).
pub open spec fn two_digits(n: nat) -> Seq<char> {
    if n < 10 {
        seq!['0', digit_char(n)]
    } else {
        decimal(n)
    }
}

/// The hour of a 12-hour clock (1 to 12) for an hour of the day.
pub open spec fn twelve_hour(hour: nat) -> nat {
    if hour % 12 == 0 {
        12
    } else {
        hour % 12
    }
}

/// The text the dashboard clock shows: `HH:MM` on a 24-hour clock, `H:MM AM` or
/// `H:MM PM` on a 12-hour clock.
pub open spec fn clock_text(hour: nat, minute: nat, format: ClockFormat) -> Seq<char> {
    match format {
        ClockFormat::H24 => two_digits(hour) + seq![':'] + two_digits(minute),
        ClockFormat::H12 => decimal(twelve_hour(hour)) + seq![':'] + two_digits(minute) + (
        if hour < 12 {
            seq![' ', 'A', 'M']
        } else {
            seq![' ', 'P', 'M']
        }),
    }
}

/// A playback time in whole seconds as `MM:SS`; minutes keep all their digits.
pub open spec fn time_text(secs: nat) -> Seq<char> {
    two_digits(secs / 60) + seq![':'] + two_digits(secs % 60)
}

fn digit_str(d: u64) -> (r: &'static str)
    requires
        d < 10,
    ensures
        r@ == seq![digit_char(d as nat)],
{
    proof {
        reveal_strlit("0");
        reveal_strlit("1");
        reveal_strlit("2");
        reveal_strlit("3");
        reveal_strlit("4");
        reveal_strlit("5");
        reveal_strlit("6");
        reveal_strlit("7");
        reveal_strlit("8");
        reveal_strlit("9");
    }
    if d == 0 {
        "0"
    } else if d == 1 {
        "1"
    } else if d == 2 {
        "2"
    } else if d == 3 {
        "3"
    } else if d == 4 {
        "4"
    } else if d == 5 {
        "5"
    } else if d == 6 {
        "6"
    } else if d == 7 {
        "7"
    } else if d == 8 {
        "8"
    } else {
        "9"
    }
}

/// Appends the decimal notation of `n`.
pub fn push_decimal(s: &mut String, n: u64)
    ensures
        final(s)@ == old(s)@ + decimal(n as nat),
    decreases n,
{
    if n < 10 {
        s.append(digit_str(n));
    } else {
        push_decimal(s, n / 10);
        s.append(digit_str(n % 10));
        assert(decimal(n as nat) == decimal((n / 10) as nat).push(digit_char((n % 10) as nat)));
    }
}

/// Appends `n` padded to at least two digits.
pub fn push_two_digits(s: &mut String, n: u64)
    ensures
        final(s)@ == old(s)@ + two_digits(n as nat),
{
    if n < 10 {
        proof {
            reveal_strlit("0");
        }
        s.append("0");
        s.append(digit_str(n));
        assert(s@ =~= old(s)@ + two_digits(n as nat));
    } else {
        push_decimal(s, n);
    }
}

fn push_literal(s: &mut String, lit: &str)
    ensures
        final(s)@ == old(s)@ + lit@,
{
    s.append(lit);
}

/// The clock text for a time of day, in the given format.
pub fn format_clock(hour: u32, minute: u32, format: ClockFormat) -> (r: String)
    requires
        hour < 24,
        minute < 60,
    ensures
        r@ == clock_text(hour as nat, minute as nat, format),
{
    proof {
        reveal_strlit(":");
        reveal_strlit(" AM");
        reveal_strlit(" PM");
    }
    let mut s = String::new();
    match format {
        ClockFormat::H24 => {
            push_two_digits(&mut s, hour as u64);
            push_literal(&mut s, ":");
            push_two_digits(&mut s, minute as u64);
        },
        ClockFormat::H12 => {
            let h: u32 = if hour % 12 == 0 {
                12
            } else {
                hour % 12
            };
            push_decimal(&mut s, h as u64);
            push_literal(&mut s, ":");
            push_two_digits(&mut s, minute as u64);
            if hour < 12 {
                push_literal(&mut s, " AM");
            } else {
                push_literal(&mut s, " PM");
            }
        },
    }
    assert(s@ =~= clock_text(hour as nat, minute as nat, format));
    s
}

/// A playback position or length in whole seconds, as `MM:SS`.
pub fn format_time(secs: u64) -> (r: String)
    ensures
        r@ == time_text(secs as nat),
{
    proof {
        reveal_strlit(":");
    }
    let mut s = String::new();
    push_two_digits(&mut s, secs / 60);
    push_literal(&mut s, ":");
    push_two_digits(&mut s, secs % 60);
    assert(s@ =~= time_text(secs as nat));
    s
}

/// Whether two texts are the same characters.
pub fn same_text(a: &str, b: &str) -> (r: bool)
    ensures
        r == (a@ == b@),
{
    let n = a.unicode_len();
    if n != b.unicode_len() {
        return false;
    }
    let mut i: usize = 0;
    while i < n
        invariant
            n == a@.len(),
            n == b@.len(),
            i <= n,
            forall|j: int| 0 <= j < i ==> a@[j] == b@[j],
        decreases n - i,
    {
        if a.get_char(i) != b.get_char(i) {
            return false;
        }
        i = i + 1;
    }
    assert(a@ =~= b@);
    true
}

} // verus!
