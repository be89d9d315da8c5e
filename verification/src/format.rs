//! Text of dashboard values: whole numbers in decimal, percentages,
//! temperatures and 24-hour clock times.

use vstd::prelude::*;

use crate::config::{TemperatureUnit, TimeFormat};

verus! {

/// The decimal digits of `n`, most significant first, without leading zeros
/// (`0` is written `0`).
pub open spec fn decimal_digits(n: nat) -> Seq<char>
    decreases n,
{
    if n < 10 {
        seq![digit_char(n)]
    } else {
        decimal_digits(n / 10).push(digit_char(n % 10))
    }
}

pub open spec fn digit_char(d: nat) -> char {
    (('0' as u32) + d) as char
}

/// `n` written in decimal, with a leading `-` when negative.
pub open spec fn decimal_text(n: int) -> Seq<char> {
    if n < 0 {
        seq!['-'] + decimal_digits((-n) as nat)
    } else {
        decimal_digits(n as nat)
    }
}

/// `n` written with at least two digits, as `{:02}` writes it.
pub open spec fn two_digit_text(n: nat) -> Seq<char> {
    if n < 10 {
        seq!['0', digit_char(n)]
    } else {
        decimal_digits(n)
    }
}

/// The text of characters `chars`.
#[verifier::external_body]
fn text_from_chars(chars: &Vec<char>) -> (s: String)
    ensures
        s@ == chars@,
{
    chars.iter().collect()
}

fn push_digits(out: &mut Vec<char>, n: u64)
    ensures
        final(out)@ == old(out)@ + decimal_digits(n as nat),
    decreases n,
{
    if n >= 10 {
        push_digits(out, n / 10);
    }
    let d = (n % 10) as u32;
    let c = char_of_digit(d);
    out.push(c);
    proof {
        if n < 10 {
            assert(n % 10 == n);
        }
    }
}

fn char_of_digit(d: u32) -> (c: char)
    requires
        d < 10,
    ensures
        c == digit_char(d as nat),
{
    let code: u8 = (48 + d) as u8;
    code as char
}

/// The text of a percentage rounded to a whole number, or `--` when the value
/// is unknown.
pub open spec fn percent_text(value: Option<i32>) -> Seq<char> {
    match value {
        Some(v) => decimal_text(v as int) + seq!['%'],
        None => seq!['-', '-'],
    }
}

/// The text of a temperature rounded to a whole degree, suffixed with `C`, or
/// `--` when unknown.
pub open spec fn temperature_text(value: Option<i32>, unit: TemperatureUnit) -> Seq<char> {
    match value {
        Some(v) => decimal_text(v as int) + seq!['C'],
        None => seq!['-', '-'],
    }
}

/// The dashboard's temperature text: the degree sign before `C`.
pub open spec fn temperature_text_with_degree_sign(value: Option<i32>, unit: TemperatureUnit) -> Seq<char> {
    match value {
        Some(v) => decimal_text(v as int) + seq!['°', 'C'],
        None => seq!['-', '-'],
    }
}

/// The text of a time of day on the 24-hour clock, `HH:MM`.
pub open spec fn time_text(hour: u32, minute: u32, format: TimeFormat) -> Seq<char> {
    two_digit_text(hour as nat) + seq![':'] + two_digit_text(minute as nat)
}

fn text_with_suffix(value: Option<i32>, suffix: &[char]) -> (s: String)
    ensures
        value matches Some(v) ==> s@ == decimal_text(v as int) + suffix@,
        value is None ==> s@ == seq!['-', '-'],
{
    let mut out: Vec<char> = Vec::new();
    match value {
        Some(v) => {
            let n = v as i64;
            if n < 0 {
                out.push('-');
                push_digits(&mut out, (-n) as u64);
            } else {
                push_digits(&mut out, n as u64);
            }
            let mut i: usize = 0;
            let ghost base = out@;
            while i < suffix.len()
                invariant
                    i <= suffix@.len(),
                    out@ == base + suffix@.subrange(0, i as int),
                decreases suffix@.len() - i,
            {
                out.push(suffix[i]);
                i = i + 1;
                assert(out@ =~= base + suffix@.subrange(0, i as int));
            }
            assert(suffix@.subrange(0, suffix@.len() as int) =~= suffix@);
            assert(out@ =~= decimal_text(v as int) + suffix@);
        },
        None => {
            out.push('-');
            out.push('-');
            assert(out@ =~= seq!['-', '-']);
        },
    }
    text_from_chars(&out)
}

/// A percentage rounded to a whole number, e.g. `51%`, or `--`.
pub fn format_percent(value: Option<i32>) -> (s: String)
    ensures
        s@ == percent_text(value),
{
    let s = text_with_suffix(value, ['%'].as_slice());
    proof {
        if value is Some {
            assert(['%']@ =~= seq!['%']);
        }
    }
    s
}

/// A temperature rounded to a whole degree, e.g. `63C`, or `--`.
pub fn format_temperature(value: Option<i32>, unit: TemperatureUnit) -> (s: String)
    ensures
        s@ == temperature_text(value, unit),
{
    match unit {
        TemperatureUnit::Celsius => {
            let s = text_with_suffix(value, ['C'].as_slice());
            proof {
                if value is Some {
                    assert(['C']@ =~= seq!['C']);
                }
            }
            s
        },
    }
}

/// A temperature as the dashboard shows it, e.g. `61°C`, or `--`.
pub fn format_temperature_with_degree_sign(value: Option<i32>, unit: TemperatureUnit) -> (s: String)
    ensures
        s@ == temperature_text_with_degree_sign(value, unit),
{
    match unit {
        TemperatureUnit::Celsius => {
            let s = text_with_suffix(value, ['°', 'C'].as_slice());
            proof {
                if value is Some {
                    assert(['°', 'C']@ =~= seq!['°', 'C']);
                }
            }
            s
        },
    }
}

fn push_two_digits(out: &mut Vec<char>, n: u32)
    ensures
        final(out)@ == old(out)@ + two_digit_text(n as nat),
{
    if n < 10 {
        out.push('0');
        out.push(char_of_digit(n));
        assert(final(out)@ =~= old(out)@ + two_digit_text(n as nat));
    } else {
        push_digits(out, n as u64);
    }
}

/// A time of day as `HH:MM` on the 24-hour clock, e.g. `09:07`.
pub fn format_time(hour: u32, minute: u32, format: TimeFormat) -> (s: String)
    ensures
        s@ == time_text(hour, minute, format),
{
    match format {
        TimeFormat::TwentyFourHour => {
            let mut out: Vec<char> = Vec::new();
            push_two_digits(&mut out, hour);
            out.push(':');
            push_two_digits(&mut out, minute);
            assert(out@ =~= time_text(hour, minute, format));
            text_from_chars(&out)
        },
    }
}

} // verus!
