//! The text of the report: a banner with the version, then one line for each
//! reading. Numbers are written in base ten, without sign, separator or
//! leading zero.

use crate::{version, VERSION};
use vstd::prelude::*;

verus! {

/// The character that stands for a digit below ten.
pub open spec fn digit_char(d: nat) -> char {
    if d == 0 {
        '0'
    } else if d == 1 {
        '1'
    } else if d == 2 {
        '2'
    } else if d == 3 {
        '3'
    } else if d == 4 {
        '4'
    } else if d == 5 {
        '5'
    } else if d == 6 {
        '6'
    } else if d == 7 {
        '7'
    } else if d == 8 {
        '8'
    } else {
        '9'
    }
}

/// Whether a character is one of the ten digits.
pub open spec fn is_digit(c: char) -> bool {
    '0' <= c && c <= '9'
}

/// The digit that a character stands for; zero for any other character.
pub open spec fn digit_value(c: char) -> nat {
    if c == '1' {
        1
    } else if c == '2' {
        2
    } else if c == '3' {
        3
    } else if c == '4' {
        4
    } else if c == '5' {
        5
    } else if c == '6' {
        6
    } else if c == '7' {
        7
    } else if c == '8' {
        8
    } else if c == '9' {
        9
    } else {
        0
    }
}

/// A number written in base ten, most significant digit first.
pub open spec fn decimal(n: nat) -> Seq<char>
    decreases n,
{
    if n < 10 {
        seq![digit_char(n)]
    } else {
        decimal(n / 10).push(digit_char(n % 10))
    }
}

/// The number that a run of digits denotes in base ten.
pub open spec fn decimal_value(digits: Seq<char>) -> nat
    decreases digits.len(),
{
    if digits.len() == 0 {
        0
    } else {
        10 * decimal_value(digits.drop_last()) + digit_value(digits.last())
    }
}

/// The banner: the product's name, then ` v` and the version.
pub open spec fn banner_text(version: Seq<char>) -> Seq<char> {
    "DaVinci shared-rust v"@ + version
}

/// The line that reports the CPU count.
pub open spec fn cpu_text(count: nat) -> Seq<char> {
    "CPU cores: "@ + decimal(count)
}

/// The line that reports the timestamp.
pub open spec fn timestamp_text(secs: nat) -> Seq<char> {
    "Unix timestamp: "@ + decimal(secs)
}

/// A number's decimal form is never empty and holds digits only: no sign and
/// no separator.
pub proof fn lemma_decimal_is_digits(n: nat)
    ensures
        decimal(n).len() >= 1,
        forall|i: int| 0 <= i < decimal(n).len() ==> is_digit(#[trigger] decimal(n)[i]),
    decreases n,
{
    if n >= 10 {
        lemma_decimal_is_digits(n / 10);
    }
}

/// A number's decimal form starts with a zero only where the number is zero,
/// and zero is written as the single digit `0`.
pub proof fn lemma_decimal_no_leading_zero(n: nat)
    ensures
        decimal(n).len() >= 1,
        decimal(n)[0] == '0' <==> n == 0,
        n == 0 ==> decimal(n) == seq!['0'],
    decreases n,
{
    if n >= 10 {
        lemma_decimal_no_leading_zero(n / 10);
    }
}

/// Reading a number's decimal form back in base ten gives the number, so two
/// different numbers are never written alike.
pub proof fn lemma_decimal_value(n: nat)
    ensures
        decimal_value(decimal(n)) == n,
    decreases n,
{
    if n < 10 {
        assert(decimal(n).drop_last() =~= Seq::<char>::empty());
        assert(decimal_value(decimal(n).drop_last()) == 0);
    } else {
        lemma_decimal_value(n / 10);
        assert(decimal(n).drop_last() =~= decimal(n / 10));
    }
}

/// The one-character text of a digit.
fn digit_str(d: u64) -> (text: &'static str)
    requires
        d < 10,
    ensures
        text@ == seq![digit_char(d as nat)],
{
    proof {
        reveal_strlit("0");
        reveal_strlit("1");
        reveal_strlit("2");
        reveal_strlit("3");
        reveal_strlit("4");
        reveal_strlit("5");
        reveal_strlit("6");
        reveal_strlit("7");
        reveal_strlit("8");
        reveal_strlit("9");
    }
    let text = if d == 0 {
        "0"
    } else if d == 1 {
        "1"
    } else if d == 2 {
        "2"
    } else if d == 3 {
        "3"
    } else if d == 4 {
        "4"
    } else if d == 5 {
        "5"
    } else if d == 6 {
        "6"
    } else if d == 7 {
        "7"
    } else if d == 8 {
        "8"
    } else {
        "9"
    };
    assert(text@ =~= seq![digit_char(d as nat)]);
    text
}

/// Writes a number in base ten.
pub fn decimal_string(n: u64) -> (text: String)
    ensures
        text@ == decimal(n as nat),
    decreases n,
{
    if n < 10 {
        digit_str(n).to_owned()
    } else {
        let mut text = decimal_string(n / 10);
        text.append(digit_str(n % 10));
        text
    }
}

/// The banner for a version.
pub fn banner_line(version: &str) -> (line: String)
    ensures
        line@ == banner_text(version@),
{
    let mut line = "DaVinci shared-rust v".to_owned();
    line.append(version);
    line
}

/// The line that reports a CPU count.
pub fn cpu_line(count: usize) -> (line: String)
    ensures
        line@ == cpu_text(count as nat),
{
    let mut line = "CPU cores: ".to_owned();
    let digits = decimal_string(count as u64);
    line.append(digits.as_str());
    line
}

/// The line that reports a timestamp.
pub fn timestamp_line(secs: u64) -> (line: String)
    ensures
        line@ == timestamp_text(secs as nat),
{
    let mut line = "Unix timestamp: ".to_owned();
    let digits = decimal_string(secs);
    line.append(digits.as_str());
    line
}

/// The whole report for a CPU count and a timestamp: the banner with this
/// library's version, the CPU line and the timestamp line, in that order.
pub fn report_lines(cpus: usize, secs: u64) -> (lines: Vec<String>)
    ensures
        lines.len() == 3,
        lines[0]@ == banner_text(VERSION@),
        lines[1]@ == cpu_text(cpus as nat),
        lines[2]@ == timestamp_text(secs as nat),
{
    let mut lines: Vec<String> = Vec::new();
    lines.push(banner_line(version()));
    lines.push(cpu_line(cpus));
    lines.push(timestamp_line(secs));
    lines
}

} // verus!
