//! Decimal text of integers, the text of flags and the calendar form of a
//! time, for URLs and messages.

use vstd::prelude::*;
use vstd::string::*;

verus! {

/// The character of one decimal digit.
pub open spec fn digit(d: nat) -> char {
    if d == 0 {
        '0'
    } else if d == 1 {
        '1'
    } else if d == 2 {
        '2'
    } else if d == 3 {
        '3'
    } else if d == 4 {
        '4'
    } else if d == 5 {
        '5'
    } else if d == 6 {
        '6'
    } else if d == 7 {
        '7'
    } else if d == 8 {
        '8'
    } else {
        '9'
    }
}

/// The decimal numeral of `n`, most significant digit first, without
/// leading zeros.
pub open spec fn decimal(n: nat) -> Seq<char>
    decreases n,
{
    if n < 10 {
        seq![digit(n)]
    } else {
        decimal(n / 10).push(digit(n % 10))
    }
}

fn digit_text(d: u64) -> (text: &'static str)
    requires
        d < 10,
    ensures
        text@ == seq![digit(d as nat)],
{
    proof {
        reveal_strlit("0");
        reveal_strlit("1");
        reveal_strlit("2");
        reveal_strlit("3");
        reveal_strlit("4");
        reveal_strlit("5");
        reveal_strlit("6");
        reveal_strlit("7");
        reveal_strlit("8");
        reveal_strlit("9");
    }
    let text = if d == 0 {
        "0"
    } else if d == 1 {
        "1"
    } else if d == 2 {
        "2"
    } else if d == 3 {
        "3"
    } else if d == 4 {
        "4"
    } else if d == 5 {
        "5"
    } else if d == 6 {
        "6"
    } else if d == 7 {
        "7"
    } else if d == 8 {
        "8"
    } else {
        "9"
    };
    text
}

/// Appends the decimal numeral of `n` to `text`.
pub fn push_decimal(text: &mut String, n: u64)
    ensures
        final(text)@ == old(text)@ + decimal(n as nat),
    decreases n,
{
    if n >= 10 {
        push_decimal(text, n / 10);
    }
    text.append(digit_text(n % 10));
}

/// The word for a flag.
pub open spec fn truth(flag: bool) -> Seq<char> {
    if flag {
        "true"@
    } else {
        "false"@
    }
}

/// Returns the word for a flag.
pub fn truth_text(flag: bool) -> (text: &'static str)
    ensures
        text@ == truth(flag),
{
    if flag {
        "true"
    } else {
        "false"
    }
}

/// The layout of an HTTP date without the zone, such as
/// `Thu, 01 Jan 1970 00:00:00`.
pub const HTTP_DATE: &'static str = "%a, %d %b %Y %T";

/// The layout of a date and a time of day, such as `1970-01-01 00:00:00`.
pub const PLAIN_DATE: &'static str = "%Y-%m-%d %H:%M:%S%.f";

/// The calendar form, in UTC, of a UNIX time in one of the two layouts.
/// There is none for a time beyond the years the calendar reaches.
pub uninterp spec fn calendar_text(secs: i64, layout: Seq<char>) -> Option<Seq<char>>;

/// Formats a UNIX time with `chrono`: `DateTime::from_timestamp` with no
/// nanoseconds, then `DateTime::format` with `layout`. The contract only
/// names what comes back: the text for a time that `from_timestamp`
/// accepts, and none for one it refuses. Only the two layouts above are let
/// in, since a layout that `chrono` cannot read makes the formatting panic.
#[verifier::external_body]
pub(crate) fn calendar_time(secs: i64, layout: &'static str) -> (text: Option<String>)
    requires
        layout == HTTP_DATE || layout == PLAIN_DATE,
    ensures
        match text {
            Some(written) => calendar_text(secs, layout@) == Some(written@),
            None => calendar_text(secs, layout@) is None,
        },
{
    match chrono::DateTime::from_timestamp(secs, 0) {
        Some(time) => Some(time.format(layout).to_string()),
        None => None,
    }
}

/// The text was written if and only if there is one to write, and it is
/// that one.
pub open spec fn written(text: Option<String>, expected: Option<Seq<char>>) -> bool {
    match (text, expected) {
        (Some(a), Some(b)) => a@ == b,
        (None, None) => true,
        _ => false,
    }
}

/// The whole seconds of a time in milliseconds, rounded down.
pub open spec fn seconds(millis: i64) -> i64 {
    (millis as int / 1000) as i64
}

/// Computes the whole seconds of a time in milliseconds.
pub fn whole_seconds(millis: i64) -> (secs: i64)
    ensures
        secs == seconds(millis),
        secs == millis as int / 1000,
{
    if millis >= 0 {
        millis / 1000
    } else {
        let above: i64 = (-(millis + 1)) / 1000;
        -above - 1
    }
}

} // verus!
