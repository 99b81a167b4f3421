use colored::Colorize;
use vstd::prelude::*;

use crate::log::{convert_level_to_string, level_tag, Level};

verus! {

/// The decimal digit `d` as text.
pub open spec fn digit_text(d: nat) -> Seq<char> {
    if d == 0 {
        "0"@
    } else if d == 1 {
        "1"@
    } else if d == 2 {
        "2"@
    } else if d == 3 {
        "3"@
    } else if d == 4 {
        "4"@
    } else if d == 5 {
        "5"@
    } else if d == 6 {
        "6"@
    } else if d == 7 {
        "7"@
    } else if d == 8 {
        "8"@
    } else {
        "9"@
    }
}

/// `n` written in decimal, without leading zeros.
pub open spec fn decimal(n: nat) -> Seq<char>
    decreases n,
{
    if n < 10 {
        digit_text(n)
    } else {
        decimal(n / 10) + digit_text(n % 10)
    }
}

/// The text of a single decimal digit.
pub fn digit_str(d: u64) -> (r: &'static str)
    requires
        d < 10,
    ensures
        r@ == digit_text(d as nat),
{
    if d == 0 {
        "0"
    } else if d == 1 {
        "1"
    } else if d == 2 {
        "2"
    } else if d == 3 {
        "3"
    } else if d == 4 {
        "4"
    } else if d == 5 {
        "5"
    } else if d == 6 {
        "6"
    } else if d == 7 {
        "7"
    } else if d == 8 {
        "8"
    } else {
        "9"
    }
}

/// `n` written in decimal.
pub fn decimal_string(n: u64) -> (r: String)
    ensures
        r@ == decimal(n as nat),
    decreases n,
{
    if n < 10 {
        String::from_str(digit_str(n))
    } else {
        let mut s = decimal_string(n / 10);
        s.append(digit_str(n % 10));
        s
    }
}

/// Relies on colored's `normal` and `clear` on a string slice, which give a
/// string without colour or style, and on its `Display`, which writes such a
/// string unchanged.
#[verifier::external_body]
pub(crate) fn plain_text(s: &str) -> (r: String)
    ensures
        r@ == s@,
{
    s.normal().clear().to_string()
}

/// The line by which a record is echoed locally.
pub open spec fn echo_text(stamp: Seq<char>, level: Level, message: Seq<char>) -> Seq<char> {
    "[("@ + stamp + ") ("@ + level_tag(level) + ")]: "@ + message
}

/// The local echo of a record, stamped with the time `stamp`.
pub fn echo_line(stamp: &str, level: &Level, message: &str) -> (r: String)
    ensures
        r@ == echo_text(stamp@, *level, message@),
{
    let tag = convert_level_to_string(level);
    let mut s = String::from_str("[(");
    s.append(stamp);
    s.append(") (");
    s.append(tag.as_str());
    s.append(")]: ");
    s.append(message);
    s
}

} // verus!
