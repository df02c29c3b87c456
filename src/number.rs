use vstd::prelude::*;

verus! {

pub open spec fn is_decimal_digit(c: char) -> bool {
    '0' <= c && c <= '9'
}

/// The value of a run of decimal digits, most significant first.
pub open spec fn digits_value(d: Seq<char>) -> int
    decreases d.len(),
{
    if d.len() == 0 {
        0
    } else {
        10 * digits_value(d.drop_last()) + (d.last() as int - '0' as int)
    }
}

/// The integer that `t` writes: an optional `+` or `-`, then one or more decimal
/// digits and nothing else.
pub open spec fn decimal_value(t: Seq<char>) -> Option<int> {
    let signed = t.len() > 0 && (t[0] == '+' || t[0] == '-');
    let digits = if signed { t.drop_first() } else { t };
    if digits.len() > 0 && forall|i: int| 0 <= i < digits.len() ==> is_decimal_digit(#[trigger] digits[i]) {
        if signed && t[0] == '-' {
            Some(-digits_value(digits))
        } else {
            Some(digits_value(digits))
        }
    } else {
        None
    }
}

/// The value of `t` read as an `i64`: `None` where the text is malformed or out of range.
pub open spec fn i64_value(t: Seq<char>) -> Option<int> {
    match decimal_value(t) {
        Some(v) => if i64::MIN <= v <= i64::MAX {
            Some(v)
        } else {
            None
        },
        None => None,
    }
}

/// Relies on `<i64 as core::str::FromStr>::from_str`, documented to accept an
/// optional `+` or `-` followed by decimal digits only, and to fail on any other
/// character or on a value outside the type's range.
#[verifier::external_body]
pub(crate) fn parse_i64(text: &str) -> (r: Option<i64>)
    ensures
        match r {
            Some(n) => i64_value(text@) == Some(n as int),
            None => i64_value(text@) is None,
        },
{
    text.parse::<i64>().ok()
}

} // verus!
