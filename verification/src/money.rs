//! Amounts of money are integers of cents; this module renders them in dollars.
use vstd::prelude::*;
use crate::text::{decimal, digit_char, push_char, push_decimal, digit_to_char};

verus! {

/// `"d.cc"` for a non-negative number of cents: the dollars in decimal, a dot,
/// and the two digits of the cents.
pub open spec fn dollars_text(cents: nat) -> Seq<char> {
    decimal(cents / 100) + seq!['.', digit_char((cents % 100) / 10), digit_char(cents % 10)]
}

/// The rendering of a signed number of cents: a `-` in front of negative amounts.
pub open spec fn cents_text(cents: int) -> Seq<char> {
    if cents < 0 {
        seq!['-'] + dollars_text((-cents) as nat)
    } else {
        dollars_text(cents as nat)
    }
}

/// Formats an amount of cents as a decimal dollar string,
/// e.g. 1150 gives "11.50", -500 gives "-5.00" and 0 gives "0.00".
pub fn format_cents(cents: i64) -> (r: String)
    ensures
        r@ == cents_text(cents as int),
{
    let mut s = String::new();
    let abs: u64 = if cents < 0 {
        if cents == i64::MIN {
            9223372036854775808u64
        } else {
            (-cents) as u64
        }
    } else {
        cents as u64
    };
    let rest = abs % 100;
    if cents < 0 {
        push_char(&mut s, '-');
    }
    push_decimal(&mut s, abs / 100);
    push_char(&mut s, '.');
    push_char(&mut s, digit_to_char(rest / 10));
    push_char(&mut s, digit_to_char(rest % 10));
    proof {
        assert(s@ =~= cents_text(cents as int));
    }
    s
}

} // verus!
