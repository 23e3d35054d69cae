//! File names of the printed invoices.
use vstd::prelude::*;
use crate::text::{digit_char, digit_to_char, push_char, push_signed_decimal, signed_decimal};

verus! {

/// A calendar date and wall-clock time, to the second.
#[derive(Debug, Clone, Copy, PartialEq, Eq)]
pub struct Timestamp {
    pub year: i32,
    pub month: u8,
    pub day: u8,
    pub hour: u8,
    pub minute: u8,
    pub second: u8,
}

impl Timestamp {
    /// The ranges of a date and time: a year of at most four digits, a month
    /// of the year, a day of the month, an hour, a minute and a second.
    pub open spec fn valid(&self) -> bool {
        &&& -9999 <= self.year <= 9999
        &&& 1 <= self.month <= 12
        &&& 1 <= self.day <= 31
        &&& self.hour < 24
        &&& self.minute < 60
        &&& self.second < 60
    }
}

/// The last `width` decimal digits of `n`, with leading zeros.
pub open spec fn zero_padded(n: nat, width: nat) -> Seq<char>
    decreases width,
{
    if width == 0 {
        Seq::empty()
    } else {
        zero_padded(n / 10, (width - 1) as nat).push(digit_char(n % 10))
    }
}

/// A year on four digits with leading zeros, after a `-` when negative.
pub open spec fn year_text(year: int) -> Seq<char> {
    if year < 0 {
        seq!['-'] + zero_padded((-year) as nat, 4)
    } else {
        zero_padded(year as nat, 4)
    }
}

/// A timestamp written `year-month-day_hour-minute-second`, each field after
/// the year on two digits.
pub open spec fn timestamp_text(t: Timestamp) -> Seq<char> {
    year_text(t.year as int) + seq!['-'] + zero_padded(t.month as nat, 2) + seq!['-']
        + zero_padded(t.day as nat, 2) + seq!['_'] + zero_padded(t.hour as nat, 2) + seq!['-']
        + zero_padded(t.minute as nat, 2) + seq!['-'] + zero_padded(t.second as nat, 2)
}

/// The file name of the printed invoice `facture_id` made at `t`.
pub open spec fn pdf_name_text(facture_id: int, t: Timestamp) -> Seq<char> {
    "facture_"@ + signed_decimal(facture_id) + seq!['-'] + timestamp_text(t) + ".pdf"@
}

fn push_two_digits(s: &mut String, n: u8)
    requires
        n < 100,
    ensures
        final(s)@ == old(s)@ + zero_padded(n as nat, 2),
{
    proof {
        reveal_with_fuel(zero_padded, 3);
    }
    push_char(s, digit_to_char((n / 10) as u64));
    push_char(s, digit_to_char((n % 10) as u64));
    assert((n / 10) as nat / 10 == 0);
    assert(zero_padded(n as nat, 2) =~= seq![digit_char((n / 10) as nat), digit_char((n % 10) as nat)]);
    assert(final(s)@ =~= old(s)@ + zero_padded(n as nat, 2));
}

fn push_year(s: &mut String, year: i32)
    requires
        -9999 <= year <= 9999,
    ensures
        final(s)@ == old(s)@ + year_text(year as int),
{
    let ghost s0 = s@;
    let magnitude: u16 = if year < 0 {
        push_char(s, '-');
        (-year) as u16
    } else {
        year as u16
    };
    let ghost s1 = s@;
    proof {
        reveal_with_fuel(zero_padded, 5);
    }
    push_char(s, digit_to_char((magnitude / 1000) as u64));
    push_char(s, digit_to_char((magnitude / 100 % 10) as u64));
    push_char(s, digit_to_char((magnitude / 10 % 10) as u64));
    push_char(s, digit_to_char((magnitude % 10) as u64));
    assert(magnitude as nat / 10 / 10 / 10 / 10 == 0);
    assert(magnitude as nat / 10 / 10 / 10 == magnitude / 1000);
    assert(magnitude as nat / 10 / 10 % 10 == magnitude / 100 % 10);
    assert(zero_padded(magnitude as nat, 4) =~= seq![
        digit_char((magnitude / 1000) as nat),
        digit_char((magnitude / 100 % 10) as nat),
        digit_char((magnitude / 10 % 10) as nat),
        digit_char((magnitude % 10) as nat),
    ]);
    assert(s@ =~= s1 + zero_padded(magnitude as nat, 4));
    assert(s@ =~= s0 + year_text(year as int));
}

/// The file name of the printed invoice `facture_id` made at `now`:
/// `facture_<id>-<year>-<month>-<day>_<hour>-<minute>-<second>.pdf`.
pub fn pdf_name_for(facture_id: i64, now: &Timestamp) -> (r: String)
    requires
        now.valid(),
    ensures
        r@ == pdf_name_text(facture_id as int, *now),
{
    let mut s = String::new();
    push_char(&mut s, 'f');
    push_char(&mut s, 'a');
    push_char(&mut s, 'c');
    push_char(&mut s, 't');
    push_char(&mut s, 'u');
    push_char(&mut s, 'r');
    push_char(&mut s, 'e');
    push_char(&mut s, '_');
    proof {
        reveal_strlit("facture_");
        reveal_strlit(".pdf");
    }
    assert(s@ =~= "facture_"@);
    push_signed_decimal(&mut s, facture_id);
    push_char(&mut s, '-');
    let ghost head = s@;
    push_year(&mut s, now.year);
    push_char(&mut s, '-');
    push_two_digits(&mut s, now.month);
    push_char(&mut s, '-');
    push_two_digits(&mut s, now.day);
    push_char(&mut s, '_');
    push_two_digits(&mut s, now.hour);
    push_char(&mut s, '-');
    push_two_digits(&mut s, now.minute);
    push_char(&mut s, '-');
    push_two_digits(&mut s, now.second);
    assert(s@ =~= head + timestamp_text(*now));
    push_char(&mut s, '.');
    push_char(&mut s, 'p');
    push_char(&mut s, 'd');
    push_char(&mut s, 'f');
    assert(s@ =~= pdf_name_text(facture_id as int, *now));
    s
}

} // verus!
