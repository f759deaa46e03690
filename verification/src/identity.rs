//! Identity and creation date of new packages.
use chrono::Datelike;
use vstd::prelude::*;
use crate::text::{decimal, push_char, push_decimal, push_decimal_padded, zero_padded};

verus! {

/// Reads the clock (`chrono::Utc::now`) and returns the current UTC date as
/// year, month and day. The contract states what chrono documents for
/// every outcome: the month is in 1..=12 and the day in 1..=31.
#[verifier::external_body]
pub(crate) fn today_utc() -> (r: (i32, u32, u32))
    ensures
        1 <= r.1 <= 12,
        1 <= r.2 <= 31,
{
    let now = chrono::Utc::now();
    (now.year(), now.month(), now.day())
}

/// A lower-case hexadecimal digit.
pub open spec fn lower_hex_digit(c: char) -> bool {
    ('0' <= c && c <= '9') || ('a' <= c && c <= 'f')
}

/// The hyphenated text form of a version 4 (random) UUID: 36 characters,
/// `-` at positions 8, 13, 18 and 23, lower-case hexadecimal digits
/// elsewhere, the version digit `4` at position 14 and a variant digit of
/// `8`, `9`, `a` or `b` at position 19.
pub open spec fn uuid_v4_text(s: Seq<char>) -> bool {
    &&& s.len() == 36
    &&& forall|i: int|
        0 <= i < 36 ==> if i == 8 || i == 13 || i == 18 || i == 23 {
            #[trigger] s[i] == '-'
        } else {
            lower_hex_digit(s[i])
        }
    &&& s[14] == '4'
    &&& s[19] == '8' || s[19] == '9' || s[19] == 'a' || s[19] == 'b'
}

/// Generates a random identifier (`uuid::Uuid::new_v4`) in its text form
/// (`Display`, which writes the lower-case hyphenated form). The contract
/// states the shape of that form for a version 4 UUID; the random digits
/// themselves are left open.
#[verifier::external_body]
pub(crate) fn random_package_id() -> (r: String)
    ensures
        uuid_v4_text(r@),
{
    uuid::Uuid::new_v4().to_string()
}

/// Decimal notation of a signed integer.
pub open spec fn int_decimal(n: int) -> Seq<char> {
    if n < 0 {
        seq!['-'] + decimal((-n) as nat)
    } else {
        decimal(n as nat)
    }
}

/// `YYYY-MM-DD`: the year as is, month and day zero-padded to two digits.
pub open spec fn date_text(year: int, month: nat, day: nat) -> Seq<char> {
    int_decimal(year) + seq!['-'] + zero_padded(decimal(month), 2) + seq!['-'] + zero_padded(
        decimal(day),
        2,
    )
}

fn push_int_decimal(s: &mut String, n: i32)
    ensures
        final(s)@ == old(s)@ + int_decimal(n as int),
{
    if n < 0 {
        push_char(s, '-');
        let magnitude = (0i64 - n as i64) as usize;
        push_decimal(s, magnitude);
        assert(old(s)@.push('-') + decimal(magnitude as nat) == old(s)@ + (seq!['-'] + decimal(
            (-n) as nat,
        )));
    } else {
        push_decimal(s, n as usize);
    }
}

/// Formats a date as `YYYY-MM-DD`.
pub fn format_date(year: i32, month: u32, day: u32) -> (r: String)
    ensures
        r@ == date_text(year as int, month as nat, day as nat),
{
    let mut s = String::new();
    push_int_decimal(&mut s, year);
    push_char(&mut s, '-');
    push_decimal_padded(&mut s, month as usize, 2);
    push_char(&mut s, '-');
    push_decimal_padded(&mut s, day as usize, 2);
    assert(s@ =~= date_text(year as int, month as nat, day as nat));
    s
}

} // verus!
