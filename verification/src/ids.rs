//! Identifiers: the UUID text formats that the service reads and writes, and
//! the calls into the `uuid` crate that parse, render and generate them.
use vstd::prelude::*;

verus! {

pub open spec fn is_hex_digit(c: char) -> bool {
    ('0' <= c && c <= '9') || ('a' <= c && c <= 'f') || ('A' <= c && c <= 'F')
}

pub open spec fn is_lower_hex_digit(c: char) -> bool {
    ('0' <= c && c <= '9') || ('a' <= c && c <= 'f')
}

pub open spec fn hex_digit_value(c: char) -> nat {
    if '0' <= c && c <= '9' {
        (c as int - '0' as int) as nat
    } else if 'a' <= c && c <= 'f' {
        (c as int - 'a' as int + 10) as nat
    } else {
        (c as int - 'A' as int + 10) as nat
    }
}

/// The number that a string of hexadecimal digits spells, most significant
/// digit first.
pub open spec fn hex_number(s: Seq<char>) -> nat
    decreases s.len(),
{
    if s.len() == 0 {
        0
    } else {
        hex_number(s.drop_last()) * 16 + hex_digit_value(s.last())
    }
}

pub open spec fn all_hex(s: Seq<char>) -> bool {
    forall|i: int| 0 <= i < s.len() ==> is_hex_digit(#[trigger] s[i])
}

/// The lower-case hexadecimal digit for `v` (below 16).
pub open spec fn lower_hex_char(v: nat) -> char {
    if v < 10 {
        ((v + '0' as int) as u32) as char
    } else {
        ((v - 10 + 'a' as int) as u32) as char
    }
}

/// The last `n` hexadecimal digits of `v`, lower case, most significant first.
pub open spec fn lower_hex_digits(v: nat, n: nat) -> Seq<char>
    decreases n,
{
    if n == 0 {
        Seq::empty()
    } else {
        lower_hex_digits(v / 16, (n - 1) as nat).push(lower_hex_char(v % 16))
    }
}

/// The value of a hyphenated UUID (`8-4-4-4-12` hexadecimal digits), if `s`
/// is one.
pub open spec fn hyphenated_value(s: Seq<char>) -> Option<u128> {
    if s.len() == 36 && s[8] == '-' && s[13] == '-' && s[18] == '-' && s[23] == '-' {
        let digits = s.subrange(0, 8) + s.subrange(9, 13) + s.subrange(14, 18) + s.subrange(19, 23)
            + s.subrange(24, 36);
        if all_hex(digits) {
            Some(hex_number(digits) as u128)
        } else {
            None
        }
    } else {
        None
    }
}

pub open spec fn ascii_lower(c: char) -> char {
    if 'A' <= c && c <= 'Z' {
        ((c as int + 32) as u32) as char
    } else {
        c
    }
}

/// The UUID that `s` spells, in any of the forms that `uuid::Uuid::parse_str`
/// accepts: 32 hexadecimal digits; the hyphenated form; the hyphenated form
/// in braces; or the hyphenated form after a `urn:uuid:` prefix in any case.
pub open spec fn parsed_uuid(s: Seq<char>) -> Option<u128> {
    if s.len() == 32 {
        if all_hex(s) {
            Some(hex_number(s) as u128)
        } else {
            None
        }
    } else if s.len() == 36 {
        hyphenated_value(s)
    } else if s.len() == 38 {
        if s[0] == '{' && s[37] == '}' {
            hyphenated_value(s.subrange(1, 37))
        } else {
            None
        }
    } else if s.len() == 45 {
        if s.subrange(0, 9).map_values(|c: char| ascii_lower(c)) == seq![
            'u',
            'r',
            'n',
            ':',
            'u',
            'u',
            'i',
            'd',
            ':',
        ] {
            hyphenated_value(s.subrange(9, 45))
        } else {
            None
        }
    } else {
        None
    }
}

/// The hyphenated, lower-case text of the UUID `v`, as its `Display` renders
/// it: `xxxxxxxx-xxxx-xxxx-xxxx-xxxxxxxxxxxx`.
pub open spec fn uuid_text(v: u128) -> Seq<char> {
    let d = lower_hex_digits(v as nat, 32);
    d.subrange(0, 8) + seq!['-'] + d.subrange(8, 12) + seq!['-'] + d.subrange(12, 16) + seq!['-']
        + d.subrange(16, 20) + seq!['-'] + d.subrange(20, 32)
}

/// Reads a UUID with `uuid::Uuid::parse_str`.
///
/// Trusted: the contract states the formats that the crate's parser accepts
/// (32 hexadecimal digits, the hyphenated form, braced, or behind a
/// `urn:uuid:` prefix) and that the value is those digits read as one
/// big-endian number, as `as_u128` gives it.
#[verifier::external_body]
pub fn parse_uuid(text: &str) -> (r: Option<u128>)
    ensures
        r == parsed_uuid(text@),
{
    match uuid::Uuid::parse_str(text) {
        Ok(u) => Some(u.as_u128()),
        Err(_) => None,
    }
}

/// Renders a UUID with its `Display` impl.
///
/// Trusted: the contract states that `uuid::Uuid` displays as the hyphenated
/// form in lower-case hexadecimal digits.
#[verifier::external_body]
pub fn uuid_to_text(v: u128) -> (r: String)
    ensures
        r@ == uuid_text(v),
{
    uuid::Uuid::from_u128(v).to_string()
}

/// A fresh time-ordered identifier: `uuid::Uuid::now_v7()` in its simple
/// form.
///
/// Trusted: the contract states only the shape of the text, 32 lower-case
/// hexadecimal digits with the version digit `7` at position 12. The value
/// depends on the clock and on random bits and is left unsaid.
#[verifier::external_body]
pub fn new_request_id() -> (r: String)
    ensures
        r@.len() == 32,
        forall|i: int| 0 <= i < 32 ==> is_lower_hex_digit(#[trigger] r@[i]),
        r@[12] == '7',
{
    uuid::Uuid::now_v7().simple().to_string()
}

} // verus!
