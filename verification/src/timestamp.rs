//! Timestamps in RFC 3339 form: a trusted source of the current instant, and
//! a verified check of the date-time shape that source produces.

use vstd::prelude::*;
use vstd::string::*;

verus! {

/// Whether a character is a decimal digit.
pub open spec fn is_dec_digit(c: char) -> bool {
    '0' <= c <= '9'
}

/// Whether a position inside the 19-character date-time prefix
/// `YYYY-MM-DDTHH:MM:SS` holds a separator rather than a digit.
pub open spec fn is_separator_pos(i: int) -> bool {
    i == 4 || i == 7 || i == 10 || i == 13 || i == 16
}

/// The separator that stands at a separator position of the prefix.
pub open spec fn separator_at(i: int) -> char {
    if i == 4 || i == 7 {
        '-'
    } else if i == 10 {
        'T'
    } else {
        ':'
    }
}

/// Whether a string begins with the RFC 3339 date-time prefix
/// `YYYY-MM-DDTHH:MM:SS`: at least 19 characters, digits everywhere in the
/// prefix but at the five separator positions, and the right separator at
/// each of those.
pub open spec fn rfc3339_shaped(s: Seq<char>) -> bool {
    &&& s.len() >= 19
    &&& forall|i: int|
        0 <= i < 19 && !is_separator_pos(i) ==> is_dec_digit(#[trigger] s[i])
    &&& forall|i: int| 0 <= i < 19 && is_separator_pos(i) ==> #[trigger] s[i] == separator_at(i)
}

/// Relies on chrono's `Utc::now` and `DateTime::to_rfc3339`: the current
/// instant rendered as an RFC 3339 string. For any year between 0 and 9999
/// (so for any instant the clock can report today), `write_rfc3339` opens
/// with the 19 characters `YYYY-MM-DDTHH:MM:SS`; nothing more is assumed,
/// as the instant itself depends on the clock.
#[verifier::external_body]
pub(crate) fn now_rfc3339() -> (r: String)
    ensures
        rfc3339_shaped(r@),
{
    chrono::Utc::now().to_rfc3339()
}

/// Whether a character is a decimal digit.
fn is_dec_digit_char(c: char) -> (b: bool)
    ensures
        b == is_dec_digit(c),
{
    '0' <= c && c <= '9'
}

/// Whether a string begins with the RFC 3339 date-time prefix
/// `YYYY-MM-DDTHH:MM:SS`.
pub fn is_rfc3339_shaped(s: &str) -> (b: bool)
    ensures
        b == rfc3339_shaped(s@),
{
    let n: usize = s.unicode_len();
    if n < 19 {
        return false;
    }
    let mut i: usize = 0;
    while i < 19
        invariant
            0 <= i <= 19,
            n == s@.len(),
            n >= 19,
            forall|j: int| 0 <= j < i && !is_separator_pos(j) ==> is_dec_digit(#[trigger] s@[j]),
            forall|j: int| 0 <= j < i && is_separator_pos(j) ==> #[trigger] s@[j] == separator_at(j),
        decreases 19 - i,
    {
        let c: char = s.get_char(i);
        if i == 4 || i == 7 {
            if c != '-' {
                return false;
            }
        } else if i == 10 {
            if c != 'T' {
                return false;
            }
        } else if i == 13 || i == 16 {
            if c != ':' {
                return false;
            }
        } else {
            if !is_dec_digit_char(c) {
                return false;
            }
        }
        i += 1;
    }
    true
}

} // verus!
