//! Calls into outside crates: random secrets, sortable ids and regular
//! expressions.

use vstd::prelude::*;

verus! {

/// The URL-safe alphabet: `_`, `-`, ASCII digits and ASCII letters.
pub open spec fn is_url_safe_char(c: char) -> bool {
    ||| c == '_'
    ||| c == '-'
    ||| (48 <= c as u32 && c as u32 <= 57)
    ||| (97 <= c as u32 && c as u32 <= 122)
    ||| (65 <= c as u32 && c as u32 <= 90)
}

pub open spec fn is_url_safe(s: Seq<char>) -> bool {
    forall|i: int| 0 <= i < s.len() ==> is_url_safe_char(#[trigger] s[i])
}

/// Relies on nanoid::format with nanoid's default (entropy-seeded) random
/// source and its URL-safe alphabet, which is what `nanoid!(size)` expands to:
/// the result has `size` characters, each from that alphabet. With `size` 0
/// the call never returns.
#[verifier::external_body]
pub(crate) fn random_code(size: usize) -> (r: String)
    requires
        size > 0,
    ensures
        r@.len() == size,
        is_url_safe(r@),
{
    nanoid::format(nanoid::rngs::default, &nanoid::alphabet::SAFE, size)
}

/// Relies on ulid::Ulid::new and its Display impl: a fresh ULID from the
/// clock and a random source, written as 26 Crockford base32 characters.
#[verifier::external_body]
pub(crate) fn new_ulid() -> (r: String)
    ensures
        r@.len() == 26,
{
    ulid::Ulid::new().to_string()
}

/// Whether a regular expression matches a text: `None` when the pattern does
/// not compile, else whether it matches somewhere in the text.
pub uninterp spec fn regex_accepts(pattern: Seq<char>, text: Seq<char>) -> Option<bool>;

/// Relies on regex::Regex::new and regex::Regex::is_match: the outcome depends
/// on the pattern and the text alone.
#[verifier::external_body]
pub(crate) fn regex_is_match(pattern: &str, text: &str) -> (r: Option<bool>)
    ensures
        r == regex_accepts(pattern@, text@),
{
    match regex::Regex::new(pattern) {
        Ok(re) => Some(re.is_match(text)),
        Err(_) => None,
    }
}

} // verus!
