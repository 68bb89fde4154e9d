//! Conversions between Rust strings and the character and byte sequences that
//! the verified parsers work on.  Each function here is a thin, trusted call
//! into the standard library.
use vstd::prelude::*;
use vstd::utf8::*;

verus! {

/// Calls `str::chars` and collects the characters.  The contract claims that
/// the result holds exactly the characters of `s`, in order, as documented for
/// `str::chars`.
#[verifier::external_body]
pub fn chars_of(s: &str) -> (r: Vec<char>)
    ensures
        r@ == s@,
{
    s.chars().collect()
}

/// Collects characters into a `String` with `FromIterator<char>`.  The
/// contract claims that the string holds exactly these characters.
#[verifier::external_body]
pub fn string_of(chars: &[char]) -> (r: String)
    ensures
        r@ == chars@,
{
    chars.iter().collect()
}

/// Calls `core::str::from_utf8` and collects the characters of the result.
/// The contract claims what the standard library documents: the call succeeds
/// exactly on well-formed UTF-8, and then yields the decoded characters.
#[verifier::external_body]
pub fn utf8_chars(bytes: &[u8]) -> (r: Option<Vec<char>>)
    ensures
        r is Some <==> valid_utf8(bytes@),
        r matches Some(v) ==> v@ == decode_utf8(bytes@),
{
    match core::str::from_utf8(bytes) {
        Ok(s) => Some(s.chars().collect()),
        Err(_) => None,
    }
}

} // verus!
