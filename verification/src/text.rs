//! Conversions between strings and their character sequences.

use vstd::prelude::*;

verus! {

/// Relies on `str::chars`: exactly the string's characters, in order.
#[verifier::external_body]
pub(crate) fn chars_of_str(s: &str) -> (r: Vec<char>)
    ensures
        r@ == s@,
{
    s.chars().collect()
}

/// Relies on `String::from_iter` over `char`: the returned string holds
/// exactly the given characters, in order.
#[verifier::external_body]
pub(crate) fn string_of_chars(chars: &Vec<char>) -> (s: String)
    ensures
        s@ == chars@,
{
    chars.iter().collect()
}

} // verus!
