//! Handing values around: measuring a borrowed string, growing one
//! through a mutable reference, and moving ownership in and out.

use vstd::prelude::*;

verus! {

use vstd::string::{StrSliceExecFns, StringExecFns};
use vstd::utf8::encode_utf8;

/// Measures a borrowed string without taking ownership of it; the
/// answer counts bytes, as the borrowed string encodes them.
pub fn calculate_length(s: &String) -> (n: usize)
    ensures
        n == encode_utf8(s@).len(),
{
    let bytes: Vec<u8> = s.as_str().as_bytes_vec();
    bytes.len()
}

/// Grows a borrowed string in place, asking after the bar.
pub fn mutable_ref(some_string: &mut String)
    ensures
        final(some_string)@ == old(some_string)@ + " How's the bar?"@,
{
    some_string.append(" How's the bar?");
}

/// Makes a fresh string and moves it out to the caller.
pub fn gives_ownership() -> (r: String)
    ensures
        r@ == "yours"@,
{
    String::from_str("yours")
}

/// Takes a string and hands the very same one straight back.
pub fn takes_and_gives_back(a_string: String) -> (r: String)
    ensures
        r == a_string,
{
    a_string
}

} // verus!
