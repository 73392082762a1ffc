//! The smallest of functions: one that picks between two constants.

use vstd::prelude::*;

verus! {

/// Returns 15 for inputs over ten and 5 for everything else.
pub fn five_or_fifteen(num: i32) -> (r: i32)
    ensures
        r == if num > 10 { 15int } else { 5int },
{
    if num > 10 {
        return 15i32;
    }
    5i32
}

} // verus!
