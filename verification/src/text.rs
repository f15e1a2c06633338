//! Small verified helpers on strings.

use vstd::prelude::*;

verus! {

/// Compares two string slices by their characters.
pub fn str_eq(a: &str, b: &str) -> (same: bool)
    ensures
        same == (a@ == b@),
{
    let left: String = a.to_owned();
    let right: String = b.to_owned();
    left == right
}

} // verus!
