//! Small string facts from the standard library that the rest of the crate uses.

use vstd::prelude::*;

verus! {

/// Relies on `str == str`: two string slices are equal exactly when they
/// hold the same characters.
pub assume_specification[ <str as PartialEq>::eq ](a: &str, b: &str) -> (r: bool)
    ensures
        r == (a@ == b@),
;

} // verus!
