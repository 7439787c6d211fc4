use vstd::prelude::*;

pub mod appellation;
pub mod scope;

verus! {

/// The predicate that decides whether the record is moved to the outer
/// holder. It is constantly false, so the record never leaves its scope.
pub fn complicated_condition() -> (r: bool)
    ensures
        !r,
{
    false
}

} // verus!
