use vstd::prelude::*;

verus! {

/// Merge the summary of another sample into this one.
pub trait Merge {
    fn merge(&mut self, other: &Self);
}

} // verus!
