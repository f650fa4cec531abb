use vstd::prelude::*;

verus! {

/// An opaque, copyable, totally ordered handle that names one view.
///
/// Equality and ordering are those of the raw token; two handles name the
/// same view exactly when their tokens are equal.
#[derive(Clone, Copy, PartialEq, Eq, Structural, Hash, PartialOrd, Ord, Debug)]
pub struct ViewId {
    pub raw: usize,
}

impl ViewId {
    /// The raw token behind this handle.
    pub fn to_raw(self) -> (r: usize)
        ensures
            r == self.raw,
    {
        self.raw
    }
}

} // verus!
