use vstd::prelude::*;

verus! {

/// Error reported when a construction request cannot be honoured: the
/// requested element count does not fit in a valid memory layout, or the
/// allocator refused the request. It carries a human-readable message that
/// says which of the two happened.
#[derive(Debug)]
pub struct BaseError(pub String);

impl BaseError {
    /// The descriptive message carried by this error.
    pub fn message(&self) -> (m: &String)
        ensures
            m@ == self.0@,
    {
        &self.0
    }
}

} // verus!
