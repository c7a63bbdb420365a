//! A value that is stored in a column as JSON text.
use vstd::prelude::*;

verus! {

/// A value that is stored as JSON.
#[derive(Debug, Clone, PartialEq, Eq, PartialOrd, Ord, Hash)]
pub struct Json<T>(pub T);

impl<T> Json<T> {
    pub fn new(t: T) -> (r: Self)
        ensures
            r.0 == t,
    {
        Json(t)
    }

    /// The value.
    pub fn into_inner(self) -> (r: T)
        ensures
            r == self.0,
    {
        self.0
    }
}

} // verus!
