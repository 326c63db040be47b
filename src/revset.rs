use vstd::prelude::*;

verus! {

/// A revision-set expression, handed as is to the query engine.
pub struct Revset {
    pub inner: String,
}

impl Revset {
    pub fn new(inner: &str) -> (r: Revset)
        ensures
            r.inner@ == inner@,
    {
        Revset { inner: inner.to_string() }
    }
}

} // verus!
