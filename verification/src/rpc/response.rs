use vstd::prelude::*;

verus! {

/// A reply that says whether the request succeeded.
pub trait Response {
    /// Whether the reply reports success.
    spec fn spec_ok(&self) -> bool;

    fn ok(&self) -> (r: bool)
        ensures
            r == self.spec_ok(),
    ;
}

} // verus!
