use vstd::prelude::*;

verus! {

use super::error::Error;

/// A reply that turns into the value it carries, or into an error when it
/// reports a failure.
pub trait IntoResult<T>: Sized {
    /// The reply can be turned into a result without a panic.
    spec fn into_result_req(&self) -> bool;

    fn into_result(self) -> (r: Result<T, Error>)
        requires
            self.into_result_req(),
    ;
}

} // verus!
