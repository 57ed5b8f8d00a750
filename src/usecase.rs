use vstd::prelude::*;

verus! {

/// One application operation, described by the types it takes and gives.
pub trait UseCase {
    /// The input to the use case.
    type Input: Sync;

    /// The output of the use case.
    type Output: Sync;

    /// The error that the use case can end with.
    type Error: Sync + Send;
}

} // verus!
