use vstd::prelude::*;

verus! {

/// The step of a batch write at which the store failed.
#[derive(Clone, Copy, Debug, PartialEq, Eq, Structural)]
pub enum WritePhase {
    Open,
    Write,
    Commit,
}

/// The outcomes, other than success, of the operations on evaluation scores.
#[derive(Clone, Copy, Debug, PartialEq, Eq, Structural)]
pub enum ScoreError {
    /// A metric name unsafe to splice into a query, or degenerate histogram
    /// parameters.
    InvalidInput,
    /// The aggregate matched no rows.
    NoData,
    /// The store refused the batch write at the given step.
    StoreWriteFailure(WritePhase),
    /// The store returned a result of the wrong shape.
    StoreQueryFailure,
}

} // verus!
