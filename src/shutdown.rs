//! The outcome of racing the poll loop against a cancellation signal.
use vstd::prelude::*;

verus! {

/// Which of the two finished first.
#[derive(Debug, Clone, Copy, PartialEq, Eq)]
pub enum ShutdownRace<T> {
    /// The cancellation signal arrived.
    Shutdown,
    /// The raced work finished, with this result.
    Completed(T),
}

} // verus!
