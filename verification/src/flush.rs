//! Requests to flush global state to disk, and their outcomes.

use vstd::prelude::*;

verus! {

/// Request to flush state.
pub struct FlushRequest {}

impl FlushRequest {
    /// Returns a new flush request.
    pub fn new() -> (r: Self) {
        FlushRequest {}
    }
}

impl Default for FlushRequest {
    fn default() -> (r: Self) {
        FlushRequest::new()
    }
}

/// The outcome of a flush request; `E` is the global state's error type.
pub enum FlushResult<E> {
    /// Manual sync is disabled in config settings.
    ManualSyncDisabled,
    /// Successfully flushed.
    Success,
    /// Failed to flush.
    Failure(E),
}

impl<E> FlushResult<E> {
    /// Whether the flush succeeded.
    pub fn flushed(&self) -> (r: bool)
        ensures
            r == (*self is Success),
    {
        matches!(self, FlushResult::Success)
    }

    /// The global state error of a failed flush; `Ok` otherwise.
    pub fn as_error(self) -> (r: Result<(), E>)
        ensures
            match self {
                FlushResult::Failure(e) => r == Err::<(), E>(e),
                _ => r == Ok::<(), E>(()),
            },
    {
        match self {
            FlushResult::ManualSyncDisabled | FlushResult::Success => Ok(()),
            FlushResult::Failure(gse) => Err(gse),
        }
    }
}

} // verus!
