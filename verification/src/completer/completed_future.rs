//! A future that is ready at once.

use vstd::prelude::*;

verus! {

/// A value that is handed over on the first poll.
pub struct CompletedFuture<T> {
    data: Option<T>,
}

impl<T> CompletedFuture<T> {
    /// The value that is still to be handed over, if any.
    pub closed spec fn pending(&self) -> Option<T> {
        self.data
    }

    /// A future that is ready with `data`.
    pub fn new(data: T) -> (future: Self)
        ensures
            future.pending() == Some(data),
    {
        CompletedFuture { data: Some(data) }
    }

    /// Hands the value over. A future is polled once.
    pub fn poll(&mut self) -> (data: T)
        requires
            old(self).pending() is Some,
        ensures
            Some(data) == old(self).pending(),
            final(self).pending() is None,
    {
        self.data.take().unwrap()
    }
}

} // verus!
