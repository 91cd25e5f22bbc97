//! A single-shot future that is completed by hand.

use crate::completer::waker::{clone_waker, same_task, wake};
use std::marker::PhantomData;
use vstd::prelude::*;

verus! {

/// The state of a single-shot future.
pub enum State<T> {
    /// Not completed, and nobody waits.
    Incomplete,
    /// Not completed; the task behind the handle waits.
    Waiting(std::task::Waker),
    /// Completed. The value is there until it is handed over, and absent for
    /// good after that or after a cancellation.
    Complete(Option<T>),
}

impl<T> State<T> {
    /// The state of a future that starts with `value`: completed where a value
    /// is given, incomplete where none is.
    pub fn new(value: Option<T>) -> (state: Self)
        ensures
            value is None ==> state is Incomplete,
            value is Some ==> state == State::Complete(value),
    {
        match value {
            None => State::Incomplete,
            Some(v) => State::Complete(Some(v)),
        }
    }
}

/// What a single-shot future stands at, as its consumer sees it.
pub enum Phase<T> {
    /// No value yet.
    Pending,
    /// The value is there and not yet handed over.
    Holding(T),
    /// Nothing more will come: the value was handed over, or the future was
    /// cancelled.
    Done,
}

/// What one poll of a single-shot future gives.
#[derive(Debug, PartialEq)]
pub enum Progress<T> {
    /// The value. It is given once.
    Ready(T),
    /// No value yet; the task will be woken.
    Pending,
    /// Nothing more will come.
    Finished,
}

/// A future that its completer completes.
pub struct ManualFuture<T> {
    state: State<T>,
}

/// The right to complete or cancel a [`ManualFuture`]. It is used up by doing
/// so.
pub struct ManualFutureCompleter<T> {
    marker: PhantomData<T>,
}

impl<T> ManualFuture<T> {
    /// What the future stands at.
    pub closed spec fn phase(&self) -> Phase<T> {
        match self.state {
            State::Incomplete => Phase::Pending,
            State::Waiting(_) => Phase::Pending,
            State::Complete(Some(value)) => Phase::Holding(value),
            State::Complete(None) => Phase::Done,
        }
    }

    /// Whether a task waits for the future.
    pub closed spec fn has_waiter(&self) -> bool {
        self.state is Waiting
    }

    /// A future without a value, and the right to complete it.
    pub fn new() -> (pair: (Self, ManualFutureCompleter<T>))
        ensures
            pair.0.phase() is Pending,
            !pair.0.has_waiter(),
    {
        (ManualFuture { state: State::new(None) }, ManualFutureCompleter { marker: PhantomData })
    }

    /// Whether the future was completed or cancelled.
    pub fn is_completed(&self) -> (completed: bool)
        ensures
            completed == !(self.phase() is Pending),
    {
        match &self.state {
            State::Incomplete => false,
            State::Waiting(_) => false,
            State::Complete(_) => true,
        }
    }

    /// Polls the future for the task behind `waker`. A value that is there is
    /// handed over, once. Without a value the task is noted as the waiter.
    /// After the value was handed over, or after a cancellation, nothing more
    /// will come.
    pub fn poll(&mut self, waker: &std::task::Waker) -> (progress: Progress<T>)
        ensures
            old(self).phase() is Pending ==> progress is Pending && final(self).phase() is Pending
                && final(self).has_waiter(),
            old(self).phase() matches Phase::Holding(value) ==> progress == Progress::Ready(value)
                && final(self).phase() is Done,
            old(self).phase() is Done ==> progress is Finished && final(self).phase() is Done,
    {
        let mut state = State::Incomplete;
        std::mem::swap(&mut self.state, &mut state);
        match state {
            State::Incomplete => {
                self.state = State::Waiting(clone_waker(waker));
                Progress::Pending
            },
            State::Waiting(held) => {
                if same_task(&held, waker) {
                    self.state = State::Waiting(held);
                } else {
                    self.state = State::Waiting(clone_waker(waker));
                }
                Progress::Pending
            },
            State::Complete(Some(value)) => {
                self.state = State::Complete(None);
                Progress::Ready(value)
            },
            State::Complete(None) => {
                self.state = State::Complete(None);
                Progress::Finished
            },
        }
    }
}

impl<T> ManualFutureCompleter<T> {
    /// Completes `future` with `value` and wakes the task that waits for it.
    /// A future is completed once: one that was completed or cancelled is not
    /// completed again.
    pub fn complete(self, future: &mut ManualFuture<T>, value: T)
        requires
            old(future).phase() is Pending,
        ensures
            final(future).phase() == Phase::Holding(value),
            !final(future).has_waiter(),
    {
        let mut state = State::Complete(Some(value));
        std::mem::swap(&mut future.state, &mut state);
        match state {
            State::Waiting(waiter) => wake(waiter),
            _ => {},
        }
    }

    /// Cancels `future`: a value that was not yet handed over is dropped, and
    /// the task that waits is woken to see that nothing more will come.
    pub fn cancel(self, future: &mut ManualFuture<T>)
        ensures
            final(future).phase() is Done,
            !final(future).has_waiter(),
    {
        let mut state = State::Complete(None);
        std::mem::swap(&mut future.state, &mut state);
        match state {
            State::Waiting(waiter) => wake(waiter),
            _ => {},
        }
    }

    /// Whether `future` was completed or cancelled.
    pub fn is_completed(&self, future: &ManualFuture<T>) -> (completed: bool)
        ensures
            completed == !(future.phase() is Pending),
    {
        future.is_completed()
    }
}

} // verus!
