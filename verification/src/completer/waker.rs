//! The wake-up handle of a waiting task.
//!
//! A `std::task::Waker` is carried through opaquely. What waking does is
//! outside the model, so no contract here says anything of it.

use vstd::prelude::*;

verus! {

#[verifier::external_type_specification]
#[verifier::external_body]
pub struct ExWaker(std::task::Waker);

/// Wakes the task behind the handle.
///
/// Trusted: `Waker::wake` returns.
#[verifier::external_body]
pub(crate) fn wake(waker: std::task::Waker) {
    waker.wake()
}

/// A second handle to the same task.
///
/// Trusted: `clone` on a `Waker` returns.
#[verifier::external_body]
pub(crate) fn clone_waker(waker: &std::task::Waker) -> std::task::Waker {
    waker.clone()
}

/// Whether two handles are known to wake the same task.
///
/// Trusted: `Waker::will_wake` returns.
#[verifier::external_body]
pub(crate) fn same_task(held: &std::task::Waker, offered: &std::task::Waker) -> bool {
    held.will_wake(offered)
}

/// Wakes the task behind the handle, where there is one.
pub(crate) fn wake_waiter(waiter: Option<std::task::Waker>) {
    match waiter {
        Some(waker) => wake(waker),
        None => {},
    }
}

} // verus!
