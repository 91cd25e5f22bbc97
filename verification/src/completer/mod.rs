//! Completion primitives: a single-shot future and a multi-item stream that a
//! producer completes from outside.

pub mod completed_future;
pub mod manual_future;
pub mod manual_stream;
pub mod waker;

pub use completed_future::CompletedFuture;
pub use manual_future::{ManualFuture, ManualFutureCompleter};
pub use manual_stream::{ManualStream, ManualStreamCompleter};
