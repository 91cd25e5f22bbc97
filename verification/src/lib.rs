//! A sans-I/O core for a SignalR hub client speaking the JSON hub protocol
//! over a record-separated text transport.

pub mod client;
pub mod communication;
pub mod completer;
pub mod error;
pub mod execution;
pub mod json;
pub mod protocol;
pub mod text;

pub use client::{InvocationContext, SignalRClient};
pub use completer::{CompletedFuture, ManualFuture, ManualStream};
pub use execution::{ArgumentConfiguration, CallbackHandler};
