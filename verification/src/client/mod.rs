//! The public face of the hub client: connection settings, the client core
//! and the context handed to callbacks.

pub mod client;
pub mod configuration;
pub mod context;
pub mod laws;

pub use client::SignalRClient;
pub use configuration::{Authentication, ConnectionConfiguration};
pub use context::InvocationContext;
