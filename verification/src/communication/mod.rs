//! The transport adapter: what is sent and what is done with what arrives,
//! without the socket itself.

pub mod client;
pub mod common;

pub use client::CommunicationClient;
pub use common::{ConnectionData, HttpClient};
