//! The action registry: the pending outcomes of the client, keyed, and the
//! routing of inbound messages to them.

pub mod actions;
pub mod arguments;
pub mod callback;
pub mod enumerable;
pub mod invocation;
pub mod keyed;
pub mod laws;
pub mod storage;

pub use actions::UpdatableAction;
pub use arguments::ArgumentConfiguration;
pub use storage::CallbackHandler;
pub use storage::UpdatableActionStorage;
