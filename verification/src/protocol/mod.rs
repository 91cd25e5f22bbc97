//! The messages of the JSON hub protocol and their wire form.

pub mod close;
pub mod fields;
pub mod invoke;
pub mod messages;
pub mod negotiate;
pub mod streaming;
