//! Resolves the Autonomous System that announces an IP address.
//!
//! The crate holds the pure part of the lookup: it builds the request URL,
//! turns the provider's reply into a typed result and lays out what is
//! printed. Sending the request is left to the caller.

pub mod json;
pub mod lookup;
pub mod model;
pub mod presenter;
pub mod resolver;
pub mod schema;
