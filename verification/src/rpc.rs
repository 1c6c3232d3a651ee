//! The exchange with a node: what is asked, what comes back, and how a
//! transaction is brought to a final outcome.
pub mod api;
pub mod client;
pub mod query;
pub mod state;
pub mod tool;
