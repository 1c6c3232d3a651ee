//! Client-side orchestration for a blockchain network reached over RPC.
//!
//! The library decides; the caller talks to the network. Every operation is
//! given as values: the request to send, and what to make of the reply.
pub mod error;
pub mod network;
pub mod result;
pub mod rpc;
pub mod types;
pub mod worker;

pub use error::{ClientError, Missing, RpcError, SubmissionError, TransientKind};
pub use network::{Account, Contract, Network, NetworkKind};
pub use result::{CallExecutionResult, ExecutionStatus, RawExecutionOutcome};
pub use types::{AccessKey, BlockReference};
pub use worker::Worker;
