//! Failures, as the caller sees them.
use vstd::prelude::*;

verus! {

/// A failure that may go away by itself: trying again can succeed.
#[derive(Clone, Copy, Debug, PartialEq, Eq, Structural)]
pub enum TransientKind {
    /// Another transaction of the same key took the nonce first.
    NonceConflict,
    /// No answer came in time. The request may or may not have been acted on.
    Timeout,
    /// The node refused the request for want of capacity.
    ServerOverload,
    /// The block hash the transaction names is unknown to the node or too old.
    BlockHashNotFound,
    /// The node could not be reached: the request was not sent.
    Unreachable,
}

/// What a lookup did not find.
#[derive(Clone, Copy, Debug, PartialEq, Eq, Structural)]
pub enum Missing {
    Account,
    Contract,
    AccessKey,
}

/// What went wrong in one exchange with a node, as the channel saw it.
#[derive(Clone, Debug, PartialEq, Eq)]
pub enum Fault {
    /// The request could not be sent.
    SendFailed,
    /// The request was sent and no answer could be read.
    ReceiveFailed,
    /// An answer was read and could not be made sense of.
    Unparsable,
    /// The server answered that the client sends too many requests.
    TooManyRequests,
    /// The server answered that it is not available.
    ServiceUnavailable,
    /// The server answered that the request took too long.
    RequestTimeout,
    /// The node has no blocks yet to answer from.
    NoSyncedBlocks,
    /// The block that was asked for, or named, is unknown to the node.
    UnknownBlock,
    /// The account does not exist.
    UnknownAccount,
    /// The account holds no contract.
    NoContractCode,
    /// The account has no such access key.
    UnknownAccessKey,
    /// The nonce of the transaction is not greater than the key's.
    InvalidNonce,
    /// The block hash of the transaction is too old.
    Expired,
    /// The shard of the transaction takes no more transactions for now.
    ShardCongested,
    /// The shard of the transaction makes no progress for now.
    ShardStuck,
    /// The transaction was taken in and did not finish in time.
    TransactionTimeout,
    /// Anything else, with the message that came with it.
    Other(String),
}

/// A failed exchange with the network, by what it means for the operation.
#[derive(Clone, Debug, PartialEq, Eq)]
pub enum RpcError {
    /// The exchange failed in a way that may pass.
    Transient(TransientKind),
    /// The node answered that what was asked for does not exist.
    NotFound(Missing),
    /// The answer could not be made sense of.
    Malformed,
    /// The node refused the request for good, with this message.
    Rejected(String),
}

/// Why an operation failed.
#[derive(Clone, Debug, PartialEq, Eq)]
pub enum ClientError {
    /// Every allowed attempt met a transient failure; this was the last one.
    RetryExhausted(TransientKind),
    /// A transient failure on a path that does not retry.
    Transient(TransientKind),
    /// The node answered one kind of request with the payload of another, or
    /// with one that cannot be made sense of.
    Protocol,
    /// What was asked for does not exist.
    Query(Missing),
    /// The active network does not offer the operation.
    Capability,
    /// The payload a view call returned is not a document.
    Decode,
    /// The node refused the request for good, with this message.
    Rejected(String),
    /// The access key's nonce counter is at its end: no next nonce exists.
    NonceOverflow,
    /// A transaction that a further step builds on ran and failed, with this
    /// description.
    Execution(String),
}

impl RpcError {
    /// What `fault` means for the operation that met it.
    pub open spec fn classified(fault: Fault) -> RpcError {
        match fault {
            Fault::SendFailed => RpcError::Transient(TransientKind::Unreachable),
            Fault::ReceiveFailed => RpcError::Transient(TransientKind::Timeout),
            Fault::Unparsable => RpcError::Malformed,
            Fault::TooManyRequests => RpcError::Transient(TransientKind::ServerOverload),
            Fault::ServiceUnavailable => RpcError::Transient(TransientKind::ServerOverload),
            Fault::RequestTimeout => RpcError::Transient(TransientKind::Timeout),
            Fault::NoSyncedBlocks => RpcError::Transient(TransientKind::ServerOverload),
            Fault::UnknownBlock => RpcError::Transient(TransientKind::BlockHashNotFound),
            Fault::UnknownAccount => RpcError::NotFound(Missing::Account),
            Fault::NoContractCode => RpcError::NotFound(Missing::Contract),
            Fault::UnknownAccessKey => RpcError::NotFound(Missing::AccessKey),
            Fault::InvalidNonce => RpcError::Transient(TransientKind::NonceConflict),
            Fault::Expired => RpcError::Transient(TransientKind::BlockHashNotFound),
            Fault::ShardCongested => RpcError::Transient(TransientKind::ServerOverload),
            Fault::ShardStuck => RpcError::Transient(TransientKind::ServerOverload),
            Fault::TransactionTimeout => RpcError::Transient(TransientKind::Timeout),
            Fault::Other(message) => RpcError::Rejected(message),
        }
    }

    /// Says what a fault means for the operation that met it. These pass, and
    /// are worth another attempt: a request that could not be sent, an answer
    /// that did not come, a server that is busy or not yet ready, a nonce
    /// that another transaction took, and a block hash that is unknown or too
    /// old. A missing account, contract or access key is a lookup that found
    /// nothing. An answer that cannot be read is malformed. Everything else
    /// is a refusal that stands.
    pub fn classify(fault: Fault) -> (r: RpcError)
        ensures
            r == RpcError::classified(fault),
    {
        match fault {
            Fault::SendFailed => RpcError::Transient(TransientKind::Unreachable),
            Fault::ReceiveFailed => RpcError::Transient(TransientKind::Timeout),
            Fault::Unparsable => RpcError::Malformed,
            Fault::TooManyRequests => RpcError::Transient(TransientKind::ServerOverload),
            Fault::ServiceUnavailable => RpcError::Transient(TransientKind::ServerOverload),
            Fault::RequestTimeout => RpcError::Transient(TransientKind::Timeout),
            Fault::NoSyncedBlocks => RpcError::Transient(TransientKind::ServerOverload),
            Fault::UnknownBlock => RpcError::Transient(TransientKind::BlockHashNotFound),
            Fault::UnknownAccount => RpcError::NotFound(Missing::Account),
            Fault::NoContractCode => RpcError::NotFound(Missing::Contract),
            Fault::UnknownAccessKey => RpcError::NotFound(Missing::AccessKey),
            Fault::InvalidNonce => RpcError::Transient(TransientKind::NonceConflict),
            Fault::Expired => RpcError::Transient(TransientKind::BlockHashNotFound),
            Fault::ShardCongested => RpcError::Transient(TransientKind::ServerOverload),
            Fault::ShardStuck => RpcError::Transient(TransientKind::ServerOverload),
            Fault::TransactionTimeout => RpcError::Transient(TransientKind::Timeout),
            Fault::Other(message) => RpcError::Rejected(message),
        }
    }

    /// The kind of passing failure this is, if it is one.
    pub open spec fn spec_transient(self) -> Option<TransientKind> {
        match self {
            RpcError::Transient(kind) => Some(kind),
            _ => None,
        }
    }

    /// The kind of passing failure this is, if it is one. Only these are ever
    /// tried again.
    pub fn transient(&self) -> (r: Option<TransientKind>)
        ensures
            r == self.spec_transient(),
    {
        match self {
            RpcError::Transient(kind) => Some(*kind),
            _ => None,
        }
    }
}

impl ClientError {
    /// The failure a caller sees when `e` is not retried.
    pub open spec fn surfaced(e: RpcError) -> ClientError {
        match e {
            RpcError::Transient(kind) => ClientError::Transient(kind),
            RpcError::NotFound(what) => ClientError::Query(what),
            RpcError::Malformed => ClientError::Protocol,
            RpcError::Rejected(message) => ClientError::Rejected(message),
        }
    }

    /// Turns a channel failure into the failure a caller sees when nothing
    /// retries it: a missing item is a query error, a malformed answer a
    /// protocol error, a refusal keeps its message, a passing failure keeps
    /// its kind.
    pub fn from_rpc(e: RpcError) -> (r: ClientError)
        ensures
            r == ClientError::surfaced(e),
    {
        match e {
            RpcError::Transient(kind) => ClientError::Transient(kind),
            RpcError::NotFound(what) => ClientError::Query(what),
            RpcError::Malformed => ClientError::Protocol,
            RpcError::Rejected(message) => ClientError::Rejected(message),
        }
    }
}

/// Why a mutating operation failed, and whether a transaction of it may have
/// been acted on all the same.
#[derive(Clone, Debug, PartialEq, Eq)]
pub struct SubmissionError {
    /// Why the operation failed.
    pub error: ClientError,
    /// Whether some request that changes the chain was sent and no answer
    /// that can be read came of it. Where this holds, what became of that
    /// request is not known, and the caller queries before sending again.
    /// Where it does not hold, nothing the operation sent took effect.
    pub outcome_unknown: bool,
}

impl RpcError {
    /// Whether the request was sent and no answer that can be read came of
    /// it.
    pub open spec fn spec_unanswered(self) -> bool {
        self == RpcError::Transient(TransientKind::Timeout) || self == RpcError::Malformed
    }

    /// Whether the request was sent and no answer that can be read came of
    /// it: it timed out, or what came back cannot be made sense of. A
    /// request that could not be sent is not among these, nor one that the
    /// node refused.
    pub fn unanswered(&self) -> (r: bool)
        ensures
            r == self.spec_unanswered(),
    {
        match self {
            RpcError::Transient(TransientKind::Timeout) => true,
            RpcError::Malformed => true,
            _ => false,
        }
    }
}

} // verus!
