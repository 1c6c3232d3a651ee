//! Reads: one request shape for each kind of read, and the payload each is
//! answered with.
use crate::error::{ClientError, RpcError};
use crate::types::{AccessKey, Balance, BlockReference};
use near_crypto::PublicKey;
use near_primitives::hash::CryptoHash;
use near_primitives::types::AccountId;
use vstd::prelude::*;

verus! {

/// What a read asks for.
#[derive(Clone, Debug, PartialEq, Eq)]
pub enum QueryRequest {
    /// Balance, locked stake and storage use of an account.
    ViewAccount { account_id: AccountId },
    /// The code deployed to an account.
    ViewCode { account_id: AccountId },
    /// The stored records of an account whose keys begin with `prefix`; all
    /// of them when `prefix` is empty.
    ViewState { account_id: AccountId, prefix: Vec<u8> },
    /// The access key that ties `public_key` to an account.
    ViewAccessKey { account_id: AccountId, public_key: PublicKey },
    /// The result of running a read-only method of a contract.
    CallFunction { account_id: AccountId, method_name: String, args: Vec<u8> },
}

/// A read, with the state of the chain it is to be answered from.
#[derive(Clone, Debug, PartialEq, Eq)]
pub struct RpcQueryRequest {
    pub block_reference: BlockReference,
    pub request: QueryRequest,
}

/// A request for the header of a block: of the named one, or of the latest
/// where none is named.
#[derive(Clone, Copy, Debug, PartialEq, Eq, Structural)]
pub struct RpcBlockRequest {
    pub block_reference: Option<BlockReference>,
}

/// Balance, locked stake and storage use of an account.
#[derive(Clone, Copy, Debug, PartialEq, Eq, Structural)]
pub struct AccountView {
    pub amount: Balance,
    pub locked: Balance,
    pub storage_usage: u64,
}

/// One stored record of an account.
#[derive(Clone, Debug, PartialEq, Eq)]
pub struct StateItem {
    pub key: Vec<u8>,
    pub value: Vec<u8>,
}

/// The payload of an answer. Each kind of read has its own.
#[derive(Clone, Debug, PartialEq, Eq)]
pub enum QueryResponseKind {
    ViewAccount(AccountView),
    ViewCode(Vec<u8>),
    ViewState(Vec<StateItem>),
    CallResult(Vec<u8>),
    AccessKey(AccessKey),
    /// A payload of a kind that no read of this client asks for.
    Other,
}

/// An answer to a read, with the block it was answered from.
#[derive(Clone, Debug, PartialEq, Eq)]
pub struct RpcQueryResponse {
    pub kind: QueryResponseKind,
    pub block_height: u64,
    pub block_hash: CryptoHash,
}

/// The header of a block, in short.
#[derive(Clone, Debug, PartialEq, Eq)]
pub struct Block {
    pub height: u64,
    pub hash: CryptoHash,
}

impl RpcQueryRequest {
    /// Asks for the balance, locked stake and storage use of `account_id`.
    pub fn view_account(account_id: AccountId, block_reference: BlockReference) -> (r: Self)
        ensures
            r == (RpcQueryRequest {
                block_reference,
                request: QueryRequest::ViewAccount { account_id },
            }),
    {
        RpcQueryRequest { block_reference, request: QueryRequest::ViewAccount { account_id } }
    }

    /// Asks for the code deployed to `account_id`.
    pub fn view_code(account_id: AccountId, block_reference: BlockReference) -> (r: Self)
        ensures
            r == (RpcQueryRequest {
                block_reference,
                request: QueryRequest::ViewCode { account_id },
            }),
    {
        RpcQueryRequest { block_reference, request: QueryRequest::ViewCode { account_id } }
    }

    /// Asks for the stored records of `account_id` under `prefix`. Without a
    /// prefix the empty one is sent, which selects every record.
    pub fn view_state(account_id: AccountId, prefix: Option<Vec<u8>>) -> (r: Self)
        ensures
            r.block_reference == BlockReference::Optimistic,
            r.request matches QueryRequest::ViewState { account_id: id, prefix: sent }
                && id == account_id && sent@ == (match prefix {
                Some(given) => given@,
                None => Seq::<u8>::empty(),
            }),
    {
        let prefix = match prefix {
            Some(given) => given,
            None => Vec::new(),
        };
        RpcQueryRequest {
            block_reference: BlockReference::Optimistic,
            request: QueryRequest::ViewState { account_id, prefix },
        }
    }

    /// The read of the access key of `account_id` under `public_key`.
    pub open spec fn spec_view_access_key(account_id: AccountId, public_key: PublicKey) -> Self {
        RpcQueryRequest {
            block_reference: BlockReference::Final,
            request: QueryRequest::ViewAccessKey { account_id, public_key },
        }
    }

    /// Asks for the access key of `account_id` under `public_key`, as of the
    /// latest finalized block.
    pub fn view_access_key(account_id: AccountId, public_key: PublicKey) -> (r: Self)
        ensures
            r == Self::spec_view_access_key(account_id, public_key),
    {
        RpcQueryRequest {
            block_reference: BlockReference::Final,
            request: QueryRequest::ViewAccessKey { account_id, public_key },
        }
    }

    /// Asks for the result of the read-only method `method_name` of
    /// `account_id`, run on `args`.
    pub fn call_function(account_id: AccountId, method_name: String, args: Vec<u8>) -> (r: Self)
        ensures
            r == (RpcQueryRequest {
                block_reference: BlockReference::Optimistic,
                request: QueryRequest::CallFunction { account_id, method_name, args },
            }),
    {
        RpcQueryRequest {
            block_reference: BlockReference::Optimistic,
            request: QueryRequest::CallFunction { account_id, method_name, args },
        }
    }
}

/// What a read that went through `reply` and expects another payload than it
/// got comes to: the channel's failure as the caller sees it, or a protocol
/// error.
pub open spec fn unexpected(reply: Result<RpcQueryResponse, RpcError>) -> ClientError {
    match reply {
        Err(e) => ClientError::surfaced(e),
        Ok(_) => ClientError::Protocol,
    }
}

/// The code of a contract, from the reply to a read of it. Any other payload
/// is a protocol error; a failed read is passed on and not tried again.
pub fn code(reply: Result<RpcQueryResponse, RpcError>) -> (r: Result<Vec<u8>, ClientError>)
    ensures
        r == (match reply {
            Ok(RpcQueryResponse { kind: QueryResponseKind::ViewCode(bytes), .. }) => Ok(bytes),
            _ => Err(unexpected(reply)),
        }),
{
    match reply {
        Ok(response) => match response.kind {
            QueryResponseKind::ViewCode(bytes) => Ok(bytes),
            _ => Err(ClientError::Protocol),
        },
        Err(e) => Err(ClientError::from_rpc(e)),
    }
}

/// The account record, from the reply to a read of it. Any other payload is a
/// protocol error; a failed read is passed on and not tried again.
pub fn account(reply: Result<RpcQueryResponse, RpcError>) -> (r: Result<AccountView, ClientError>)
    ensures
        r == (match reply {
            Ok(RpcQueryResponse { kind: QueryResponseKind::ViewAccount(view), .. }) => Ok(view),
            _ => Err(unexpected(reply)),
        }),
{
    match reply {
        Ok(response) => match response.kind {
            QueryResponseKind::ViewAccount(view) => Ok(view),
            _ => Err(ClientError::Protocol),
        },
        Err(e) => Err(ClientError::from_rpc(e)),
    }
}

/// The header of a block, from the reply to a request for it. A failed
/// request is passed on and not tried again.
pub fn block(reply: Result<Block, RpcError>) -> (r: Result<Block, ClientError>)
    ensures
        r == (match reply {
            Ok(header) => Ok::<Block, ClientError>(header),
            Err(e) => Err(ClientError::surfaced(e)),
        }),
{
    match reply {
        Ok(header) => Ok(header),
        Err(e) => Err(ClientError::from_rpc(e)),
    }
}

} // verus!
