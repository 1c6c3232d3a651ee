//! Nonce and freshness: what a new transaction needs to know of the chain.
use crate::error::{ClientError, RpcError};
use crate::rpc::query::{unexpected, QueryResponseKind, RpcQueryResponse};
use crate::types::AccessKey;
use near_primitives::hash::CryptoHash;
use vstd::prelude::*;

verus! {

/// The access key of a signer and a recent block hash, from the reply to a
/// read of that key. The hash is that of the block the read was answered
/// from. A missing account or key is a query error, any other payload a
/// protocol error; neither is tried again here.
pub fn access_key(reply: Result<RpcQueryResponse, RpcError>) -> (r: Result<
    (AccessKey, CryptoHash),
    ClientError,
>)
    ensures
        r == (match reply {
            Ok(RpcQueryResponse { kind: QueryResponseKind::AccessKey(key), block_hash, .. }) => Ok(
                (key, block_hash),
            ),
            _ => Err(unexpected(reply)),
        }),
{
    match reply {
        Ok(response) => match response.kind {
            QueryResponseKind::AccessKey(key) => Ok((key, response.block_hash)),
            _ => Err(ClientError::Protocol),
        },
        Err(e) => Err(ClientError::from_rpc(e)),
    }
}

} // verus!
