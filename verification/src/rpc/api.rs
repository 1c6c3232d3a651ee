//! The operations of the client, each as what it decides: reads turn a reply
//! into a typed result, writes set up the transaction that is to be
//! submitted.
use crate::error::{ClientError, RpcError};
use crate::network::{AccountCreation, Deployment, Network, PatchStateRequest};
use crate::rpc::client::{Action, Client, Submission};
use crate::rpc::query::{unexpected, QueryResponseKind, RpcQueryResponse};
use crate::rpc::state::StateMap;
use crate::rpc::query::{QueryRequest, RpcQueryRequest};
use crate::types::{
    public_half, seeded_pair, signer_from_seed, signer_public_key, AccessKey, AccessKeyPermission,
    Balance, BlockReference, DEFAULT_CALL_DEPOSIT, DEFAULT_CALL_FN_GAS, NEAR_BASE,
};
use near_crypto::{PublicKey, Signer};
use near_primitives::hash::CryptoHash;
use near_primitives::types::AccountId;
use vstd::prelude::*;

verus! {

/// What an account holds, with the block it was read at.
#[derive(Clone, Debug, PartialEq, Eq)]
pub struct AccountInfo {
    pub account_id: AccountId,
    pub block_height: u64,
    pub block_hash: CryptoHash,
    pub balance: Balance,
    pub stake: Balance,
    pub used_storage_bytes: u64,
}

/// The document that `serde_json::from_str` reads from `text`, if `text` is
/// one.
pub uninterp spec fn json_document(text: Seq<char>) -> Option<serde_json::Value>;

/// `serde_json::from_str` at `serde_json::Value`: parses `text` as one JSON
/// document. Which texts are documents, and which document each is, depends
/// on the text alone.
#[verifier::external_body]
fn parse_json(text: &str) -> (r: Result<serde_json::Value, serde_json::Error>)
    ensures
        r.ok() == json_document(text@),
{
    serde_json::from_str(text)
}

/// `std::str::from_utf8`: the text that `bytes` encode, if they are valid
/// UTF-8.
#[verifier::external_body]
fn utf8_text(bytes: &[u8]) -> (r: Result<&str, core::str::Utf8Error>)
    ensures
        r is Ok <==> vstd::utf8::valid_utf8(bytes@),
        r matches Ok(text) ==> vstd::utf8::encode_utf8(text@) == bytes@,
{
    std::str::from_utf8(bytes)
}

/// The document a view call returned, given what parsing its payload gave: a
/// payload that does not parse is a decode error.
pub fn decoded(parsed: Result<serde_json::Value, serde_json::Error>) -> (r: Result<
    serde_json::Value,
    ClientError,
>)
    ensures
        r == (match parsed {
            Ok(document) => Ok::<serde_json::Value, ClientError>(document),
            Err(_) => Err(ClientError::Decode),
        }),
{
    match parsed {
        Ok(document) => Ok(document),
        Err(_) => Err(ClientError::Decode),
    }
}

/// The document that the bytes a view call returned stand for: they have to
/// be UTF-8 text, and that text one JSON document.
pub open spec fn payload_document(payload: Seq<u8>) -> Option<serde_json::Value> {
    if vstd::utf8::valid_utf8(payload) {
        json_document(vstd::utf8::decode_utf8(payload))
    } else {
        None
    }
}

/// The read that `display_account_info` is answered from: what `account_id`
/// holds, as of the latest finalized block.
pub fn account_info_request(account_id: AccountId) -> (r: RpcQueryRequest)
    ensures
        r == (RpcQueryRequest {
            block_reference: BlockReference::Final,
            request: QueryRequest::ViewAccount { account_id },
        }),
{
    RpcQueryRequest::view_account(account_id, BlockReference::Final)
}

/// What an account holds, from the reply to the read of `account_id` that
/// `account_info_request` gives. Any
/// other payload than an account record is a protocol error; a failed read
/// is passed on and not tried again.
pub fn display_account_info(account_id: AccountId, reply: Result<RpcQueryResponse, RpcError>) -> (r:
    Result<AccountInfo, ClientError>)
    ensures
        r == (match reply {
            Ok(
                RpcQueryResponse {
                    kind: QueryResponseKind::ViewAccount(view),
                    block_height,
                    block_hash,
                },
            ) => Ok(
                AccountInfo {
                    account_id,
                    block_height,
                    block_hash,
                    balance: view.amount,
                    stake: view.locked,
                    used_storage_bytes: view.storage_usage,
                },
            ),
            _ => Err(unexpected(reply)),
        }),
{
    match reply {
        Ok(query_resp) => {
            let account_view = match query_resp.kind {
                QueryResponseKind::ViewAccount(result) => result,
                _ => {
                    return Err(ClientError::Protocol);
                },
            };
            Ok(
                AccountInfo {
                    account_id,
                    block_height: query_resp.block_height,
                    block_hash: query_resp.block_hash,
                    balance: account_view.amount,
                    stake: account_view.locked,
                    used_storage_bytes: account_view.storage_usage,
                },
            )
        },
        Err(e) => Err(ClientError::from_rpc(e)),
    }
}

/// The document a contract's view method returned, from the reply to the
/// call. The payload has to be the result of a call, else the reply is a
/// protocol error; it has to be UTF-8 text that is one JSON document, else a
/// decode error. A failed read is passed on and not tried again.
pub fn view(reply: Result<RpcQueryResponse, RpcError>) -> (r: Result<serde_json::Value, ClientError>)
    ensures
        r == (match reply {
            Ok(RpcQueryResponse { kind: QueryResponseKind::CallResult(payload), .. }) => {
                match payload_document(payload@) {
                    Some(document) => Ok::<serde_json::Value, ClientError>(document),
                    None => Err(ClientError::Decode),
                }
            },
            _ => Err(unexpected(reply)),
        }),
{
    match reply {
        Ok(query_resp) => {
            let call_result = match query_resp.kind {
                QueryResponseKind::CallResult(result) => result,
                _ => {
                    return Err(ClientError::Protocol);
                },
            };
            match utf8_text(call_result.as_slice()) {
                Ok(text) => {
                    proof {
                        vstd::utf8::encode_utf8_decode_utf8(text@);
                    }
                    decoded(parse_json(text))
                },
                Err(_) => Err(ClientError::Decode),
            }
        },
        Err(e) => Err(ClientError::from_rpc(e)),
    }
}

/// The state of a contract, from the reply to a read of it: the mapping from
/// key to value that the returned records stand for. Any other payload is a
/// protocol error; a failed read is passed on and not tried again.
pub fn view_state(reply: Result<RpcQueryResponse, RpcError>) -> (r: Result<StateMap, ClientError>)
    ensures
        r == (match reply {
            Ok(RpcQueryResponse { kind: QueryResponseKind::ViewState(state), .. }) => Ok(
                StateMap { items: state },
            ),
            _ => Err(unexpected(reply)),
        }),
{
    match reply {
        Ok(query_resp) => match query_resp.kind {
            QueryResponseKind::ViewState(state) => Ok(StateMap::new(state)),
            _ => Err(ClientError::Protocol),
        },
        Err(e) => Err(ClientError::from_rpc(e)),
    }
}

/// The intent that `submission` was started for holds these values and the
/// public half of `signer`, and the submission is at the start of its first
/// attempt under the policy of `client`.
pub open spec fn starts(
    submission: Submission,
    client: Client,
    signer: Signer,
    signer_id: AccountId,
    receiver_id: AccountId,
    actions: Seq<Action>,
) -> bool {
    &&& submission == Submission::spec_start(submission.intent, client.policy)
    &&& submission.intent.signer == signer
    &&& submission.intent.public_key == public_half(signer)
    &&& submission.intent.signer_id == signer_id
    &&& submission.intent.receiver_id == receiver_id
    &&& submission.intent.actions@ =~= actions
}

/// Sets out to move `amount_yocto` from `signer_id` to `receiver_id`.
pub fn transfer_near(
    client: &Client,
    signer: &Signer,
    signer_id: AccountId,
    receiver_id: AccountId,
    amount_yocto: Balance,
) -> (r: Submission)
    ensures
        starts(
            r,
            *client,
            *signer,
            signer_id,
            receiver_id,
            seq![Action::Transfer { deposit: amount_yocto }],
        ),
{
    let mut actions = Vec::new();
    actions.push(Action::Transfer { deposit: amount_yocto });
    client.send_tx_and_retry(signer, signer_id, receiver_id, actions)
}

/// Sets out to call the change method `method_name` of `contract_id` on
/// `args`, as `signer_id`, with the default gas and with `deposit`, or
/// without a deposit where none is named.
pub fn call(
    client: &Client,
    signer: &Signer,
    signer_id: AccountId,
    contract_id: AccountId,
    method_name: String,
    args: Vec<u8>,
    deposit: Option<Balance>,
) -> (r: Submission)
    ensures
        starts(
            r,
            *client,
            *signer,
            signer_id,
            contract_id,
            seq![
                Action::FunctionCall {
                    method_name,
                    args,
                    gas: DEFAULT_CALL_FN_GAS,
                    deposit: match deposit {
                        Some(amount) => amount,
                        None => DEFAULT_CALL_DEPOSIT,
                    },
                },
            ],
        ),
{
    let deposit = match deposit {
        Some(amount) => amount,
        None => DEFAULT_CALL_DEPOSIT,
    };
    let mut actions = Vec::new();
    actions.push(Action::FunctionCall { method_name, args, gas: DEFAULT_CALL_FN_GAS, deposit });
    client.send_tx_and_retry(signer, signer_id, contract_id, actions)
}

/// Sets out to create `new_account_id` with `new_account_pk` as its full
/// access key, paid for by `signer_id`: the new account receives `deposit`,
/// or one whole token where none is named.
pub fn create_account(
    client: &Client,
    signer: &Signer,
    signer_id: AccountId,
    new_account_id: AccountId,
    new_account_pk: PublicKey,
    deposit: Option<Balance>,
) -> (r: Submission)
    ensures
        starts(
            r,
            *client,
            *signer,
            signer_id,
            new_account_id,
            seq![
                Action::CreateAccount,
                Action::AddKey {
                    public_key: new_account_pk,
                    access_key: AccessKey { nonce: 0, permission: AccessKeyPermission::FullAccess },
                },
                Action::Transfer {
                    deposit: match deposit {
                        Some(amount) => amount,
                        None => NEAR_BASE,
                    },
                },
            ],
        ),
{
    let deposit = match deposit {
        Some(amount) => amount,
        None => NEAR_BASE,
    };
    let mut actions = Vec::new();
    actions.push(Action::CreateAccount);
    actions.push(
        Action::AddKey {
            public_key: new_account_pk,
            access_key: AccessKey { nonce: 0, permission: AccessKeyPermission::FullAccess },
        },
    );
    actions.push(Action::Transfer { deposit });
    assert(actions@ =~= seq![
        Action::CreateAccount,
        Action::AddKey {
            public_key: new_account_pk,
            access_key: AccessKey { nonce: 0, permission: AccessKeyPermission::FullAccess },
        },
        Action::Transfer { deposit },
    ]);
    client.send_tx_and_retry(signer, signer_id, new_account_id, actions)
}

/// Sets out to delete `account_id`, signed by its own key. What the account
/// holds goes to `beneficiary_id`.
pub fn delete_account(
    client: &Client,
    account_id: AccountId,
    signer: &Signer,
    beneficiary_id: AccountId,
) -> (r: Submission)
    ensures
        starts(
            r,
            *client,
            *signer,
            account_id,
            account_id,
            seq![Action::DeleteAccount { beneficiary_id }],
        ),
{
    let mut actions = Vec::new();
    actions.push(Action::DeleteAccount { beneficiary_id });
    client.send_tx_and_retry(signer, account_id.clone(), account_id, actions)
}

/// Sets out to deploy `wasm` to `contract_id`, signed by its own key.
pub fn deploy(client: &Client, signer: &Signer, contract_id: AccountId, wasm: Vec<u8>) -> (r:
    Submission)
    ensures
        starts(
            r,
            *client,
            *signer,
            contract_id,
            contract_id,
            seq![Action::DeployContract { code: wasm }],
        ),
{
    let mut actions = Vec::new();
    actions.push(Action::DeployContract { code: wasm });
    client.send_tx_and_retry(signer, contract_id.clone(), contract_id, actions)
}

/// Sets out to write the record `key` → `value` into the state of
/// `account_id` without a transaction. Only a sandbox allows that: on any
/// other network this is a capability error, and there is no request to
/// send.
pub fn patch_state(network: &Network, account_id: AccountId, key: Vec<u8>, value: Vec<u8>) -> (r:
    Result<PatchStateRequest, ClientError>)
    ensures
        network.patches(account_id, key, value, r),
{
    network.patch_state(account_id, key, value)
}

/// Sets out to create the top-level account `new_account_id` with
/// `new_account_pk` as its full access key. On a sandbox a transaction does
/// it, whose result the caller gets; on a shared network a helper service
/// does, which tells nothing of the execution.
pub fn create_top_level_account(
    network: &Network,
    new_account_id: AccountId,
    new_account_pk: PublicKey,
) -> (r: Result<AccountCreation, ClientError>)
    ensures
        network.creates(new_account_id, new_account_pk, r),
{
    network.create_tla(new_account_id, new_account_pk)
}

/// Seed of the key pairs of development accounts.
pub const DEV_ACCOUNT_SEED: &'static str = "testificate";

/// The development account `account_id` with its key pair, which is derived
/// from the seed all development accounts share.
fn dev_generate(account_id: AccountId) -> (r: (AccountId, Signer))
    ensures
        r.0 == account_id,
        r.1 == seeded_pair(account_id, DEV_ACCOUNT_SEED@),
{
    let signer = signer_from_seed(account_id.clone(), DEV_ACCOUNT_SEED);
    (account_id, signer)
}

/// Sets out to create the development account `account_id` as a top-level
/// account. Returns the account, its key pair, which is the one derived from
/// the shared seed, and how the account is to be created: with the public
/// half of that pair as its key.
pub fn dev_create(network: &Network, account_id: AccountId) -> (r: Result<
    (AccountId, Signer, AccountCreation),
    ClientError,
>)
    ensures
        match r {
            Ok((id, signer, creation)) => id == account_id && signer == seeded_pair(
                account_id,
                DEV_ACCOUNT_SEED@,
            ) && network.creates(account_id, public_half(signer), Ok(creation)),
            Err(e) => network.creates(
                account_id,
                public_half(seeded_pair(account_id, DEV_ACCOUNT_SEED@)),
                Err(e),
            ),
        },
{
    let (account_id, signer) = dev_generate(account_id);
    let pk = signer_public_key(&signer);
    match create_top_level_account(network, account_id.clone(), pk) {
        Ok(creation) => Ok((account_id, signer, creation)),
        Err(e) => Err(e),
    }
}

/// Sets out to create the development account `account_id` as a top-level
/// account and to deploy `wasm` to it. Returns the account, its key pair,
/// which is the one derived from the shared seed, and the two steps: the
/// account is created with the public half of that pair as its key, and the
/// deployment is signed by that pair.
pub fn dev_deploy(network: &Network, account_id: AccountId, wasm: Vec<u8>) -> (r: Result<
    (AccountId, Signer, Deployment),
    ClientError,
>)
    ensures
        match r {
            Ok((id, signer, deployment)) => id == account_id && signer == seeded_pair(
                account_id,
                DEV_ACCOUNT_SEED@,
            ) && starts(
                deployment.deploy.submission,
                network.client,
                signer,
                account_id,
                account_id,
                seq![Action::DeployContract { code: wasm }],
            ) && network.creates(account_id, public_half(signer), Ok(deployment.creation)),
            Err(e) => network.creates(
                account_id,
                public_half(seeded_pair(account_id, DEV_ACCOUNT_SEED@)),
                Err(e),
            ),
        },
{
    let (account_id, signer) = dev_generate(account_id);
    let pk = signer_public_key(&signer);
    match network.create_tla_and_deploy(account_id.clone(), pk, &signer, wasm) {
        Ok(deployment) => Ok((account_id, signer, deployment)),
        Err(e) => Err(e),
    }
}

} // verus!
