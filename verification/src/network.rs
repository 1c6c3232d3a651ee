//! The networks a worker can stand on, what each of them allows, and how a
//! new top-level account comes to be on each.
use crate::error::{ClientError, RpcError, SubmissionError};
use crate::result::{CallExecutionResult, ExecutionStatus};
use crate::rpc::api::{create_account, deploy, starts};
use crate::rpc::client::{Action, Client, Submission};
use crate::rpc::query::{
    account, code, unexpected, AccountView, QueryRequest, QueryResponseKind, RpcQueryRequest,
    RpcQueryResponse,
};
use crate::types::{AccessKey, AccessKeyPermission, BlockReference, NEAR_BASE};
use near_crypto::{PublicKey, Signer};
use near_primitives::types::AccountId;
use vstd::prelude::*;

verus! {

/// The kinds of network.
#[derive(Clone, Copy, Debug, PartialEq, Eq, Structural)]
pub enum NetworkKind {
    /// A local network that lives as long as the test that started it.
    Sandbox,
    /// The shared test network.
    Testnet,
    /// The production network.
    Mainnet,
    /// The production network, served by a node that keeps all history.
    MainnetArchival,
}

impl NetworkKind {
    /// Whether records can be written into the state without a transaction.
    pub open spec fn spec_supports_patch_state(self) -> bool {
        self == NetworkKind::Sandbox
    }

    /// Whether a top-level account is created by a transaction that the
    /// network's root account signs.
    pub open spec fn spec_creates_via_self_signed_tx(self) -> bool {
        self == NetworkKind::Sandbox
    }

    /// Whether a top-level account is created by a helper service.
    pub open spec fn spec_creates_via_helper_service(self) -> bool {
        self != NetworkKind::Sandbox
    }

    /// Whether records can be written into the state without a transaction:
    /// on a sandbox only.
    pub fn supports_patch_state(&self) -> (r: bool)
        ensures
            r == self.spec_supports_patch_state(),
    {
        matches!(self, NetworkKind::Sandbox)
    }

    /// Whether a top-level account is created by a transaction that the
    /// network's root account signs: on a sandbox only.
    pub fn creates_via_self_signed_tx(&self) -> (r: bool)
        ensures
            r == self.spec_creates_via_self_signed_tx(),
    {
        matches!(self, NetworkKind::Sandbox)
    }

    /// Whether a top-level account is created by a helper service: on every
    /// network but a sandbox.
    pub fn creates_via_helper_service(&self) -> (r: bool)
        ensures
            r == self.spec_creates_via_helper_service(),
    {
        !matches!(self, NetworkKind::Sandbox)
    }
}

/// What is known of a network.
#[derive(Clone, Debug, PartialEq, Eq)]
pub struct Info {
    /// Name of the network.
    pub name: String,
    /// The account under which top-level accounts are created.
    pub root_id: AccountId,
    /// Where the node is reached.
    pub rpc_url: String,
}

/// An account and the key pair that signs for it.
#[derive(Clone, Debug, PartialEq)]
pub struct Account {
    pub id: AccountId,
    pub signer: Signer,
}

/// An account that holds a contract, and the key pair that signs for it.
#[derive(Clone, Debug, PartialEq)]
pub struct Contract {
    pub id: AccountId,
    pub signer: Signer,
}

impl Account {
    /// The account `id`, signed for by `signer`.
    pub fn new(id: AccountId, signer: Signer) -> (r: Account)
        ensures
            r == (Account { id, signer }),
    {
        Account { id, signer }
    }

    /// The account identifier.
    pub fn id(&self) -> (r: &AccountId)
        ensures
            *r == self.id,
    {
        &self.id
    }

    /// The key pair that signs for the account.
    pub fn signer(&self) -> (r: &Signer)
        ensures
            *r == self.signer,
    {
        &self.signer
    }
}

impl Contract {
    /// The contract on account `id`, signed for by `signer`.
    pub fn new(id: AccountId, signer: Signer) -> (r: Contract)
        ensures
            r == (Contract { id, signer }),
    {
        Contract { id, signer }
    }

    /// The identifier of the account that holds the contract.
    pub fn id(&self) -> (r: &AccountId)
        ensures
            *r == self.id,
    {
        &self.id
    }

    /// The key pair that signs for the contract's account.
    pub fn signer(&self) -> (r: &Signer)
        ensures
            *r == self.signer,
    {
        &self.signer
    }
}

/// A network as a worker holds it: its kind, what is known of it, the handle
/// to its node, and what its kind needs to create accounts: the root key pair
/// on a sandbox, the helper service elsewhere.
#[derive(Clone, Debug, PartialEq)]
pub struct Network {
    pub kind: NetworkKind,
    pub info: Info,
    pub client: Client,
    pub root_signer: Option<Signer>,
    pub helper_url: Option<String>,
}

/// A request to the helper service of a shared network to create an account.
#[derive(Clone, Debug, PartialEq, Eq)]
pub struct HelperRequest {
    pub helper_url: String,
    pub new_account_id: AccountId,
    pub new_account_pk: PublicKey,
}

/// How a top-level account comes to be.
#[derive(Debug, PartialEq)]
pub enum AccountCreation {
    /// By a transaction of the root account, to be brought to its outcome.
    SelfSigned(Submission),
    /// By the helper service, which is to be sent this request.
    Helper(HelperRequest),
}

/// The creation of a top-level account and, prepared for the time after it,
/// the deployment of a contract to that account. The two are separate steps:
/// where the first succeeds and the second fails, the account exists without
/// code.
#[derive(Debug, PartialEq)]
pub struct Deployment {
    pub creation: AccountCreation,
    pub deploy: PreparedDeploy,
}

/// A deployment that waits for its account to be created.
#[derive(Debug, PartialEq)]
pub struct PreparedDeploy {
    pub submission: Submission,
}

/// One record of the state of a network.
#[derive(Clone, Debug, PartialEq, Eq)]
pub enum StateRecord {
    /// What an account holds.
    Account { account_id: AccountId, account: AccountView },
    /// The code deployed to an account.
    Contract { account_id: AccountId, code: Vec<u8> },
    /// One stored record of a contract.
    Data { account_id: AccountId, data_key: Vec<u8>, value: Vec<u8> },
}

/// A request to write records into the state of a sandbox.
#[derive(Clone, Debug, PartialEq, Eq)]
pub struct PatchStateRequest {
    pub records: Vec<StateRecord>,
}

impl Network {
    /// A sandbox, whose root account `info.root_id` signs with `root_signer`.
    pub fn sandbox(info: Info, client: Client, root_signer: Signer) -> (r: Network)
        ensures
            r == (Network {
                kind: NetworkKind::Sandbox,
                info,
                client,
                root_signer: Some(root_signer),
                helper_url: None,
            }),
    {
        Network {
            kind: NetworkKind::Sandbox,
            info,
            client,
            root_signer: Some(root_signer),
            helper_url: None,
        }
    }

    /// The shared test network, with the helper service at `helper_url`.
    pub fn testnet(info: Info, client: Client, helper_url: String) -> (r: Network)
        ensures
            r == (Network {
                kind: NetworkKind::Testnet,
                info,
                client,
                root_signer: None,
                helper_url: Some(helper_url),
            }),
    {
        Network {
            kind: NetworkKind::Testnet,
            info,
            client,
            root_signer: None,
            helper_url: Some(helper_url),
        }
    }

    /// The production network, with the helper service at `helper_url` where
    /// there is one. `archival` says whether the node keeps all history.
    pub fn mainnet(info: Info, client: Client, helper_url: Option<String>, archival: bool) -> (r:
        Network)
        ensures
            r == (Network {
                kind: if archival {
                    NetworkKind::MainnetArchival
                } else {
                    NetworkKind::Mainnet
                },
                info,
                client,
                root_signer: None,
                helper_url,
            }),
    {
        let kind = if archival {
            NetworkKind::MainnetArchival
        } else {
            NetworkKind::Mainnet
        };
        Network { kind, info, client, root_signer: None, helper_url }
    }

    /// How the top-level account `id` with the key `pk` is to be created
    /// here, or that it cannot be.
    pub open spec fn creates(self, id: AccountId, pk: PublicKey, r: Result<
        AccountCreation,
        ClientError,
    >) -> bool {
        if self.kind.spec_creates_via_self_signed_tx() {
            match self.root_signer {
                Some(root) => r matches Ok(AccountCreation::SelfSigned(submission)) && starts(
                    submission,
                    self.client,
                    root,
                    self.info.root_id,
                    id,
                    seq![
                        Action::CreateAccount,
                        Action::AddKey {
                            public_key: pk,
                            access_key: AccessKey {
                                nonce: 0,
                                permission: AccessKeyPermission::FullAccess,
                            },
                        },
                        Action::Transfer { deposit: NEAR_BASE },
                    ],
                ),
                None => r == Err::<AccountCreation, ClientError>(ClientError::Capability),
            }
        } else {
            match self.helper_url {
                Some(helper_url) => r == Ok::<AccountCreation, ClientError>(
                    AccountCreation::Helper(
                        HelperRequest { helper_url, new_account_id: id, new_account_pk: pk },
                    ),
                ),
                None => r == Err::<AccountCreation, ClientError>(ClientError::Capability),
            }
        }
    }

    /// Sets out to create the top-level account `id` with `pk` as its full
    /// access key. On a sandbox the root account signs a transaction that
    /// creates the account and gives it one whole token. On any other network
    /// the helper service is asked. A network that lacks what its kind needs
    /// for this, the root key pair or the helper, cannot create accounts.
    pub fn create_tla(&self, id: AccountId, pk: PublicKey) -> (r: Result<
        AccountCreation,
        ClientError,
    >)
        ensures
            self.creates(id, pk, r),
    {
        if self.kind.creates_via_self_signed_tx() {
            match &self.root_signer {
                Some(root) => Ok(
                    AccountCreation::SelfSigned(
                        create_account(&self.client, root, self.info.root_id.clone(), id, pk, None),
                    ),
                ),
                None => Err(ClientError::Capability),
            }
        } else {
            match &self.helper_url {
                Some(helper_url) => Ok(
                    AccountCreation::Helper(
                        HelperRequest {
                            helper_url: helper_url.clone(),
                            new_account_id: id,
                            new_account_pk: pk,
                        },
                    ),
                ),
                None => Err(ClientError::Capability),
            }
        }
    }

    /// Sets out to create the top-level account `id`, whose key pair is
    /// `signer` and whose full access key is `pk`, and prepares the
    /// deployment of `wasm` to it, signed by the new account itself.
    pub fn create_tla_and_deploy(
        &self,
        id: AccountId,
        pk: PublicKey,
        signer: &Signer,
        wasm: Vec<u8>,
    ) -> (r: Result<Deployment, ClientError>)
        ensures
            match r {
                Ok(deployment) => self.creates(id, pk, Ok(deployment.creation)) && starts(
                    deployment.deploy.submission,
                    self.client,
                    *signer,
                    id,
                    id,
                    seq![Action::DeployContract { code: wasm }],
                ),
                Err(e) => self.creates(id, pk, Err(e)),
            },
    {
        match self.create_tla(id.clone(), pk) {
            Ok(creation) => Ok(
                Deployment {
                    creation,
                    deploy: PreparedDeploy { submission: deploy(&self.client, signer, id, wasm) },
                },
            ),
            Err(e) => Err(e),
        }
    }

    /// The request that writes the record `key` → `value` into the state of
    /// `contract_id`, or that this network does not allow it.
    pub open spec fn patches(self, contract_id: AccountId, key: Vec<u8>, value: Vec<u8>, r: Result<
        PatchStateRequest,
        ClientError,
    >) -> bool {
        if self.kind.spec_supports_patch_state() {
            r matches Ok(request) && request.records@ =~= seq![
                StateRecord::Data { account_id: contract_id, data_key: key, value },
            ]
        } else {
            r == Err::<PatchStateRequest, ClientError>(ClientError::Capability)
        }
    }

    /// Sets out to write the record `key` → `value` into the state of
    /// `contract_id` without a transaction. Only a sandbox allows that: on
    /// any other network this is a capability error, and there is no request
    /// to send.
    pub fn patch_state(&self, contract_id: AccountId, key: Vec<u8>, value: Vec<u8>) -> (r: Result<
        PatchStateRequest,
        ClientError,
    >)
        ensures
            self.patches(contract_id, key, value, r),
            !self.kind.spec_supports_patch_state() ==> r == Err::<PatchStateRequest, ClientError>(
                ClientError::Capability,
            ),
    {
        if !self.kind.supports_patch_state() {
            return Err(ClientError::Capability);
        }
        let state = StateRecord::Data { account_id: contract_id, data_key: key, value };
        let mut records = Vec::new();
        records.push(state);
        Ok(PatchStateRequest { records })
    }
}

impl PatchStateRequest {
    /// What writing the records comes to, given the node's answer.
    pub open spec fn spec_result(reply: Result<(), RpcError>) -> Result<(), SubmissionError> {
        match reply {
            Ok(_) => Ok(()),
            Err(e) => Err(
                SubmissionError {
                    error: ClientError::surfaced(e),
                    outcome_unknown: e.spec_unanswered(),
                },
            ),
        }
    }

    /// What writing the records comes to, given the node's answer. A failure
    /// is passed on and not tried again; where the request was sent and no
    /// answer that can be read came, whether the records were written is not
    /// known.
    pub fn result(reply: Result<(), RpcError>) -> (r: Result<(), SubmissionError>)
        ensures
            r == PatchStateRequest::spec_result(reply),
    {
        match reply {
            Ok(_) => Ok(()),
            Err(e) => {
                let outcome_unknown = e.unanswered();
                Err(SubmissionError { error: ClientError::from_rpc(e), outcome_unknown })
            },
        }
    }
}

impl AccountCreation {
    /// What the creation of an account by a transaction comes to, given the
    /// result of that transaction: the result itself, kept.
    pub fn signed_result(result: Result<CallExecutionResult, SubmissionError>) -> (r: Result<
        Option<CallExecutionResult>,
        SubmissionError,
    >)
        ensures
            r == (match result {
                Ok(details) => Ok::<Option<CallExecutionResult>, SubmissionError>(Some(details)),
                Err(e) => Err(e),
            }),
    {
        match result {
            Ok(details) => Ok(Some(details)),
            Err(e) => Err(e),
        }
    }

    /// What the helper's answer comes to.
    pub open spec fn spec_helper_result(reply: Result<(), RpcError>) -> Result<
        Option<CallExecutionResult>,
        SubmissionError,
    > {
        match reply {
            Ok(_) => Ok(None),
            Err(e) => Err(
                SubmissionError {
                    error: ClientError::surfaced(e),
                    outcome_unknown: e.spec_unanswered(),
                },
            ),
        }
    }

    /// What the creation of an account by the helper service comes to, given
    /// the helper's answer: the helper tells nothing of the execution, so a
    /// success carries no result. A failure is passed on and not tried
    /// again; where the request was sent and no answer that can be read
    /// came, whether the account was created is not known.
    pub fn helper_result(reply: Result<(), RpcError>) -> (r: Result<
        Option<CallExecutionResult>,
        SubmissionError,
    >)
        ensures
            r == AccountCreation::spec_helper_result(reply),
    {
        match reply {
            Ok(_) => Ok(None),
            Err(e) => {
                let outcome_unknown = e.unanswered();
                Err(SubmissionError { error: ClientError::from_rpc(e), outcome_unknown })
            },
        }
    }
}

impl PreparedDeploy {
    /// What follows the creation of the account, given how it went.
    pub open spec fn spec_proceed(
        self,
        created: Result<Option<CallExecutionResult>, SubmissionError>,
    ) -> Result<Submission, SubmissionError> {
        match created {
            Err(e) => Err(e),
            Ok(Some(CallExecutionResult { status: ExecutionStatus::Failure(description), .. })) => Err(
                SubmissionError {
                    error: ClientError::Execution(description),
                    outcome_unknown: false,
                },
            ),
            Ok(_) => Ok(self.submission),
        }
    }

    /// Goes on to the deployment once the account is there. Where the
    /// creation failed, be it that the operation failed or that the
    /// transaction ran and failed, the sequence ends with that failure and
    /// nothing is deployed.
    pub fn proceed(self, created: Result<Option<CallExecutionResult>, SubmissionError>) -> (r:
        Result<Submission, SubmissionError>)
        ensures
            r == self.spec_proceed(created),
    {
        match created {
            Err(e) => Err(e),
            Ok(Some(details)) => match details.status {
                ExecutionStatus::Failure(description) => Err(
                    SubmissionError {
                        error: ClientError::Execution(description),
                        outcome_unknown: false,
                    },
                ),
                _ => Ok(self.submission),
            },
            Ok(None) => Ok(self.submission),
        }
    }
}

/// The copying of a contract from one network into a sandbox: what is to be
/// read from the network it lives on.
#[derive(Clone, Debug, PartialEq, Eq)]
pub struct ImportContract {
    /// The account that holds the contract.
    pub account_id: AccountId,
    /// Where the node of the network it lives on is reached.
    pub from_rpc_addr: String,
    /// The read of what the account holds.
    pub account_request: RpcQueryRequest,
    /// The read of the code of the contract.
    pub code_request: RpcQueryRequest,
}

impl Network {
    /// What copying the contract of `id` from `source` into this network
    /// starts with, or that this network does not allow it.
    pub open spec fn imports(self, id: AccountId, source: Network) -> Result<
        ImportContract,
        ClientError,
    > {
        if self.kind.spec_supports_patch_state() {
            Ok(
                ImportContract {
                    account_id: id,
                    from_rpc_addr: source.client.rpc_addr,
                    account_request: RpcQueryRequest {
                        block_reference: BlockReference::Final,
                        request: QueryRequest::ViewAccount { account_id: id },
                    },
                    code_request: RpcQueryRequest {
                        block_reference: BlockReference::Final,
                        request: QueryRequest::ViewCode { account_id: id },
                    },
                },
            )
        } else {
            Err(ClientError::Capability)
        }
    }

    /// Sets out to copy the contract of `id` from `source` into this
    /// network: the account and its code are read there, as of the latest
    /// finalized block, and written into the state here. Only a sandbox can
    /// be written into: on any other network this is a capability error, and
    /// nothing is read.
    pub fn import_contract(&self, id: &AccountId, source: &Network) -> (r: Result<
        ImportContract,
        ClientError,
    >)
        ensures
            r == self.imports(*id, *source),
    {
        if !self.kind.supports_patch_state() {
            return Err(ClientError::Capability);
        }
        Ok(
            ImportContract {
                account_id: id.clone(),
                from_rpc_addr: source.client.rpc_addr.clone(),
                account_request: RpcQueryRequest::view_account(id.clone(), BlockReference::Final),
                code_request: RpcQueryRequest::view_code(id.clone(), BlockReference::Final),
            },
        )
    }
}

impl ImportContract {
    /// The records that bring the contract into the sandbox, given the
    /// replies to the two reads, or why there are none.
    pub open spec fn records(
        self,
        account_reply: Result<RpcQueryResponse, RpcError>,
        code_reply: Result<RpcQueryResponse, RpcError>,
    ) -> Result<Seq<StateRecord>, ClientError> {
        match account_reply {
            Ok(RpcQueryResponse { kind: QueryResponseKind::ViewAccount(view), .. }) => {
                match code_reply {
                    Ok(RpcQueryResponse { kind: QueryResponseKind::ViewCode(bytes), .. }) => Ok(
                        seq![
                            StateRecord::Account { account_id: self.account_id, account: view },
                            StateRecord::Contract { account_id: self.account_id, code: bytes },
                        ],
                    ),
                    _ => Err(unexpected(code_reply)),
                }
            },
            _ => Err(unexpected(account_reply)),
        }
    }

    /// The request that writes the contract into the sandbox, from the
    /// replies to the two reads: first the record of the account, then the
    /// code. A failed read, of the account first, ends the copying with that
    /// failure; a reply of another kind is a protocol error.
    pub fn transact(
        self,
        account_reply: Result<RpcQueryResponse, RpcError>,
        code_reply: Result<RpcQueryResponse, RpcError>,
    ) -> (r: Result<PatchStateRequest, ClientError>)
        ensures
            match self.records(account_reply, code_reply) {
                Ok(records) => r matches Ok(request) && request.records@ =~= records,
                Err(e) => r == Err::<PatchStateRequest, ClientError>(e),
            },
    {
        let view = match account(account_reply) {
            Ok(view) => view,
            Err(e) => {
                return Err(e);
            },
        };
        let bytes = match code(code_reply) {
            Ok(bytes) => bytes,
            Err(e) => {
                return Err(e);
            },
        };
        let mut records = Vec::new();
        records.push(StateRecord::Account { account_id: self.account_id.clone(), account: view });
        records.push(StateRecord::Contract { account_id: self.account_id, code: bytes });
        Ok(PatchStateRequest { records })
    }
}

} // verus!
