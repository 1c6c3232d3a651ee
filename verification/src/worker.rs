//! The worker: one face for every network. It forwards each operation to
//! the client of its network, and to the network itself where networks
//! differ.
use crate::error::ClientError;
use crate::network::{
    Account, AccountCreation, Contract, Deployment, ImportContract, Info, Network, NetworkKind,
    PatchStateRequest,
};
use crate::rpc::api;
use crate::rpc::client::{Action, Client, Submission};
use crate::rpc::query::{QueryRequest, RpcBlockRequest, RpcQueryRequest};
use crate::types::{
    Balance, BlockReference, Gas, DEFAULT_CALL_DEPOSIT, DEFAULT_CALL_FN_GAS,
};
use near_crypto::{PublicKey, Signer};
use near_primitives::types::AccountId;
use std::sync::Arc;
use vstd::prelude::*;

verus! {

/// `Arc::clone`: a second handle to the same value.
#[verifier::external_body]
fn share(workspace: &Arc<Network>) -> (r: Arc<Network>)
    ensures
        r == *workspace,
{
    Arc::clone(workspace)
}

/// A worker on a network. Copies of a worker share the network they stand
/// on.
pub struct Worker {
    workspace: Arc<Network>,
}

impl Clone for Worker {
    fn clone(&self) -> (r: Worker)
        ensures
            r.network() == self.network(),
    {
        Worker { workspace: share(&self.workspace) }
    }
}

impl Worker {
    /// The network this worker stands on.
    pub closed spec fn network(self) -> Network {
        *self.workspace
    }

    /// A worker on `network`.
    pub fn new(network: Network) -> (r: Worker)
        ensures
            r.network() == network,
    {
        Worker { workspace: Arc::new(network) }
    }

    /// The network this worker stands on.
    pub fn workspace(&self) -> (r: &Network)
        ensures
            *r == self.network(),
    {
        &self.workspace
    }

    /// What is known of the network.
    pub fn info(&self) -> (r: &Info)
        ensures
            *r == self.network().info,
    {
        &self.workspace.info
    }

    /// The handle to the node of the network.
    pub fn client(&self) -> (r: &Client)
        ensures
            *r == self.network().client,
    {
        &self.workspace.client
    }

    /// The kind of the network.
    pub fn kind(&self) -> (r: NetworkKind)
        ensures
            r == self.network().kind,
    {
        self.workspace.kind
    }

    /// Sets out to create the top-level account `id` with `pk` as its full
    /// access key, in the way of the network.
    pub fn create_tla(&self, id: AccountId, pk: PublicKey) -> (r: Result<
        AccountCreation,
        ClientError,
    >)
        ensures
            self.network().creates(id, pk, r),
    {
        self.workspace.create_tla(id, pk)
    }

    /// Sets out to create the top-level account `id`, whose key pair is
    /// `signer` and whose full access key is `pk`, and prepares the
    /// deployment of `wasm` to it.
    pub fn create_tla_and_deploy(
        &self,
        id: AccountId,
        pk: PublicKey,
        signer: &Signer,
        wasm: Vec<u8>,
    ) -> (r: Result<Deployment, ClientError>)
        ensures
            match r {
                Ok(deployment) => self.network().creates(id, pk, Ok(deployment.creation))
                    && api::starts(
                    deployment.deploy.submission,
                    self.network().client,
                    *signer,
                    id,
                    id,
                    seq![Action::DeployContract { code: wasm }],
                ),
                Err(e) => self.network().creates(id, pk, Err(e)),
            },
    {
        self.workspace.create_tla_and_deploy(id, pk, signer, wasm)
    }

    /// Sets out to write the record `key` → `value` into the state of
    /// `contract_id` without a transaction. Off a sandbox this is a
    /// capability error, and there is no request to send.
    pub fn patch_state(&self, contract_id: &AccountId, key: Vec<u8>, value: Vec<u8>) -> (r: Result<
        PatchStateRequest,
        ClientError,
    >)
        ensures
            self.network().patches(*contract_id, key, value, r),
    {
        self.workspace.patch_state(contract_id.clone(), key, value)
    }

    /// Sets out to copy the contract of `id` from the network of `worker`
    /// into this one. Off a sandbox this is a capability error, and nothing
    /// is read.
    pub fn import_contract(&self, id: &AccountId, worker: &Worker) -> (r: Result<
        ImportContract,
        ClientError,
    >)
        ensures
            r == self.network().imports(*id, worker.network()),
    {
        self.workspace.import_contract(id, &worker.workspace)
    }

    /// Sets out to call the change method `function` of `contract` on
    /// `args`, signed by the contract's own key pair, with `gas` and
    /// `deposit` or, where one is not named, its default.
    pub fn call(
        &self,
        contract: &Contract,
        function: &str,
        args: Vec<u8>,
        gas: Option<Gas>,
        deposit: Option<Balance>,
    ) -> (r: Submission)
        ensures
            r == Submission::spec_start(r.intent, self.network().client.policy),
            r.intent.signer == contract.signer,
            r.intent.signer_id == contract.id,
            r.intent.receiver_id == contract.id,
            r.intent.actions@.len() == 1,
            r.intent.actions@[0] matches Action::FunctionCall {
                method_name,
                args: sent,
                gas: attached,
                deposit: paid,
            } && method_name@ == function@ && sent == args && attached == (match gas {
                Some(amount) => amount,
                None => DEFAULT_CALL_FN_GAS,
            }) && paid == (match deposit {
                Some(amount) => amount,
                None => DEFAULT_CALL_DEPOSIT,
            }),
    {
        let gas = match gas {
            Some(amount) => amount,
            None => DEFAULT_CALL_FN_GAS,
        };
        let deposit = match deposit {
            Some(amount) => amount,
            None => DEFAULT_CALL_DEPOSIT,
        };
        let mut actions = Vec::new();
        actions.push(Action::FunctionCall { method_name: function.to_owned(), args, gas, deposit });
        self.client().send_tx_and_retry(
            contract.signer(),
            contract.id().clone(),
            contract.id().clone(),
            actions,
        )
    }

    /// The read that runs the view method `function` of `contract_id` on
    /// `args`.
    pub fn view(&self, contract_id: &AccountId, function: &str, args: Vec<u8>) -> (r:
        RpcQueryRequest)
        ensures
            r.block_reference == BlockReference::Optimistic,
            r.request matches QueryRequest::CallFunction { account_id, method_name, args: sent }
                && account_id == *contract_id && method_name@ == function@ && sent == args,
    {
        RpcQueryRequest::call_function(contract_id.clone(), function.to_owned(), args)
    }

    /// The read of the code deployed to `contract_id`.
    pub fn view_code(&self, contract_id: &AccountId) -> (r: RpcQueryRequest)
        ensures
            r == (RpcQueryRequest {
                block_reference: BlockReference::Final,
                request: QueryRequest::ViewCode { account_id: *contract_id },
            }),
    {
        RpcQueryRequest::view_code(contract_id.clone(), BlockReference::Final)
    }

    /// The read of the stored records of `contract_id` under `prefix`, or of
    /// all of them where no prefix is named.
    pub fn view_state(&self, contract_id: &AccountId, prefix: Option<Vec<u8>>) -> (r:
        RpcQueryRequest)
        ensures
            r.block_reference == BlockReference::Optimistic,
            r.request matches QueryRequest::ViewState { account_id, prefix: sent } && account_id
                == *contract_id && sent@ == (match prefix {
                Some(given) => given@,
                None => Seq::<u8>::empty(),
            }),
    {
        RpcQueryRequest::view_state(contract_id.clone(), prefix)
    }

    /// The request for the header of the latest block.
    pub fn view_latest_block(&self) -> (r: RpcBlockRequest)
        ensures
            r == (RpcBlockRequest { block_reference: None }),
    {
        RpcBlockRequest { block_reference: None }
    }

    /// Sets out to move `amount_yocto` from the account `signer` to
    /// `receiver_id`.
    pub fn transfer_near(&self, signer: &Account, receiver_id: &AccountId, amount_yocto: Balance)
        -> (r: Submission)
        ensures
            api::starts(
                r,
                self.network().client,
                signer.signer,
                signer.id,
                *receiver_id,
                seq![Action::Transfer { deposit: amount_yocto }],
            ),
    {
        api::transfer_near(
            self.client(),
            signer.signer(),
            signer.id().clone(),
            receiver_id.clone(),
            amount_yocto,
        )
    }

    /// Sets out to delete `account_id`, signed by `signer`. What the account
    /// holds goes to `beneficiary_id`.
    pub fn delete_account(&self, account_id: &AccountId, signer: &Signer, beneficiary_id: &AccountId)
        -> (r: Submission)
        ensures
            api::starts(
                r,
                self.network().client,
                *signer,
                *account_id,
                *account_id,
                seq![Action::DeleteAccount { beneficiary_id: *beneficiary_id }],
            ),
    {
        api::delete_account(self.client(), account_id.clone(), signer, beneficiary_id.clone())
    }

    /// The read of what `account_id` holds, as of the latest finalized
    /// block.
    pub fn view_account(&self, account_id: &AccountId) -> (r: RpcQueryRequest)
        ensures
            r == (RpcQueryRequest {
                block_reference: BlockReference::Final,
                request: QueryRequest::ViewAccount { account_id: *account_id },
            }),
    {
        RpcQueryRequest::view_account(account_id.clone(), BlockReference::Final)
    }

    /// The root account of the network with its key pair. Only a sandbox
    /// hands its root account out.
    pub fn root_account(&self) -> (r: Option<Account>)
        ensures
            r == (match (self.network().kind, self.network().root_signer) {
                (NetworkKind::Sandbox, Some(signer)) => Some(
                    Account { id: self.network().info.root_id, signer },
                ),
                _ => None,
            }),
    {
        if !matches!(self.workspace.kind, NetworkKind::Sandbox) {
            return None;
        }
        match &self.workspace.root_signer {
            Some(signer) => {
                let account_id = self.info().root_id.clone();
                Some(Account::new(account_id, signer.clone()))
            },
            None => None,
        }
    }
}

} // verus!
