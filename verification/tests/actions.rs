use near_crypto::{InMemorySigner, KeyType, Signer};
use near_primitives::account::{AccessKey as NodeAccessKey, AccessKeyPermission as NodePermission};
use near_primitives::hash::CryptoHash;
use near_primitives::transaction::{
    Action as NodeAction, AddKeyAction, CreateAccountAction, DeleteAccountAction,
    DeployContractAction, FunctionCallAction, SignedTransaction, TransferAction,
};
use near_primitives::types::{AccountId, Balance as NodeBalance, Gas as NodeGas};
use workspaces::rpc::api::{call, create_account, delete_account, deploy, transfer_near};
use workspaces::rpc::client::{Action, Client, Event, RetryPolicy, Stage, Submission};
use workspaces::rpc::query::{QueryResponseKind, RpcQueryResponse};
use workspaces::types::{AccessKey, AccessKeyPermission, DEFAULT_CALL_FN_GAS, NEAR_BASE};

fn named(text: &str) -> AccountId {
    text.parse().unwrap()
}

fn keys(text: &str) -> Signer {
    InMemorySigner::from_seed(named(text), KeyType::ED25519, text)
}

fn rpc() -> Client {
    Client { rpc_addr: "http://localhost:3030".to_string(), policy: RetryPolicy::new(2, 1).unwrap() }
}

fn in_node_form(action: &Action) -> NodeAction {
    match action {
        Action::CreateAccount => NodeAction::CreateAccount(CreateAccountAction {}),
        Action::DeployContract { code } => NodeAction::DeployContract(DeployContractAction { code: code.clone() }),
        Action::FunctionCall { method_name, args, gas, deposit } => {
            NodeAction::FunctionCall(Box::new(FunctionCallAction {
                method_name: method_name.clone(),
                args: args.clone(),
                gas: NodeGas::from_gas(*gas),
                deposit: NodeBalance::from_yoctonear(*deposit),
            }))
        }
        Action::Transfer { deposit } => {
            NodeAction::Transfer(TransferAction { deposit: NodeBalance::from_yoctonear(*deposit) })
        }
        Action::AddKey { public_key, access_key } => {
            assert_eq!(access_key.permission, AccessKeyPermission::FullAccess);
            NodeAction::AddKey(Box::new(AddKeyAction {
                public_key: public_key.clone(),
                access_key: NodeAccessKey { nonce: access_key.nonce, permission: NodePermission::FullAccess },
            }))
        }
        Action::DeleteAccount { beneficiary_id } => {
            NodeAction::DeleteAccount(DeleteAccountAction { beneficiary_id: beneficiary_id.clone() })
        }
    }
}

/// Takes a submission to the transaction of its first attempt, on a key with
/// the nonce 41 and the block hash of all sevens, and holds that transaction
/// against the one the node's own library builds.
fn agrees_with(submission: Submission, theirs: SignedTransaction) {
    let answer = Ok(RpcQueryResponse {
        kind: QueryResponseKind::AccessKey(AccessKey { nonce: 41, permission: AccessKeyPermission::FullAccess }),
        block_height: 3,
        block_hash: CryptoHash([7; 32]),
    });
    let submission = submission.step(Event::AccessKey(answer));
    let (nonce, block_hash) = match &submission.stage {
        Stage::Submitting { nonce, block_hash } => (*nonce, *block_hash),
        other => panic!("unexpected stage {:?}", other),
    };
    let ours: Vec<NodeAction> = submission.intent.actions.iter().map(in_node_form).collect();
    assert_eq!(ours.as_slice(), theirs.transaction.actions());
    assert_eq!(&submission.intent.signer_id, theirs.transaction.signer_id());
    assert_eq!(&submission.intent.receiver_id, theirs.transaction.receiver_id());
    assert_eq!(&submission.intent.public_key, theirs.transaction.public_key());
    assert_eq!(nonce, theirs.transaction.nonce().nonce());
    assert_eq!(&block_hash, theirs.transaction.block_hash());
    let signed = SignedTransaction::from_actions(
        nonce,
        submission.intent.signer_id.clone(),
        submission.intent.receiver_id.clone(),
        &submission.intent.signer,
        ours,
        block_hash,
    );
    assert_eq!(signed.get_hash(), theirs.get_hash());
    assert_eq!(signed.signature, theirs.signature);
}

#[test]
fn transfer_agrees_with_send_money() {
    let signer = keys("alice.test");
    agrees_with(
        transfer_near(&rpc(), &signer, named("alice.test"), named("bob.test"), 3 * NEAR_BASE),
        SignedTransaction::send_money(
            42,
            named("alice.test"),
            named("bob.test"),
            &signer,
            NodeBalance::from_yoctonear(3 * NEAR_BASE),
            CryptoHash([7; 32]),
        ),
    );
}

#[test]
fn create_account_agrees_with_the_node_library() {
    let root = keys("test");
    let new_key = keys("alice.test").public_key();
    agrees_with(
        create_account(&rpc(), &root, named("test"), named("alice.test"), new_key.clone(), None),
        SignedTransaction::create_account(
            42,
            named("test"),
            named("alice.test"),
            NodeBalance::from_yoctonear(NEAR_BASE),
            new_key.clone(),
            &root,
            CryptoHash([7; 32]),
        ),
    );
    agrees_with(
        create_account(&rpc(), &root, named("test"), named("alice.test"), new_key.clone(), Some(5)),
        SignedTransaction::create_account(
            42,
            named("test"),
            named("alice.test"),
            NodeBalance::from_yoctonear(5),
            new_key,
            &root,
            CryptoHash([7; 32]),
        ),
    );
}

#[test]
fn delete_account_agrees_with_the_node_library() {
    let signer = keys("alice.test");
    agrees_with(
        delete_account(&rpc(), named("alice.test"), &signer, named("bob.test")),
        SignedTransaction::delete_account(
            42,
            named("alice.test"),
            named("alice.test"),
            named("bob.test"),
            &signer,
            CryptoHash([7; 32]),
        ),
    );
}

#[test]
fn deploy_agrees_with_the_node_library() {
    let signer = keys("status.test");
    agrees_with(
        deploy(&rpc(), &signer, named("status.test"), vec![0, 97, 115, 109]),
        SignedTransaction::deploy_contract(
            42,
            &named("status.test"),
            vec![0, 97, 115, 109],
            &signer,
            CryptoHash([7; 32]),
        ),
    );
}

#[test]
fn call_agrees_with_the_node_library() {
    let signer = keys("alice.test");
    agrees_with(
        call(
            &rpc(),
            &signer,
            named("alice.test"),
            named("status.test"),
            "set_status".to_string(),
            b"{\"message\":\"hi\"}".to_vec(),
            Some(9),
        ),
        SignedTransaction::call(
            42,
            named("alice.test"),
            named("status.test"),
            &signer,
            NodeBalance::from_yoctonear(9),
            "set_status".to_string(),
            b"{\"message\":\"hi\"}".to_vec(),
            NodeGas::from_gas(DEFAULT_CALL_FN_GAS),
            CryptoHash([7; 32]),
        ),
    );
}
