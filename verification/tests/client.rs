use near_crypto::{InMemorySigner, KeyType, Signer};
use near_primitives::hash::CryptoHash;
use near_primitives::types::AccountId;
use workspaces::error::{ClientError, Missing, RpcError, SubmissionError, TransientKind};
use workspaces::result::{CallExecutionResult, ExecutionStatus, RawExecutionOutcome};
use workspaces::rpc::api::transfer_near;
use workspaces::rpc::client::{
    jittered, Action, Client, Directive, Event, RetryPolicy, Stage, Submission,
    DEFAULT_BACKOFF_MILLIS, DEFAULT_MAX_ATTEMPTS,
};
use workspaces::rpc::query::{
    QueryRequest, QueryResponseKind, RpcQueryRequest, RpcQueryResponse,
};
use workspaces::types::{AccessKey, AccessKeyPermission, BlockReference};

fn id(name: &str) -> AccountId {
    name.parse().unwrap()
}

fn key_pair(name: &str) -> Signer {
    InMemorySigner::from_seed(id(name), KeyType::ED25519, name)
}

fn client_with(max_attempts: u32) -> Client {
    Client { rpc_addr: "http://localhost:3030".to_string(), policy: RetryPolicy::new(max_attempts, 7).unwrap() }
}

fn key_answer(nonce: u64, hash: u8) -> Result<RpcQueryResponse, RpcError> {
    Ok(RpcQueryResponse {
        kind: QueryResponseKind::AccessKey(AccessKey { nonce, permission: AccessKeyPermission::FullAccess }),
        block_height: 10,
        block_hash: CryptoHash([hash; 32]),
    })
}

fn known(error: ClientError) -> SubmissionError {
    SubmissionError { error, outcome_unknown: false }
}

fn unknown(error: ClientError) -> SubmissionError {
    SubmissionError { error, outcome_unknown: true }
}

fn transfer(max_attempts: u32) -> Submission {
    transfer_near(&client_with(max_attempts), &key_pair("alice.test"), id("alice.test"), id("bob.test"), 5)
}

/// Runs a submission against a network that answers every read of the access
/// key with `nonce` and every transaction with `failure`. Returns the
/// submission at its end, the number of transactions sent and of pauses made.
fn run_against_failing_network(mut submission: Submission, nonce: u64, failure: RpcError) -> (Submission, u32, u32) {
    let mut sent = 0;
    let mut pauses = 0;
    for _ in 0..1000 {
        let event = match submission.directive() {
            Directive::Query(_) => Event::AccessKey(key_answer(nonce, 1)),
            Directive::Broadcast(_) => {
                sent += 1;
                Event::Outcome(Err(failure.clone()))
            }
            Directive::Sleep { .. } => {
                pauses += 1;
                Event::BackoffElapsed
            }
            Directive::Return(_) => return (submission, sent, pauses),
        };
        submission = submission.step(event);
    }
    panic!("the submission did not come to an end");
}

#[test]
fn policy_needs_one_attempt() {
    assert_eq!(RetryPolicy::new(0, 5), None);
    assert_eq!(RetryPolicy::new(1, 0), Some(RetryPolicy { max_attempts: 1, backoff_millis: 0 }));
    assert_eq!(RetryPolicy::new(4, 9), Some(RetryPolicy { max_attempts: 4, backoff_millis: 9 }));
}

#[test]
fn default_policy() {
    assert_eq!(DEFAULT_MAX_ATTEMPTS, 5);
    assert_eq!(DEFAULT_BACKOFF_MILLIS, 5);
    assert_eq!(RetryPolicy::default(), RetryPolicy { max_attempts: 5, backoff_millis: 5 });
    let client = Client::new("http://rpc".to_string());
    assert_eq!(client.rpc_addr, "http://rpc");
    assert_eq!(client.policy, RetryPolicy::default());
}

#[test]
fn submission_starts_by_reading_the_access_key() {
    let signer = key_pair("alice.test");
    let submission = transfer(3);
    assert_eq!(submission.stage, Stage::Resolving);
    assert_eq!(submission.attempts, 1);
    assert!(!submission.unanswered);
    assert!(!submission.is_finished());
    assert_eq!(
        submission.directive(),
        Directive::Query(RpcQueryRequest {
            block_reference: BlockReference::Final,
            request: QueryRequest::ViewAccessKey { account_id: id("alice.test"), public_key: signer.public_key() },
        })
    );
}

#[test]
fn transaction_carries_the_next_nonce_and_the_block_hash() {
    let submission = transfer(3).step(Event::AccessKey(key_answer(41, 9)));
    assert_eq!(submission.stage, Stage::Submitting { nonce: 42, block_hash: CryptoHash([9; 32]) });
    match submission.directive() {
        Directive::Broadcast(transaction) => {
            assert_eq!(transaction.nonce, 42);
            assert_eq!(transaction.block_hash, CryptoHash([9; 32]));
            assert_eq!(transaction.intent.signer_id, id("alice.test"));
            assert_eq!(transaction.intent.receiver_id, id("bob.test"));
            assert_eq!(transaction.intent.actions, vec![Action::Transfer { deposit: 5 }]);
            assert_eq!(transaction.intent.signer, key_pair("alice.test"));
        }
        other => panic!("unexpected directive {:?}", other),
    }
}

#[test]
fn success_ends_with_the_normalized_result() {
    let outcome = RawExecutionOutcome::new(ExecutionStatus::SuccessValue(vec![]), 10, vec![20, 30]).unwrap();
    let submission = transfer(3).step(Event::AccessKey(key_answer(0, 1))).step(Event::Outcome(Ok(outcome)));
    assert!(submission.is_finished());
    assert!(!submission.outcome_unknown());
    let expected = CallExecutionResult { status: ExecutionStatus::SuccessValue(vec![]), total_gas_burnt: 60 };
    assert_eq!(submission.directive(), Directive::Return(&Ok(expected.clone())));
    assert_eq!(submission.into_result(), Some(Ok(expected)));
}

#[test]
fn retry_bound_on_a_network_that_always_fails_in_passing() {
    for max_attempts in [1u32, 2, 3, 5, 8] {
        let (end, sent, pauses) = run_against_failing_network(
            transfer(max_attempts),
            7,
            RpcError::Transient(TransientKind::NonceConflict),
        );
        assert_eq!(sent, max_attempts);
        assert_eq!(pauses, max_attempts - 1);
        assert_eq!(end.attempts, max_attempts);
        assert_eq!(end.into_result(), Some(Err(known(ClientError::RetryExhausted(TransientKind::NonceConflict)))));
    }
}

#[test]
fn retry_exhausted_carries_the_last_failure() {
    let submission = transfer(2)
        .step(Event::AccessKey(key_answer(1, 1)))
        .step(Event::Outcome(Err(RpcError::Transient(TransientKind::Timeout))))
        .step(Event::BackoffElapsed)
        .step(Event::AccessKey(key_answer(1, 1)))
        .step(Event::Outcome(Err(RpcError::Transient(TransientKind::ServerOverload))));
    assert!(submission.outcome_unknown());
    assert_eq!(submission.into_result(), Some(Err(unknown(ClientError::RetryExhausted(TransientKind::ServerOverload)))));
}

#[test]
fn every_transient_kind_is_retried() {
    for kind in [
        TransientKind::NonceConflict,
        TransientKind::Timeout,
        TransientKind::ServerOverload,
        TransientKind::BlockHashNotFound,
        TransientKind::Unreachable,
    ] {
        let submission = transfer(2)
            .step(Event::AccessKey(key_answer(1, 1)))
            .step(Event::Outcome(Err(RpcError::Transient(kind))));
        assert_eq!(submission.stage, Stage::Waiting);
        assert_eq!(submission.attempts, 2);
        assert_eq!(submission.directive(), Directive::Sleep { millis: 7 });
        assert_eq!(submission.unanswered, kind == TransientKind::Timeout);
    }
}

#[test]
fn a_transaction_is_rebuilt_on_fresh_values_at_each_attempt() {
    let submission = transfer(3)
        .step(Event::AccessKey(key_answer(41, 1)))
        .step(Event::Outcome(Err(RpcError::Transient(TransientKind::NonceConflict))))
        .step(Event::BackoffElapsed);
    assert_eq!(submission.stage, Stage::Resolving);
    let submission = submission.step(Event::AccessKey(key_answer(57, 2)));
    assert_eq!(submission.stage, Stage::Submitting { nonce: 58, block_hash: CryptoHash([2; 32]) });
}

#[test]
fn nonce_resolution_is_idempotent() {
    let first = transfer(3).step(Event::AccessKey(key_answer(12, 1)));
    let later = transfer(3)
        .step(Event::AccessKey(key_answer(3, 1)))
        .step(Event::Outcome(Err(RpcError::Transient(TransientKind::Timeout))))
        .step(Event::BackoffElapsed)
        .step(Event::AccessKey(key_answer(12, 1)));
    assert_eq!(first.stage, Stage::Submitting { nonce: 13, block_hash: CryptoHash([1; 32]) });
    assert_eq!(later.stage, first.stage);
}

#[test]
fn a_lasting_failure_is_not_retried() {
    let (end, sent, pauses) =
        run_against_failing_network(transfer(5), 7, RpcError::Rejected("not enough balance".to_string()));
    assert_eq!(sent, 1);
    assert_eq!(pauses, 0);
    assert!(!end.outcome_unknown());
    assert_eq!(end.into_result(), Some(Err(known(ClientError::Rejected("not enough balance".to_string())))));
}

#[test]
fn a_missing_access_key_is_not_retried() {
    let submission = transfer(5).step(Event::AccessKey(Err(RpcError::NotFound(Missing::AccessKey))));
    assert_eq!(submission.attempts, 1);
    assert_eq!(submission.into_result(), Some(Err(known(ClientError::Query(Missing::AccessKey)))));
}

#[test]
fn a_passing_failure_of_the_read_counts_as_an_attempt() {
    let submission = transfer(1).step(Event::AccessKey(Err(RpcError::Transient(TransientKind::Timeout))));
    assert_eq!(submission.into_result(), Some(Err(known(ClientError::RetryExhausted(TransientKind::Timeout)))));
}

#[test]
fn an_answer_of_another_kind_is_a_protocol_error() {
    let answer = Ok(RpcQueryResponse {
        kind: QueryResponseKind::CallResult(vec![]),
        block_height: 1,
        block_hash: CryptoHash([0; 32]),
    });
    let submission = transfer(5).step(Event::AccessKey(answer));
    assert_eq!(submission.into_result(), Some(Err(known(ClientError::Protocol))));
}

#[test]
fn an_answer_that_cannot_be_read_is_a_protocol_error() {
    let submission = transfer(5).step(Event::AccessKey(Err(RpcError::Malformed)));
    assert_eq!(submission.attempts, 1);
    assert_eq!(submission.into_result(), Some(Err(known(ClientError::Protocol))));
    let answer = Ok(RpcQueryResponse { kind: QueryResponseKind::Other, block_height: 1, block_hash: CryptoHash([0; 32]) });
    assert_eq!(transfer(5).step(Event::AccessKey(answer)).into_result(), Some(Err(known(ClientError::Protocol))));
}

#[test]
fn a_nonce_at_its_end_has_no_successor() {
    let submission = transfer(5).step(Event::AccessKey(key_answer(u64::MAX, 1)));
    assert_eq!(submission.into_result(), Some(Err(known(ClientError::NonceOverflow))));
    let last = transfer(5).step(Event::AccessKey(key_answer(u64::MAX - 1, 1)));
    assert_eq!(last.stage, Stage::Submitting { nonce: u64::MAX, block_hash: CryptoHash([1; 32]) });
}

#[test]
fn an_event_out_of_turn_changes_nothing() {
    let outcome = RawExecutionOutcome::new(ExecutionStatus::SuccessReceiptId, 1, vec![]).unwrap();
    let submission = transfer(3).step(Event::Outcome(Ok(outcome))).step(Event::BackoffElapsed);
    assert_eq!(submission, transfer(3));

    let submitting = transfer(3).step(Event::AccessKey(key_answer(1, 1)));
    let still = transfer(3)
        .step(Event::AccessKey(key_answer(1, 1)))
        .step(Event::AccessKey(key_answer(2, 2)))
        .step(Event::BackoffElapsed);
    assert_eq!(still, submitting);

    let finished = transfer(1)
        .step(Event::AccessKey(key_answer(1, 1)))
        .step(Event::Outcome(Err(RpcError::Transient(TransientKind::Timeout))));
    let after = transfer(1)
        .step(Event::AccessKey(key_answer(1, 1)))
        .step(Event::Outcome(Err(RpcError::Transient(TransientKind::Timeout))))
        .step(Event::BackoffElapsed)
        .step(Event::AccessKey(key_answer(1, 1)));
    assert_eq!(after, finished);
}

#[test]
fn an_unfinished_submission_has_no_result() {
    assert_eq!(transfer(3).into_result(), None);
    assert_eq!(transfer(3).step(Event::AccessKey(key_answer(1, 1))).into_result(), None);
}

#[test]
fn next_nonce_follows_the_last_accepted_one() {
    let key = AccessKey { nonce: 0, permission: AccessKeyPermission::FunctionCall };
    assert_eq!(key.next_nonce(), Some(1));
    assert_eq!(AccessKey { nonce: 99, permission: AccessKeyPermission::FullAccess }.next_nonce(), Some(100));
    assert_eq!(AccessKey { nonce: u64::MAX, permission: AccessKeyPermission::FullAccess }.next_nonce(), None);
}

#[test]
fn the_pause_doubles_from_attempt_to_attempt() {
    let policy = RetryPolicy::new(6, 7).unwrap();
    assert_eq!(policy.pause_before(2), 7);
    assert_eq!(policy.pause_before(3), 14);
    assert_eq!(policy.pause_before(4), 28);
    assert_eq!(policy.pause_before(5), 56);
    assert_eq!(policy.pause_before(6), 112);
    assert_eq!(policy.pause_before(0), 7);
    assert_eq!(policy.pause_before(1), 7);
}

#[test]
fn the_pause_stops_growing_at_the_limit() {
    let policy = RetryPolicy::new(100, 1).unwrap();
    assert_eq!(policy.pause_before(65), 1 << 63);
    assert_eq!(policy.pause_before(66), u64::MAX);
    assert_eq!(policy.pause_before(100), u64::MAX);
    assert_eq!(policy.pause_before(u32::MAX), u64::MAX);
    let large = RetryPolicy::new(3, u64::MAX / 2 + 1).unwrap();
    assert_eq!(large.pause_before(2), u64::MAX / 2 + 1);
    assert_eq!(large.pause_before(3), u64::MAX);
    let exact = RetryPolicy::new(3, u64::MAX / 2).unwrap();
    assert_eq!(exact.pause_before(3), u64::MAX - 1);
    let none = RetryPolicy::new(3, 0).unwrap();
    assert_eq!(none.pause_before(u32::MAX), 0);
}

#[test]
fn a_submission_pauses_longer_each_time() {
    let mut submission = transfer(4);
    let mut pauses = Vec::new();
    for _ in 0..20 {
        let event = match submission.directive() {
            Directive::Query(_) => Event::AccessKey(key_answer(1, 1)),
            Directive::Broadcast(_) => Event::Outcome(Err(RpcError::Transient(TransientKind::ServerOverload))),
            Directive::Sleep { millis } => {
                pauses.push(millis);
                Event::BackoffElapsed
            }
            Directive::Return(_) => break,
        };
        submission = submission.step(event);
    }
    assert_eq!(pauses, vec![7, 14, 28]);
    assert!(submission.is_finished());
}

#[test]
fn a_read_that_times_out_leaves_nothing_open() {
    let read = transfer(1).step(Event::AccessKey(Err(RpcError::Transient(TransientKind::Timeout))));
    assert!(read.is_finished());
    assert!(!read.unanswered);
    assert!(!read.outcome_unknown());
    assert_eq!(read.into_result(), Some(Err(known(ClientError::RetryExhausted(TransientKind::Timeout)))));

    let sent = transfer(1)
        .step(Event::AccessKey(key_answer(1, 1)))
        .step(Event::Outcome(Err(RpcError::Transient(TransientKind::Timeout))));
    assert!(sent.outcome_unknown());
    assert_eq!(sent.into_result(), Some(Err(unknown(ClientError::RetryExhausted(TransientKind::Timeout)))));
}

#[test]
fn an_unreadable_answer_to_a_transaction_leaves_the_outcome_unknown() {
    let sent = transfer(3)
        .step(Event::AccessKey(key_answer(1, 1)))
        .step(Event::Outcome(Err(RpcError::Malformed)));
    assert_eq!(sent.attempts, 1);
    assert_eq!(sent.into_result(), Some(Err(unknown(ClientError::Protocol))));
    let read = transfer(3).step(Event::AccessKey(Err(RpcError::Malformed)));
    assert_eq!(read.into_result(), Some(Err(known(ClientError::Protocol))));
}

#[test]
fn reads_that_time_out_again_and_again_leave_nothing_open() {
    let mut submission = transfer(3);
    let mut reads = 0;
    for _ in 0..20 {
        let event = match submission.directive() {
            Directive::Query(_) => {
                reads += 1;
                Event::AccessKey(Err(RpcError::Transient(TransientKind::Timeout)))
            }
            Directive::Broadcast(_) => panic!("nothing is to be sent"),
            Directive::Sleep { .. } => Event::BackoffElapsed,
            Directive::Return(_) => break,
        };
        submission = submission.step(event);
    }
    assert_eq!(reads, 3);
    assert_eq!(submission.into_result(), Some(Err(known(ClientError::RetryExhausted(TransientKind::Timeout)))));
}

#[test]
fn an_unanswered_transaction_stays_in_doubt_whatever_follows() {
    let later_refused = transfer(3)
        .step(Event::AccessKey(key_answer(1, 1)))
        .step(Event::Outcome(Err(RpcError::Transient(TransientKind::Timeout))))
        .step(Event::BackoffElapsed)
        .step(Event::AccessKey(key_answer(1, 1)))
        .step(Event::Outcome(Err(RpcError::Rejected("not enough balance".to_string()))));
    assert_eq!(
        later_refused.into_result(),
        Some(Err(unknown(ClientError::Rejected("not enough balance".to_string()))))
    );
    let later_missing = transfer(3)
        .step(Event::AccessKey(key_answer(1, 1)))
        .step(Event::Outcome(Err(RpcError::Transient(TransientKind::Timeout))))
        .step(Event::BackoffElapsed)
        .step(Event::AccessKey(Err(RpcError::NotFound(Missing::AccessKey))));
    assert_eq!(later_missing.into_result(), Some(Err(unknown(ClientError::Query(Missing::AccessKey)))));
    let not_sent = transfer(3)
        .step(Event::AccessKey(key_answer(1, 1)))
        .step(Event::Outcome(Err(RpcError::Transient(TransientKind::Unreachable))))
        .step(Event::BackoffElapsed)
        .step(Event::AccessKey(key_answer(1, 1)))
        .step(Event::Outcome(Err(RpcError::Rejected("no".to_string()))));
    assert_eq!(not_sent.into_result(), Some(Err(known(ClientError::Rejected("no".to_string())))));
}

#[test]
fn the_time_to_sleep_is_the_pause_and_up_to_half_as_much_again() {
    assert_eq!(jittered(10, 0), 10);
    assert_eq!(jittered(10, 5), 15);
    assert_eq!(jittered(10, 6), 10);
    assert_eq!(jittered(10, 14), 12);
    assert_eq!(jittered(0, 12345), 0);
    assert_eq!(jittered(1, 7), 1);
    assert_eq!(jittered(u64::MAX, u64::MAX / 2), u64::MAX);
    assert_eq!(jittered(u64::MAX, 0), u64::MAX);
    assert_eq!(jittered(u64::MAX - 1, 3), u64::MAX);
    for drawn in [0u64, 1, 2, 3, 50, 51, 99, u64::MAX] {
        let sleep = jittered(100, drawn);
        assert!(100 <= sleep && sleep <= 150);
        assert_eq!(sleep, 100 + drawn % 51);
    }
}
