//! Bringing a transaction to a final outcome: build it on fresh values,
//! submit it, and on a passing failure build and submit it again, a bounded
//! number of times.
//!
//! The client does not talk to the network itself. It says what is to be
//! done next, takes what came of it, and decides again.
use crate::error::{ClientError, RpcError, SubmissionError, TransientKind};
use crate::result::{CallExecutionResult, RawExecutionOutcome};
use crate::rpc::query::{QueryResponseKind, RpcQueryRequest, RpcQueryResponse};
use crate::types::{public_half, signer_public_key, AccessKey, Balance, Gas};
use near_crypto::{PublicKey, Signer};
use near_primitives::hash::CryptoHash;
use near_primitives::types::AccountId;
use vstd::prelude::*;

verus! {

/// Attempts a transaction is given when nothing else is configured.
pub const DEFAULT_MAX_ATTEMPTS: u32 = 5;

/// Pause before a further attempt when nothing else is configured, in
/// milliseconds.
pub const DEFAULT_BACKOFF_MILLIS: u64 = 5;

/// `base` doubled `times` times.
pub open spec fn doubled(base: nat, times: nat) -> nat
    decreases times,
{
    if times == 0 {
        base
    } else {
        2 * doubled(base, (times - 1) as nat)
    }
}

/// Doubling does not make smaller, and leaves nothing at nothing.
pub proof fn lemma_doubled_grows(base: nat, earlier: nat, later: nat)
    requires
        earlier <= later,
    ensures
        doubled(base, earlier) <= doubled(base, later),
        base == 0 ==> doubled(base, later) == 0,
    decreases later,
{
    if later > 0 {
        if earlier < later {
            lemma_doubled_grows(base, earlier, (later - 1) as nat);
        } else {
            lemma_doubled_grows(base, (earlier - 1) as nat, (later - 1) as nat);
        }
    }
}

/// How often a transaction is attempted, and how long the client pauses
/// before each further attempt: `backoff_millis` before the second, and
/// twice as long each time after that.
#[derive(Clone, Copy, Debug, PartialEq, Eq, Structural)]
pub struct RetryPolicy {
    pub max_attempts: u32,
    pub backoff_millis: u64,
}

impl RetryPolicy {
    /// A policy allows at least one attempt.
    pub open spec fn wf(self) -> bool {
        self.max_attempts >= 1
    }

    /// The policy of `max_attempts` attempts with `backoff_millis` between
    /// them. There is none that allows no attempt.
    pub fn new(max_attempts: u32, backoff_millis: u64) -> (r: Option<RetryPolicy>)
        ensures
            r == (if max_attempts >= 1 {
                Some(RetryPolicy { max_attempts, backoff_millis })
            } else {
                None
            }),
            r matches Some(policy) ==> policy.wf(),
    {
        if max_attempts >= 1 {
            Some(RetryPolicy { max_attempts, backoff_millis })
        } else {
            None
        }
    }
}

impl RetryPolicy {
    /// The pause before attempt number `attempt`, in milliseconds: the base
    /// pause doubled once for every attempt after the second, and no more
    /// than 64 bits hold.
    pub open spec fn spec_pause_before(self, attempt: u32) -> u64 {
        let times = if attempt >= 2 {
            (attempt - 2) as nat
        } else {
            0
        };
        if doubled(self.backoff_millis as nat, times) <= u64::MAX {
            doubled(self.backoff_millis as nat, times) as u64
        } else {
            u64::MAX
        }
    }

    /// The pause before attempt number `attempt`, in milliseconds.
    pub fn pause_before(&self, attempt: u32) -> (r: u64)
        ensures
            r == self.spec_pause_before(attempt),
    {
        let times: u32 = if attempt >= 2 {
            attempt - 2
        } else {
            0
        };
        let mut pause: u64 = self.backoff_millis;
        let mut done: u32 = 0;
        while done < times && pause != 0 && pause != u64::MAX
            invariant
                done <= times,
                doubled(self.backoff_millis as nat, done as nat) <= u64::MAX ==> pause == doubled(
                    self.backoff_millis as nat,
                    done as nat,
                ),
                doubled(self.backoff_millis as nat, done as nat) > u64::MAX ==> pause == u64::MAX,
            decreases times - done,
        {
            assert(doubled(self.backoff_millis as nat, (done + 1) as nat) == 2 * doubled(
                self.backoff_millis as nat,
                done as nat,
            ));
            if pause > u64::MAX / 2 {
                pause = u64::MAX;
            } else {
                pause = pause * 2;
            }
            done = done + 1;
        }
        proof {
            lemma_doubled_grows(self.backoff_millis as nat, done as nat, times as nat);
            if done < times && pause == 0 {
                lemma_doubled_grows(self.backoff_millis as nat, 0, done as nat);
            }
        }
        pause
    }
}

impl Default for RetryPolicy {
    fn default() -> (r: RetryPolicy)
        ensures
            r == (RetryPolicy {
                max_attempts: DEFAULT_MAX_ATTEMPTS,
                backoff_millis: DEFAULT_BACKOFF_MILLIS,
            }),
            r.wf(),
    {
        RetryPolicy { max_attempts: DEFAULT_MAX_ATTEMPTS, backoff_millis: DEFAULT_BACKOFF_MILLIS }
    }
}

/// The handle to a node: where it is reached, and how transactions sent to
/// it are retried.
#[derive(Clone, Debug, PartialEq, Eq)]
pub struct Client {
    pub rpc_addr: String,
    pub policy: RetryPolicy,
}

impl Client {
    /// The handle to the node at `rpc_addr`, with the default retry policy.
    pub fn new(rpc_addr: String) -> (r: Client)
        ensures
            r.rpc_addr == rpc_addr,
            r.policy == (RetryPolicy {
                max_attempts: DEFAULT_MAX_ATTEMPTS,
                backoff_millis: DEFAULT_BACKOFF_MILLIS,
            }),
    {
        Client { rpc_addr, policy: RetryPolicy::default() }
    }

    /// Sets out to bring a transaction of `signer_id` to `receiver_id` with
    /// `actions` to a final outcome, signed by `signer` and retried as this
    /// client's policy says. The public key under which the nonce is read is
    /// the public half of `signer`.
    pub fn send_tx_and_retry(
        &self,
        signer: &Signer,
        signer_id: AccountId,
        receiver_id: AccountId,
        actions: Vec<Action>,
    ) -> (r: Submission)
        ensures
            r == Submission::spec_start(
                TransactionIntent {
                    signer: *signer,
                    public_key: public_half(*signer),
                    signer_id,
                    receiver_id,
                    actions,
                },
                self.policy,
            ),
    {
        let intent = TransactionIntent {
            signer: signer.clone(),
            public_key: signer_public_key(signer),
            signer_id,
            receiver_id,
            actions,
        };
        Submission::start(intent, self.policy)
    }
}

/// One thing a transaction does on the receiving account.
#[derive(Clone, Debug, PartialEq, Eq)]
pub enum Action {
    CreateAccount,
    DeployContract { code: Vec<u8> },
    FunctionCall { method_name: String, args: Vec<u8>, gas: Gas, deposit: Balance },
    Transfer { deposit: Balance },
    AddKey { public_key: PublicKey, access_key: AccessKey },
    DeleteAccount { beneficiary_id: AccountId },
}

/// What a mutating operation wants done, apart from the values that have to
/// be fresh at each attempt: who signs, for which account, to which account,
/// and the actions.
#[derive(Clone, Debug, PartialEq)]
pub struct TransactionIntent {
    pub signer: Signer,
    pub public_key: PublicKey,
    pub signer_id: AccountId,
    pub receiver_id: AccountId,
    pub actions: Vec<Action>,
}

/// A transaction ready to be signed and sent: an intent with the nonce and
/// the block hash of one attempt.
#[derive(Clone, Copy, Debug, PartialEq)]
pub struct Transaction<'a> {
    pub intent: &'a TransactionIntent,
    pub nonce: u64,
    pub block_hash: CryptoHash,
}

/// Where a submission stands.
#[derive(Debug, PartialEq)]
pub enum Stage {
    /// The signer's access key and a recent block hash are being read.
    Resolving,
    /// The transaction built on `nonce` and `block_hash` is with the network.
    Submitting { nonce: u64, block_hash: CryptoHash },
    /// The last attempt failed in passing; the next one starts after a pause.
    Waiting,
    /// The operation is over, with this result.
    Finished(Result<CallExecutionResult, ClientError>),
}

/// What the caller reports back to a submission.
#[derive(Debug, PartialEq)]
pub enum Event {
    /// The reply to the read of the access key.
    AccessKey(Result<RpcQueryResponse, RpcError>),
    /// What became of the transaction that was sent.
    Outcome(Result<RawExecutionOutcome, RpcError>),
    /// The pause is over.
    BackoffElapsed,
}

/// What the caller is to do next for a submission.
#[derive(Debug, PartialEq)]
pub enum Directive<'a> {
    /// Send this read and report the reply as `Event::AccessKey`.
    Query(RpcQueryRequest),
    /// Sign this transaction, send it, wait for its final outcome and report
    /// it as `Event::Outcome`.
    Broadcast(Transaction<'a>),
    /// Pause for about this long, then report `Event::BackoffElapsed`.
    Sleep { millis: u64 },
    /// Nothing more: this is the result.
    Return(&'a Result<CallExecutionResult, ClientError>),
}

/// One mutating operation on its way: the intent, the retry policy, the
/// number of the attempt that is under way, and where it stands.
#[derive(Debug, PartialEq)]
pub struct Submission {
    pub intent: TransactionIntent,
    pub policy: RetryPolicy,
    /// Attempts begun so far, the one under way included.
    pub attempts: u32,
    /// Whether some transaction sent so far met with no answer that can be
    /// read.
    pub unanswered: bool,
    pub stage: Stage,
}

impl Submission {
    /// Between one and the allowed number of attempts have been begun.
    pub open spec fn wf(self) -> bool {
        self.policy.wf() && 1 <= self.attempts <= self.policy.max_attempts
    }

    /// A submission of `intent` at the start of its first attempt.
    pub open spec fn spec_start(intent: TransactionIntent, policy: RetryPolicy) -> Submission {
        Submission { intent, policy, attempts: 1, unanswered: false, stage: Stage::Resolving }
    }

    /// This submission, over with `result`.
    pub open spec fn finished(self, result: Result<CallExecutionResult, ClientError>) -> Submission {
        Submission { stage: Stage::Finished(result), ..self }
    }

    /// This submission after its current attempt failed with `e`: a passing
    /// failure leads to a further attempt while one is left and to
    /// `RetryExhausted` when none is; any other failure ends the operation at
    /// once. `sent` says whether it was the transaction that failed, and not
    /// the read before it: only a transaction that was sent and met with no
    /// answer that can be read leaves an outcome unknown.
    pub open spec fn failed(self, e: RpcError, sent: bool) -> Submission {
        let unanswered = self.unanswered || (sent && e.spec_unanswered());
        match e {
            RpcError::Transient(kind) => {
                if self.attempts < self.policy.max_attempts {
                    Submission {
                        attempts: (self.attempts + 1) as u32,
                        unanswered,
                        stage: Stage::Waiting,
                        ..self
                    }
                } else {
                    Submission {
                        unanswered,
                        stage: Stage::Finished(Err(ClientError::RetryExhausted(kind))),
                        ..self
                    }
                }
            },
            _ => Submission {
                unanswered,
                stage: Stage::Finished(Err(ClientError::surfaced(e))),
                ..self
            },
        }
    }

    /// This submission after the read of the access key was answered.
    pub open spec fn resolved(self, reply: Result<RpcQueryResponse, RpcError>) -> Submission {
        match reply {
            Ok(RpcQueryResponse { kind: QueryResponseKind::AccessKey(key), block_hash, .. }) => {
                match key.spec_next_nonce() {
                    Some(nonce) => Submission {
                        stage: Stage::Submitting { nonce, block_hash },
                        ..self
                    },
                    None => self.finished(Err(ClientError::NonceOverflow)),
                }
            },
            Ok(_) => self.finished(Err(ClientError::Protocol)),
            Err(e) => self.failed(e, false),
        }
    }

    /// This submission after the network answered the transaction.
    pub open spec fn submitted(self, reply: Result<RawExecutionOutcome, RpcError>) -> Submission {
        match reply {
            Ok(outcome) => self.finished(Ok(CallExecutionResult::normalized(outcome))),
            Err(e) => self.failed(e, true),
        }
    }

    /// This submission after `event`. An event that the current stage does
    /// not wait for changes nothing.
    pub open spec fn spec_step(self, event: Event) -> Submission {
        match (self.stage, event) {
            (Stage::Resolving, Event::AccessKey(reply)) => self.resolved(reply),
            (Stage::Submitting { .. }, Event::Outcome(reply)) => self.submitted(reply),
            (Stage::Waiting, Event::BackoffElapsed) => Submission {
                stage: Stage::Resolving,
                ..self
            },
            _ => self,
        }
    }

    /// What the caller is to do next.
    pub open spec fn spec_directive(self) -> Directive<'static> {
        match self.stage {
            Stage::Resolving => Directive::Query(
                RpcQueryRequest::spec_view_access_key(
                    self.intent.signer_id,
                    self.intent.public_key,
                ),
            ),
            Stage::Submitting { nonce, block_hash } => Directive::Broadcast(
                Transaction { intent: &self.intent, nonce, block_hash },
            ),
            Stage::Waiting => Directive::Sleep {
                millis: self.policy.spec_pause_before(self.attempts),
            },
            Stage::Finished(result) => Directive::Return(&result),
        }
    }

    /// Whether the operation is over.
    pub open spec fn spec_is_finished(self) -> bool {
        self.stage is Finished
    }

    /// Sets out to submit `intent` under `policy`: the first attempt begins,
    /// with the read of the signer's access key.
    pub fn start(intent: TransactionIntent, policy: RetryPolicy) -> (r: Submission)
        ensures
            r == Submission::spec_start(intent, policy),
            policy.wf() ==> r.wf(),
    {
        Submission { intent, policy, attempts: 1, unanswered: false, stage: Stage::Resolving }
    }

    fn fail(self, e: RpcError, sent: bool) -> (r: Submission)
        ensures
            r == self.failed(e, sent),
    {
        let unanswered = self.unanswered || (sent && e.unanswered());
        match e {
            RpcError::Transient(kind) => {
                if self.attempts < self.policy.max_attempts {
                    Submission {
                        intent: self.intent,
                        policy: self.policy,
                        attempts: self.attempts + 1,
                        unanswered,
                        stage: Stage::Waiting,
                    }
                } else {
                    Submission {
                        intent: self.intent,
                        policy: self.policy,
                        attempts: self.attempts,
                        unanswered,
                        stage: Stage::Finished(Err(ClientError::RetryExhausted(kind))),
                    }
                }
            },
            other => Submission {
                intent: self.intent,
                policy: self.policy,
                attempts: self.attempts,
                unanswered,
                stage: Stage::Finished(Err(ClientError::from_rpc(other))),
            },
        }
    }

    fn finish(self, result: Result<CallExecutionResult, ClientError>) -> (r: Submission)
        ensures
            r == self.finished(result),
    {
        Submission {
            intent: self.intent,
            policy: self.policy,
            attempts: self.attempts,
            unanswered: self.unanswered,
            stage: Stage::Finished(result),
        }
    }

    /// Takes in what the caller reports and decides how the submission goes
    /// on.
    ///
    /// While the access key is being read: an answer with the key leads to
    /// the transaction of this attempt, built on the key's next nonce and on
    /// the hash of the block the answer came from; an answer of another kind
    /// is a protocol error. While the transaction is with the network: a
    /// final outcome ends the operation with its normalized result. In both
    /// stages a passing failure leads to a pause and a further attempt from
    /// the start while the policy allows one, and to `RetryExhausted` with
    /// that failure when it does not; any other failure ends the operation at
    /// once. After the pause the next attempt begins. An event that the
    /// current stage does not wait for changes nothing. An outcome becomes
    /// unknown in one way only: a transaction was sent, and it timed out or
    /// the answer to it cannot be made sense of. A read that fails sends
    /// nothing and leaves nothing open.
    pub fn step(self, event: Event) -> (r: Submission)
        ensures
            r == self.spec_step(event),
            self.wf() ==> r.wf(),
            r.unanswered == (self.unanswered || (self.stage is Submitting && (event
                == Event::Outcome(Err(RpcError::Transient(TransientKind::Timeout))) || event
                == Event::Outcome(Err(RpcError::Malformed))))),
    {
        match event {
            Event::AccessKey(reply) => {
                if !matches!(self.stage, Stage::Resolving) {
                    return self;
                }
                match reply {
                    Ok(response) => match response.kind {
                        QueryResponseKind::AccessKey(key) => match key.next_nonce() {
                            Some(nonce) => Submission {
                                intent: self.intent,
                                policy: self.policy,
                                attempts: self.attempts,
                                unanswered: self.unanswered,
                                stage: Stage::Submitting { nonce, block_hash: response.block_hash },
                            },
                            None => self.finish(Err(ClientError::NonceOverflow)),
                        },
                        _ => self.finish(Err(ClientError::Protocol)),
                    },
                    Err(e) => self.fail(e, false),
                }
            },
            Event::Outcome(reply) => {
                if !matches!(self.stage, Stage::Submitting { .. }) {
                    return self;
                }
                match reply {
                    Ok(outcome) => self.finish(Ok(CallExecutionResult::from(outcome))),
                    Err(e) => self.fail(e, true),
                }
            },
            Event::BackoffElapsed => {
                if !matches!(self.stage, Stage::Waiting) {
                    return self;
                }
                Submission {
                    intent: self.intent,
                    policy: self.policy,
                    attempts: self.attempts,
                    unanswered: self.unanswered,
                    stage: Stage::Resolving,
                }
            },
        }
    }

    /// What the caller is to do next: read the signer's access key as of the
    /// latest finalized block, sign and send the transaction of this attempt,
    /// pause, or take the result.
    pub fn directive(&self) -> (r: Directive<'_>)
        ensures
            r == self.spec_directive(),
    {
        match &self.stage {
            Stage::Resolving => Directive::Query(
                RpcQueryRequest::view_access_key(
                    self.intent.signer_id.clone(),
                    self.intent.public_key.clone(),
                ),
            ),
            Stage::Submitting { nonce, block_hash } => Directive::Broadcast(
                Transaction { intent: &self.intent, nonce: *nonce, block_hash: *block_hash },
            ),
            Stage::Waiting => Directive::Sleep { millis: self.policy.pause_before(self.attempts) },
            Stage::Finished(result) => Directive::Return(result),
        }
    }

    /// Whether the operation is over.
    pub fn is_finished(&self) -> (r: bool)
        ensures
            r == self.spec_is_finished(),
    {
        matches!(self.stage, Stage::Finished(_))
    }

    /// The result of this submission, if it is over.
    pub open spec fn spec_result(self) -> Option<Result<CallExecutionResult, SubmissionError>> {
        match self.stage {
            Stage::Finished(Ok(result)) => Some(Ok(result)),
            Stage::Finished(Err(error)) => Some(
                Err(SubmissionError { error, outcome_unknown: self.unanswered }),
            ),
            _ => None,
        }
    }

    /// The result of the operation, once it is over. A failure says whether
    /// a transaction of the operation may have been acted on all the same.
    pub fn into_result(self) -> (r: Option<Result<CallExecutionResult, SubmissionError>>)
        ensures
            r == self.spec_result(),
    {
        match self.stage {
            Stage::Finished(Ok(result)) => Some(Ok(result)),
            Stage::Finished(Err(error)) => Some(
                Err(SubmissionError { error, outcome_unknown: self.unanswered }),
            ),
            _ => None,
        }
    }

    /// Whether a transaction of this submission may have been acted on
    /// without the client having seen its outcome: one was sent and met with
    /// no answer that can be read. After a failure the caller re-queries when
    /// this holds, and knows that nothing took effect when it does not.
    pub fn outcome_unknown(&self) -> (r: bool)
        ensures
            r == self.unanswered,
    {
        self.unanswered
    }

    /// This submission after `events`, one after the other.
    pub open spec fn spec_run(self, events: Seq<Event>) -> Submission
        decreases events.len(),
    {
        if events.len() == 0 {
            self
        } else {
            self.spec_run(events.drop_last()).spec_step(events.last())
        }
    }
}

/// How long to sleep for a pause of `pause` milliseconds, given a number
/// `drawn` at random: the pause and up to half as much again, and no more
/// than 64 bits hold.
pub open spec fn spec_jittered(pause: u64, drawn: u64) -> u64 {
    let extra = drawn as nat % ((pause / 2) as nat + 1);
    if pause + extra <= u64::MAX {
        (pause + extra) as u64
    } else {
        u64::MAX
    }
}

/// Spreads a pause: adds to `pause` a share of it that `drawn` picks, at most
/// half, so that clients that failed together do not come back together.
pub fn jittered(pause: u64, drawn: u64) -> (r: u64)
    ensures
        r == spec_jittered(pause, drawn),
        pause <= r,
        r <= pause + pause / 2,
{
    let extra = drawn % (pause / 2 + 1);
    pause.saturating_add(extra)
}

/// Whether `response` answers the read of an access key with a key that has
/// a next nonce.
pub open spec fn answers_key(response: RpcQueryResponse) -> bool {
    response.kind matches QueryResponseKind::AccessKey(key) && key.nonce < u64::MAX
}

impl Submission {
    /// This submission after one whole attempt that the network fails in
    /// passing: the read of the access key is answered with `response`, the
    /// transaction built on it meets the failure `kind`, and the pause, where
    /// one follows, goes by.
    pub open spec fn after_failed_attempt(
        self,
        response: RpcQueryResponse,
        kind: TransientKind,
    ) -> Submission {
        self.spec_step(Event::AccessKey(Ok(response))).spec_step(
            Event::Outcome(Err(RpcError::Transient(kind))),
        ).spec_step(Event::BackoffElapsed)
    }

    /// This submission after as many whole attempts as `kinds` is long, the
    /// `i`-th of which reads `responses[i]` and meets the failure `kinds[i]`.
    pub open spec fn after_failed_attempts(
        self,
        responses: Seq<RpcQueryResponse>,
        kinds: Seq<TransientKind>,
    ) -> Submission
        decreases kinds.len(),
    {
        if kinds.len() == 0 {
            self
        } else {
            self.after_failed_attempts(responses.drop_last(), kinds.drop_last()).after_failed_attempt(
                responses.last(),
                kinds.last(),
            )
        }
    }
}

/// Retries are bounded. Let every submission of a transaction meet a passing
/// failure. Then, as long as fewer attempts have failed than the policy
/// allows, the client is at the start of the next attempt; and when exactly
/// as many have failed as the policy allows, the operation is over with
/// `RetryExhausted`, carrying the last failure. The client never begins
/// another attempt after that.
pub proof fn lemma_retry_bound(
    intent: TransactionIntent,
    policy: RetryPolicy,
    responses: Seq<RpcQueryResponse>,
    kinds: Seq<TransientKind>,
)
    requires
        policy.wf(),
        responses.len() == kinds.len(),
        kinds.len() <= policy.max_attempts,
        forall|i: int| 0 <= i < responses.len() ==> answers_key(#[trigger] responses[i]),
    ensures
        ({
            let end = Submission::spec_start(intent, policy).after_failed_attempts(responses, kinds);
            &&& end.intent == intent
            &&& end.policy == policy
            &&& kinds.len() < policy.max_attempts ==> end.stage == Stage::Resolving && end.attempts
                == kinds.len() + 1
            &&& kinds.len() == policy.max_attempts ==> end.attempts == policy.max_attempts
                && end.stage == Stage::Finished(Err(ClientError::RetryExhausted(kinds.last())))
            &&& kinds.len() == policy.max_attempts ==> forall|event: Event|
                end.spec_step(event) == end
            &&& end.unanswered == kinds.contains(TransientKind::Timeout)
        }),
    decreases kinds.len(),
{
    if kinds.len() > 0 {
        lemma_retry_bound(intent, policy, responses.drop_last(), kinds.drop_last());
        assert(answers_key(responses.last()));
        let timeout = TransientKind::Timeout;
        if kinds.drop_last().contains(timeout) {
            let i = choose|i: int| 0 <= i < kinds.drop_last().len() && kinds.drop_last()[i] == timeout;
            assert(kinds[i] == timeout);
        }
        if kinds.last() == timeout {
            assert(kinds[kinds.len() - 1] == timeout);
        }
        if kinds.contains(timeout) {
            let i = choose|i: int| 0 <= i < kinds.len() && kinds[i] == timeout;
            if i < kinds.len() - 1 {
                assert(kinds.drop_last()[i] == timeout);
            }
        }
    }
}

/// What was never sent cannot be in doubt. A submission whose outcome is
/// known stays so through any run of events in which no transaction is
/// answered: reads that fail or time out, pauses, and events out of turn
/// leave nothing open. In particular a submission that never came to send a
/// transaction ends with its outcome known.
pub proof fn lemma_unknown_only_after_a_broadcast(submission: Submission, events: Seq<Event>)
    requires
        !submission.unanswered,
        forall|i: int| 0 <= i < events.len() ==> !(#[trigger] events[i] is Outcome),
    ensures
        !submission.spec_run(events).unanswered,
        submission.spec_run(events).spec_result() matches Some(Err(failure))
            ==> !failure.outcome_unknown,
    decreases events.len(),
{
    if events.len() > 0 {
        assert forall|i: int| 0 <= i < events.drop_last().len() implies !(
        #[trigger] events.drop_last()[i] is Outcome) by {
            assert(events.drop_last()[i] == events[i]);
        }
        lemma_unknown_only_after_a_broadcast(submission, events.drop_last());
        assert(!(events[events.len() - 1] is Outcome));
    }
}

/// The nonce comes from the chain alone. Whatever two submissions have been
/// through, when both read the access key and are given the same key, the
/// transactions they go on to send carry the same nonce: the one that follows
/// the key's. Nothing of an earlier attempt is kept and counted on.
pub proof fn lemma_nonce_from_answer_alone(
    a: Submission,
    b: Submission,
    key: AccessKey,
    answer_a: RpcQueryResponse,
    answer_b: RpcQueryResponse,
)
    requires
        a.stage == Stage::Resolving,
        b.stage == Stage::Resolving,
        answer_a.kind == QueryResponseKind::AccessKey(key),
        answer_b.kind == QueryResponseKind::AccessKey(key),
        key.nonce < u64::MAX,
    ensures
        a.spec_step(Event::AccessKey(Ok(answer_a))).stage == (Stage::Submitting {
            nonce: (key.nonce + 1) as u64,
            block_hash: answer_a.block_hash,
        }),
        b.spec_step(Event::AccessKey(Ok(answer_b))).stage == (Stage::Submitting {
            nonce: (key.nonce + 1) as u64,
            block_hash: answer_b.block_hash,
        }),
{
}

} // verus!
