//! Execution outcomes: what the network reports of a transaction, and the
//! stable result the client hands to its caller.
use crate::error::{RpcError, TransientKind};
use vstd::prelude::*;

verus! {

/// How the execution of a transaction ended.
#[derive(Clone, Debug, PartialEq, Eq)]
pub enum ExecutionStatus {
    /// It succeeded and returned these bytes.
    SuccessValue(Vec<u8>),
    /// It succeeded and its result is that of a further receipt.
    SuccessReceiptId,
    /// It failed, with this description of the error.
    Failure(String),
}

/// How far the execution of a transaction has come, as a node reports it.
#[derive(Clone, Debug, PartialEq, Eq)]
pub enum FinalExecutionStatus {
    /// The execution has not yet started.
    NotStarted,
    /// The execution has started and is still going.
    Started,
    /// The execution has failed, with this description of the error.
    Failure(String),
    /// The execution has succeeded and returned these bytes.
    SuccessValue(Vec<u8>),
}

impl FinalExecutionStatus {
    /// The status of an execution that is over; none while it is not.
    pub open spec fn settled(self) -> Option<ExecutionStatus> {
        match self {
            FinalExecutionStatus::NotStarted => None,
            FinalExecutionStatus::Started => None,
            FinalExecutionStatus::Failure(description) => Some(
                ExecutionStatus::Failure(description),
            ),
            FinalExecutionStatus::SuccessValue(value) => Some(ExecutionStatus::SuccessValue(value)),
        }
    }
}

/// Sum of the gas burnt by a run of receipts.
pub open spec fn gas_sum(receipts: Seq<u64>) -> nat
    decreases receipts.len(),
{
    if receipts.len() == 0 {
        0
    } else {
        gas_sum(receipts.drop_last()) + receipts.last() as nat
    }
}

/// Gas burnt by a transaction as a whole: by its own outcome and by every
/// receipt it gave rise to.
pub open spec fn total_gas(own: u64, receipts: Seq<u64>) -> nat {
    own as nat + gas_sum(receipts)
}

/// A longer run of receipts burns no less than any of its prefixes.
pub proof fn lemma_gas_sum_prefix(receipts: Seq<u64>, n: int)
    requires
        0 <= n <= receipts.len(),
    ensures
        gas_sum(receipts.take(n)) <= gas_sum(receipts),
    decreases receipts.len() - n,
{
    if n == receipts.len() {
        assert(receipts.take(n) =~= receipts);
    } else {
        lemma_gas_sum_prefix(receipts, n + 1);
        assert(receipts.take(n + 1).drop_last() =~= receipts.take(n));
    }
}

/// Adds up the gas of a transaction and its receipts, if the total can be
/// held in 64 bits.
pub fn checked_total_gas(own: u64, receipts: &Vec<u64>) -> (r: Option<u64>)
    ensures
        r matches Some(total) ==> total as nat == total_gas(own, receipts@),
        r is None <==> total_gas(own, receipts@) > u64::MAX,
{
    let mut total: u64 = own;
    let mut i: usize = 0;
    while i < receipts.len()
        invariant
            i <= receipts.len(),
            total as nat == total_gas(own, receipts@.take(i as int)),
        decreases receipts.len() - i,
    {
        proof {
            assert(receipts@.take(i + 1).drop_last() =~= receipts@.take(i as int));
            lemma_gas_sum_prefix(receipts@, i + 1);
        }
        match total.checked_add(receipts[i]) {
            Some(next) => {
                total = next;
            },
            None => {
                return None;
            },
        }
        i = i + 1;
    }
    proof {
        assert(receipts@.take(i as int) =~= receipts@);
    }
    Some(total)
}

/// Adds up the gas of a transaction and its receipts, where the total is
/// known to fit.
fn add_up(own: u64, receipts: &Vec<u64>) -> (total: u64)
    requires
        total_gas(own, receipts@) <= u64::MAX,
    ensures
        total as nat == total_gas(own, receipts@),
{
    let mut total: u64 = own;
    let mut i: usize = 0;
    while i < receipts.len()
        invariant
            i <= receipts.len(),
            total as nat == total_gas(own, receipts@.take(i as int)),
            total_gas(own, receipts@) <= u64::MAX,
        decreases receipts.len() - i,
    {
        proof {
            assert(receipts@.take(i + 1).drop_last() =~= receipts@.take(i as int));
            lemma_gas_sum_prefix(receipts@, i + 1);
        }
        total = total + receipts[i];
        i = i + 1;
    }
    proof {
        assert(receipts@.take(i as int) =~= receipts@);
    }
    total
}

/// What the network reports once a transaction has run: its final status, the
/// gas its own outcome burnt, and the gas each of its receipts burnt. The total
/// of a value of this type always fits in 64 bits.
#[derive(Debug, PartialEq, Eq)]
pub struct RawExecutionOutcome {
    status: ExecutionStatus,
    gas_burnt: u64,
    receipts_gas_burnt: Vec<u64>,
}

impl RawExecutionOutcome {
    #[verifier::type_invariant]
    spec fn fits(self) -> bool {
        total_gas(self.gas_burnt, self.receipts_gas_burnt@) <= u64::MAX
    }

    /// The final status.
    pub closed spec fn spec_status(self) -> ExecutionStatus {
        self.status
    }

    /// Gas burnt by the transaction's own outcome.
    pub closed spec fn spec_gas_burnt(self) -> u64 {
        self.gas_burnt
    }

    /// Gas burnt by each receipt, in the order reported.
    pub closed spec fn spec_receipts_gas_burnt(self) -> Seq<u64> {
        self.receipts_gas_burnt@
    }

    /// Gas burnt by the transaction and all of its receipts.
    pub open spec fn spec_total_gas(self) -> nat {
        total_gas(self.spec_gas_burnt(), self.spec_receipts_gas_burnt())
    }

    /// Records an outcome. There is none where the gas of the transaction and
    /// its receipts adds up to more than 64 bits hold: no network reports
    /// such a total.
    pub fn new(status: ExecutionStatus, gas_burnt: u64, receipts_gas_burnt: Vec<u64>) -> (r:
        Option<RawExecutionOutcome>)
        ensures
            r is Some <==> total_gas(gas_burnt, receipts_gas_burnt@) <= u64::MAX,
            r matches Some(outcome) ==> outcome.spec_status() == status
                && outcome.spec_gas_burnt() == gas_burnt
                && outcome.spec_receipts_gas_burnt() == receipts_gas_burnt@,
    {
        match checked_total_gas(gas_burnt, &receipts_gas_burnt) {
            Some(_) => Some(RawExecutionOutcome { status, gas_burnt, receipts_gas_burnt }),
            None => None,
        }
    }

    /// What a report of a node comes to.
    pub open spec fn spec_reported(
        status: FinalExecutionStatus,
        gas_burnt: u64,
        receipts_gas_burnt: Seq<u64>,
        r: Result<RawExecutionOutcome, RpcError>,
    ) -> bool {
        match status.settled() {
            None => r == Err::<RawExecutionOutcome, RpcError>(
                RpcError::Transient(TransientKind::Timeout),
            ),
            Some(settled) => if total_gas(gas_burnt, receipts_gas_burnt) <= u64::MAX {
                r matches Ok(outcome) && outcome.spec_status() == settled
                    && outcome.spec_gas_burnt() == gas_burnt && outcome.spec_receipts_gas_burnt()
                    == receipts_gas_burnt
            } else {
                r == Err::<RawExecutionOutcome, RpcError>(RpcError::Malformed)
            },
        }
    }

    /// Takes in what a node reports of a transaction it was asked to see
    /// through. An execution that is over, in success or in failure, gives
    /// the outcome. One that has not started or is still going counts as a
    /// timeout: what becomes of the transaction is not known. A report whose
    /// gas adds up to more than 64 bits hold is malformed.
    pub fn reported(status: FinalExecutionStatus, gas_burnt: u64, receipts_gas_burnt: Vec<u64>)
        -> (r: Result<RawExecutionOutcome, RpcError>)
        ensures
            RawExecutionOutcome::spec_reported(status, gas_burnt, receipts_gas_burnt@, r),
    {
        let status = match status {
            FinalExecutionStatus::NotStarted => {
                return Err(RpcError::Transient(TransientKind::Timeout));
            },
            FinalExecutionStatus::Started => {
                return Err(RpcError::Transient(TransientKind::Timeout));
            },
            FinalExecutionStatus::Failure(description) => ExecutionStatus::Failure(description),
            FinalExecutionStatus::SuccessValue(value) => ExecutionStatus::SuccessValue(value),
        };
        match RawExecutionOutcome::new(status, gas_burnt, receipts_gas_burnt) {
            Some(outcome) => Ok(outcome),
            None => Err(RpcError::Malformed),
        }
    }

    /// The final status.
    pub fn status(&self) -> (r: &ExecutionStatus)
        ensures
            *r == self.spec_status(),
    {
        &self.status
    }

    /// Gas burnt by the transaction's own outcome.
    pub fn gas_burnt(&self) -> (r: u64)
        ensures
            r == self.spec_gas_burnt(),
    {
        self.gas_burnt
    }

    /// Gas burnt by each receipt, in the order reported.
    pub fn receipts_gas_burnt(&self) -> (r: &Vec<u64>)
        ensures
            r@ == self.spec_receipts_gas_burnt(),
    {
        &self.receipts_gas_burnt
    }
}

/// The result of a call as the caller sees it: the final status and the gas
/// the whole execution burnt.
#[derive(Clone, Debug, PartialEq, Eq)]
pub struct CallExecutionResult {
    /// Execution status. Contains the result in case of successful execution.
    pub status: ExecutionStatus,
    /// Total gas burnt by the call execution.
    pub total_gas_burnt: u64,
}

impl CallExecutionResult {
    /// The result that stands for `outcome`.
    pub open spec fn normalized(outcome: RawExecutionOutcome) -> CallExecutionResult {
        CallExecutionResult {
            status: outcome.spec_status(),
            total_gas_burnt: outcome.spec_total_gas() as u64,
        }
    }

    /// Whether the execution succeeded.
    pub open spec fn spec_is_success(self) -> bool {
        !(self.status is Failure)
    }

    /// Whether the execution succeeded, with a value or with a receipt.
    pub fn is_success(&self) -> (r: bool)
        ensures
            r == self.spec_is_success(),
    {
        match &self.status {
            ExecutionStatus::Failure(_) => false,
            _ => true,
        }
    }
}

impl From<RawExecutionOutcome> for CallExecutionResult {
    /// Keeps the status and adds up the gas: the transaction's own and that of
    /// every receipt.
    fn from(transaction_result: RawExecutionOutcome) -> (r: CallExecutionResult)
        ensures
            r.status == transaction_result.spec_status(),
            r.total_gas_burnt as nat == transaction_result.spec_gas_burnt() as nat + gas_sum(
                transaction_result.spec_receipts_gas_burnt(),
            ),
    {
        proof {
            use_type_invariant(&transaction_result);
        }
        let total_gas_burnt = add_up(
            transaction_result.gas_burnt,
            &transaction_result.receipts_gas_burnt,
        );
        CallExecutionResult { status: transaction_result.status, total_gas_burnt }
    }
}

impl vstd::std_specs::convert::FromSpecImpl<RawExecutionOutcome> for CallExecutionResult {
    open spec fn obeys_from_spec() -> bool {
        true
    }

    open spec fn from_spec(transaction_result: RawExecutionOutcome) -> CallExecutionResult {
        CallExecutionResult::normalized(transaction_result)
    }
}

} // verus!
