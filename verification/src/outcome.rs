//! What the network answers about a transaction, and the decisions taken on it.

use crate::error::{ActionErrorKind, Error, InvalidTxError, RpcError, RpcTransactionError, TxExecutionError};
use crate::types::CryptoHash;
use vstd::prelude::*;

verus! {

/// The status of one execution outcome (of the transaction, or of a receipt).
#[derive(Debug)]
pub enum ExecutionStatus {
    Unknown,
    Failure(TxExecutionError),
    SuccessValue(Vec<u8>),
    SuccessReceiptId(CryptoHash),
}

/// The overall status of a transaction.
#[derive(Debug)]
pub enum FinalExecutionStatus {
    NotStarted,
    Started,
    Failure(TxExecutionError),
    SuccessValue(Vec<u8>),
}

/// The final outcome of a transaction: its overall status, the status of the
/// transaction's own outcome, and that of each receipt, in order.
#[derive(Debug)]
pub struct FinalExecutionOutcome {
    pub status: FinalExecutionStatus,
    pub transaction_status: ExecutionStatus,
    pub receipt_statuses: Vec<ExecutionStatus>,
}

pub open spec fn final_status_failures(s: FinalExecutionStatus) -> Seq<TxExecutionError> {
    match s {
        FinalExecutionStatus::Failure(e) => seq![e],
        _ => Seq::empty(),
    }
}

pub open spec fn status_failures(s: ExecutionStatus) -> Seq<TxExecutionError> {
    match s {
        ExecutionStatus::Failure(e) => seq![e],
        _ => Seq::empty(),
    }
}

pub open spec fn receipt_failures(rs: Seq<ExecutionStatus>) -> Seq<TxExecutionError>
    decreases rs.len(),
{
    if rs.len() == 0 {
        Seq::empty()
    } else {
        receipt_failures(rs.drop_last()) + status_failures(rs.last())
    }
}

/// Every failure that an outcome reports: that of its overall status, that of
/// the transaction's outcome, then those of the receipts, in this order.
pub open spec fn tx_failures(o: FinalExecutionOutcome) -> Seq<TxExecutionError> {
    final_status_failures(o.status) + status_failures(o.transaction_status) + receipt_failures(
        o.receipt_statuses@,
    )
}

/// Collects every failure that an outcome reports, in the order of `tx_failures`.
pub fn fetch_tx_errs(outcome: &FinalExecutionOutcome) -> (r: Vec<&TxExecutionError>)
    ensures
        r@.len() == tx_failures(*outcome).len(),
        forall|i: int| 0 <= i < r@.len() ==> *r@[i] == tx_failures(*outcome)[i],
{
    let mut failures: Vec<&TxExecutionError> = Vec::new();
    if let FinalExecutionStatus::Failure(e) = &outcome.status {
        failures.push(e);
    }
    if let ExecutionStatus::Failure(e) = &outcome.transaction_status {
        failures.push(e);
    }
    let ghost head = final_status_failures(outcome.status) + status_failures(
        outcome.transaction_status,
    );
    let n = outcome.receipt_statuses.len();
    let mut i: usize = 0;
    while i < n
        invariant
            n == outcome.receipt_statuses@.len(),
            0 <= i <= n,
            head == final_status_failures(outcome.status) + status_failures(
                outcome.transaction_status,
            ),
            failures@.len() == head.len() + receipt_failures(
                outcome.receipt_statuses@.take(i as int),
            ).len(),
            forall|j: int|
                0 <= j < failures@.len() ==> *failures@[j] == (head + receipt_failures(
                    outcome.receipt_statuses@.take(i as int),
                ))[j],
        decreases n - i,
    {
        proof {
            assert(outcome.receipt_statuses@.take(i + 1).drop_last()
                =~= outcome.receipt_statuses@.take(i as int));
        }
        if let ExecutionStatus::Failure(e) = &outcome.receipt_statuses[i] {
            failures.push(e);
        }
        i = i + 1;
    }
    proof {
        assert(outcome.receipt_statuses@.take(n as int) =~= outcome.receipt_statuses@);
    }
    failures
}

/// Whether a failure says that a nonce was too low.
pub open spec fn is_nonce_failure(e: TxExecutionError) -> bool {
    match e {
        TxExecutionError::ActionError {
            kind: ActionErrorKind::DelegateActionInvalidNonce { .. },
            ..
        } => true,
        TxExecutionError::InvalidTxError(InvalidTxError::InvalidNonce { .. }) => true,
        _ => false,
    }
}

fn nonce_failure(e: &TxExecutionError) -> (r: bool)
    ensures
        r == is_nonce_failure(*e),
{
    match e {
        TxExecutionError::ActionError { kind, .. } => match kind {
            ActionErrorKind::DelegateActionInvalidNonce { .. } => true,
            _ => false,
        },
        TxExecutionError::InvalidTxError(inner) => match inner {
            InvalidTxError::InvalidNonce { .. } => true,
            _ => false,
        },
    }
}

/// Whether the answer to a committed transaction shows that the cached nonce of
/// its access key went stale: the RPC refused it for an invalid nonce, or its
/// outcome reports a nonce failure anywhere.
pub open spec fn commit_shows_stale_nonce(
    result: Result<FinalExecutionOutcome, RpcError<RpcTransactionError>>,
) -> bool {
    match result {
        Err(RpcError::Handler(RpcTransactionError::InvalidTransaction(InvalidTxError::InvalidNonce { .. }))) => true,
        Err(_) => false,
        Ok(o) => exists|i: int| 0 <= i < tx_failures(o).len() && is_nonce_failure(#[trigger] tx_failures(o)[i]),
    }
}

/// Every receipt's failure shows up among the receipt failures.
proof fn lemma_receipt_failure_listed(rs: Seq<ExecutionStatus>, j: int, e: TxExecutionError)
    requires
        0 <= j < rs.len(),
        rs[j] == ExecutionStatus::Failure(e),
    ensures
        exists|p: int| 0 <= p < receipt_failures(rs).len() && receipt_failures(rs)[p] == e,
    decreases rs.len(),
{
    let front = rs.drop_last();
    let tail = status_failures(rs.last());
    assert(receipt_failures(rs) == receipt_failures(front) + tail);
    if j == rs.len() - 1 {
        assert(tail == seq![e]);
        let p = receipt_failures(front).len() as int;
        assert(receipt_failures(rs)[p] == e);
    } else {
        assert(front[j] == rs[j]);
        lemma_receipt_failure_listed(front, j, e);
        let p = choose|p: int| 0 <= p < receipt_failures(front).len() && receipt_failures(front)[p] == e;
        assert(receipt_failures(rs)[p] == e);
    }
}

/// Every receipt failure is the failure of some receipt.
proof fn lemma_receipt_failure_source(rs: Seq<ExecutionStatus>, p: int)
    requires
        0 <= p < receipt_failures(rs).len(),
    ensures
        exists|j: int| 0 <= j < rs.len() && rs[j] == ExecutionStatus::Failure(receipt_failures(rs)[p]),
    decreases rs.len(),
{
    let front = rs.drop_last();
    let tail = status_failures(rs.last());
    assert(receipt_failures(rs) == receipt_failures(front) + tail);
    if p < receipt_failures(front).len() {
        lemma_receipt_failure_source(front, p);
        let j = choose|j: int| 0 <= j < front.len() && front[j] == ExecutionStatus::Failure(receipt_failures(front)[p]);
        assert(rs[j] == front[j]);
    } else {
        let j = rs.len() - 1;
        assert(rs[j] == ExecutionStatus::Failure(receipt_failures(rs)[p]));
    }
}

/// A nonce failure anywhere in an outcome (its overall status, the
/// transaction's outcome, or any receipt), whether the transaction's own
/// invalid nonce or a delegate action's, shows that the nonce went stale; so
/// does the RPC refusing the transaction for an invalid nonce.
pub proof fn law_nonce_failure_anywhere_is_stale(o: FinalExecutionOutcome, e: TxExecutionError, j: int)
    requires
        e matches TxExecutionError::InvalidTxError(InvalidTxError::InvalidNonce { .. })
            || e matches TxExecutionError::ActionError {
            kind: ActionErrorKind::DelegateActionInvalidNonce { .. },
            ..
        },
        o.status == FinalExecutionStatus::Failure(e) || o.transaction_status == ExecutionStatus::Failure(e)
            || (0 <= j < o.receipt_statuses@.len() && o.receipt_statuses@[j] == ExecutionStatus::Failure(e)),
    ensures
        commit_shows_stale_nonce(Ok(o)),
{
    let head = final_status_failures(o.status) + status_failures(o.transaction_status);
    assert(tx_failures(o) == head + receipt_failures(o.receipt_statuses@));
    if o.status == FinalExecutionStatus::Failure(e) {
        assert(tx_failures(o)[0] == e);
        assert(is_nonce_failure(tx_failures(o)[0]));
    } else if o.transaction_status == ExecutionStatus::Failure(e) {
        let p = final_status_failures(o.status).len() as int;
        assert(tx_failures(o)[p] == e);
        assert(is_nonce_failure(tx_failures(o)[p]));
    } else {
        lemma_receipt_failure_listed(o.receipt_statuses@, j, e);
        let p = choose|p: int|
            0 <= p < receipt_failures(o.receipt_statuses@).len() && receipt_failures(o.receipt_statuses@)[p] == e;
        assert(tx_failures(o)[head.len() + p] == e);
        assert(is_nonce_failure(tx_failures(o)[head.len() + p]));
    }
}

/// An outcome none of whose statuses is a nonce failure keeps the cached
/// nonce, and of the RPC's refusals only an invalid nonce drops it.
pub proof fn law_other_answers_keep_nonce(
    o: FinalExecutionOutcome,
    err: RpcError<RpcTransactionError>,
)
    requires
        !(o.status matches FinalExecutionStatus::Failure(e) && (e matches TxExecutionError::InvalidTxError(
            InvalidTxError::InvalidNonce { .. },
        ) || e matches TxExecutionError::ActionError {
            kind: ActionErrorKind::DelegateActionInvalidNonce { .. },
            ..
        })),
        !(o.transaction_status matches ExecutionStatus::Failure(e) && (e matches TxExecutionError::InvalidTxError(
            InvalidTxError::InvalidNonce { .. },
        ) || e matches TxExecutionError::ActionError {
            kind: ActionErrorKind::DelegateActionInvalidNonce { .. },
            ..
        })),
        forall|j: int|
            0 <= j < o.receipt_statuses@.len() ==> !(#[trigger] o.receipt_statuses@[j] matches ExecutionStatus::Failure(e)
                && (e matches TxExecutionError::InvalidTxError(InvalidTxError::InvalidNonce { .. })
                || e matches TxExecutionError::ActionError {
                kind: ActionErrorKind::DelegateActionInvalidNonce { .. },
                ..
            })),
    ensures
        !commit_shows_stale_nonce(Ok(o)),
        commit_shows_stale_nonce(Err(err)) <==> err matches RpcError::Handler(
            RpcTransactionError::InvalidTransaction(InvalidTxError::InvalidNonce { .. }),
        ),
{
    let head = final_status_failures(o.status) + status_failures(o.transaction_status);
    let rf = receipt_failures(o.receipt_statuses@);
    assert(tx_failures(o) == head + rf);
    assert forall|i: int| 0 <= i < tx_failures(o).len() implies !is_nonce_failure(#[trigger] tx_failures(o)[i]) by {
        if i < head.len() {
            if final_status_failures(o.status).len() > 0 && i == 0 {
            } else {
            }
        } else {
            let p = i - head.len();
            assert(tx_failures(o)[i] == rf[p]);
            lemma_receipt_failure_source(o.receipt_statuses@, p);
            let j = choose|j: int| 0 <= j < o.receipt_statuses@.len()
                && o.receipt_statuses@[j] == ExecutionStatus::Failure(rf[p]);
            assert(o.receipt_statuses@[j] matches ExecutionStatus::Failure(_));
        }
    }
}

/// Decides `commit_shows_stale_nonce`.
pub fn stale_nonce_after_commit(
    result: &Result<FinalExecutionOutcome, RpcError<RpcTransactionError>>,
) -> (r: bool)
    ensures
        r == commit_shows_stale_nonce(*result),
{
    match result {
        Err(RpcError::Handler(RpcTransactionError::InvalidTransaction(InvalidTxError::InvalidNonce { .. }))) => true,
        Err(_) => false,
        Ok(outcome) => {
            let failures = fetch_tx_errs(outcome);
            let n = failures.len();
            let mut i: usize = 0;
            while i < n
                invariant
                    result matches Ok(o) && o == *outcome,
                    n == failures@.len(),
                    failures@.len() == tx_failures(*outcome).len(),
                    forall|j: int| 0 <= j < failures@.len() ==> *failures@[j] == tx_failures(*outcome)[j],
                    0 <= i <= n,
                    forall|j: int| 0 <= j < i ==> !is_nonce_failure(#[trigger] tx_failures(*outcome)[j]),
                decreases n - i,
            {
                if nonce_failure(failures[i]) {
                    assert(is_nonce_failure(tx_failures(*outcome)[i as int]));
                    return true;
                }
                i = i + 1;
            }
            false
        },
    }
}

/// Whether the answer to a transaction sent without waiting calls for dropping
/// the cached nonce: any error that the RPC's handler reported.
pub open spec fn async_send_shows_stale_nonce(result: Result<CryptoHash, RpcError<String>>) -> bool {
    result matches Err(RpcError::Handler(_))
}

/// Decides `async_send_shows_stale_nonce`.
pub fn stale_nonce_after_async_send(result: &Result<CryptoHash, RpcError<String>>) -> (r: bool)
    ensures
        r == async_send_shows_stale_nonce(*result),
{
    match result {
        Err(RpcError::Handler(_)) => true,
        _ => false,
    }
}

} // verus!
