//! Following a transaction that was sent without waiting for its execution.

use crate::error::{Error, RpcError, RpcTransactionError};
use crate::types::CryptoHash;
use vstd::prelude::*;

verus! {

/// Whether a transaction has completed.
#[derive(Debug)]
pub enum TxPoll<T> {
    Ready(T),
    Pending,
}

/// Whether an error, met while asking for a transaction's status, only means
/// that the transaction has not completed yet: the network does not know the
/// transaction yet, or timed out, or the status is still pending.
pub open spec fn means_pending(e: Error) -> bool {
    match e {
        Error::RpcTransactionError(RpcError::Handler(RpcTransactionError::UnknownTransaction)) => true,
        Error::RpcTransactionError(RpcError::Handler(RpcTransactionError::TimeoutError)) => true,
        Error::RpcTransactionPending => true,
        _ => false,
    }
}

/// A status error counts as "not yet" exactly when the handler does not know the
/// transaction yet or timed out, or the status is still pending. Every other
/// error, a transaction the network rejected among them, is an error.
pub proof fn law_only_not_yet_is_pending(e: Error)
    ensures
        means_pending(e) <==> (e matches Error::RpcTransactionError(
            RpcError::Handler(RpcTransactionError::UnknownTransaction),
        ) || e matches Error::RpcTransactionError(RpcError::Handler(RpcTransactionError::TimeoutError))
            || e matches Error::RpcTransactionPending),
        e matches Error::RpcTransactionError(RpcError::Handler(RpcTransactionError::InvalidTransaction(_)))
            ==> !means_pending(e),
        e matches Error::RpcTransactionError(RpcError::Other(_)) ==> !means_pending(e),
{
}

/// Reads the answer to a status query: a result is ready, an error that only
/// means "not yet" is pending, and any other error is handed back.
pub fn classify_status<T>(result: Result<T, Error>) -> (r: Result<TxPoll<T>, Error>)
    ensures
        result matches Ok(v) ==> r == Ok::<TxPoll<T>, Error>(TxPoll::Ready(v)),
        result matches Err(e) ==> (if means_pending(e) {
            r == Ok::<TxPoll<T>, Error>(TxPoll::Pending)
        } else {
            r == Err::<TxPoll<T>, Error>(e)
        }),
{
    match result {
        Ok(v) => Ok(TxPoll::Ready(v)),
        Err(e) => match e {
            Error::RpcTransactionError(RpcError::Handler(RpcTransactionError::UnknownTransaction)) => Ok(
                TxPoll::Pending,
            ),
            Error::RpcTransactionError(RpcError::Handler(RpcTransactionError::TimeoutError)) => Ok(
                TxPoll::Pending,
            ),
            Error::RpcTransactionPending => Ok(TxPoll::Pending),
            other => Err(other),
        },
    }
}

/// Reads an answer that may hold no final outcome yet: the outcome when there
/// is one, otherwise the error that the transaction has not completed yet.
pub fn outcome_or_pending<T>(outcome: Option<T>) -> (r: Result<T, Error>)
    ensures
        outcome matches Some(v) ==> r == Ok::<T, Error>(v),
        outcome is None ==> r == Err::<T, Error>(Error::RpcTransactionPending),
{
    match outcome {
        Some(v) => Ok(v),
        None => Err(Error::RpcTransactionPending),
    }
}

/// Whether the result of sending a transaction counts as sent, so that no retry
/// follows: an outcome, or the network's word that it accepted the transaction
/// and has not completed it yet (sending it again would send it twice).
pub fn counts_as_sent<T>(result: &Result<T, Error>) -> (r: bool)
    ensures
        r == (result is Ok || result matches Err(Error::RpcTransactionPending)),
{
    match result {
        Ok(_) => true,
        Err(Error::RpcTransactionPending) => true,
        Err(_) => false,
    }
}

/// What follows one poll while waiting for a transaction to complete.
#[derive(Debug)]
pub enum WaitStep<T> {
    /// Stop waiting, with this result.
    Done(Result<T, Error>),
    /// Sleep the polling interval, then poll again.
    Sleep,
}

/// Decides what follows a poll: a ready result or an error ends the wait, a
/// pending transaction is polled again after the interval.
pub fn wait_step<T>(status: Result<TxPoll<T>, Error>) -> (r: WaitStep<T>)
    ensures
        status matches Ok(TxPoll::Ready(v)) ==> r == WaitStep::Done(Ok::<T, Error>(v)),
        status matches Ok(TxPoll::Pending) ==> r == WaitStep::<T>::Sleep,
        status matches Err(e) ==> r == WaitStep::Done(Err::<T, Error>(e)),
{
    match status {
        Ok(TxPoll::Ready(v)) => WaitStep::Done(Ok(v)),
        Ok(TxPoll::Pending) => WaitStep::Sleep,
        Err(e) => WaitStep::Done(Err(e)),
    }
}

/// A transaction sent without waiting: its signer's account and its hash.
#[derive(Debug)]
pub struct AsyncTransactionStatus {
    sender_id: String,
    hash: CryptoHash,
}

impl AsyncTransactionStatus {
    pub fn new(sender_id: String, hash: CryptoHash) -> (r: AsyncTransactionStatus)
        ensures
            r.sender() == sender_id,
            r.tx_hash() == hash,
    {
        AsyncTransactionStatus { sender_id, hash }
    }

    pub closed spec fn sender(&self) -> String {
        self.sender_id
    }

    pub closed spec fn tx_hash(&self) -> CryptoHash {
        self.hash
    }

    /// The account that signed the transaction.
    pub fn sender_id(&self) -> (r: &String)
        ensures
            *r == self.sender(),
    {
        &self.sender_id
    }

    /// The hash of the transaction.
    pub fn hash(&self) -> (r: &CryptoHash)
        ensures
            *r == self.tx_hash(),
    {
        &self.hash
    }

    /// The interval between two polls when waiting without a given one: 300 ms.
    pub fn default_wait_interval_millis() -> (r: u64)
        ensures
            r == 300,
    {
        300
    }
}

} // verus!
