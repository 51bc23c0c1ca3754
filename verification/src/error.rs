//! The errors of the library. Each payload holds, as plain values, what the
//! library's decisions read of the error that the network or a codec reported.

use vstd::prelude::*;

verus! {

/// The failure of one JSON-RPC call: the method's own error, reported by the
/// server's handler, or anything else (transport, request validation, internal).
#[derive(Debug)]
pub enum RpcError<E> {
    Handler(E),
    Other(String),
}

/// Why a transaction was refused before execution.
#[derive(Debug)]
pub enum InvalidTxError {
    /// The transaction's nonce is not above the access key's nonce.
    InvalidNonce { tx_nonce: u64, ak_nonce: u64 },
    Other(String),
}

/// The kind of a failed action.
#[derive(Debug)]
pub enum ActionErrorKind {
    /// A delegate action carried a nonce that is not above its access key's nonce.
    DelegateActionInvalidNonce { delegate_nonce: u64, ak_nonce: u64 },
    Other(String),
}

/// Why a transaction, or one of its receipts, failed.
#[derive(Debug)]
pub enum TxExecutionError {
    ActionError { index: Option<u64>, kind: ActionErrorKind },
    InvalidTxError(InvalidTxError),
}

/// The handler errors of the transaction methods of the RPC.
#[derive(Debug)]
pub enum RpcTransactionError {
    InvalidTransaction(InvalidTxError),
    DoesNotTrackShard,
    RequestRouted,
    UnknownTransaction,
    InternalError(String),
    TimeoutError,
}

/// The library's error.
#[derive(Debug)]
pub enum Error {
    RpcBlockError(RpcError<String>),
    RpcQueryError(RpcError<String>),
    RpcChunkError(RpcError<String>),
    RpcTransactionError(RpcError<RpcTransactionError>),
    RpcTransactionAsyncError(RpcError<String>),
    /// The transaction has not completed yet.
    RpcTransactionPending,
    /// The RPC answered with data of another kind than was asked for.
    RpcReturnedInvalidData(&'static str),
    /// Any other RPC failure.
    Rpc(String),
    TxExecution(TxExecutionError),
    TxStatus(&'static str),
    /// The arguments of a call could not be serialized, or a result deserialized.
    Serialization(String),
    Base64(String),
    Io(String),
    /// Invalid arguments were passed.
    InvalidArgs(&'static str),
}

} // verus!
