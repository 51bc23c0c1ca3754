//! Reading the answers to queries of the RPC.

use crate::error::Error;
use crate::types::{AccessKey, CryptoHash};
use vstd::prelude::*;

verus! {

/// What a query answered.
#[derive(Debug)]
pub enum QueryResponseKind {
    /// An access key.
    AccessKey(AccessKey),
    /// The result of calling a view function, and the logs it wrote.
    CallResult { result: Vec<u8>, logs: Vec<String> },
    /// Any other kind of answer.
    Other,
}

/// The answer to a query, with the block it was answered at.
#[derive(Debug)]
pub struct QueryResponse {
    pub kind: QueryResponseKind,
    pub block_hash: CryptoHash,
    pub block_height: u64,
}

/// The access key of an answer to an access-key query, with the hash and the
/// height of the block it was read at; an answer of another kind is invalid data.
pub fn access_key_from_response(resp: QueryResponse) -> (r: Result<(AccessKey, CryptoHash, u64), Error>)
    ensures
        resp.kind matches QueryResponseKind::AccessKey(ak) ==> r == Ok::<(AccessKey, CryptoHash, u64), Error>(
            (ak, resp.block_hash, resp.block_height),
        ),
        !(resp.kind is AccessKey) ==> (r matches Err(Error::RpcReturnedInvalidData(m)) && m@
            == "while querying access key"@),
{
    match resp.kind {
        QueryResponseKind::AccessKey(ak) => Ok((ak, resp.block_hash, resp.block_height)),
        _ => Err(Error::RpcReturnedInvalidData("while querying access key")),
    }
}

/// The bytes that a view function returned, from the answer to a call query;
/// an answer of another kind is invalid data.
pub fn call_result_from_response(resp: QueryResponse) -> (r: Result<Vec<u8>, Error>)
    ensures
        resp.kind matches QueryResponseKind::CallResult { result, .. } ==> r == Ok::<Vec<u8>, Error>(result),
        !(resp.kind is CallResult) ==> (r matches Err(Error::RpcReturnedInvalidData(m)) && m@
            == "while querying view"@),
{
    match resp.kind {
        QueryResponseKind::CallResult { result, .. } => Ok(result),
        _ => Err(Error::RpcReturnedInvalidData("while querying view")),
    }
}

} // verus!
