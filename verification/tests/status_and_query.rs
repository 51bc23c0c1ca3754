use near_fetch::error::{Error, RpcError, RpcTransactionError};
use near_fetch::query::{access_key_from_response, call_result_from_response, QueryResponse, QueryResponseKind};
use near_fetch::status::{classify_status, counts_as_sent, outcome_or_pending, wait_step, AsyncTransactionStatus, TxPoll, WaitStep};
use near_fetch::types::{AccessKey, AccessKeyPermission, CryptoHash};

fn handler(e: RpcTransactionError) -> Error {
    Error::RpcTransactionError(RpcError::Handler(e))
}

#[test]
fn ready_status() {
    assert!(matches!(classify_status::<u8>(Ok(5)), Ok(TxPoll::Ready(5))));
}

#[test]
fn not_yet_known_or_timed_out_is_pending() {
    assert!(matches!(classify_status::<u8>(Err(handler(RpcTransactionError::UnknownTransaction))), Ok(TxPoll::Pending)));
    assert!(matches!(classify_status::<u8>(Err(handler(RpcTransactionError::TimeoutError))), Ok(TxPoll::Pending)));
    assert!(matches!(classify_status::<u8>(Err(Error::RpcTransactionPending)), Ok(TxPoll::Pending)));
}

#[test]
fn other_errors_are_handed_back() {
    assert!(matches!(
        classify_status::<u8>(Err(handler(RpcTransactionError::DoesNotTrackShard))),
        Err(Error::RpcTransactionError(RpcError::Handler(RpcTransactionError::DoesNotTrackShard)))
    ));
    assert!(matches!(
        classify_status::<u8>(Err(Error::RpcTransactionError(RpcError::Other("down".to_string())))),
        Err(Error::RpcTransactionError(RpcError::Other(_)))
    ));
    assert!(matches!(classify_status::<u8>(Err(Error::TxStatus("FAILED"))), Err(Error::TxStatus("FAILED"))));
}

#[test]
fn waiting_steps() {
    assert!(matches!(wait_step::<u8>(Ok(TxPoll::Ready(1))), WaitStep::Done(Ok(1))));
    assert!(matches!(wait_step::<u8>(Ok(TxPoll::Pending)), WaitStep::Sleep));
    assert!(matches!(wait_step::<u8>(Err(Error::Rpc("x".to_string()))), WaitStep::Done(Err(Error::Rpc(_)))));
}

#[test]
fn async_status_getters() {
    let s = AsyncTransactionStatus::new("alice.near".to_string(), CryptoHash([3; 32]));
    assert_eq!(s.sender_id(), "alice.near");
    assert_eq!(*s.hash(), CryptoHash([3; 32]));
    assert_eq!(AsyncTransactionStatus::default_wait_interval_millis(), 300);
}

#[test]
fn access_key_answer() {
    let resp = QueryResponse {
        kind: QueryResponseKind::AccessKey(AccessKey { nonce: 12, permission: AccessKeyPermission::FullAccess }),
        block_hash: CryptoHash([4; 32]),
        block_height: 99,
    };
    match access_key_from_response(resp) {
        Ok((ak, hash, height)) => {
            assert_eq!(ak.nonce, 12);
            assert_eq!(hash, CryptoHash([4; 32]));
            assert_eq!(height, 99);
        }
        Err(e) => panic!("unexpected error {:?}", e),
    }
}

#[test]
fn access_key_query_with_other_answer_is_invalid_data() {
    let resp = QueryResponse { kind: QueryResponseKind::Other, block_hash: CryptoHash([0; 32]), block_height: 1 };
    assert!(matches!(
        access_key_from_response(resp),
        Err(Error::RpcReturnedInvalidData("while querying access key"))
    ));
}

#[test]
fn view_answer() {
    let resp = QueryResponse {
        kind: QueryResponseKind::CallResult { result: b"\"hi\"".to_vec(), logs: vec![] },
        block_hash: CryptoHash([0; 32]),
        block_height: 1,
    };
    assert!(matches!(call_result_from_response(resp), Ok(v) if v == b"\"hi\""));
    let resp = QueryResponse {
        kind: QueryResponseKind::AccessKey(AccessKey { nonce: 1, permission: AccessKeyPermission::FullAccess }),
        block_hash: CryptoHash([0; 32]),
        block_height: 1,
    };
    assert!(matches!(call_result_from_response(resp), Err(Error::RpcReturnedInvalidData("while querying view"))));
}

#[test]
fn missing_outcome_is_pending() {
    assert!(matches!(outcome_or_pending(Some(4u8)), Ok(4)));
    assert!(matches!(outcome_or_pending::<u8>(None), Err(Error::RpcTransactionPending)));
}

#[test]
fn accepted_but_pending_counts_as_sent() {
    assert!(counts_as_sent::<u8>(&Ok(1)));
    assert!(counts_as_sent::<u8>(&Err(Error::RpcTransactionPending)));
    assert!(!counts_as_sent::<u8>(&Err(handler(RpcTransactionError::TimeoutError))));
    assert!(!counts_as_sent::<u8>(&Err(Error::Rpc("down".to_string()))));
}

#[test]
fn gas_key_answer_keeps_its_permission() {
    let resp = QueryResponse {
        kind: QueryResponseKind::AccessKey(AccessKey {
            nonce: 3,
            permission: AccessKeyPermission::GasKeyFunctionCall {
                balance: 10,
                num_nonces: 4,
                allowance: None,
                receiver_id: "c.near".to_string(),
                method_names: vec!["f".to_string()],
            },
        }),
        block_hash: CryptoHash([0; 32]),
        block_height: 1,
    };
    match access_key_from_response(resp) {
        Ok((ak, _, _)) => assert!(matches!(
            ak.permission,
            AccessKeyPermission::GasKeyFunctionCall { balance: 10, num_nonces: 4, .. }
        )),
        Err(e) => panic!("unexpected error {:?}", e),
    }
}
