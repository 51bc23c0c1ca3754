use near_fetch::error::{ActionErrorKind, InvalidTxError, RpcError, RpcTransactionError, TxExecutionError};
use near_fetch::nonce::{CacheKey, NonceCache};
use near_fetch::outcome::{ExecutionStatus, FinalExecutionOutcome, FinalExecutionStatus};
use near_fetch::types::CryptoHash;

fn key(account: &str, pk: &str) -> CacheKey {
    (account.to_string(), pk.to_string())
}

fn success_outcome() -> FinalExecutionOutcome {
    FinalExecutionOutcome {
        status: FinalExecutionStatus::SuccessValue(vec![]),
        transaction_status: ExecutionStatus::SuccessReceiptId(CryptoHash([0; 32])),
        receipt_statuses: vec![ExecutionStatus::SuccessValue(vec![1])],
    }
}

#[test]
fn empty_cache_hands_out_nothing() {
    let mut cache = NonceCache::new();
    assert_eq!(cache.len(), 0);
    assert_eq!(cache.next_cached(&key("alice.near", "ed25519:A")), None);
    assert_eq!(cache.get(&key("alice.near", "ed25519:A")), None);
}

#[test]
fn record_then_cached_nonces_follow_one_another() {
    let mut cache = NonceCache::new();
    let k = key("alice.near", "ed25519:A");
    assert_eq!(cache.record_access_key(k.clone(), 41), 42);
    assert_eq!(cache.get(&k), Some(42));
    assert_eq!(cache.next_cached(&k), Some(43));
    assert_eq!(cache.next_cached(&k), Some(44));
    assert_eq!(cache.get(&k), Some(44));
    assert_eq!(cache.len(), 1);
}

#[test]
fn record_never_lowers_the_cached_nonce() {
    let mut cache = NonceCache::new();
    let k = key("alice.near", "ed25519:A");
    cache.record_access_key(k.clone(), 10);
    cache.next_cached(&k);
    cache.next_cached(&k);
    // cached nonce is 13; the network lags behind with 5
    assert_eq!(cache.record_access_key(k.clone(), 5), 13);
    // the network is ahead with 20
    assert_eq!(cache.record_access_key(k.clone(), 20), 21);
    assert_eq!(cache.get(&k), Some(21));
}

#[test]
fn invalidate_forgets_only_that_key() {
    let mut cache = NonceCache::new();
    let a = key("alice.near", "ed25519:A");
    let b = key("alice.near", "ed25519:B");
    let c = key("bob.near", "ed25519:A");
    cache.record_access_key(a.clone(), 1);
    cache.record_access_key(b.clone(), 100);
    cache.record_access_key(c.clone(), 1000);
    assert_eq!(cache.len(), 3);
    cache.invalidate(&b);
    assert_eq!(cache.len(), 2);
    assert_eq!(cache.get(&b), None);
    assert_eq!(cache.next_cached(&b), None);
    assert_eq!(cache.get(&a), Some(2));
    assert_eq!(cache.get(&c), Some(1001));
    // starting over from the network's nonce
    assert_eq!(cache.record_access_key(b.clone(), 7), 8);
    // invalidating a key that is not cached changes nothing
    cache.invalidate(&key("carol.near", "ed25519:C"));
    assert_eq!(cache.len(), 3);
}

#[test]
fn invalid_nonce_refusal_invalidates() {
    let mut cache = NonceCache::new();
    let k = key("alice.near", "ed25519:A");
    cache.record_access_key(k.clone(), 1);
    let refused = Err(RpcError::Handler(RpcTransactionError::InvalidTransaction(
        InvalidTxError::InvalidNonce { tx_nonce: 2, ak_nonce: 5 },
    )));
    cache.check_and_invalidate_cache(&k, &refused);
    assert_eq!(cache.get(&k), None);
}

#[test]
fn other_refusals_keep_the_nonce() {
    let mut cache = NonceCache::new();
    let k = key("alice.near", "ed25519:A");
    cache.record_access_key(k.clone(), 1);
    let refused: Result<FinalExecutionOutcome, _> = Err(RpcError::Handler(
        RpcTransactionError::InvalidTransaction(InvalidTxError::Other("expired".to_string())),
    ));
    cache.check_and_invalidate_cache(&k, &refused);
    let transport: Result<FinalExecutionOutcome, _> = Err(RpcError::Other("timeout".to_string()));
    cache.check_and_invalidate_cache(&k, &transport);
    cache.check_and_invalidate_cache(&k, &Ok(success_outcome()));
    assert_eq!(cache.get(&k), Some(2));
}

#[test]
fn nonce_failure_in_a_receipt_invalidates() {
    let mut cache = NonceCache::new();
    let k = key("alice.near", "ed25519:A");
    cache.record_access_key(k.clone(), 1);
    let mut outcome = success_outcome();
    outcome.receipt_statuses.push(ExecutionStatus::Failure(TxExecutionError::ActionError {
        index: Some(0),
        kind: ActionErrorKind::DelegateActionInvalidNonce { delegate_nonce: 1, ak_nonce: 3 },
    }));
    cache.check_and_invalidate_cache(&k, &Ok(outcome));
    assert_eq!(cache.get(&k), None);
}

#[test]
fn other_failure_in_outcome_keeps_the_nonce() {
    let mut cache = NonceCache::new();
    let k = key("alice.near", "ed25519:A");
    cache.record_access_key(k.clone(), 1);
    let mut outcome = success_outcome();
    outcome.status = FinalExecutionStatus::Failure(TxExecutionError::ActionError {
        index: Some(0),
        kind: ActionErrorKind::Other("account does not exist".to_string()),
    });
    cache.check_and_invalidate_cache(&k, &Ok(outcome));
    assert_eq!(cache.get(&k), Some(2));
}

#[test]
fn async_handler_error_invalidates() {
    let mut cache = NonceCache::new();
    let k = key("alice.near", "ed25519:A");
    cache.record_access_key(k.clone(), 1);
    cache.check_async_and_invalidate_cache(&k, &Ok(CryptoHash([7; 32])));
    assert_eq!(cache.get(&k), Some(2));
    cache.check_async_and_invalidate_cache(&k, &Err(RpcError::Other("connection reset".to_string())));
    assert_eq!(cache.get(&k), Some(2));
    cache.check_async_and_invalidate_cache(&k, &Err(RpcError::Handler("invalid tx".to_string())));
    assert_eq!(cache.get(&k), None);
}

#[test]
fn fetched_key_stays_cached_until_dropped() {
    let mut cache = NonceCache::new();
    let a = key("alice.near", "ed25519:A");
    let b = key("bob.near", "ed25519:B");
    cache.record_access_key(a.clone(), 10);
    // operations that do not drop `a`
    cache.record_access_key(b.clone(), 3);
    cache.next_cached(&b);
    cache.invalidate(&b);
    cache.check_and_invalidate_cache(&a, &Ok(success_outcome()));
    cache.check_async_and_invalidate_cache(&a, &Err(RpcError::Other("reset".to_string())));
    assert_eq!(cache.next_cached(&a), Some(12));
}
