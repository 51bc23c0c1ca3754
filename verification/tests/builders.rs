use near_fetch::error::Error;
use near_fetch::ops::{Function, FunctionCallTransaction, RetryableTransaction, Transaction};
use near_fetch::retry::{RetryPlan, RetryStep, RetryStrategy};
use std::time::Duration;

type Delays = std::vec::IntoIter<Duration>;
use near_fetch::types::{AccessKey, AccessKeyPermission, Action, TxExecutionStatus};
use near_fetch::units::{default_call_deposit, default_call_fn_gas, max_gas};

#[test]
fn gas_and_deposit_defaults() {
    assert_eq!(max_gas(), 300_000_000_000_000);
    assert_eq!(default_call_fn_gas(), 10_000_000_000_000);
    assert_eq!(default_call_deposit(), 0);
}

#[test]
fn function_defaults_and_setters() {
    let f = Function::new("set");
    assert_eq!(f.name, "set");
    assert!(matches!(&f.args, Ok(a) if a.is_empty()));
    assert_eq!(f.deposit, 0);
    assert_eq!(f.gas, 10_000_000_000_000);
    let f = f.args(vec![1, 2]).deposit(1).max_gas();
    assert!(matches!(&f.args, Ok(a) if a == &vec![1, 2]));
    assert_eq!(f.deposit, 1);
    assert_eq!(f.gas, 300_000_000_000_000);
    let f = f.gas(5);
    assert_eq!(f.gas, 5);
}

#[test]
fn serialization_error_is_kept_by_args() {
    let f = Function::new("set").args_json(Err("key must be a string".to_string()));
    let f = f.args(vec![9]);
    assert!(matches!(&f.args, Err(Error::Serialization(m)) if m == "key must be a string"));
    // a later serialization replaces it
    let f = f.args_json(Ok(b"{}".to_vec()));
    assert!(matches!(&f.args, Ok(a) if a == b"{}"));
    let f = f.args_borsh(Err("unexpected end".to_string()));
    assert!(matches!(&f.args, Err(Error::Io(m)) if m == "unexpected end"));
    assert!(matches!(f.into_action(), Err(Error::Io(_))));
}

#[test]
fn into_action_carries_the_call() {
    let a = Function::new("get").args(vec![3]).deposit(7).gas(11).into_action();
    match a {
        Ok(a) => {
            assert_eq!(a.method_name, "get");
            assert_eq!(a.args, vec![3]);
            assert_eq!(a.deposit, 7);
            assert_eq!(a.gas, 11);
        }
        Err(e) => panic!("unexpected error {:?}", e),
    }
}

#[test]
fn function_call_transaction_into_one_action() {
    let t = FunctionCallTransaction::<Delays>::new("social.near", "set")
        .args_json(Ok(b"{\"a\":1}".to_vec()))
        .deposit(1)
        .retry_exponential(10, 2)
        .wait_until(TxExecutionStatus::Final);
    assert_eq!(t.receiver_id, "social.near");
    assert_eq!(t.wait_until, TxExecutionStatus::Final);
    let r = t.into_retryable();
    assert_eq!(r.receiver_id, "social.near");
    assert!(matches!(r.strategy, Some(RetryStrategy::Exponential(b)) if b.base_millis == 10 && b.max_retries == 2));
    match &r.actions {
        Ok(v) => {
            assert_eq!(v.len(), 1);
            assert!(matches!(&v[0], Action::FunctionCall(f) if f.method_name == "set" && f.deposit == 1));
        }
        Err(e) => panic!("unexpected error {:?}", e),
    }
}

#[test]
fn function_call_transaction_default_wait() {
    let t = FunctionCallTransaction::<Delays>::new("c.near", "f");
    assert_eq!(t.wait_until, TxExecutionStatus::ExecutedOptimistic);
    assert!(t.retry_strategy.is_none());
    assert!(matches!(t.into_actions(), Ok(v) if v.len() == 1));
}

#[test]
fn batch_actions_come_in_order() {
    let t = Transaction::<Delays>::new("alice.near")
        .create_account()
        .transfer(100)
        .deploy(&[0, 97, 115, 109])
        .add_key(
            "ed25519:K".to_string(),
            AccessKey { nonce: 0, permission: AccessKeyPermission::FullAccess },
        )
        .call(Function::new("init").args(vec![1]))
        .stake(5, "ed25519:V".to_string())
        .delete_key("ed25519:Old".to_string())
        .delete_account("bob.near");
    let v = match &t.actions {
        Ok(v) => v,
        Err(e) => panic!("unexpected error {:?}", e),
    };
    assert_eq!(v.len(), 8);
    assert!(matches!(v[0], Action::CreateAccount));
    assert!(matches!(v[1], Action::Transfer { deposit: 100 }));
    assert!(matches!(&v[2], Action::DeployContract { code } if code == &vec![0, 97, 115, 109]));
    assert!(matches!(&v[3], Action::AddKey { public_key, .. } if public_key == "ed25519:K"));
    assert!(matches!(&v[4], Action::FunctionCall(f) if f.method_name == "init" && f.args == vec![1]));
    assert!(matches!(&v[5], Action::Stake { stake: 5, public_key } if public_key == "ed25519:V"));
    assert!(matches!(&v[6], Action::DeleteKey { public_key } if public_key == "ed25519:Old"));
    assert!(matches!(&v[7], Action::DeleteAccount { beneficiary_id } if beneficiary_id == "bob.near"));
}

#[test]
fn argument_error_stops_the_batch_and_comes_out_at_start() {
    let t = Transaction::<Delays>::new("alice.near")
        .transfer(1)
        .call(Function::new("f").args_json(Err("bad".to_string())))
        .transfer(2)
        .create_account();
    assert!(matches!(&t.actions, Err(Error::Serialization(m)) if m == "bad"));
    let r = t.retry(vec![Duration::from_millis(1)].into_iter()).into_retryable().start();
    assert!(matches!(r, Err(Error::Serialization(_))));
}

#[test]
fn start_hands_out_the_plan() {
    let r = RetryableTransaction::new("bob.near", vec![Action::Transfer { deposit: 3 }])
        .retry(vec![Duration::from_millis(40)].into_iter())
        .wait_until(TxExecutionStatus::Included);
    let mut plan = match r.start() {
        Ok(p) => p,
        Err(e) => panic!("unexpected error {:?}", e),
    };
    assert_eq!(plan.receiver_id, "bob.near");
    assert_eq!(plan.actions.len(), 1);
    assert_eq!(plan.wait_until, TxExecutionStatus::Included);
    assert!(matches!(plan.run.plan, Some(RetryPlan::Custom)));
    let mut strategy = plan.strategy.take().unwrap();
    assert_eq!(plan.run.after_attempt(false), RetryStep::AskStrategy);
    assert_eq!(strategy.next(), Some(Duration::from_millis(40)));
    assert_eq!(strategy.next(), None);
}

#[test]
fn retryable_exponential() {
    let r = RetryableTransaction::<Delays>::new("bob.near", vec![]).retry_exponential(3, 1);
    let mut plan = match r.start() {
        Ok(p) => p,
        Err(e) => panic!("unexpected error {:?}", e),
    };
    assert!(plan.actions.is_empty());
    assert!(plan.strategy.is_none());
    assert_eq!(plan.run.after_attempt(false), RetryStep::Retry { delay_millis: 3, jitter: true });
    assert_eq!(plan.run.after_attempt(false), RetryStep::Finish);
}
