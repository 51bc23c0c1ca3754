//! The builders of transactions: a function call, a batch of actions, and a
//! transaction to be sent with retries.

use crate::error::Error;
use crate::retry::{Backoff, RetryPlan, RetryRun, RetryStrategy};
use crate::types::{AccessKey, Action, FunctionCallAction, TxExecutionStatus, default_wait_until};
use crate::units::{default_call_deposit, default_call_fn_gas, max_gas, tera_gas};
use vstd::prelude::*;

verus! {

/// The retry strategy of `retry_exponential(base_millis, max_retries)`.
pub open spec fn exponential_strategy<I>(base_millis: u64, max_retries: usize) -> RetryStrategy<I> {
    RetryStrategy::Exponential(Backoff { base_millis, max_retries, taken: 0 })
}

/// `after` is `before` with `a` appended, when `before` holds actions; an error
/// stays as it is.
pub open spec fn appended(
    before: Result<Vec<Action>, Error>,
    after: Result<Vec<Action>, Error>,
    a: Action,
) -> bool {
    match before {
        Ok(v) => after matches Ok(w) && w@ == v@.push(a),
        Err(_) => after == before,
    }
}

/// A function to call on a contract: its name, its serialized arguments (or the
/// error met while serializing them), the deposit in yoctoNEAR and the gas.
#[derive(Debug)]
pub struct Function {
    pub name: String,
    pub args: Result<Vec<u8>, Error>,
    pub deposit: u128,
    pub gas: u64,
}

impl Function {
    /// A call of `name` without arguments, with the default deposit and gas.
    pub fn new(name: &str) -> (r: Function)
        ensures
            r.name@ == name@,
            r.args matches Ok(a) && a@ == Seq::<u8>::empty(),
            r.deposit == 0,
            r.gas == 10 * tera_gas(),
    {
        Function {
            name: name.to_owned(),
            args: Ok(Vec::new()),
            deposit: default_call_deposit(),
            gas: default_call_fn_gas(),
        }
    }

    /// Sets the serialized arguments, unless an earlier serialization failed.
    pub fn args(self, args: Vec<u8>) -> (r: Function)
        ensures
            self.args is Err ==> r == self,
            self.args is Ok ==> r == (Function { args: Ok(args), ..self }),
    {
        if self.args.is_err() {
            return self;
        }
        Function { args: Ok(args), ..self }
    }

    /// Sets the arguments from the outcome of serializing them to JSON: the
    /// bytes, or the serializer's message, which becomes a `Serialization` error.
    pub fn args_json(self, serialized: Result<Vec<u8>, String>) -> (r: Function)
        ensures
            r.name == self.name && r.deposit == self.deposit && r.gas == self.gas,
            serialized matches Ok(b) ==> r.args == Ok::<Vec<u8>, Error>(b),
            serialized matches Err(m) ==> r.args == Err::<Vec<u8>, Error>(Error::Serialization(m)),
    {
        match serialized {
            Ok(b) => Function { args: Ok(b), ..self },
            Err(m) => Function { args: Err(Error::Serialization(m)), ..self },
        }
    }

    /// Sets the arguments from the outcome of serializing them with Borsh: the
    /// bytes, or the writer's message, which becomes an `Io` error.
    pub fn args_borsh(self, serialized: Result<Vec<u8>, String>) -> (r: Function)
        ensures
            r.name == self.name && r.deposit == self.deposit && r.gas == self.gas,
            serialized matches Ok(b) ==> r.args == Ok::<Vec<u8>, Error>(b),
            serialized matches Err(m) ==> r.args == Err::<Vec<u8>, Error>(Error::Io(m)),
    {
        match serialized {
            Ok(b) => Function { args: Ok(b), ..self },
            Err(m) => Function { args: Err(Error::Io(m)), ..self },
        }
    }

    /// Sets the deposit, in yoctoNEAR.
    pub fn deposit(self, deposit: u128) -> (r: Function)
        ensures
            r == (Function { deposit, ..self }),
    {
        Function { deposit, ..self }
    }

    /// Sets the gas, in gas units.
    pub fn gas(self, gas: u64) -> (r: Function)
        ensures
            r == (Function { gas, ..self }),
    {
        Function { gas, ..self }
    }

    /// Uses the most gas one transaction can use.
    pub fn max_gas(self) -> (r: Function)
        ensures
            r == (Function { gas: (300 * tera_gas()) as u64, ..self }),
    {
        let g = max_gas();
        self.gas(g)
    }

    /// The call as an action, or the error met while serializing its arguments.
    pub fn into_action(self) -> (r: Result<FunctionCallAction, Error>)
        ensures
            self.args matches Err(e) ==> r == Err::<FunctionCallAction, Error>(e),
            self.args matches Ok(a) ==> r == Ok::<FunctionCallAction, Error>(
                FunctionCallAction { method_name: self.name, args: a, gas: self.gas, deposit: self.deposit },
            ),
    {
        match self.args {
            Ok(args) => Ok(
                FunctionCallAction { method_name: self.name, args, gas: self.gas, deposit: self.deposit },
            ),
            Err(e) => Err(e),
        }
    }
}


/// A call of one function on a contract, being put together.
#[derive(Debug)]
pub struct FunctionCallTransaction<I> {
    pub receiver_id: String,
    pub function: Function,
    pub retry_strategy: Option<RetryStrategy<I>>,
    pub wait_until: TxExecutionStatus,
}

impl<I> FunctionCallTransaction<I> {
    /// A call of `function` on `contract_id`, without retries, awaited until the
    /// default stage.
    pub fn new(contract_id: &str, function: &str) -> (r: FunctionCallTransaction<I>)
        ensures
            r.receiver_id@ == contract_id@,
            r.function.name@ == function@,
            r.function.args matches Ok(a) && a@ == Seq::<u8>::empty(),
            r.function.deposit == 0,
            r.function.gas == 10 * tera_gas(),
            r.retry_strategy is None,
            r.wait_until == TxExecutionStatus::ExecutedOptimistic,
    {
        FunctionCallTransaction {
            receiver_id: contract_id.to_owned(),
            function: Function::new(function),
            retry_strategy: None,
            wait_until: default_wait_until(),
        }
    }

    /// Sets the serialized arguments, unless an earlier serialization failed.
    pub fn args(self, args: Vec<u8>) -> (r: FunctionCallTransaction<I>)
        ensures
            self.function.args is Err ==> r == self,
            self.function.args is Ok ==> r == (FunctionCallTransaction {
                function: Function { args: Ok(args), ..self.function },
                ..self
            }),
    {
        FunctionCallTransaction { function: self.function.args(args), ..self }
    }

    /// Sets the arguments from the outcome of serializing them to JSON.
    pub fn args_json(self, serialized: Result<Vec<u8>, String>) -> (r: FunctionCallTransaction<I>)
        ensures
            r.receiver_id == self.receiver_id && r.retry_strategy == self.retry_strategy
                && r.wait_until == self.wait_until,
            r.function.name == self.function.name && r.function.deposit == self.function.deposit
                && r.function.gas == self.function.gas,
            serialized matches Ok(b) ==> r.function.args == Ok::<Vec<u8>, Error>(b),
            serialized matches Err(m) ==> r.function.args == Err::<Vec<u8>, Error>(
                Error::Serialization(m),
            ),
    {
        FunctionCallTransaction { function: self.function.args_json(serialized), ..self }
    }

    /// Sets the arguments from the outcome of serializing them with Borsh.
    pub fn args_borsh(self, serialized: Result<Vec<u8>, String>) -> (r: FunctionCallTransaction<I>)
        ensures
            r.receiver_id == self.receiver_id && r.retry_strategy == self.retry_strategy
                && r.wait_until == self.wait_until,
            r.function.name == self.function.name && r.function.deposit == self.function.deposit
                && r.function.gas == self.function.gas,
            serialized matches Ok(b) ==> r.function.args == Ok::<Vec<u8>, Error>(b),
            serialized matches Err(m) ==> r.function.args == Err::<Vec<u8>, Error>(Error::Io(m)),
    {
        FunctionCallTransaction { function: self.function.args_borsh(serialized), ..self }
    }

    /// Sets the deposit, in yoctoNEAR.
    pub fn deposit(self, deposit: u128) -> (r: FunctionCallTransaction<I>)
        ensures
            r == (FunctionCallTransaction { function: Function { deposit, ..self.function }, ..self }),
    {
        FunctionCallTransaction { function: self.function.deposit(deposit), ..self }
    }

    /// Sets the gas, in gas units.
    pub fn gas(self, gas: u64) -> (r: FunctionCallTransaction<I>)
        ensures
            r == (FunctionCallTransaction { function: Function { gas, ..self.function }, ..self }),
    {
        FunctionCallTransaction { function: self.function.gas(gas), ..self }
    }

    /// Uses the most gas one transaction can use.
    pub fn max_gas(self) -> (r: FunctionCallTransaction<I>)
        ensures
            r == (FunctionCallTransaction {
                function: Function { gas: (300 * tera_gas()) as u64, ..self.function },
                ..self
            }),
    {
        FunctionCallTransaction { function: self.function.max_gas(), ..self }
    }

    /// Retries a failed sending with an exponential back-off from `base_millis`,
    /// at most `max_retries` times.
    pub fn retry_exponential(self, base_millis: u64, max_retries: usize) -> (r: FunctionCallTransaction<I>)
        ensures
            r == (FunctionCallTransaction {
                retry_strategy: Some(exponential_strategy::<I>(base_millis, max_retries)),
                ..self
            }),
    {
        FunctionCallTransaction {
            retry_strategy: Some(RetryStrategy::Exponential(Backoff::new(base_millis, max_retries))),
            ..self
        }
    }

    /// Retries a failed sending with the caller's own strategy.
    pub fn retry(self, strategy: I) -> (r: FunctionCallTransaction<I>)
        ensures
            r == (FunctionCallTransaction { retry_strategy: Some(RetryStrategy::Custom(strategy)), ..self }),
    {
        FunctionCallTransaction { retry_strategy: Some(RetryStrategy::Custom(strategy)), ..self }
    }

    /// Sets the stage of execution that the transaction is awaited until.
    pub fn wait_until(self, wait_until: TxExecutionStatus) -> (r: FunctionCallTransaction<I>)
        ensures
            r == (FunctionCallTransaction { wait_until, ..self }),
    {
        FunctionCallTransaction { wait_until, ..self }
    }

    /// The call as the single action of a transaction, or the error met while
    /// serializing its arguments.
    pub fn into_actions(self) -> (r: Result<Vec<Action>, Error>)
        ensures
            self.function.args matches Err(e) ==> r == Err::<Vec<Action>, Error>(e),
            self.function.args matches Ok(a) ==> r matches Ok(v) && v@ == seq![
                Action::FunctionCall(FunctionCallAction {
                    method_name: self.function.name,
                    args: a,
                    gas: self.function.gas,
                    deposit: self.function.deposit,
                }),
            ],
    {
        match self.function.into_action() {
            Ok(a) => {
                let mut v: Vec<Action> = Vec::new();
                v.push(Action::FunctionCall(a));
                Ok(v)
            },
            Err(e) => Err(e),
        }
    }

    /// The call, ready to be sent with its retry strategy.
    pub fn into_retryable(self) -> (r: RetryableTransaction<I>)
        ensures
            r.receiver_id == self.receiver_id,
            r.strategy == self.retry_strategy,
            r.wait_until == self.wait_until,
            self.function.args matches Err(e) ==> r.actions == Err::<Vec<Action>, Error>(e),
            self.function.args matches Ok(a) ==> r.actions matches Ok(v) && v@ == seq![
                Action::FunctionCall(FunctionCallAction {
                    method_name: self.function.name,
                    args: a,
                    gas: self.function.gas,
                    deposit: self.function.deposit,
                }),
            ],
    {
        let FunctionCallTransaction { receiver_id, function, retry_strategy, wait_until } = self;
        let t: FunctionCallTransaction<I> = FunctionCallTransaction { receiver_id: String::new(), function, retry_strategy: None, wait_until };
        RetryableTransaction { receiver_id, actions: t.into_actions(), strategy: retry_strategy, wait_until }
    }
}

/// A transaction of several actions on one receiver, being put together. An
/// error met while preparing an action is kept, and the actions that follow it
/// are not added: the error comes out when the transaction is sent.
#[derive(Debug)]
pub struct Transaction<I> {
    pub receiver_id: String,
    pub actions: Result<Vec<Action>, Error>,
    pub retry_strategy: Option<RetryStrategy<I>>,
    pub wait_until: TxExecutionStatus,
}

impl<I> Transaction<I> {
    /// A transaction on `receiver_id` without actions and without retries,
    /// awaited until the default stage.
    pub fn new(receiver_id: &str) -> (r: Transaction<I>)
        ensures
            r.receiver_id@ == receiver_id@,
            r.actions matches Ok(v) && v@ == Seq::<Action>::empty(),
            r.retry_strategy is None,
            r.wait_until == TxExecutionStatus::ExecutedOptimistic,
    {
        Transaction {
            receiver_id: receiver_id.to_owned(),
            actions: Ok(Vec::new()),
            retry_strategy: None,
            wait_until: default_wait_until(),
        }
    }

    /// Appends `action` unless an error is kept.
    fn push_action(self, action: Action) -> (r: Transaction<I>)
        ensures
            r.receiver_id == self.receiver_id,
            r.retry_strategy == self.retry_strategy,
            r.wait_until == self.wait_until,
            appended(self.actions, r.actions, action),
    {
        match self.actions {
            Ok(mut v) => {
                v.push(action);
                Transaction { actions: Ok(v), ..self }
            },
            Err(e) => Transaction { actions: Err(e), ..self },
        }
    }

    /// Adds the access key `ak` under the public key `pk` to the receiver's account.
    pub fn add_key(self, pk: String, ak: AccessKey) -> (r: Transaction<I>)
        ensures
            r.receiver_id == self.receiver_id,
            r.retry_strategy == self.retry_strategy,
            r.wait_until == self.wait_until,
            appended(self.actions, r.actions, Action::AddKey { public_key: pk, access_key: ak }),
    {
        self.push_action(Action::AddKey { public_key: pk, access_key: ak })
    }

    /// Calls `function` on the receiver's contract. When its arguments failed to
    /// serialize, that error replaces the actions.
    pub fn call(self, function: Function) -> (r: Transaction<I>)
        ensures
            r.receiver_id == self.receiver_id,
            r.retry_strategy == self.retry_strategy,
            r.wait_until == self.wait_until,
            function.args matches Err(e) ==> r.actions == Err::<Vec<Action>, Error>(e),
            function.args matches Ok(a) ==> appended(
                self.actions,
                r.actions,
                Action::FunctionCall(FunctionCallAction {
                    method_name: function.name,
                    args: a,
                    gas: function.gas,
                    deposit: function.deposit,
                }),
            ),
    {
        let Function { name, args, deposit, gas } = function;
        match args {
            Err(e) => Transaction { actions: Err(e), ..self },
            Ok(args) => {
                let method_name = name.clone();
                self.push_action(Action::FunctionCall(FunctionCallAction { method_name, args, gas, deposit }))
            },
        }
    }

    /// Creates the receiver's account.
    pub fn create_account(self) -> (r: Transaction<I>)
        ensures
            r.receiver_id == self.receiver_id,
            r.retry_strategy == self.retry_strategy,
            r.wait_until == self.wait_until,
            appended(self.actions, r.actions, Action::CreateAccount),
    {
        self.push_action(Action::CreateAccount)
    }

    /// Deletes the receiver's account; `beneficiary_id` receives its funds.
    pub fn delete_account(self, beneficiary_id: &str) -> (r: Transaction<I>)
        ensures
            r.receiver_id == self.receiver_id,
            r.retry_strategy == self.retry_strategy,
            r.wait_until == self.wait_until,
            self.actions is Err ==> r.actions == self.actions,
            self.actions matches Ok(v) ==> (r.actions matches Ok(w) && w@.len() == v@.len() + 1
                && w@.take(v@.len() as int) == v@ && (w@.last() matches Action::DeleteAccount {
                beneficiary_id: b,
            } && b@ == beneficiary_id@)),
    {
        let b = beneficiary_id.to_owned();
        let ghost bv = b;
        let ghost before = self.actions;
        let r = self.push_action(Action::DeleteAccount { beneficiary_id: b });
        proof {
            if before is Ok {
                let v = before->Ok_0;
                let w = r.actions->Ok_0;
                assert(w@ == v@.push(Action::DeleteAccount { beneficiary_id: bv }));
                assert(w@.take(v@.len() as int) =~= v@);
            }
        }
        r
    }

    /// Deletes the access key of public key `pk` from the receiver's account.
    pub fn delete_key(self, pk: String) -> (r: Transaction<I>)
        ensures
            r.receiver_id == self.receiver_id,
            r.retry_strategy == self.retry_strategy,
            r.wait_until == self.wait_until,
            appended(self.actions, r.actions, Action::DeleteKey { public_key: pk }),
    {
        self.push_action(Action::DeleteKey { public_key: pk })
    }

    /// Deploys `code` as the receiver's contract.
    pub fn deploy(self, code: &[u8]) -> (r: Transaction<I>)
        ensures
            r.receiver_id == self.receiver_id,
            r.retry_strategy == self.retry_strategy,
            r.wait_until == self.wait_until,
            self.actions is Err ==> r.actions == self.actions,
            self.actions matches Ok(v) ==> (r.actions matches Ok(w) && w@.len() == v@.len() + 1
                && w@.take(v@.len() as int) == v@ && (w@.last() matches Action::DeployContract {
                code: c,
            } && c@ == code@)),
    {
        let c = vstd::slice::slice_to_vec(code);
        let ghost cv = c;
        let ghost before = self.actions;
        let r = self.push_action(Action::DeployContract { code: c });
        proof {
            if before is Ok {
                let v = before->Ok_0;
                let w = r.actions->Ok_0;
                assert(w@ == v@.push(Action::DeployContract { code: cv }));
                assert(w@.take(v@.len() as int) =~= v@);
            }
        }
        r
    }

    /// Stakes `stake` yoctoNEAR of the signer's tokens for the validator key `pk`.
    pub fn stake(self, stake: u128, pk: String) -> (r: Transaction<I>)
        ensures
            r.receiver_id == self.receiver_id,
            r.retry_strategy == self.retry_strategy,
            r.wait_until == self.wait_until,
            appended(self.actions, r.actions, Action::Stake { stake, public_key: pk }),
    {
        self.push_action(Action::Stake { stake, public_key: pk })
    }

    /// Transfers `deposit` yoctoNEAR from the signer to the receiver.
    pub fn transfer(self, deposit: u128) -> (r: Transaction<I>)
        ensures
            r.receiver_id == self.receiver_id,
            r.retry_strategy == self.retry_strategy,
            r.wait_until == self.wait_until,
            appended(self.actions, r.actions, Action::Transfer { deposit }),
    {
        self.push_action(Action::Transfer { deposit })
    }

    /// Retries a failed sending with an exponential back-off from `base_millis`,
    /// at most `max_retries` times.
    pub fn retry_exponential(self, base_millis: u64, max_retries: usize) -> (r: Transaction<I>)
        ensures
            r == (Transaction {
                retry_strategy: Some(exponential_strategy::<I>(base_millis, max_retries)),
                ..self
            }),
    {
        Transaction {
            retry_strategy: Some(RetryStrategy::Exponential(Backoff::new(base_millis, max_retries))),
            ..self
        }
    }

    /// Retries a failed sending with the caller's own strategy.
    pub fn retry(self, strategy: I) -> (r: Transaction<I>)
        ensures
            r == (Transaction { retry_strategy: Some(RetryStrategy::Custom(strategy)), ..self }),
    {
        Transaction { retry_strategy: Some(RetryStrategy::Custom(strategy)), ..self }
    }

    /// Sets the stage of execution that the transaction is awaited until.
    pub fn wait_until(self, wait_until: TxExecutionStatus) -> (r: Transaction<I>)
        ensures
            r == (Transaction { wait_until, ..self }),
    {
        Transaction { wait_until, ..self }
    }

    /// The transaction, ready to be sent with its retry strategy.
    pub fn into_retryable(self) -> (r: RetryableTransaction<I>)
        ensures
            r == (RetryableTransaction {
                receiver_id: self.receiver_id,
                actions: self.actions,
                strategy: self.retry_strategy,
                wait_until: self.wait_until,
            }),
    {
        RetryableTransaction {
            receiver_id: self.receiver_id,
            actions: self.actions,
            strategy: self.retry_strategy,
            wait_until: self.wait_until,
        }
    }
}

/// A transaction ready to be sent, with the strategy that retries it.
#[derive(Debug)]
pub struct RetryableTransaction<I> {
    pub receiver_id: String,
    pub actions: Result<Vec<Action>, Error>,
    pub strategy: Option<RetryStrategy<I>>,
    pub wait_until: TxExecutionStatus,
}

/// What sending a transaction starts from: its receiver and actions, the state
/// of its retries, the caller's own strategy when it follows one, and the stage
/// it is awaited until.
#[derive(Debug)]
pub struct SendPlan<I> {
    pub receiver_id: String,
    pub actions: Vec<Action>,
    pub run: RetryRun,
    pub strategy: Option<I>,
    pub wait_until: TxExecutionStatus,
}

/// The retry plan of a strategy.
pub open spec fn plan_of<I>(s: Option<RetryStrategy<I>>) -> Option<RetryPlan> {
    match s {
        None => None,
        Some(RetryStrategy::Exponential(b)) => Some(RetryPlan::Exponential(b)),
        Some(RetryStrategy::Custom(_)) => Some(RetryPlan::Custom),
    }
}

/// The caller's own strategy in a strategy, if it is one.
pub open spec fn custom_of<I>(s: Option<RetryStrategy<I>>) -> Option<I> {
    match s {
        Some(RetryStrategy::Custom(i)) => Some(i),
        _ => None,
    }
}

/// A sending is retried only under a strategy that was given: without one the
/// run has no plan (one attempt), an exponential back-off keeps its schedule,
/// and the caller's own strategy is handed back to draw delays from.
pub proof fn law_plan_follows_strategy<I>(s: Option<RetryStrategy<I>>)
    ensures
        plan_of(s) is None <==> s is None,
        s is None ==> custom_of(s) is None,
        s matches Some(RetryStrategy::Exponential(b)) ==> plan_of(s) == Some(RetryPlan::Exponential(b))
            && custom_of(s) is None,
        s matches Some(RetryStrategy::Custom(i)) ==> plan_of(s) == Some(RetryPlan::Custom) && custom_of(s)
            == Some(i),
{
}

impl<I> RetryableTransaction<I> {
    /// `actions` on `receiver_id`, sent once, awaited until the default stage.
    pub fn new(receiver_id: &str, actions: Vec<Action>) -> (r: RetryableTransaction<I>)
        ensures
            r.receiver_id@ == receiver_id@,
            r.actions == Ok::<Vec<Action>, Error>(actions),
            r.strategy is None,
            r.wait_until == TxExecutionStatus::ExecutedOptimistic,
    {
        RetryableTransaction {
            receiver_id: receiver_id.to_owned(),
            actions: Ok(actions),
            strategy: None,
            wait_until: default_wait_until(),
        }
    }

    /// Retries a failed sending with an exponential back-off from `base_millis`,
    /// at most `max_retries` times.
    pub fn retry_exponential(self, base_millis: u64, max_retries: usize) -> (r: RetryableTransaction<I>)
        ensures
            r == (RetryableTransaction {
                strategy: Some(exponential_strategy::<I>(base_millis, max_retries)),
                ..self
            }),
    {
        RetryableTransaction {
            strategy: Some(RetryStrategy::Exponential(Backoff::new(base_millis, max_retries))),
            ..self
        }
    }

    /// Retries a failed sending with the caller's own strategy.
    pub fn retry(self, strategy: I) -> (r: RetryableTransaction<I>)
        ensures
            r == (RetryableTransaction { strategy: Some(RetryStrategy::Custom(strategy)), ..self }),
    {
        RetryableTransaction { strategy: Some(RetryStrategy::Custom(strategy)), ..self }
    }

    /// Sets the stage of execution that the transaction is awaited until.
    pub fn wait_until(self, wait_until: TxExecutionStatus) -> (r: RetryableTransaction<I>)
        ensures
            r == (RetryableTransaction { wait_until, ..self }),
    {
        RetryableTransaction { wait_until, ..self }
    }

    /// Starts the sending: the error kept while the transaction was put together
    /// comes out here, before anything is sent; otherwise the plan holds the
    /// actions and a retry run over the transaction's strategy.
    pub fn start(self) -> (r: Result<SendPlan<I>, Error>)
        ensures
            self.actions matches Err(e) ==> r == Err::<SendPlan<I>, Error>(e),
            self.actions matches Ok(v) ==> r matches Ok(p) && p == (SendPlan {
                receiver_id: self.receiver_id,
                actions: v,
                run: RetryRun { plan: plan_of(self.strategy) },
                strategy: custom_of(self.strategy),
                wait_until: self.wait_until,
            }),
    {
        let (plan, strategy) = match self.strategy {
            None => (None, None),
            Some(RetryStrategy::Exponential(b)) => (Some(RetryPlan::Exponential(b)), None),
            Some(RetryStrategy::Custom(i)) => (Some(RetryPlan::Custom), Some(i)),
        };
        match self.actions {
            Err(e) => Err(e),
            Ok(actions) => Ok(
                SendPlan {
                    receiver_id: self.receiver_id,
                    actions,
                    run: RetryRun::new(plan),
                    strategy,
                    wait_until: self.wait_until,
                },
            ),
        }
    }
}

} // verus!
