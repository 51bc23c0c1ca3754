//! Plain models of the values that transactions carry.

use vstd::prelude::*;

verus! {

/// A 32-byte hash, such as that of a block or a transaction.
#[derive(Clone, Copy, Debug, PartialEq, Eq)]
pub struct CryptoHash(pub [u8; 32]);

/// What an access key may do.
#[derive(Clone, Debug)]
pub enum AccessKeyPermission {
    FullAccess,
    /// Only calls of `method_names` (all methods when empty) on `receiver_id`,
    /// paying at most `allowance` yoctoNEAR of fees when set.
    FunctionCall { allowance: Option<u128>, receiver_id: String, method_names: Vec<String> },
    /// A gas key, holding `balance` yoctoNEAR prepaid for gas and `num_nonces`
    /// nonces, limited to calls as `FunctionCall` is.
    GasKeyFunctionCall {
        balance: u128,
        num_nonces: u16,
        allowance: Option<u128>,
        receiver_id: String,
        method_names: Vec<String>,
    },
    /// A gas key, holding `balance` yoctoNEAR prepaid for gas and `num_nonces`
    /// nonces, with full access.
    GasKeyFullAccess { balance: u128, num_nonces: u16 },
}

/// An access key: its nonce and its permission.
#[derive(Clone, Debug)]
pub struct AccessKey {
    pub nonce: u64,
    pub permission: AccessKeyPermission,
}

/// A call of a contract's method.
#[derive(Clone, Debug)]
pub struct FunctionCallAction {
    pub method_name: String,
    pub args: Vec<u8>,
    /// Gas, in gas units.
    pub gas: u64,
    /// Deposit, in yoctoNEAR.
    pub deposit: u128,
}

/// One action of a transaction. Public keys and account ids are held in their
/// text form.
#[derive(Clone, Debug)]
pub enum Action {
    CreateAccount,
    DeployContract { code: Vec<u8> },
    FunctionCall(FunctionCallAction),
    Transfer { deposit: u128 },
    Stake { stake: u128, public_key: String },
    AddKey { public_key: String, access_key: AccessKey },
    DeleteKey { public_key: String },
    DeleteAccount { beneficiary_id: String },
}

/// The stage of execution that a transaction is awaited until.
#[derive(Clone, Copy, Debug, PartialEq, Eq)]
pub enum TxExecutionStatus {
    /// Not yet included in a block.
    NotIncluded,
    Included,
    ExecutedOptimistic,
    IncludedFinal,
    Executed,
    Final,
}

/// The stage awaited when none is given: `ExecutedOptimistic`.
pub fn default_wait_until() -> (r: TxExecutionStatus)
    ensures
        r == TxExecutionStatus::ExecutedOptimistic,
{
    TxExecutionStatus::ExecutedOptimistic
}

} // verus!
