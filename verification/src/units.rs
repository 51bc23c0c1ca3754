//! Gas and token amounts, in gas units and yoctoNEAR.

use near_gas::NearGas;
use near_token::NearToken;
use vstd::prelude::*;

verus! {

/// Gas units in one teragas.
pub open spec fn tera_gas() -> int {
    1_000_000_000_000
}

/// YoctoNEAR in one NEAR.
pub open spec fn one_near() -> int {
    1_000_000_000_000_000_000_000_000
}

/// Calls `NearGas::from_tgas(tgas).as_gas()`. Its source multiplies `tgas` by
/// 10^12 and hands the product back unchanged; the multiplication overflows
/// beyond `u64::MAX`, which `requires` leaves out.
#[verifier::external_body]
fn gas_from_tgas(tgas: u64) -> (r: u64)
    requires
        tgas * tera_gas() <= u64::MAX,
    ensures
        r == tgas * tera_gas(),
{
    NearGas::from_tgas(tgas).as_gas()
}

/// Calls `NearToken::from_near(near).as_yoctonear()`. Its source multiplies
/// `near` by 10^24 and hands the product back unchanged; the multiplication
/// overflows beyond `u128::MAX`, which `requires` leaves out.
#[verifier::external_body]
fn yocto_from_near(near: u128) -> (r: u128)
    requires
        near * one_near() <= u128::MAX,
    ensures
        r == near * one_near(),
{
    NearToken::from_near(near).as_yoctonear()
}

/// The most gas one transaction can use: 300 teragas.
pub fn max_gas() -> (r: u64)
    ensures
        r == 300 * tera_gas(),
{
    gas_from_tgas(300)
}

/// The gas of a function call when none is given: 10 teragas.
pub fn default_call_fn_gas() -> (r: u64)
    ensures
        r == 10 * tera_gas(),
{
    gas_from_tgas(10)
}

/// The deposit of a function call when none is given: 0 NEAR. Some contracts
/// ask for 1 yoctoNEAR to be deposited.
pub fn default_call_deposit() -> (r: u128)
    ensures
        r == 0,
{
    yocto_from_near(0)
}

} // verus!
