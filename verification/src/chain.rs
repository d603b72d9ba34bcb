//! What a contract exchanges with the chain it runs on: amounts, points in
//! time, and orders to transfer funds.

use vstd::prelude::*;
use crate::account::AccountId;

verus! {

/// An amount of the chain's currency.
pub type Balance = u128;

/// A point in time, in milliseconds.
pub type Timestamp = u64;

/// An order to pay `amount` out of the contract's funds to the account `to`.
#[derive(Clone, Copy, Debug, PartialEq, Eq)]
pub struct Transfer {
    pub to: AccountId,
    pub amount: Balance,
}

} // verus!
