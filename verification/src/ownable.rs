//! Ownership of a contract.

use vstd::prelude::*;
use crate::account::AccountId;

verus! {

/// Why a call that only the owner may make is refused.
#[derive(Debug, Clone, Copy, PartialEq, Eq, Structural)]
pub enum OwnableError {
    CallerIsNotOwner,
    NewOwnerIsZero,
}

/// Who owns a contract.
#[derive(Debug, Clone, Copy, PartialEq, Eq)]
pub struct Data {
    pub owner: AccountId,
}

impl Data {
    /// The ownership of `owner`.
    pub fn new(owner: AccountId) -> (data: Self)
        ensures
            data.owner == owner,
    {
        Data { owner }
    }

    /// Lets `caller` pass if it is the owner.
    pub fn only_owner(&self, caller: AccountId) -> (r: Result<(), OwnableError>)
        ensures
            r == (if self.owner == caller {
                Ok::<(), OwnableError>(())
            } else {
                Err::<(), OwnableError>(OwnableError::CallerIsNotOwner)
            }),
    {
        if self.owner != caller {
            return Err(OwnableError::CallerIsNotOwner);
        }
        Ok(())
    }
}

} // verus!
