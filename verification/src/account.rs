//! Account identifiers.

use vstd::prelude::*;
use vstd::std_specs::cmp::PartialEqSpecImpl;

verus! {

/// The 32-byte identifier of an account.
#[derive(Clone, Copy, Debug, Eq)]
pub struct AccountId {
    pub bytes: [u8; 32],
}

/// The account whose 32 bytes are all zero.
pub open spec fn zero_account() -> AccountId {
    AccountId { bytes: vstd::array::spec_array_fill_for_copy_type::<u8, 32>(0u8) }
}

impl PartialEq for AccountId {
    /// Two identifiers are equal when all their bytes agree.
    fn eq(&self, other: &Self) -> (r: bool) {
        let mut i: usize = 0;
        while i < 32
            invariant
                0 <= i <= 32,
                forall|j: int| 0 <= j < i ==> self.bytes@[j] == other.bytes@[j],
            decreases 32 - i,
        {
            if self.bytes[i] != other.bytes[i] {
                return false;
            }
            i += 1;
        }
        assert(self.bytes =~= other.bytes);
        true
    }
}

impl PartialEqSpecImpl for AccountId {
    open spec fn obeys_eq_spec() -> bool {
        true
    }

    open spec fn eq_spec(&self, other: &Self) -> bool {
        *self == *other
    }
}

impl AccountId {
    /// The identifier made of the given bytes.
    pub fn new(bytes: [u8; 32]) -> (account: AccountId)
        ensures
            account.bytes == bytes,
    {
        AccountId { bytes }
    }

    /// The zero account.
    pub fn zero() -> (account: AccountId)
        ensures
            account == zero_account(),
    {
        let account = AccountId { bytes: [0u8; 32] };
        assert(account.bytes =~= zero_account().bytes);
        account
    }

    /// Whether this is the zero account.
    pub fn is_zero(&self) -> (r: bool)
        ensures
            r == (*self == zero_account()),
    {
        *self == AccountId::zero()
    }
}

/// An account is the zero account exactly when each of its bytes is zero.
pub proof fn lemma_zero_account_bytes(account: AccountId)
    ensures
        account == zero_account() <==> forall|i: int| 0 <= i < 32 ==> account.bytes@[i] == 0u8,
{
    if forall|i: int| 0 <= i < 32 ==> account.bytes@[i] == 0u8 {
        assert(account.bytes =~= zero_account().bytes);
    }
}

} // verus!
