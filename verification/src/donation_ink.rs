//! A collecting box for one beneficiary.

use vstd::prelude::*;
use crate::account::{AccountId, zero_account};
use crate::chain::{Balance, Transfer};
use crate::store::{Store, filed_below, lemma_filed_below_insert};

verus! {

/// The identifier of a donation.
pub type DonationId = i32;

/// What one account gave.
#[derive(Debug, Clone, Copy, PartialEq, Eq)]
pub struct Donation {
    pub account: AccountId,
    pub amount: Balance,
}

impl Default for Donation {
    /// The gift of nothing, by the zero account.
    fn default() -> (r: Self)
        ensures
            r == (Donation { account: zero_account(), amount: 0 }),
    {
        Self { account: zero_address(), amount: 0 }
    }
}

/// A collecting box: what is given goes to the beneficiary, whom the owner names.
pub struct DonationContract {
    pub owner: AccountId,
    pub beneficiary: AccountId,
    pub donations: Store<DonationId, Donation>,
    /// The identifier that the next donation gets.
    pub donation_id: i32,
}

/// The identifier of the first donation.
pub const FIRST_DONATION: DonationId = 1;

impl DonationContract {
    /// The donations filed under the identifiers below the next one, in the
    /// order of their identifiers.
    pub open spec fn all_donations(&self) -> Seq<Donation> {
        filed_below(self.donations@, self.donation_id as int)
    }

    /// What is on file under `id`: nothing where no donation is filed there.
    pub open spec fn given_so_far(&self, id: DonationId) -> Balance {
        if self.donations@.contains_key(id) {
            self.donations@[id].amount
        } else {
            0
        }
    }

    /// The state that every box is in: each donation is of more than nothing and
    /// filed under an identifier that the counter has handed out.
    pub open spec fn wf(&self) -> bool {
        &&& FIRST_DONATION <= self.donation_id
        &&& forall|k: DonationId| #[trigger]
            self.donations@.contains_key(k) ==> {
                &&& FIRST_DONATION <= k < self.donation_id
                &&& self.donations@[k].amount > 0
            }
    }

    /// An empty box of the owner `caller`, for `beneficiary`.
    pub fn new(caller: AccountId, beneficiary: AccountId) -> (contract: Self)
        ensures
            contract.owner == caller,
            contract.beneficiary == beneficiary,
            contract.donations@ == Map::<DonationId, Donation>::empty(),
            contract.donation_id == FIRST_DONATION,
            contract.wf(),
    {
        let owner = caller;
        Self { owner, beneficiary, donations: Store::new(), donation_id: FIRST_DONATION }
    }

    /// The account that the donations go to.
    pub fn get_beneficiary(&self) -> (beneficiary: Option<AccountId>)
        ensures
            beneficiary == Some(self.beneficiary),
    {
        Some(self.beneficiary)
    }

    /// Names another beneficiary. Only the owner may call this.
    pub fn change_beneficiary(&mut self, caller: AccountId, new_beneficiary: AccountId)
        requires
            old(self).owner == caller,
        ensures
            final(self).beneficiary == new_beneficiary,
            final(self).owner == old(self).owner,
            final(self).donations == old(self).donations,
            final(self).donation_id == old(self).donation_id,
    {
        self.beneficiary = new_beneficiary;
    }

    /// Takes the donation of `donation_amount`, which is more than nothing, from
    /// `caller`: files it under the next identifier, on top of what is on file
    /// there, and orders it paid to the beneficiary.
    pub fn donation(&mut self, caller: AccountId, donation_amount: Balance) -> (payment: Transfer)
        requires
            donation_amount > 0,
            old(self).donation_id < i32::MAX,
            old(self).given_so_far(old(self).donation_id) + donation_amount <= u128::MAX,
        ensures
            payment == (Transfer { to: old(self).beneficiary, amount: donation_amount }),
            final(self).donations@ == old(self).donations@.insert(
                old(self).donation_id,
                Donation {
                    account: caller,
                    amount: (old(self).given_so_far(old(self).donation_id)
                        + donation_amount) as u128,
                },
            ),
            final(self).donation_id == old(self).donation_id + 1,
            final(self).owner == old(self).owner,
            final(self).beneficiary == old(self).beneficiary,
            old(self).wf() ==> final(self).wf() && final(self).all_donations() == old(
                self,
            ).all_donations().push(Donation { account: caller, amount: donation_amount }),
    {
        let donation_id = self.next_donation_id();
        let mut donated_so_far = match self.donations.get(&donation_id) {
            Some(filed) => *filed,
            None => Donation::default(),
        };
        donated_so_far.amount += donation_amount;
        donated_so_far.account = caller;
        self.donations.insert(donation_id, donated_so_far);
        proof {
            if old(self).wf() {
                lemma_filed_below_insert(
                    old(self).donations@,
                    donation_id as int,
                    donation_id,
                    donated_so_far,
                );
            }
        }
        Transfer { to: self.beneficiary, amount: donation_amount }
    }

    /// The donations filed under the identifiers below the next one, in the
    /// order of their identifiers.
    pub fn get_donation(&mut self) -> (donation: Vec<Donation>)
        ensures
            *final(self) == *old(self),
            donation@ == old(self).all_donations(),
    {
        let mut donation: Vec<Donation> = Vec::new();
        let mut i: i32 = 0;
        while i < self.donation_id
            invariant
                *self == *old(self),
                0 <= i,
                i <= self.donation_id || i == 0,
                donation@ == filed_below(self.donations@, i as int),
            decreases self.donation_id - i,
        {
            match self.donations.get(&i) {
                Some(value) => {
                    donation.push(*value);
                },
                None => {},
            }
            i += 1;
        }
        donation
    }

    /// Hands out the next donation identifier.
    pub fn next_donation_id(&mut self) -> (id: DonationId)
        requires
            old(self).donation_id < i32::MAX,
        ensures
            id == old(self).donation_id,
            final(self).donation_id == old(self).donation_id + 1,
            final(self).owner == old(self).owner,
            final(self).beneficiary == old(self).beneficiary,
            final(self).donations == old(self).donations,
    {
        let id = self.donation_id;
        self.donation_id += 1;
        id
    }
}

/// The zero account. It has a known private key, and nothing treats it as
/// special: it only fills the place of an account where none is known.
pub fn zero_address() -> (account: AccountId)
    ensures
        account == zero_account(),
{
    AccountId::zero()
}

} // verus!
