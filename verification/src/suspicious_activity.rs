//! A register of reported crimes: users register and report, the owner confirms
//! reports and rewards their reporters.

pub mod report;
pub mod types;

use vstd::prelude::*;
use crate::account::AccountId;
use crate::chain::{Balance, Timestamp, Transfer};
use crate::ownable;
use crate::store::{filed_below, lemma_filed_below_insert};
use crate::suspicious_activity::report::{
    Internal,
    ReportStorage,
    SuspeciousActivitiesTrait,
    is_valid_user,
};
use crate::suspicious_activity::types::{
    ActivityId,
    Data,
    SuspeciousActivity,
    SuspeciousActivityCategory,
    SuspeciousActivityError,
    User,
    fresh_report,
    same_activity,
    REGISTERED_USER_ID,
};
use crate::text::byte_length;

verus! {

/// Announces a user that was registered.
#[derive(Debug, PartialEq, Eq)]
pub struct RegisterUserEvent {
    pub user_address: AccountId,
    pub user_name: String,
}

/// Announces a report that was taken.
#[derive(Debug, Clone, Copy, PartialEq, Eq)]
pub struct ActivityEvent {
    pub activity_reporter: AccountId,
    pub time_stamp: Timestamp,
}

/// Announces a report that was confirmed.
#[derive(Debug, Clone, Copy, PartialEq, Eq)]
pub struct SuspeciousActivityUpdateEvent {
    pub activity_id: ActivityId,
}

/// Announces a reward that was paid.
#[derive(Debug, Clone, Copy, PartialEq, Eq)]
pub struct RewardUserEvent {
    pub user_address: AccountId,
    pub value: Balance,
}

/// A contract that takes reports of suspicious activity from registered users;
/// its owner confirms reports and rewards their reporters.
pub struct SuspiciousActivitiesContract {
    pub ownable: ownable::Data,
    pub activity_data: Data,
}

impl SuspiciousActivitiesContract {
    /// A contract owned by `caller`, without users or reports.
    pub fn new(caller: AccountId) -> (contract: Self)
        ensures
            contract.ownable.owner == caller,
            contract.activity_data.contract_owner == caller,
            contract.activity_data.activity_id == 0,
            contract.activity_data.suspecious_activity@ == Map::<
                ActivityId,
                SuspeciousActivity,
            >::empty(),
            contract.activity_data.user@ == Map::<AccountId, User>::empty(),
            contract.activity_data.wf(),
    {
        let mut activity_data = Data::default();
        activity_data.contract_owner = caller;
        SuspiciousActivitiesContract { ownable: ownable::Data::new(caller), activity_data }
    }
}

impl ReportStorage for SuspiciousActivitiesContract {
    open spec fn report(&self) -> Data {
        self.activity_data
    }

    open spec fn owner(&self) -> AccountId {
        self.ownable.owner
    }
}

impl Internal for SuspiciousActivitiesContract {
    fn _register(&mut self, wallet_address: AccountId, user_name: String, user_gmail: String) -> (r:
        Result<RegisterUserEvent, SuspeciousActivityError>) {
        let new_user = User {
            user_id: REGISTERED_USER_ID,
            wallet_address,
            user_name: user_name.clone(),
            user_gmail,
        };
        self.activity_data.user.insert(wallet_address, new_user);
        Ok(RegisterUserEvent { user_address: wallet_address, user_name })
    }

    fn _report_activity(
        &mut self,
        caller: AccountId,
        time_stamp: Timestamp,
        activity_id: ActivityId,
        crime_category: SuspeciousActivityCategory,
        ipfs_image_url: String,
        crime_description: Vec<u8>,
        crime_location: String,
    ) -> (r: Result<ActivityEvent, SuspeciousActivityError>) {
        let activity = SuspeciousActivity {
            activity_id,
            crime_category,
            ipfs_image_url,
            crime_description,
            crime_location,
            is_valid: false,
            activity_reporter: caller,
            reporting_time_stamp: time_stamp,
        };
        self.activity_data.suspecious_activity.insert(activity_id, activity);
        Ok(ActivityEvent { activity_reporter: caller, time_stamp })
    }

    fn _update(&mut self, activity_id: ActivityId) -> (r: Result<
        SuspeciousActivityUpdateEvent,
        SuspeciousActivityError,
    >) {
        let activity = match self.activity_data.suspecious_activity.get(&activity_id) {
            Some(value) => SuspeciousActivity {
                activity_id: value.activity_id,
                crime_category: value.crime_category,
                ipfs_image_url: value.ipfs_image_url.clone(),
                crime_description: value.crime_description.clone(),
                crime_location: value.crime_location.clone(),
                is_valid: true,
                activity_reporter: value.activity_reporter,
                reporting_time_stamp: value.reporting_time_stamp,
            },
            None => {
                return Err(SuspeciousActivityError::ActivityNotFound);
            },
        };
        self.activity_data.suspecious_activity.insert(activity.activity_id, activity);
        Ok(SuspeciousActivityUpdateEvent { activity_id })
    }
}

impl SuspeciousActivitiesTrait for SuspiciousActivitiesContract {
    fn register_user(
        &mut self,
        caller: AccountId,
        wallet_address: AccountId,
        user_name: String,
        user_gmail: String,
    ) -> (r: Result<RegisterUserEvent, SuspeciousActivityError>) {
        match is_valid_user(caller) {
            Err(e) => {
                return Err(e);
            },
            Ok(()) => {},
        }
        if !(wallet_address == caller) {
            return Err(SuspeciousActivityError::InvalidWalletAddress);
        }
        if !(byte_length(&user_name) >= 3) {
            return Err(SuspeciousActivityError::InvalidUserName);
        }
        self._register(wallet_address, user_name, user_gmail)
    }

    fn report_suspecious_activity(
        &mut self,
        caller: AccountId,
        now: Timestamp,
        crime_category: SuspeciousActivityCategory,
        ipfs_image_url: String,
        crime_description: Vec<u8>,
        crime_location: String,
    ) -> (r: Result<ActivityEvent, SuspeciousActivityError>) {
        match is_valid_user(caller) {
            Err(e) => {
                return Err(e);
            },
            Ok(()) => {},
        }
        if !self.activity_data.user.contains(&caller) {
            return Err(SuspeciousActivityError::UserNotfound);
        }
        let activity_id = self.activity_next_id();
        proof {
            if activity_id >= 0 {
                lemma_filed_below_insert(
                    old(self).activity_data.suspecious_activity@,
                    activity_id as int,
                    activity_id,
                    fresh_report(
                        activity_id,
                        crime_category,
                        ipfs_image_url,
                        crime_description,
                        crime_location,
                        caller,
                        now,
                    ),
                );
            }
        }
        self._report_activity(
            caller,
            now,
            activity_id,
            crime_category,
            ipfs_image_url,
            crime_description,
            crime_location,
        )
    }

    fn get_suspecious_activity(&mut self) -> (activity: Vec<SuspeciousActivity>) {
        let mut activity: Vec<SuspeciousActivity> = Vec::new();
        let mut activity_id: i32 = 0;
        while activity_id < self.activity_data.activity_id
            invariant
                *self == *old(self),
                0 <= activity_id,
                activity_id <= self.activity_data.activity_id || activity_id == 0,
                activity@.len() == filed_below(
                    self.activity_data.suspecious_activity@,
                    activity_id as int,
                ).len(),
                forall|j: int|
                    0 <= j < activity@.len() ==> same_activity(
                        #[trigger] activity@[j],
                        filed_below(self.activity_data.suspecious_activity@, activity_id as int)[j],
                    ),
            decreases self.activity_data.activity_id - activity_id,
        {
            match self.activity_data.suspecious_activity.get(&activity_id) {
                Some(value) => {
                    activity.push(value.clone());
                },
                None => {},
            }
            activity_id += 1;
        }
        activity
    }

    fn update_suspecious_activity(&mut self, caller: AccountId, activity_id: ActivityId) -> (r:
        Result<Option<SuspeciousActivityUpdateEvent>, SuspeciousActivityError>) {
        match self.ownable.only_owner(caller) {
            Err(e) => {
                return Err(SuspeciousActivityError::from(e));
            },
            Ok(()) => {},
        }
        let carried = match self.activity_data.suspecious_activity.get(&activity_id) {
            Some(value) => value.activity_id,
            None => {
                return Err(SuspeciousActivityError::ActivityNotFound);
            },
        };
        match self._update(carried) {
            Ok(event) => Ok(Some(event)),
            Err(_) => Ok(None),
        }
    }

    fn reward_user(
        &mut self,
        caller: AccountId,
        reward_amount: Balance,
        activity_id: ActivityId,
    ) -> (r: Result<(Transfer, RewardUserEvent), SuspeciousActivityError>) {
        match self.ownable.only_owner(caller) {
            Err(e) => {
                return Err(SuspeciousActivityError::from(e));
            },
            Ok(()) => {},
        }
        let user_address = caller;
        let reward = match self.activity_data.suspecious_activity.get(&activity_id) {
            Some(value) => {
                if !value.is_valid {
                    return Err(SuspeciousActivityError::NotEligibleForReward);
                }
                if !(reward_amount > 0) {
                    return Err(SuspeciousActivityError::ZeroTransferredValue);
                }
                Transfer { to: value.activity_reporter, amount: reward_amount }
            },
            None => {
                return Err(SuspeciousActivityError::ActivityNotFound);
            },
        };
        Ok((reward, RewardUserEvent { user_address, value: reward_amount }))
    }

    fn activity_next_id(&mut self) -> (activity_id: ActivityId) {
        let activity_id = self.activity_data.activity_id;
        self.activity_data.activity_id += 1;
        activity_id
    }
}

} // verus!
