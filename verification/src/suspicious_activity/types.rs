//! The records of the register and the reasons for which it refuses a message.

use vstd::prelude::*;
use vstd::std_specs::convert::FromSpecImpl;
use crate::account::{AccountId, zero_account};
use crate::chain::Timestamp;
use crate::ownable::OwnableError;
use crate::store::{Store, filed_below};

verus! {

/// The identifier of a report.
pub type ActivityId = i32;

/// The identifier of a user.
pub type UserId = i32;

/// What every message of the contract returns where it has nothing else to say.
pub type SuspeciousResult = Result<(), SuspeciousActivityError>;

/// The kinds of crime that can be reported.
#[derive(Debug, Clone, Copy, PartialEq, Eq, Structural)]
pub enum SuspeciousActivityCategory {
    MoneyLaundering,
    NarcoticsTrafficking,
    HumanTrafficking,
    Homicide,
    CriminalAttempt,
    TheftCrime,
    TrafficOffenses,
    WhiteCollarCrimes,
}

/// A user who may report.
#[derive(Debug, PartialEq, Eq)]
pub struct User {
    pub user_id: UserId,
    pub wallet_address: AccountId,
    pub user_name: String,
    pub user_gmail: String,
}

impl Clone for User {
    fn clone(&self) -> (r: Self)
        ensures
            r == *self,
    {
        User {
            user_id: self.user_id,
            wallet_address: self.wallet_address,
            user_name: self.user_name.clone(),
            user_gmail: self.user_gmail.clone(),
        }
    }
}

impl Default for User {
    /// The user without name or address, at the zero account.
    fn default() -> (r: Self)
        ensures
            r.user_id == 0,
            r.wallet_address == zero_account(),
            r.user_name@ == Seq::<char>::empty(),
            r.user_gmail@ == Seq::<char>::empty(),
    {
        User {
            user_id: 0,
            wallet_address: AccountId::zero(),
            user_name: String::new(),
            user_gmail: String::new(),
        }
    }
}

/// A reported activity.
#[derive(Debug, PartialEq, Eq)]
pub struct SuspeciousActivity {
    pub activity_id: ActivityId,
    pub crime_category: SuspeciousActivityCategory,
    pub ipfs_image_url: String,
    pub crime_description: Vec<u8>,
    pub crime_location: String,
    /// Whether the owner has confirmed the report.
    pub is_valid: bool,
    pub activity_reporter: AccountId,
    pub reporting_time_stamp: Timestamp,
}

/// The report as it is filed when it is taken: not yet confirmed.
pub open spec fn fresh_report(
    activity_id: ActivityId,
    crime_category: SuspeciousActivityCategory,
    ipfs_image_url: String,
    crime_description: Vec<u8>,
    crime_location: String,
    activity_reporter: AccountId,
    reporting_time_stamp: Timestamp,
) -> SuspeciousActivity {
    SuspeciousActivity {
        activity_id,
        crime_category,
        ipfs_image_url,
        crime_description,
        crime_location,
        is_valid: false,
        activity_reporter,
        reporting_time_stamp,
    }
}

/// Whether `a` and `b` are the same report: the same in every field, the
/// description byte for byte.
pub open spec fn same_activity(a: SuspeciousActivity, b: SuspeciousActivity) -> bool {
    &&& a.activity_id == b.activity_id
    &&& a.crime_category == b.crime_category
    &&& a.ipfs_image_url == b.ipfs_image_url
    &&& a.crime_description@ == b.crime_description@
    &&& a.crime_location == b.crime_location
    &&& a.is_valid == b.is_valid
    &&& a.activity_reporter == b.activity_reporter
    &&& a.reporting_time_stamp == b.reporting_time_stamp
}

/// Whether `a` is the report `b` once confirmed: the same but for being valid.
pub open spec fn is_validated(a: SuspeciousActivity, b: SuspeciousActivity) -> bool {
    &&& a.activity_id == b.activity_id
    &&& a.crime_category == b.crime_category
    &&& a.ipfs_image_url == b.ipfs_image_url
    &&& a.crime_description@ == b.crime_description@
    &&& a.crime_location == b.crime_location
    &&& a.is_valid
    &&& a.activity_reporter == b.activity_reporter
    &&& a.reporting_time_stamp == b.reporting_time_stamp
}

impl Clone for SuspeciousActivity {
    fn clone(&self) -> (r: Self)
        ensures
            same_activity(r, *self),
    {
        SuspeciousActivity {
            activity_id: self.activity_id,
            crime_category: self.crime_category,
            ipfs_image_url: self.ipfs_image_url.clone(),
            crime_description: self.crime_description.clone(),
            crime_location: self.crime_location.clone(),
            is_valid: self.is_valid,
            activity_reporter: self.activity_reporter,
            reporting_time_stamp: self.reporting_time_stamp,
        }
    }
}

impl Default for SuspeciousActivity {
    /// The empty report of a criminal attempt, by the zero account.
    fn default() -> (r: Self)
        ensures
            r.activity_id == 0,
            r.crime_category == SuspeciousActivityCategory::CriminalAttempt,
            r.ipfs_image_url@ == Seq::<char>::empty(),
            r.crime_description@ == Seq::<u8>::empty(),
            r.crime_location@ == Seq::<char>::empty(),
            !r.is_valid,
            r.activity_reporter == zero_account(),
            r.reporting_time_stamp == 0,
    {
        SuspeciousActivity {
            activity_id: 0,
            crime_category: SuspeciousActivityCategory::CriminalAttempt,
            ipfs_image_url: String::new(),
            crime_description: Vec::new(),
            crime_location: String::new(),
            is_valid: false,
            activity_reporter: AccountId::zero(),
            reporting_time_stamp: 0,
        }
    }
}

/// The identifier that every registered user carries.
pub const REGISTERED_USER_ID: UserId = 1;

/// What the contract keeps: the reports and the users who may report.
pub struct Data {
    pub contract_owner: AccountId,
    /// The identifier that the next report gets.
    pub activity_id: ActivityId,
    pub suspecious_activity: Store<ActivityId, SuspeciousActivity>,
    pub user: Store<AccountId, User>,
}

impl Data {
    /// The reports in the order of their identifiers.
    pub open spec fn all_activities(&self) -> Seq<SuspeciousActivity> {
        filed_below(self.suspecious_activity@, self.activity_id as int)
    }

    /// The state that the data are always in: each report is filed under its own
    /// identifier, which the counter has handed out, and each user under the
    /// user's own account.
    pub open spec fn wf(&self) -> bool {
        &&& 0 <= self.activity_id
        &&& forall|k: ActivityId| #[trigger]
            self.suspecious_activity@.contains_key(k) ==> {
                &&& 0 <= k < self.activity_id
                &&& self.suspecious_activity@[k].activity_id == k
            }
        &&& forall|a: AccountId| #[trigger]
            self.user@.contains_key(a) ==> {
                &&& self.user@[a].wallet_address == a
                &&& self.user@[a].user_id == REGISTERED_USER_ID
            }
    }
}

impl Default for Data {
    /// No reports and no users, owned by the zero account.
    fn default() -> (data: Self)
        ensures
            data.contract_owner == zero_account(),
            data.activity_id == 0,
            data.suspecious_activity@ == Map::<ActivityId, SuspeciousActivity>::empty(),
            data.user@ == Map::<AccountId, User>::empty(),
            data.wf(),
    {
        Data {
            contract_owner: AccountId::zero(),
            activity_id: 0,
            suspecious_activity: Store::new(),
            user: Store::new(),
        }
    }
}

/// Why a message is refused.
#[derive(Debug, Clone, Copy, PartialEq, Eq)]
pub enum SuspeciousActivityError {
    OwnableError(OwnableError),
    InvalidAccount,
    InvalidWalletAddress,
    InvalidUserName,
    UserNotfound,
    ActivityNotFound,
    NotEligibleForReward,
    ZeroTransferredValue,
}

impl From<OwnableError> for SuspeciousActivityError {
    fn from(error: OwnableError) -> (r: Self) {
        SuspeciousActivityError::OwnableError(error)
    }
}

impl FromSpecImpl<OwnableError> for SuspeciousActivityError {
    open spec fn obeys_from_spec() -> bool {
        true
    }

    open spec fn from_spec(error: OwnableError) -> Self {
        SuspeciousActivityError::OwnableError(error)
    }
}

} // verus!
