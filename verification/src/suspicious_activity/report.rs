//! The messages of the register and the steps they are made of.

use vstd::prelude::*;
use crate::account::{AccountId, zero_account};
use crate::chain::{Balance, Timestamp, Transfer};
use crate::ownable::OwnableError;
use crate::suspicious_activity::{
    ActivityEvent,
    RegisterUserEvent,
    RewardUserEvent,
    SuspeciousActivityUpdateEvent,
};
use crate::suspicious_activity::types::{
    ActivityId,
    Data,
    SuspeciousActivity,
    SuspeciousActivityCategory,
    SuspeciousActivityError,
    User,
    fresh_report,
    is_validated,
    same_activity,
    REGISTERED_USER_ID,
};
use crate::text::byte_len;

verus! {

/// What a contract must keep to take reports: the report data and an owner.
pub trait ReportStorage {
    /// The report data that the contract keeps.
    spec fn report(&self) -> Data;

    /// The account that owns the contract.
    spec fn owner(&self) -> AccountId;
}

/// Whether confirming the report filed under `activity_id` leads from `before`
/// to `after`: the report, confirmed, is filed under the identifier that it
/// carries, and nothing else changes.
pub open spec fn confirms(before: Data, after: Data, activity_id: ActivityId) -> bool {
    let report = before.suspecious_activity@[activity_id];
    &&& after.suspecious_activity@.contains_key(report.activity_id)
    &&& is_validated(after.suspecious_activity@[report.activity_id], report)
    &&& after.suspecious_activity@ == before.suspecious_activity@.insert(
        report.activity_id,
        after.suspecious_activity@[report.activity_id],
    )
    &&& after.user == before.user
    &&& after.activity_id == before.activity_id
    &&& after.contract_owner == before.contract_owner
}

/// The steps that the messages are made of.
pub trait Internal: ReportStorage {
    /// Files the user under `wallet_address`, in place of a user filed there
    /// before.
    fn _register(&mut self, wallet_address: AccountId, user_name: String, user_gmail: String) -> (r:
        Result<RegisterUserEvent, SuspeciousActivityError>)
        ensures
            r == Ok::<RegisterUserEvent, SuspeciousActivityError>(
                RegisterUserEvent { user_address: wallet_address, user_name },
            ),
            final(self).report().user@ == old(self).report().user@.insert(
                wallet_address,
                User { user_id: REGISTERED_USER_ID, wallet_address, user_name, user_gmail },
            ),
            final(self).report().suspecious_activity == old(self).report().suspecious_activity,
            final(self).report().activity_id == old(self).report().activity_id,
            final(self).report().contract_owner == old(self).report().contract_owner,
            final(self).owner() == old(self).owner(),
            old(self).report().wf() ==> final(self).report().wf(),
    ;

    /// Files a report by `caller`, made at the time `time_stamp` and not yet
    /// confirmed, under the identifier `activity_id`.
    fn _report_activity(
        &mut self,
        caller: AccountId,
        time_stamp: Timestamp,
        activity_id: ActivityId,
        crime_category: SuspeciousActivityCategory,
        ipfs_image_url: String,
        crime_description: Vec<u8>,
        crime_location: String,
    ) -> (r: Result<ActivityEvent, SuspeciousActivityError>)
        ensures
            r == Ok::<ActivityEvent, SuspeciousActivityError>(
                ActivityEvent { activity_reporter: caller, time_stamp },
            ),
            final(self).report().suspecious_activity@ == old(
                self,
            ).report().suspecious_activity@.insert(
                activity_id,
                fresh_report(
                    activity_id,
                    crime_category,
                    ipfs_image_url,
                    crime_description,
                    crime_location,
                    caller,
                    time_stamp,
                ),
            ),
            final(self).report().user == old(self).report().user,
            final(self).report().activity_id == old(self).report().activity_id,
            final(self).report().contract_owner == old(self).report().contract_owner,
            final(self).owner() == old(self).owner(),
            old(self).report().wf() && 0 <= activity_id < old(self).report().activity_id
                ==> final(self).report().wf(),
    ;

    /// Confirms the report filed under `activity_id`.
    fn _update(&mut self, activity_id: ActivityId) -> (r: Result<
        SuspeciousActivityUpdateEvent,
        SuspeciousActivityError,
    >)
        ensures
            !old(self).report().suspecious_activity@.contains_key(activity_id) ==> r == Err::<
                SuspeciousActivityUpdateEvent,
                SuspeciousActivityError,
            >(SuspeciousActivityError::ActivityNotFound)
                && final(self).report() == old(self).report(),
            old(self).report().suspecious_activity@.contains_key(activity_id) ==> r == Ok::<
                SuspeciousActivityUpdateEvent,
                SuspeciousActivityError,
            >(SuspeciousActivityUpdateEvent { activity_id }) && confirms(
                old(self).report(),
                final(self).report(),
                activity_id,
            ),
            final(self).owner() == old(self).owner(),
            old(self).report().wf() ==> final(self).report().wf(),
    ;
}

/// Why `caller` may not register as `wallet_address` under `user_name`, if
/// anything stands against it.
pub open spec fn registration_refusal(
    caller: AccountId,
    wallet_address: AccountId,
    user_name: Seq<char>,
) -> Option<SuspeciousActivityError> {
    if caller == zero_account() {
        Some(SuspeciousActivityError::InvalidAccount)
    } else if wallet_address != caller {
        Some(SuspeciousActivityError::InvalidWalletAddress)
    } else if byte_len(user_name) < 3 {
        Some(SuspeciousActivityError::InvalidUserName)
    } else {
        None
    }
}

/// Why `caller` may not report, if anything stands against it.
pub open spec fn reporting_refusal(data: Data, caller: AccountId) -> Option<
    SuspeciousActivityError,
> {
    if caller == zero_account() {
        Some(SuspeciousActivityError::InvalidAccount)
    } else if !data.user@.contains_key(caller) {
        Some(SuspeciousActivityError::UserNotfound)
    } else {
        None
    }
}

/// Why `caller` may not confirm the report filed under `activity_id`, if
/// anything stands against it.
pub open spec fn confirmation_refusal(
    data: Data,
    owner: AccountId,
    caller: AccountId,
    activity_id: ActivityId,
) -> Option<SuspeciousActivityError> {
    if owner != caller {
        Some(SuspeciousActivityError::OwnableError(OwnableError::CallerIsNotOwner))
    } else if !data.suspecious_activity@.contains_key(activity_id) {
        Some(SuspeciousActivityError::ActivityNotFound)
    } else {
        None
    }
}

/// Why `caller` may not reward, with `reward_amount`, the report filed under
/// `activity_id`, if anything stands against it.
pub open spec fn reward_refusal(
    data: Data,
    owner: AccountId,
    caller: AccountId,
    reward_amount: Balance,
    activity_id: ActivityId,
) -> Option<SuspeciousActivityError> {
    if owner != caller {
        Some(SuspeciousActivityError::OwnableError(OwnableError::CallerIsNotOwner))
    } else if !data.suspecious_activity@.contains_key(activity_id) {
        Some(SuspeciousActivityError::ActivityNotFound)
    } else if !data.suspecious_activity@[activity_id].is_valid {
        Some(SuspeciousActivityError::NotEligibleForReward)
    } else if reward_amount == 0 {
        Some(SuspeciousActivityError::ZeroTransferredValue)
    } else {
        None
    }
}

/// The messages of a contract that takes reports of suspicious activity.
pub trait SuspeciousActivitiesTrait: ReportStorage {
    /// Registers `caller`, who must name its own account as `wallet_address` and
    /// a name of at least three bytes, as a user who may report.
    fn register_user(
        &mut self,
        caller: AccountId,
        wallet_address: AccountId,
        user_name: String,
        user_gmail: String,
    ) -> (r: Result<RegisterUserEvent, SuspeciousActivityError>)
        ensures
            r == (match registration_refusal(caller, wallet_address, user_name@) {
                Some(e) => Err::<RegisterUserEvent, SuspeciousActivityError>(e),
                None => Ok::<RegisterUserEvent, SuspeciousActivityError>(
                    RegisterUserEvent { user_address: wallet_address, user_name },
                ),
            }),
            r is Err ==> final(self).report() == old(self).report(),
            r is Ok ==> {
                &&& final(self).report().user@ == old(self).report().user@.insert(
                    wallet_address,
                    User { user_id: REGISTERED_USER_ID, wallet_address, user_name, user_gmail },
                )
                &&& final(self).report().suspecious_activity
                    == old(self).report().suspecious_activity
                &&& final(self).report().activity_id == old(self).report().activity_id
                &&& final(self).report().contract_owner == old(self).report().contract_owner
            },
            final(self).owner() == old(self).owner(),
            old(self).report().wf() ==> final(self).report().wf(),
    ;

    /// Takes a report from `caller`, who must be a registered user, at the time
    /// `now`, and files it under the next identifier.
    fn report_suspecious_activity(
        &mut self,
        caller: AccountId,
        now: Timestamp,
        crime_category: SuspeciousActivityCategory,
        ipfs_image_url: String,
        crime_description: Vec<u8>,
        crime_location: String,
    ) -> (r: Result<ActivityEvent, SuspeciousActivityError>)
        requires
            reporting_refusal(old(self).report(), caller) is None
                ==> old(self).report().activity_id < i32::MAX,
        ensures
            r == (match reporting_refusal(old(self).report(), caller) {
                Some(e) => Err::<ActivityEvent, SuspeciousActivityError>(e),
                None => Ok::<ActivityEvent, SuspeciousActivityError>(
                    ActivityEvent { activity_reporter: caller, time_stamp: now },
                ),
            }),
            r is Err ==> final(self).report() == old(self).report(),
            r is Ok ==> {
                let filed = fresh_report(
                    old(self).report().activity_id,
                    crime_category,
                    ipfs_image_url,
                    crime_description,
                    crime_location,
                    caller,
                    now,
                );
                &&& final(self).report().suspecious_activity@ == old(
                    self,
                ).report().suspecious_activity@.insert(old(self).report().activity_id, filed)
                &&& old(self).report().activity_id >= 0 ==> final(
                    self
                ).report().all_activities() == old(self).report().all_activities().push(filed)
                &&& final(self).report().activity_id == old(self).report().activity_id + 1
                &&& final(self).report().user == old(self).report().user
                &&& final(self).report().contract_owner == old(self).report().contract_owner
            },
            final(self).owner() == old(self).owner(),
            old(self).report().wf() ==> final(self).report().wf(),
    ;

    /// All reports, in the order of their identifiers.
    fn get_suspecious_activity(&mut self) -> (activity: Vec<SuspeciousActivity>)
        ensures
            final(self).report() == old(self).report(),
            final(self).owner() == old(self).owner(),
            activity@.len() == old(self).report().all_activities().len(),
            forall|i: int|
                0 <= i < activity@.len() ==> same_activity(
                    #[trigger] activity@[i],
                    old(self).report().all_activities()[i],
                ),
    ;

    /// Confirms, for the owner, the report filed under `activity_id`. The report
    /// is looked up again under the identifier that it carries, which in a
    /// well-formed register is `activity_id` itself; where none is filed under
    /// that, nothing is confirmed.
    fn update_suspecious_activity(&mut self, caller: AccountId, activity_id: ActivityId) -> (r:
        Result<Option<SuspeciousActivityUpdateEvent>, SuspeciousActivityError>)
        ensures
            match confirmation_refusal(old(self).report(), old(self).owner(), caller, activity_id) {
                Some(e) => r == Err::<
                    Option<SuspeciousActivityUpdateEvent>,
                    SuspeciousActivityError,
                >(e) && final(self).report() == old(self).report(),
                None => {
                    let carried = old(self).report().suspecious_activity@[activity_id].activity_id;
                    if old(self).report().suspecious_activity@.contains_key(carried) {
                        &&& r == Ok::<
                            Option<SuspeciousActivityUpdateEvent>,
                            SuspeciousActivityError,
                        >(Some(SuspeciousActivityUpdateEvent { activity_id: carried }))
                        &&& confirms(old(self).report(), final(self).report(), carried)
                    } else {
                        &&& r == Ok::<
                            Option<SuspeciousActivityUpdateEvent>,
                            SuspeciousActivityError,
                        >(None)
                        &&& final(self).report() == old(self).report()
                    }
                },
            },
            final(self).owner() == old(self).owner(),
            old(self).report().wf() ==> final(self).report().wf(),
            old(self).report().wf() && confirmation_refusal(
                old(self).report(),
                old(self).owner(),
                caller,
                activity_id,
            ) is None ==> r == Ok::<
                Option<SuspeciousActivityUpdateEvent>,
                SuspeciousActivityError,
            >(Some(SuspeciousActivityUpdateEvent { activity_id })) && final(
                self
            ).report().suspecious_activity@[activity_id].is_valid,
    ;

    /// Rewards, for the owner, the reporter of the confirmed report filed under
    /// `activity_id` with the amount `reward_amount`, which must not be zero.
    fn reward_user(
        &mut self,
        caller: AccountId,
        reward_amount: Balance,
        activity_id: ActivityId,
    ) -> (r: Result<(Transfer, RewardUserEvent), SuspeciousActivityError>)
        ensures
            r == (match reward_refusal(
                old(self).report(),
                old(self).owner(),
                caller,
                reward_amount,
                activity_id,
            ) {
                Some(e) => Err::<(Transfer, RewardUserEvent), SuspeciousActivityError>(e),
                None => Ok::<(Transfer, RewardUserEvent), SuspeciousActivityError>(
                    (
                        Transfer {
                            to: old(self).report().suspecious_activity@[activity_id]
                                .activity_reporter,
                            amount: reward_amount,
                        },
                        RewardUserEvent { user_address: caller, value: reward_amount },
                    ),
                ),
            }),
            final(self).report() == old(self).report(),
            final(self).owner() == old(self).owner(),
    ;

    /// Hands out the next report identifier.
    fn activity_next_id(&mut self) -> (activity_id: ActivityId)
        requires
            old(self).report().activity_id < i32::MAX,
        ensures
            activity_id == old(self).report().activity_id,
            final(self).report().activity_id == old(self).report().activity_id + 1,
            final(self).report().suspecious_activity == old(self).report().suspecious_activity,
            final(self).report().user == old(self).report().user,
            final(self).report().contract_owner == old(self).report().contract_owner,
            final(self).owner() == old(self).owner(),
    ;
}

/// Lets `caller` pass unless it is the zero account.
pub fn is_valid_user(caller: AccountId) -> (r: Result<(), SuspeciousActivityError>)
    ensures
        r == (if caller == zero_account() {
            Err::<(), SuspeciousActivityError>(SuspeciousActivityError::InvalidAccount)
        } else {
            Ok::<(), SuspeciousActivityError>(())
        }),
{
    if caller.is_zero() {
        return Err(SuspeciousActivityError::InvalidAccount);
    }
    Ok(())
}

} // verus!
