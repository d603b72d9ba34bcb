use dapp_contracts::account::AccountId;
use dapp_contracts::chain::Transfer;
use dapp_contracts::ownable::{self, OwnableError};
use dapp_contracts::suspicious_activity::report::{
    is_valid_user, Internal, SuspeciousActivitiesTrait,
};
use dapp_contracts::suspicious_activity::types::{
    Data, SuspeciousActivity, SuspeciousActivityCategory, SuspeciousActivityError, User,
};
use dapp_contracts::suspicious_activity::{
    ActivityEvent, RegisterUserEvent, RewardUserEvent, SuspeciousActivityUpdateEvent,
    SuspiciousActivitiesContract,
};

fn owner() -> AccountId {
    AccountId::new([9u8; 32])
}

fn reporter() -> AccountId {
    AccountId::new([3u8; 32])
}

fn zero() -> AccountId {
    AccountId::new([0u8; 32])
}

fn with_reporter() -> SuspiciousActivitiesContract {
    let mut contract = SuspiciousActivitiesContract::new(owner());
    contract
        .register_user(reporter(), reporter(), "Rae".to_string(), "rae@mail".to_string())
        .unwrap();
    contract
}

fn report(
    contract: &mut SuspiciousActivitiesContract,
    now: u64,
) -> Result<ActivityEvent, SuspeciousActivityError> {
    contract.report_suspecious_activity(
        reporter(),
        now,
        SuspeciousActivityCategory::TheftCrime,
        "ipfs://image".to_string(),
        vec![1, 2, 3],
        "harbour".to_string(),
    )
}

fn filed(activity_id: i32, is_valid: bool, now: u64) -> SuspeciousActivity {
    SuspeciousActivity {
        activity_id,
        crime_category: SuspeciousActivityCategory::TheftCrime,
        ipfs_image_url: "ipfs://image".to_string(),
        crime_description: vec![1, 2, 3],
        crime_location: "harbour".to_string(),
        is_valid,
        activity_reporter: reporter(),
        reporting_time_stamp: now,
    }
}

#[test]
fn contract_starts_owned_and_empty() {
    let mut contract = SuspiciousActivitiesContract::new(owner());
    assert_eq!(contract.ownable.owner, owner());
    assert_eq!(contract.activity_data.contract_owner, owner());
    assert_eq!(contract.activity_data.activity_id, 0);
    assert!(contract.get_suspecious_activity().is_empty());
    assert!(contract.activity_data.user.entries().is_empty());
}

#[test]
fn is_valid_user_refuses_the_zero_account() {
    assert_eq!(is_valid_user(zero()), Err(SuspeciousActivityError::InvalidAccount));
    assert_eq!(is_valid_user(reporter()), Ok(()));
}

#[test]
fn register_user_checks_in_order() {
    let mut contract = SuspiciousActivitiesContract::new(owner());
    assert_eq!(
        contract.register_user(zero(), reporter(), "R".to_string(), "m".to_string()),
        Err(SuspeciousActivityError::InvalidAccount)
    );
    assert_eq!(
        contract.register_user(reporter(), owner(), "R".to_string(), "m".to_string()),
        Err(SuspeciousActivityError::InvalidWalletAddress)
    );
    assert_eq!(
        contract.register_user(reporter(), reporter(), "Ra".to_string(), "m".to_string()),
        Err(SuspeciousActivityError::InvalidUserName)
    );
    assert!(contract.activity_data.user.entries().is_empty());
    assert_eq!(
        contract.register_user(reporter(), reporter(), "Rae".to_string(), "m".to_string()),
        Ok(RegisterUserEvent { user_address: reporter(), user_name: "Rae".to_string() })
    );
    assert_eq!(
        contract.activity_data.user.get(&reporter()),
        Some(&User {
            user_id: 1,
            wallet_address: reporter(),
            user_name: "Rae".to_string(),
            user_gmail: "m".to_string(),
        })
    );
}

#[test]
fn report_needs_a_registered_user() {
    let mut contract = SuspiciousActivitiesContract::new(owner());
    assert_eq!(report(&mut contract, 1), Err(SuspeciousActivityError::UserNotfound));
    assert_eq!(
        contract.report_suspecious_activity(
            zero(),
            1,
            SuspeciousActivityCategory::Homicide,
            String::new(),
            vec![],
            String::new()
        ),
        Err(SuspeciousActivityError::InvalidAccount)
    );
    assert_eq!(contract.activity_data.activity_id, 0);
}

#[test]
fn report_is_filed_under_the_next_identifier() {
    let mut contract = with_reporter();
    assert_eq!(
        report(&mut contract, 77),
        Ok(ActivityEvent { activity_reporter: reporter(), time_stamp: 77 })
    );
    assert_eq!(contract.activity_data.activity_id, 1);
    assert_eq!(contract.activity_data.suspecious_activity.get(&0), Some(&filed(0, false, 77)));
    assert_eq!(contract.activity_data.suspecious_activity.get(&1), None);
    assert_eq!(contract.get_suspecious_activity(), vec![filed(0, false, 77)]);
    report(&mut contract, 78).unwrap();
    assert_eq!(contract.activity_data.activity_id, 2);
    assert_eq!(
        contract.get_suspecious_activity(),
        vec![filed(0, false, 77), filed(1, false, 78)]
    );
}

#[test]
fn n_reports_give_n_entries_numbered_in_order() {
    let mut contract = with_reporter();
    for now in 0..15 {
        report(&mut contract, now).unwrap();
    }
    let all = contract.get_suspecious_activity();
    assert_eq!(all.len(), 15);
    for (i, activity) in all.iter().enumerate() {
        assert_eq!(activity.activity_id, i as i32);
        assert_eq!(activity.reporting_time_stamp, i as u64);
    }
}

#[test]
fn update_is_for_the_owner() {
    let mut contract = with_reporter();
    report(&mut contract, 77).unwrap();
    assert_eq!(
        contract.update_suspecious_activity(reporter(), 0),
        Err(SuspeciousActivityError::OwnableError(OwnableError::CallerIsNotOwner))
    );
    assert_eq!(
        contract.update_suspecious_activity(owner(), 1),
        Err(SuspeciousActivityError::ActivityNotFound)
    );
    assert_eq!(contract.get_suspecious_activity(), vec![filed(0, false, 77)]);
}

#[test]
fn update_confirms_the_report() {
    let mut contract = with_reporter();
    report(&mut contract, 77).unwrap();
    report(&mut contract, 78).unwrap();
    assert_eq!(
        contract.update_suspecious_activity(owner(), 1),
        Ok(Some(SuspeciousActivityUpdateEvent { activity_id: 1 }))
    );
    assert_eq!(
        contract.get_suspecious_activity(),
        vec![filed(0, false, 77), filed(1, true, 78)]
    );
    assert_eq!(contract.activity_data.activity_id, 2);
}

#[test]
fn update_looks_the_report_up_under_the_identifier_it_carries() {
    let mut contract = with_reporter();
    // a report that carries an identifier under which nothing is filed
    contract.activity_data.suspecious_activity.insert(3, filed(9, false, 1));
    assert_eq!(contract.update_suspecious_activity(owner(), 3), Ok(None));
    assert_eq!(contract.activity_data.suspecious_activity.get(&3), Some(&filed(9, false, 1)));
    // a report that carries the identifier of another
    contract.activity_data.suspecious_activity.insert(9, filed(4, false, 2));
    assert_eq!(
        contract.update_suspecious_activity(owner(), 3),
        Ok(Some(SuspeciousActivityUpdateEvent { activity_id: 9 }))
    );
    assert_eq!(contract.activity_data.suspecious_activity.get(&4), Some(&filed(4, true, 2)));
    assert_eq!(contract.activity_data.suspecious_activity.get(&9), Some(&filed(4, false, 2)));
    assert_eq!(contract.activity_data.suspecious_activity.get(&3), Some(&filed(9, false, 1)));
}

#[test]
fn internal_update_confirms_or_refuses() {
    let mut contract = with_reporter();
    report(&mut contract, 1).unwrap();
    report(&mut contract, 2).unwrap();
    assert_eq!(contract._update(2), Err(SuspeciousActivityError::ActivityNotFound));
    assert_eq!(contract._update(0), Ok(SuspeciousActivityUpdateEvent { activity_id: 0 }));
    assert_eq!(
        contract.get_suspecious_activity(),
        vec![filed(0, true, 1), filed(1, false, 2)]
    );
}

#[test]
fn internal_steps_file_what_they_are_given() {
    let mut contract = SuspiciousActivitiesContract::new(owner());
    assert_eq!(
        contract._register(reporter(), "X".to_string(), "x@mail".to_string()),
        Ok(RegisterUserEvent { user_address: reporter(), user_name: "X".to_string() })
    );
    assert_eq!(contract.activity_data.user.get(&reporter()).unwrap().user_name, "X");
    assert_eq!(
        contract._report_activity(
            owner(),
            5,
            40,
            SuspeciousActivityCategory::MoneyLaundering,
            "u".to_string(),
            vec![9],
            "l".to_string()
        ),
        Ok(ActivityEvent { activity_reporter: owner(), time_stamp: 5 })
    );
    let filed = contract.activity_data.suspecious_activity.get(&40).unwrap();
    assert_eq!(filed.activity_id, 40);
    assert_eq!(filed.activity_reporter, owner());
    assert_eq!(filed.crime_category, SuspeciousActivityCategory::MoneyLaundering);
    assert_eq!(contract.activity_next_id(), 0);
    assert_eq!(contract.activity_next_id(), 1);
}

#[test]
fn reward_checks_in_order() {
    let mut contract = with_reporter();
    report(&mut contract, 1).unwrap();
    report(&mut contract, 2).unwrap();
    assert_eq!(
        contract.reward_user(reporter(), 10, 1),
        Err(SuspeciousActivityError::OwnableError(OwnableError::CallerIsNotOwner))
    );
    assert_eq!(
        contract.reward_user(owner(), 10, 5),
        Err(SuspeciousActivityError::ActivityNotFound)
    );
    assert_eq!(
        contract.reward_user(owner(), 0, 1),
        Err(SuspeciousActivityError::NotEligibleForReward)
    );
    contract.update_suspecious_activity(owner(), 1).unwrap();
    assert_eq!(
        contract.reward_user(owner(), 0, 1),
        Err(SuspeciousActivityError::ZeroTransferredValue)
    );
    assert_eq!(
        contract.reward_user(owner(), 10, 1),
        Ok((
            Transfer { to: reporter(), amount: 10 },
            RewardUserEvent { user_address: owner(), value: 10 }
        ))
    );
}

#[test]
fn ownable_error_becomes_a_contract_error() {
    assert_eq!(
        SuspeciousActivityError::from(OwnableError::NewOwnerIsZero),
        SuspeciousActivityError::OwnableError(OwnableError::NewOwnerIsZero)
    );
    let data = ownable::Data::new(owner());
    assert_eq!(data.only_owner(owner()), Ok(()));
    assert_eq!(data.only_owner(reporter()), Err(OwnableError::CallerIsNotOwner));
}

#[test]
fn report_defaults_are_empty() {
    let user = User::default();
    assert_eq!(user.wallet_address, zero());
    assert_eq!((user.user_id, user.user_name.as_str(), user.user_gmail.as_str()), (0, "", ""));
    let activity = SuspeciousActivity::default();
    assert_eq!(activity.crime_category, SuspeciousActivityCategory::CriminalAttempt);
    assert_eq!(activity.activity_reporter, zero());
    assert!(!activity.is_valid);
    assert!(activity.crime_description.is_empty());
    assert_eq!(activity.clone(), activity);
    assert_eq!(user.clone(), user);
    let data = Data::default();
    assert_eq!(data.contract_owner, zero());
    assert_eq!(data.activity_id, 0);
}
