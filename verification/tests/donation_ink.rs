use dapp_contracts::account::AccountId;
use dapp_contracts::donation_ink::{zero_address, Donation, DonationContract};
use dapp_contracts::chain::Transfer;

fn alice() -> AccountId {
    AccountId::new([1u8; 32])
}

fn bob() -> AccountId {
    AccountId::new([2u8; 32])
}

fn eve() -> AccountId {
    AccountId::new([5u8; 32])
}

#[test]
fn register_works() {
    let contract = DonationContract::new(alice(), bob());
    assert_eq!(contract.get_beneficiary(), Some(bob()));
}

#[test]
fn donation_box_starts_at_identifier_one() {
    let mut contract = DonationContract::new(alice(), bob());
    assert_eq!(contract.owner, alice());
    assert_eq!(contract.donation_id, 1);
    assert!(contract.get_donation().is_empty());
}

#[test]
fn donation_is_filed_and_paid_out() {
    let mut contract = DonationContract::new(alice(), bob());
    assert_eq!(contract.donation(eve(), 30), Transfer { to: bob(), amount: 30 });
    assert_eq!(contract.donation(alice(), 12), Transfer { to: bob(), amount: 12 });
    assert_eq!(contract.donation_id, 3);
    assert_eq!(
        contract.get_donation(),
        vec![Donation { account: eve(), amount: 30 }, Donation { account: alice(), amount: 12 }]
    );
    assert_eq!(contract.donations.get(&1), Some(&Donation { account: eve(), amount: 30 }));
    assert_eq!(contract.donations.get(&0), None);
}

#[test]
fn donation_adds_to_what_is_on_file() {
    let mut contract = DonationContract::new(alice(), bob());
    contract.donations.insert(1, Donation { account: alice(), amount: 5 });
    assert_eq!(contract.donation(eve(), 30), Transfer { to: bob(), amount: 30 });
    assert_eq!(contract.donations.get(&1), Some(&Donation { account: eve(), amount: 35 }));
}

#[test]
fn change_beneficiary_redirects_donations() {
    let mut contract = DonationContract::new(alice(), bob());
    contract.change_beneficiary(alice(), eve());
    assert_eq!(contract.get_beneficiary(), Some(eve()));
    assert_eq!(contract.donation(bob(), 1), Transfer { to: eve(), amount: 1 });
}

#[test]
fn next_donation_id_counts_up() {
    let mut contract = DonationContract::new(alice(), bob());
    assert_eq!(contract.next_donation_id(), 1);
    assert_eq!(contract.next_donation_id(), 2);
    assert_eq!(contract.donation(eve(), 9), Transfer { to: bob(), amount: 9 });
    assert_eq!(contract.get_donation(), vec![Donation { account: eve(), amount: 9 }]);
}

#[test]
fn default_donation_is_nothing_from_the_zero_account() {
    assert_eq!(Donation::default(), Donation { account: zero_address(), amount: 0 });
    assert_eq!(zero_address(), AccountId::new([0u8; 32]));
}
