use dapp_contracts::account::AccountId;
use dapp_contracts::chain::Transfer;
use dapp_contracts::hotel::{zero_address, Hotel, Rent, Room, RoomAgreement};

fn landlord() -> AccountId {
    AccountId::new([10u8; 32])
}

fn tenant() -> AccountId {
    AccountId::new([20u8; 32])
}

fn zero() -> AccountId {
    AccountId::new([0u8; 32])
}

fn hotel_with_room() -> Hotel {
    let mut hotel = Hotel::new();
    hotel.add_room(landlord(), "Blue".to_string(), "1 Main St".to_string(), 100, 50, 7);
    hotel
}

#[test]
fn zero_address_is_all_zero_bytes() {
    assert_eq!(zero_address(), zero());
    assert_eq!(zero_address().bytes, [0u8; 32]);
    assert!(zero_address().is_zero());
    assert!(!landlord().is_zero());
}

#[test]
fn hotel_starts_empty() {
    let hotel = Hotel::new();
    assert_eq!(hotel.tenant, zero());
    assert_eq!(hotel.land_lord, zero());
    assert_eq!((hotel.room_id, hotel.agreement_id, hotel.rent_id), (0, 0, 0));
    assert!(hotel.room.entries().is_empty());
    assert!(hotel.agreement.entries().is_empty());
    assert!(hotel.rent.entries().is_empty());
}

#[test]
fn add_room_files_the_room_under_its_identifier() {
    let mut hotel = hotel_with_room();
    assert_eq!((hotel.room_id, hotel.agreement_id, hotel.rent_id), (1, 1, 0));
    assert_eq!(
        hotel.room.get(&0),
        Some(&Room {
            room_id: 0,
            agreement_id: 0,
            room_name: "Blue".to_string(),
            room_address: "1 Main St".to_string(),
            rent_per_month: 100,
            security_deposit: 50,
            time_stamp: 7,
            vacant: false,
            landlord: landlord(),
            current_tenant: zero(),
        })
    );
    assert_eq!(hotel.room.get(&1), None);
    hotel.add_room(tenant(), "Red".to_string(), "2 Main St".to_string(), 1, 2, 3);
    assert_eq!(hotel.room.entries().len(), 2);
    let room = hotel.room.get(&1).unwrap();
    assert_eq!(room.room_id, 1);
    assert_eq!(room.agreement_id, 1);
    assert_eq!(room.room_name, "Red");
    assert_eq!(room.landlord, tenant());
    assert_eq!(hotel.room.get(&0).unwrap().room_name, "Blue");
    assert_eq!((hotel.room_id, hotel.agreement_id), (2, 2));
}

#[test]
fn n_rooms_are_filed_under_n_identifiers_in_order() {
    let mut hotel = Hotel::new();
    for i in 0..12 {
        hotel.add_room(landlord(), format!("room {}", i), String::new(), i as u128, 0, 0);
    }
    assert_eq!(hotel.room.entries().len(), 12);
    for i in 0..12 {
        let room = hotel.room.get(&i).unwrap();
        assert_eq!(room.room_id, i);
        assert_eq!(room.room_name, format!("room {}", i));
        assert_eq!(room.rent_per_month, i as u128);
    }
    assert_eq!(hotel.room.get(&12), None);
    assert_eq!(hotel.room_id, 12);
}

#[test]
fn sign_aggrement_files_agreement_and_rent() {
    let mut hotel = hotel_with_room();
    let fee = hotel.sign_aggrement(tenant(), 99, 0);
    assert_eq!(fee, Transfer { to: landlord(), amount: 150 });
    assert_eq!(
        hotel.agreement.get(&1),
        Some(&RoomAgreement {
            room_id: 0,
            agreement_id: 1,
            room_name: "Blue".to_string(),
            room_address: "1 Main St".to_string(),
            rent_per_month: 100,
            security_deposit: 50,
            lock_in_period: 1,
            time_stamp: 99,
        })
    );
    assert_eq!(
        hotel.rent.get(&0),
        Some(&Rent {
            rent_id: 0,
            room_id: 0,
            agreement_id: 1,
            room_name: "Blue".to_string(),
            room_address: "1 Main St".to_string(),
            rent_per_month: 100,
            time_stamp: 99,
            tenant_address: tenant(),
            land_lord_address: landlord(),
        })
    );
    assert_eq!((hotel.room_id, hotel.agreement_id, hotel.rent_id), (1, 2, 1));
    // the room itself stays as it was filed
    let room = hotel.room.get(&0).unwrap();
    assert_eq!(room.current_tenant, zero());
    assert_eq!(room.time_stamp, 7);
    assert_eq!(room.agreement_id, 0);
}

#[test]
fn sign_aggrement_on_a_missing_room_uses_the_default_room() {
    let mut hotel = hotel_with_room();
    let fee = hotel.sign_aggrement(tenant(), 5, 4);
    assert_eq!(fee, Transfer { to: zero(), amount: 0 });
    assert_eq!(
        hotel.agreement.get(&1),
        Some(&RoomAgreement {
            room_id: 4,
            agreement_id: 1,
            room_name: String::new(),
            room_address: String::new(),
            rent_per_month: 0,
            security_deposit: 0,
            lock_in_period: 1,
            time_stamp: 5,
        })
    );
    assert_eq!(hotel.rent.get(&0).unwrap().land_lord_address, zero());
    assert_eq!(hotel.rent.get(&0).unwrap().tenant_address, tenant());
}

#[test]
fn pay_rent_files_a_rent() {
    let mut hotel = hotel_with_room();
    hotel.sign_aggrement(tenant(), 99, 0);
    let payment = hotel.pay_rent(tenant(), 0);
    assert_eq!(payment, Transfer { to: landlord(), amount: 100 });
    assert_eq!(
        hotel.rent.get(&1),
        Some(&Rent {
            rent_id: 1,
            room_id: 0,
            agreement_id: 2,
            room_name: "Blue".to_string(),
            room_address: "1 Main St".to_string(),
            rent_per_month: 100,
            time_stamp: 7,
            tenant_address: tenant(),
            land_lord_address: landlord(),
        })
    );
    assert_eq!((hotel.room_id, hotel.agreement_id, hotel.rent_id), (1, 3, 2));
    assert_eq!(hotel.agreement.entries().len(), 1);
    let payment = hotel.pay_rent(tenant(), 8);
    assert_eq!(payment, Transfer { to: zero(), amount: 0 });
    assert_eq!(hotel.rent.get(&2).unwrap().room_id, 8);
}

#[test]
fn agreement_completed_returns_the_deposit() {
    let mut hotel = hotel_with_room();
    hotel.sign_aggrement(tenant(), 99, 0);
    assert_eq!(hotel.agreement_completed(0), Transfer { to: zero(), amount: 50 });
    assert_eq!(hotel.agreement_completed(2), Transfer { to: zero(), amount: 0 });
    hotel.room.insert(
        0,
        Room {
            room_id: 0,
            agreement_id: 1,
            room_name: "Blue".to_string(),
            room_address: "1 Main St".to_string(),
            rent_per_month: 100,
            security_deposit: 75,
            time_stamp: 7,
            vacant: false,
            landlord: landlord(),
            current_tenant: tenant(),
        },
    );
    assert_eq!(hotel.agreement_completed(0), Transfer { to: tenant(), amount: 75 });
}

#[test]
fn agreement_terminated_leaves_the_books_alone() {
    let mut hotel = hotel_with_room();
    hotel.sign_aggrement(tenant(), 99, 0);
    hotel.agreement_terminated(0);
    hotel.agreement_terminated(3);
    assert!(!hotel.room.get(&0).unwrap().vacant);
    assert_eq!(hotel.room.entries().len(), 1);
    assert_eq!((hotel.room_id, hotel.agreement_id, hotel.rent_id), (1, 2, 1));
}

#[test]
fn hotel_counters_hand_out_identifiers_in_order() {
    let mut hotel = Hotel::new();
    assert_eq!(hotel.next_room_id(), 0);
    assert_eq!(hotel.next_room_id(), 1);
    assert_eq!(hotel.next_agreement_id(), 0);
    assert_eq!(hotel.next_rent_id(), 0);
    assert_eq!(hotel.next_rent_id(), 1);
    assert_eq!(hotel.next_rent_id(), 2);
    assert_eq!((hotel.room_id, hotel.agreement_id, hotel.rent_id), (2, 1, 3));
}

#[test]
fn hotel_defaults_are_empty() {
    let room = Room::default();
    assert_eq!(room.room_name, "");
    assert_eq!(room.landlord, zero());
    assert_eq!(room.current_tenant, zero());
    assert!(!room.vacant);
    assert_eq!((room.room_id, room.agreement_id, room.rent_per_month), (0, 0, 0));
    let agreement = RoomAgreement::default();
    assert_eq!(agreement.lock_in_period, 0);
    assert_eq!(agreement.room_address, "");
    let rent = Rent::default();
    assert_eq!(rent.tenant_address, zero());
    assert_eq!(rent.land_lord_address, zero());
    assert_eq!(rent.clone(), rent);
    assert_eq!(agreement.clone(), agreement);
    assert_eq!(room.clone(), room);
}
