//! The books of a house that lets rooms.

use vstd::prelude::*;
use crate::account::{AccountId, zero_account};
use crate::chain::{Balance, Timestamp, Transfer};
use crate::store::Store;

verus! {

/// The identifier of a room.
pub type RoomId = i32;

/// The identifier of an agreement.
pub type AgreementId = i32;

/// The identifier of a rent.
pub type RentId = i32;

/// A room that a landlord lets.
#[derive(Debug, PartialEq, Eq)]
pub struct Room {
    pub room_id: RoomId,
    pub agreement_id: AgreementId,
    pub room_name: String,
    pub room_address: String,
    pub rent_per_month: Balance,
    pub security_deposit: Balance,
    pub time_stamp: Timestamp,
    pub vacant: bool,
    pub landlord: AccountId,
    pub current_tenant: AccountId,
}

/// What a [`Room`] says, its texts taken as sequences of characters.
pub struct RoomView {
    pub room_id: RoomId,
    pub agreement_id: AgreementId,
    pub room_name: Seq<char>,
    pub room_address: Seq<char>,
    pub rent_per_month: Balance,
    pub security_deposit: Balance,
    pub time_stamp: Timestamp,
    pub vacant: bool,
    pub landlord: AccountId,
    pub current_tenant: AccountId,
}

impl View for Room {
    type V = RoomView;

    open spec fn view(&self) -> RoomView {
        RoomView {
            room_id: self.room_id,
            agreement_id: self.agreement_id,
            room_name: self.room_name@,
            room_address: self.room_address@,
            rent_per_month: self.rent_per_month,
            security_deposit: self.security_deposit,
            time_stamp: self.time_stamp,
            vacant: self.vacant,
            landlord: self.landlord,
            current_tenant: self.current_tenant,
        }
    }
}

/// The room that stands in where none is filed: no name, no address, nothing to
/// pay, let by the zero account to the zero account.
pub open spec fn default_room() -> RoomView {
    RoomView {
        room_id: 0,
        agreement_id: 0,
        room_name: Seq::empty(),
        room_address: Seq::empty(),
        rent_per_month: 0,
        security_deposit: 0,
        time_stamp: 0,
        vacant: false,
        landlord: zero_account(),
        current_tenant: zero_account(),
    }
}

/// The room filed under `room_id`, or the default room where none is.
pub open spec fn room_or_default(rooms: Map<RoomId, Room>, room_id: RoomId) -> RoomView {
    if rooms.contains_key(room_id) {
        rooms[room_id]@
    } else {
        default_room()
    }
}

impl Clone for Room {
    fn clone(&self) -> (r: Self)
        ensures
            r == *self,
    {
        Room {
            room_id: self.room_id,
            agreement_id: self.agreement_id,
            room_name: self.room_name.clone(),
            room_address: self.room_address.clone(),
            rent_per_month: self.rent_per_month,
            security_deposit: self.security_deposit,
            time_stamp: self.time_stamp,
            vacant: self.vacant,
            landlord: self.landlord,
            current_tenant: self.current_tenant,
        }
    }
}

impl Default for Room {
    fn default() -> (r: Self)
        ensures
            r@ == default_room(),
    {
        Room {
            room_id: 0,
            agreement_id: 0,
            room_name: String::new(),
            room_address: String::new(),
            rent_per_month: 0,
            security_deposit: 0,
            time_stamp: 0,
            vacant: false,
            landlord: zero_address(),
            current_tenant: zero_address(),
        }
    }
}

/// The terms on which a tenant took a room.
#[derive(Debug, PartialEq, Eq)]
pub struct RoomAgreement {
    pub room_id: RoomId,
    pub agreement_id: AgreementId,
    pub room_name: String,
    pub room_address: String,
    pub rent_per_month: Balance,
    pub security_deposit: Balance,
    pub lock_in_period: i32,
    pub time_stamp: Timestamp,
}

/// What a [`RoomAgreement`] says, its texts taken as sequences of characters.
pub struct RoomAgreementView {
    pub room_id: RoomId,
    pub agreement_id: AgreementId,
    pub room_name: Seq<char>,
    pub room_address: Seq<char>,
    pub rent_per_month: Balance,
    pub security_deposit: Balance,
    pub lock_in_period: i32,
    pub time_stamp: Timestamp,
}

impl View for RoomAgreement {
    type V = RoomAgreementView;

    open spec fn view(&self) -> RoomAgreementView {
        RoomAgreementView {
            room_id: self.room_id,
            agreement_id: self.agreement_id,
            room_name: self.room_name@,
            room_address: self.room_address@,
            rent_per_month: self.rent_per_month,
            security_deposit: self.security_deposit,
            lock_in_period: self.lock_in_period,
            time_stamp: self.time_stamp,
        }
    }
}

impl Clone for RoomAgreement {
    fn clone(&self) -> (r: Self)
        ensures
            r == *self,
    {
        RoomAgreement {
            room_id: self.room_id,
            agreement_id: self.agreement_id,
            room_name: self.room_name.clone(),
            room_address: self.room_address.clone(),
            rent_per_month: self.rent_per_month,
            security_deposit: self.security_deposit,
            lock_in_period: self.lock_in_period,
            time_stamp: self.time_stamp,
        }
    }
}

impl Default for RoomAgreement {
    /// The agreement on nothing: no room, no name, nothing to pay.
    fn default() -> (r: Self)
        ensures
            r@ == (RoomAgreementView {
                room_id: 0,
                agreement_id: 0,
                room_name: Seq::empty(),
                room_address: Seq::empty(),
                rent_per_month: 0,
                security_deposit: 0,
                lock_in_period: 0,
                time_stamp: 0,
            }),
    {
        RoomAgreement {
            room_id: 0,
            agreement_id: 0,
            room_name: String::new(),
            room_address: String::new(),
            rent_per_month: 0,
            security_deposit: 0,
            lock_in_period: 0,
            time_stamp: 0,
        }
    }
}

/// One payment of rent.
#[derive(Debug, PartialEq, Eq)]
pub struct Rent {
    pub rent_id: RentId,
    pub room_id: RoomId,
    pub agreement_id: AgreementId,
    pub room_name: String,
    pub room_address: String,
    pub rent_per_month: Balance,
    pub time_stamp: Timestamp,
    pub tenant_address: AccountId,
    pub land_lord_address: AccountId,
}

/// What a [`Rent`] says, its texts taken as sequences of characters.
pub struct RentView {
    pub rent_id: RentId,
    pub room_id: RoomId,
    pub agreement_id: AgreementId,
    pub room_name: Seq<char>,
    pub room_address: Seq<char>,
    pub rent_per_month: Balance,
    pub time_stamp: Timestamp,
    pub tenant_address: AccountId,
    pub land_lord_address: AccountId,
}

impl View for Rent {
    type V = RentView;

    open spec fn view(&self) -> RentView {
        RentView {
            rent_id: self.rent_id,
            room_id: self.room_id,
            agreement_id: self.agreement_id,
            room_name: self.room_name@,
            room_address: self.room_address@,
            rent_per_month: self.rent_per_month,
            time_stamp: self.time_stamp,
            tenant_address: self.tenant_address,
            land_lord_address: self.land_lord_address,
        }
    }
}

impl Clone for Rent {
    fn clone(&self) -> (r: Self)
        ensures
            r == *self,
    {
        Rent {
            rent_id: self.rent_id,
            room_id: self.room_id,
            agreement_id: self.agreement_id,
            room_name: self.room_name.clone(),
            room_address: self.room_address.clone(),
            rent_per_month: self.rent_per_month,
            time_stamp: self.time_stamp,
            tenant_address: self.tenant_address,
            land_lord_address: self.land_lord_address,
        }
    }
}

impl Default for Rent {
    /// The payment of nothing, from the zero account to the zero account.
    fn default() -> (r: Self)
        ensures
            r@ == (RentView {
                rent_id: 0,
                room_id: 0,
                agreement_id: 0,
                room_name: Seq::empty(),
                room_address: Seq::empty(),
                rent_per_month: 0,
                time_stamp: 0,
                tenant_address: zero_account(),
                land_lord_address: zero_account(),
            }),
    {
        Rent {
            rent_id: 0,
            room_id: 0,
            agreement_id: 0,
            room_name: String::new(),
            room_address: String::new(),
            rent_per_month: 0,
            time_stamp: 0,
            tenant_address: zero_address(),
            land_lord_address: zero_address(),
        }
    }
}

/// The books of a house that lets rooms: the rooms, the agreements signed and
/// the rents paid, each numbered by a counter of its own.
pub struct Hotel {
    pub tenant: AccountId,
    pub land_lord: AccountId,
    /// The identifier that the next room gets.
    pub room_id: RoomId,
    /// The identifier that the next agreement gets.
    pub agreement_id: AgreementId,
    /// The identifier that the next rent gets.
    pub rent_id: RentId,
    pub room: Store<RoomId, Room>,
    pub agreement: Store<AgreementId, RoomAgreement>,
    pub rent: Store<RentId, Rent>,
}

impl Hotel {
    /// The state that all books are in: the counters have not gone below zero,
    /// and each room, each agreement and each rent is filed under its own
    /// identifier, which its counter has handed out.
    pub open spec fn wf(&self) -> bool {
        &&& 0 <= self.room_id
        &&& 0 <= self.agreement_id
        &&& 0 <= self.rent_id
        &&& forall|k: RoomId| #[trigger]
            self.room@.contains_key(k) ==> {
                &&& 0 <= k < self.room_id
                &&& self.room@[k].room_id == k
            }
        &&& forall|k: AgreementId| #[trigger]
            self.agreement@.contains_key(k) ==> {
                &&& 0 <= k < self.agreement_id
                &&& self.agreement@[k].agreement_id == k
            }
        &&& forall|k: RentId| #[trigger]
            self.rent@.contains_key(k) ==> {
                &&& 0 <= k < self.rent_id
                &&& self.rent@[k].rent_id == k
            }
    }

    /// Whether `other` differs from these books at most in what the counters and
    /// the stores of agreements and rents hold.
    pub open spec fn same_house(&self, other: &Hotel) -> bool {
        &&& self.tenant == other.tenant
        &&& self.land_lord == other.land_lord
        &&& self.room_id == other.room_id
        &&& self.room == other.room
    }

    /// Empty books.
    pub fn new() -> (hotel: Self)
        ensures
            hotel.tenant == zero_account(),
            hotel.land_lord == zero_account(),
            hotel.room_id == 0,
            hotel.agreement_id == 0,
            hotel.rent_id == 0,
            hotel.room@ == Map::<RoomId, Room>::empty(),
            hotel.agreement@ == Map::<AgreementId, RoomAgreement>::empty(),
            hotel.rent@ == Map::<RentId, Rent>::empty(),
            hotel.wf(),
    {
        Hotel {
            tenant: zero_address(),
            land_lord: zero_address(),
            room_id: 0,
            agreement_id: 0,
            rent_id: 0,
            room: Store::new(),
            agreement: Store::new(),
            rent: Store::new(),
        }
    }

    /// Enters a room let by `caller`. The room takes the next room identifier, under
    /// which it is filed, and the next agreement identifier.
    pub fn add_room(
        &mut self,
        caller: AccountId,
        room_name: String,
        room_address: String,
        rent_per_month: Balance,
        security_deposit: Balance,
        time_stamp: Timestamp,
    )
        requires
            old(self).room_id < i32::MAX,
            old(self).agreement_id < i32::MAX,
        ensures
            final(self).room@ == old(self).room@.insert(
                old(self).room_id,
                Room {
                    room_id: old(self).room_id,
                    agreement_id: old(self).agreement_id,
                    room_name,
                    room_address,
                    rent_per_month,
                    security_deposit,
                    time_stamp,
                    vacant: false,
                    landlord: caller,
                    current_tenant: zero_account(),
                },
            ),
            final(self).room_id == old(self).room_id + 1,
            final(self).agreement_id == old(self).agreement_id + 1,
            final(self).rent_id == old(self).rent_id,
            final(self).tenant == old(self).tenant,
            final(self).land_lord == old(self).land_lord,
            final(self).agreement == old(self).agreement,
            final(self).rent == old(self).rent,
            old(self).wf() ==> final(self).wf(),
    {
        let room_id = self.next_room_id();
        let agreement_id = self.next_agreement_id();
        let new_room = Room {
            room_id,
            agreement_id,
            room_name,
            room_address,
            rent_per_month,
            security_deposit,
            time_stamp,
            vacant: false,
            landlord: caller,
            current_tenant: zero_address(),
        };
        self.room.insert(room_id, new_room);
    }

    /// Signs an agreement of `caller` on the room `room_id` at the time `now`:
    /// files the agreement under the next agreement identifier and the first rent
    /// under the next rent identifier, and orders the first month's rent and the
    /// deposit paid to the landlord. The room itself stays as it is filed. Where
    /// no room is filed under `room_id`, the default room stands in.
    pub fn sign_aggrement(&mut self, caller: AccountId, now: Timestamp, room_id: RoomId) -> (fee:
        Transfer)
        requires
            room_or_default(old(self).room@, room_id).rent_per_month + room_or_default(
                old(self).room@,
                room_id,
            ).security_deposit <= u128::MAX,
            old(self).agreement_id < i32::MAX,
            old(self).rent_id < i32::MAX,
        ensures
            ({
                let room = room_or_default(old(self).room@, room_id);
                let agreement_id = old(self).agreement_id;
                let rent_id = old(self).rent_id;
                &&& fee == Transfer {
                    to: room.landlord,
                    amount: (room.rent_per_month + room.security_deposit) as u128,
                }
                &&& final(self).agreement@.contains_key(agreement_id)
                &&& final(self).agreement@[agreement_id]@ == RoomAgreementView {
                    room_id,
                    agreement_id,
                    room_name: room.room_name,
                    room_address: room.room_address,
                    rent_per_month: room.rent_per_month,
                    security_deposit: room.security_deposit,
                    lock_in_period: 1,
                    time_stamp: now,
                }
                &&& final(self).agreement@ == old(self).agreement@.insert(
                    agreement_id,
                    final(self).agreement@[agreement_id],
                )
                &&& final(self).rent@.contains_key(rent_id)
                &&& final(self).rent@[rent_id]@ == RentView {
                    rent_id,
                    room_id,
                    agreement_id,
                    room_name: room.room_name,
                    room_address: room.room_address,
                    rent_per_month: room.rent_per_month,
                    time_stamp: now,
                    tenant_address: caller,
                    land_lord_address: room.landlord,
                }
                &&& final(self).rent@ == old(self).rent@.insert(rent_id, final(self).rent@[rent_id])
                &&& final(self).agreement_id == agreement_id + 1
                &&& final(self).rent_id == rent_id + 1
                &&& final(self).same_house(old(self))
            }),
            old(self).wf() ==> final(self).wf(),
    {
        let mut room = match self.room.get(&room_id) {
            Some(filed) => filed.clone(),
            None => Room::default(),
        };
        let landlord = room.landlord;
        let total_fee = room.rent_per_month + room.security_deposit;
        let fee = Transfer { to: landlord, amount: total_fee };
        let agreement_id = self.next_agreement_id();
        room.current_tenant = caller;
        room.vacant = false;
        room.time_stamp = now;
        room.agreement_id = agreement_id;
        let agreement = RoomAgreement {
            room_id,
            agreement_id,
            room_name: room.room_name.clone(),
            room_address: room.room_address.clone(),
            rent_per_month: room.rent_per_month,
            security_deposit: room.security_deposit,
            lock_in_period: 1,
            time_stamp: room.time_stamp,
        };
        self.agreement.insert(agreement_id, agreement);
        let rent_id = self.next_rent_id();
        let rent = Rent {
            rent_id,
            room_id,
            agreement_id,
            room_name: room.room_name,
            room_address: room.room_address,
            rent_per_month: room.rent_per_month,
            time_stamp: room.time_stamp,
            tenant_address: caller,
            land_lord_address: landlord,
        };
        self.rent.insert(rent_id, rent);
        fee
    }

    /// Pays a month's rent of `caller` for the room `room_id`: files the rent
    /// under the next rent identifier, with the next agreement identifier and the
    /// time at which the room was filed, and orders the rent paid to the landlord.
    /// The room itself stays as it is filed. Where no room is filed under
    /// `room_id`, the default room stands in.
    pub fn pay_rent(&mut self, caller: AccountId, room_id: RoomId) -> (payment: Transfer)
        requires
            old(self).agreement_id < i32::MAX,
            old(self).rent_id < i32::MAX,
        ensures
            ({
                let room = room_or_default(old(self).room@, room_id);
                let agreement_id = old(self).agreement_id;
                let rent_id = old(self).rent_id;
                &&& payment == Transfer { to: room.landlord, amount: room.rent_per_month }
                &&& final(self).rent@.contains_key(rent_id)
                &&& final(self).rent@[rent_id]@ == RentView {
                    rent_id,
                    room_id,
                    agreement_id,
                    room_name: room.room_name,
                    room_address: room.room_address,
                    rent_per_month: room.rent_per_month,
                    time_stamp: room.time_stamp,
                    tenant_address: caller,
                    land_lord_address: room.landlord,
                }
                &&& final(self).rent@ == old(self).rent@.insert(rent_id, final(self).rent@[rent_id])
                &&& final(self).agreement == old(self).agreement
                &&& final(self).agreement_id == agreement_id + 1
                &&& final(self).rent_id == rent_id + 1
                &&& final(self).same_house(old(self))
            }),
            old(self).wf() ==> final(self).wf(),
    {
        let mut room = match self.room.get(&room_id) {
            Some(filed) => filed.clone(),
            None => Room::default(),
        };
        let landlord = room.landlord;
        let rent = room.rent_per_month;
        let payment = Transfer { to: landlord, amount: rent };
        room.current_tenant = caller;
        room.vacant = false;
        let rent_id = self.next_rent_id();
        let agreement_id = self.next_agreement_id();
        let rent = Rent {
            rent_id,
            room_id,
            agreement_id,
            room_name: room.room_name,
            room_address: room.room_address,
            rent_per_month: room.rent_per_month,
            time_stamp: room.time_stamp,
            tenant_address: caller,
            land_lord_address: landlord,
        };
        self.rent.insert(rent_id, rent);
        payment
    }

    /// Ends the agreement on the room `room_id` in good order: orders the deposit
    /// paid back to the room's tenant. Where no room is filed under `room_id`, the
    /// default room stands in.
    pub fn agreement_completed(&self, room_id: RoomId) -> (refund: Transfer)
        ensures
            refund == (Transfer {
                to: room_or_default(self.room@, room_id).current_tenant,
                amount: room_or_default(self.room@, room_id).security_deposit,
            }),
    {
        let room = match self.room.get(&room_id) {
            Some(filed) => filed.clone(),
            None => Room::default(),
        };
        let tenant = room.current_tenant;
        let security_deposit = room.security_deposit;
        Transfer { to: tenant, amount: security_deposit }
    }

    /// Breaks off the agreement on the room `room_id`. The room is looked up and a
    /// copy of it marked vacant; the books themselves stay as they are.
    pub fn agreement_terminated(&self, room_id: RoomId) {
        let mut room = match self.room.get(&room_id) {
            Some(filed) => filed.clone(),
            None => Room::default(),
        };
        room.vacant = true;
    }

    /// Hands out the next room identifier.
    pub fn next_room_id(&mut self) -> (room_id: RoomId)
        requires
            old(self).room_id < i32::MAX,
        ensures
            room_id == old(self).room_id,
            *final(self) == (Hotel { room_id: (old(self).room_id + 1) as i32, ..*old(self) }),
    {
        let room_id = self.room_id;
        self.room_id += 1;
        room_id
    }

    /// Hands out the next agreement identifier.
    pub fn next_agreement_id(&mut self) -> (agreement_id: RoomId)
        requires
            old(self).agreement_id < i32::MAX,
        ensures
            agreement_id == old(self).agreement_id,
            *final(self) == (Hotel {
                agreement_id: (old(self).agreement_id + 1) as i32,
                ..*old(self)
            }),
    {
        let agreement_id = self.agreement_id;
        self.agreement_id += 1;
        agreement_id
    }

    /// Hands out the next rent identifier.
    pub fn next_rent_id(&mut self) -> (rent_id: RoomId)
        requires
            old(self).rent_id < i32::MAX,
        ensures
            rent_id == old(self).rent_id,
            *final(self) == (Hotel { rent_id: (old(self).rent_id + 1) as i32, ..*old(self) }),
    {
        let rent_id = self.rent_id;
        self.rent_id += 1;
        rent_id
    }
}

/// The zero account.
pub fn zero_address() -> (account: AccountId)
    ensures
        account == zero_account(),
{
    AccountId::zero()
}

} // verus!
