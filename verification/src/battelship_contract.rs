//! The records of a game of battleships, and the counter that numbers the games.

use vstd::prelude::*;
use crate::account::{AccountId, zero_account};
use crate::store::Store;

verus! {

/// A player's side of a game.
#[derive(Debug, Clone, Copy, PartialEq, Eq)]
pub struct PlayerState {
    pub account: AccountId,
    pub board: [u32; 8],
    pub shot_x: u32,
    pub shot_y: u32,
}

/// The side of the zero account, with nothing placed and no shot made.
pub open spec fn default_player() -> PlayerState {
    PlayerState {
        account: zero_account(),
        board: vstd::array::spec_array_fill_for_copy_type::<u32, 8>(0u32),
        shot_x: 0,
        shot_y: 0,
    }
}

impl Default for PlayerState {
    fn default() -> (r: Self)
        ensures
            r == default_player(),
    {
        Self { account: zero_addres(), board: [0u32;8], shot_x: 0, shot_y: 0 }
    }
}

/// A game between two players.
#[derive(Debug, Clone, Copy, PartialEq, Eq)]
pub struct GameState {
    pub next_turn: u32,
    pub p1: PlayerState,
    pub p2: PlayerState,
    /// What the last shot did: 0 for a miss, 1 for a hit, 2 for a ship sunk.
    pub last_hit: u8,
    /// Which ship the last shot sank.
    pub sunk_what: u8,
}

impl Default for GameState {
    /// The game that nobody has entered yet.
    fn default() -> (r: Self)
        ensures
            r == (GameState {
                next_turn: 0,
                p1: default_player(),
                p2: default_player(),
                last_hit: 0,
                sunk_what: 0,
            }),
    {
        GameState {
            next_turn: 0,
            p1: PlayerState::default(),
            p2: PlayerState::default(),
            last_hit: 0,
            sunk_what: 0,
        }
    }
}

/// The identifier of a game.
pub type GameId = u32;

/// The games played, and the counter that numbers them.
pub struct BattelshipContract {
    pub games: Store<GameId, GameState>,
    /// The identifier that the next game gets.
    pub game_id: u32,
}

impl BattelshipContract {
    /// A contract without games.
    pub fn new() -> (contract: Self)
        ensures
            contract.games@ == Map::<GameId, GameState>::empty(),
            contract.game_id == 0,
    {
        Self { games: Store::new(), game_id: 0 }
    }

    /// Answers a call that asks for nothing.
    pub fn get(&self) {
    }

    /// Hands out the next game identifier.
    pub fn game_next_id(&mut self) -> (id: GameId)
        requires
            old(self).game_id < u32::MAX,
        ensures
            id == old(self).game_id,
            final(self).game_id == old(self).game_id + 1,
            final(self).games == old(self).games,
    {
        let id = self.game_id;
        self.game_id += 1;
        id
    }
}

/// The zero account.
pub fn zero_addres() -> (account: AccountId)
    ensures
        account == zero_account(),
{
    AccountId::zero()
}

} // verus!
