//! A game of battleships for two players: opening and joining games.

use vstd::prelude::*;
use crate::account::{AccountId, zero_account};
use crate::store::Store;

verus! {

/// A player's side of a game.
#[derive(Debug, Clone, Copy, PartialEq, Eq)]
pub struct PlayerState {
    pub account: AccountId,
    pub board: [u32; 8],
    pub shot_x: u32,
    pub shot_y: u32,
}

/// The board on which nothing is placed.
pub open spec fn empty_board() -> [u32; 8] {
    vstd::array::spec_array_fill_for_copy_type::<u32, 8>(0u32)
}

/// The side of the player `account` who has placed nothing and shoots at the
/// square (`shot_x`, `shot_y`).
pub open spec fn fresh_player(account: AccountId, shot_x: u32, shot_y: u32) -> PlayerState {
    PlayerState { account, board: empty_board(), shot_x, shot_y }
}

impl Default for PlayerState {
    /// The side of the zero account, with nothing placed and no shot made.
    fn default() -> (r: Self)
        ensures
            r == fresh_player(zero_account(), 0, 0),
    {
        Self { account: zero_addres(), board: [0u32;8], shot_x: 0, shot_y: 0 }
    }
}

/// A game between two players.
#[derive(Debug, Clone, Copy, PartialEq, Eq)]
pub struct GameState {
    pub next_turn: u32,
    pub p1: PlayerState,
    pub p2: PlayerState,
    /// What the last shot did: 0 for a miss, 1 for a hit, 2 for a ship sunk.
    pub last_hit: u8,
    /// Which ship the last shot sank.
    pub sunk_what: u8,
}

/// The game that nobody has entered yet.
pub open spec fn default_game() -> GameState {
    GameState {
        next_turn: 0,
        p1: fresh_player(zero_account(), 0, 0),
        p2: fresh_player(zero_account(), 0, 0),
        last_hit: 0,
        sunk_what: 0,
    }
}

impl Default for GameState {
    fn default() -> (r: Self)
        ensures
            r == default_game(),
    {
        GameState {
            next_turn: 0,
            p1: PlayerState::default(),
            p2: PlayerState::default(),
            last_hit: 0,
            sunk_what: 0,
        }
    }
}

/// The identifier of a game.
pub type GameId = u32;

/// The games played, each filed under the identifier it was opened or joined
/// with.
pub struct BattelshipContract {
    pub games: Store<GameId, GameState>,
    /// The identifier that the next call gets.
    pub game_id: u32,
}

/// The game filed under `id`, or the game that nobody has entered where none is.
pub open spec fn game_or_default(games: Map<GameId, GameState>, id: GameId) -> GameState {
    if games.contains_key(id) {
        games[id]
    } else {
        default_game()
    }
}

impl BattelshipContract {
    /// The state that the contract is always in: every game is filed under an
    /// identifier that the counter has handed out.
    pub open spec fn wf(&self) -> bool {
        forall|k: GameId| #[trigger] self.games@.contains_key(k) ==> k < self.game_id
    }

    /// A contract without games.
    pub fn new() -> (contract: Self)
        ensures
            contract.games@ == Map::<GameId, GameState>::empty(),
            contract.game_id == 0,
            contract.wf(),
    {
        Self { games: Store::new(), game_id: 0 }
    }

    /// Opens a game under the next identifier, with `caller` as its first player.
    /// No game may be filed under that identifier yet.
    pub fn new_game(&mut self, caller: AccountId)
        requires
            old(self).game_id < u32::MAX,
            !old(self).games@.contains_key(old(self).game_id),
        ensures
            final(self).games@ == old(self).games@.insert(
                old(self).game_id,
                GameState {
                    next_turn: 0,
                    p1: fresh_player(caller, 0, 0),
                    p2: fresh_player(zero_account(), 0, 0),
                    last_hit: 0,
                    sunk_what: 0,
                },
            ),
            final(self).game_id == old(self).game_id + 1,
            old(self).wf() ==> final(self).wf(),
    {
        let id = self.game_next_id();
        let player_state = PlayerState { account: caller, board: [0u32;8], shot_x: 0, shot_y: 0 };
        let game_state = GameState {
            next_turn: 0,
            p1: player_state,
            p2: PlayerState::default(),
            last_hit: 0,
            sunk_what: 0,
        };
        self.games.insert(id, game_state);
    }

    /// Enters `caller` as the second player of the game filed under the next
    /// identifier, with a first shot at the square (`shot_x`, `shot_y`), and
    /// passes the turn on. Where no game is filed there, the game that nobody has
    /// entered stands in. The game must be on turn 0.
    pub fn join_game(&mut self, caller: AccountId, shot_x: u32, shot_y: u32)
        requires
            old(self).game_id < u32::MAX,
            game_or_default(old(self).games@, old(self).game_id).next_turn == 0,
        ensures
            final(self).games@ == old(self).games@.insert(
                old(self).game_id,
                GameState {
                    next_turn: 1,
                    p2: fresh_player(caller, shot_x, shot_y),
                    ..game_or_default(old(self).games@, old(self).game_id)
                },
            ),
            final(self).game_id == old(self).game_id + 1,
            old(self).wf() ==> final(self).wf(),
    {
        let id = self.game_next_id();
        let mut game_state = match self.games.get(&id) {
            Some(filed) => *filed,
            None => GameState::default(),
        };
        game_state.next_turn = 1;
        game_state.p2 = PlayerState { account: caller, board: [0u32;8], shot_x, shot_y };
        self.games.insert(id, game_state);
    }

    /// Hands out the next game identifier.
    pub fn game_next_id(&mut self) -> (id: GameId)
        requires
            old(self).game_id < u32::MAX,
        ensures
            id == old(self).game_id,
            final(self).game_id == old(self).game_id + 1,
            final(self).games == old(self).games,
    {
        let id = self.game_id;
        self.game_id += 1;
        id
    }
}

/// The zero account.
pub fn zero_addres() -> (account: AccountId)
    ensures
        account == zero_account(),
{
    AccountId::zero()
}

} // verus!
