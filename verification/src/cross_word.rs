//! The records of a crossword puzzle with a reward.

use vstd::prelude::*;
use crate::account::AccountId;
use crate::chain::Balance;
use crate::store::Store;

verus! {

/// How far a puzzle has come.
#[derive(Debug, PartialEq, Eq)]
pub enum PuzzleStatus {
    Unsolved,
    Solved { solver_pk: AccountId },
    /// The reward was claimed, with a message of the claimant.
    Claimed { memo: String },
}

/// A square of the grid, or the size of a grid.
#[derive(Debug, Clone, Copy, PartialEq, Eq, Structural)]
pub struct CoordinatePair {
    pub x: u8,
    pub y: u8,
}

/// The way a word runs.
#[derive(Debug, Clone, Copy, PartialEq, Eq, Structural)]
pub enum AnswerDirection {
    Across,
    Down,
}

/// One word of the puzzle: where it starts, how it runs and its clue.
#[derive(Debug, PartialEq, Eq)]
pub struct Answer {
    pub num: u8,
    pub start: CoordinatePair,
    pub direction: AnswerDirection,
    pub length: u8,
    pub clue: String,
}

/// A crossword with the reward set on it.
#[derive(Debug, PartialEq, Eq)]
pub struct Puzzle {
    pub status: PuzzleStatus,
    pub reward: Balance,
    pub creator: AccountId,
    pub dimension: CoordinatePair,
    pub answer: Vec<Answer>,
}

/// The puzzles, each filed under the account it belongs to.
pub struct CrossWord {
    pub puzzles: Store<AccountId, Puzzle>,
}

impl CrossWord {
    /// A contract without puzzles.
    pub fn new() -> (contract: Self)
        ensures
            contract.puzzles@ == Map::<AccountId, Puzzle>::empty(),
    {
        let puzzles = Store::new();
        Self { puzzles }
    }

    /// Answers a call that asks for nothing.
    pub fn get(&self) {
    }
}

} // verus!
