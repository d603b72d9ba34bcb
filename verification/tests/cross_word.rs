use dapp_contracts::account::AccountId;
use dapp_contracts::cross_word::{
    Answer, AnswerDirection, CoordinatePair, CrossWord, Puzzle, PuzzleStatus,
};

#[test]
fn cross_word_starts_without_puzzles() {
    let contract = CrossWord::new();
    contract.get();
    assert!(contract.puzzles.entries().is_empty());
}

#[test]
fn puzzles_are_filed_by_account() {
    let creator = AccountId::new([4u8; 32]);
    let mut contract = CrossWord::new();
    contract.puzzles.insert(
        creator,
        Puzzle {
            status: PuzzleStatus::Unsolved,
            reward: 10,
            creator,
            dimension: CoordinatePair { x: 3, y: 3 },
            answer: vec![Answer {
                num: 1,
                start: CoordinatePair { x: 0, y: 0 },
                direction: AnswerDirection::Across,
                length: 3,
                clue: "feline".to_string(),
            }],
        },
    );
    let filed = contract.puzzles.get(&creator).unwrap();
    assert_eq!(filed.status, PuzzleStatus::Unsolved);
    assert_eq!(filed.answer[0].direction, AnswerDirection::Across);
    assert_eq!(filed.answer[0].clue, "feline");
    assert!(contract.puzzles.get(&AccountId::new([5u8; 32])).is_none());
    assert_ne!(
        PuzzleStatus::Solved { solver_pk: creator },
        PuzzleStatus::Claimed { memo: "mine".to_string() }
    );
}
