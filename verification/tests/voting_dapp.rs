use dapp_contracts::account::AccountId;
use dapp_contracts::voting_dapp::{Proposal, ProposalCreated, ProposalError, User, Vote, VotingDapp};

fn owner() -> AccountId {
    AccountId::new([7u8; 32])
}

fn voter(n: u8) -> AccountId {
    AccountId::new([n; 32])
}

fn tallied(name: &str, aye: i32, nye: i32, status: bool) -> Proposal {
    Proposal {
        proposal_name: name.to_string(),
        vote_aye: aye,
        vote_nye: nye,
        total_vote: aye + nye,
        proposal_status: status,
    }
}

#[test]
fn dapp_starts_empty() {
    let mut dapp = VotingDapp::new(owner());
    assert!(dapp.check_owner(owner()));
    assert!(!dapp.check_owner(voter(1)));
    assert_eq!(dapp.proposal_id, 0);
    assert_eq!(dapp.user_id, 0);
    assert!(dapp.get_all_proposal().is_empty());
    assert!(dapp.get_all_users().is_empty());
}

#[test]
fn dapp_create_proposal_files_under_next_id() {
    let mut dapp = VotingDapp::new(owner());
    assert_eq!(
        dapp.create_proposal(owner(), "one".to_string()),
        Ok(ProposalCreated { proposal: tallied("one", 0, 0, false) })
    );
    dapp.create_proposal(owner(), "two".to_string()).unwrap();
    assert_eq!(dapp.proposal_id, 2);
    assert_eq!(
        dapp.get_all_proposal(),
        vec![tallied("one", 0, 0, false), tallied("two", 0, 0, false)]
    );
    assert_eq!(dapp.proposal.get(&1), Some(&tallied("two", 0, 0, false)));
    assert_eq!(dapp.proposal.get(&2), None);
}

#[test]
fn dapp_change_proposal_status_opens_or_refuses() {
    let mut dapp = VotingDapp::new(owner());
    dapp.create_proposal(owner(), "one".to_string()).unwrap();
    assert_eq!(
        dapp.change_proposal_status(owner(), 3),
        Err(ProposalError::AccountNotRegistered)
    );
    assert_eq!(dapp.get_all_proposal(), vec![tallied("one", 0, 0, false)]);
    assert_eq!(dapp.change_proposal_status(owner(), 0), Ok(()));
    assert_eq!(dapp.get_all_proposal(), vec![tallied("one", 0, 0, true)]);
}

#[test]
fn dapp_register_user_lists_the_user() {
    let mut dapp = VotingDapp::new(owner());
    let event = dapp.register_user(owner(), voter(1), "Ann".to_string()).unwrap();
    assert_eq!(
        event.user,
        User { user_name: "Ann".to_string(), user_account: voter(1), voted_proposal: vec![] }
    );
    dapp.register_user(owner(), voter(2), "B".to_string()).unwrap();
    assert_eq!(
        dapp.get_all_users(),
        vec![
            User { user_name: "Ann".to_string(), user_account: voter(1), voted_proposal: vec![] },
            User { user_name: "B".to_string(), user_account: voter(2), voted_proposal: vec![] },
        ]
    );
    assert!(dapp.check_register_user(voter(1)));
    assert!(dapp.check_register_user(voter(2)));
    assert!(!dapp.check_register_user(voter(3)));
    assert!(!dapp.check_register_user(owner()));
}

#[test]
fn dapp_votes_are_tallied() {
    let mut dapp = VotingDapp::new(owner());
    dapp.create_proposal(owner(), "one".to_string()).unwrap();
    dapp.change_proposal_status(owner(), 0).unwrap();
    dapp.register_user(owner(), voter(1), "Ann".to_string()).unwrap();
    dapp.register_user(owner(), voter(2), "Ben".to_string()).unwrap();
    dapp.register_user(owner(), voter(3), "Cem".to_string()).unwrap();
    assert_eq!(dapp.vote_proposal(voter(1), Vote::Aye, 0), Ok(()));
    assert_eq!(dapp.vote_proposal(voter(2), Vote::Nye, 0), Ok(()));
    assert_eq!(dapp.vote_proposal(voter(3), Vote::Aye, 0), Ok(()));
    assert_eq!(dapp.get_all_proposal(), vec![tallied("one", 2, 1, true)]);
    assert_eq!(dapp.voted.get(&(voter(1), 0)), Some(&true));
    assert_eq!(dapp.voted.get(&(voter(1), 1)), None);
    assert_eq!(dapp.voted.entries().len(), 3);
}

#[test]
fn dapp_opening_again_resets_the_tally() {
    let mut dapp = VotingDapp::new(owner());
    dapp.create_proposal(owner(), "one".to_string()).unwrap();
    dapp.change_proposal_status(owner(), 0).unwrap();
    dapp.register_user(owner(), voter(1), "Ann".to_string()).unwrap();
    dapp.vote_proposal(voter(1), Vote::Aye, 0).unwrap();
    dapp.change_proposal_status(owner(), 0).unwrap();
    assert_eq!(dapp.get_all_proposal(), vec![tallied("one", 0, 0, true)]);
}

#[test]
fn dapp_counters_hand_out_identifiers_in_order() {
    let mut dapp = VotingDapp::new(owner());
    assert_eq!(dapp.get_next_id(), 0);
    assert_eq!(dapp.get_next_userid(), 0);
    assert_eq!(dapp.get_next_id(), 1);
    assert_eq!(dapp.proposal_id, 2);
    assert_eq!(dapp.user_id, 1);
}

#[test]
fn dapp_defaults_are_empty() {
    assert_eq!(Proposal::default(), tallied("", 0, 0, false));
    assert_eq!(
        User::default(),
        User {
            user_name: String::new(),
            user_account: AccountId::new([0u8; 32]),
            voted_proposal: vec![]
        }
    );
}

#[test]
fn dapp_user_clone_copies_the_proposals() {
    let user = User {
        user_name: "Ann".to_string(),
        user_account: voter(1),
        voted_proposal: vec![tallied("a", 1, 0, true), tallied("b", 0, 2, true)],
    };
    assert_eq!(user.clone(), user);
}
