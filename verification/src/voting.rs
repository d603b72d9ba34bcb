//! A poll whose owner creates proposals, opens them for voting one at a time and
//! closes them; registered accounts vote once on each.

use vstd::prelude::*;
use crate::text::{byte_len, byte_length};
use crate::account::{AccountId, zero_account};
use crate::store::{
    Store,
    filed_below,
    lemma_filed_below_complete,
    lemma_filed_below_insert,
    lemma_filter_push,
};

verus! {

/// The identifier of a proposal.
pub type ProposalId = i32;

/// The identifier of a user.
pub type UserId = i32;

/// A proposal with its tally.
#[derive(Debug, PartialEq, Eq)]
pub struct Proposal {
    pub proposal_name: String,
    pub vote_aye: i32,
    pub vote_nye: i32,
    pub total_vote: i32,
    /// Whether the proposal has been opened for voting.
    pub proposal_status: bool,
    /// Whether voting on the proposal has been closed.
    pub voting_finished: bool,
    pub id: ProposalId,
}

impl Clone for Proposal {
    fn clone(&self) -> (r: Self)
        ensures
            r == *self,
    {
        Proposal {
            proposal_name: self.proposal_name.clone(),
            vote_aye: self.vote_aye,
            vote_nye: self.vote_nye,
            total_vote: self.total_vote,
            proposal_status: self.proposal_status,
            voting_finished: self.voting_finished,
            id: self.id,
        }
    }
}

impl Default for Proposal {
    /// The proposal without a name, without votes, neither opened nor closed.
    fn default() -> (r: Self)
        ensures
            r.proposal_name@ == Seq::<char>::empty(),
            r.vote_aye == 0,
            r.vote_nye == 0,
            r.total_vote == 0,
            !r.proposal_status,
            !r.voting_finished,
            r.id == 0,
    {
        Proposal {
            proposal_name: String::new(),
            vote_aye: 0,
            vote_nye: 0,
            total_vote: 0,
            proposal_status: false,
            voting_finished: false,
            id: 0,
        }
    }
}

/// A registered voter.
#[derive(Debug, PartialEq, Eq)]
pub struct User {
    pub user_name: String,
    pub user_account: AccountId,
}

impl Clone for User {
    fn clone(&self) -> (r: Self)
        ensures
            r == *self,
    {
        User { user_name: self.user_name.clone(), user_account: self.user_account }
    }
}

impl Default for User {
    /// The user without a name, at the zero account.
    fn default() -> (r: Self)
        ensures
            r.user_name@ == Seq::<char>::empty(),
            r.user_account == zero_account(),
    {
        User { user_name: String::new(), user_account: AccountId::zero() }
    }
}

/// A vote for or against a proposal.
#[derive(Debug, Clone, Copy, PartialEq, Eq, Structural)]
pub enum Vote {
    Aye,
    Nye,
}

/// Why a message of the poll is refused.
#[derive(Debug, Clone, Copy, PartialEq, Eq, Structural)]
pub enum ProposalError {
    NotOwner,
    ProposalNotFound,
    AccountNotRegistered,
    ProposalStatusError,
    AlreadyVoted,
    ShortNameLen,
    ReachAcitveProposalLimit,
    StatusNotAgreed,
    VotingFinishedAlready,
    ProposalNotExsits,
}

/// Announces a proposal that was created.
#[derive(Debug, PartialEq, Eq)]
pub struct ProposalCreated {
    pub proposal: Proposal,
}

/// Announces a user that was registered.
#[derive(Debug, PartialEq, Eq)]
pub struct UserCreated {
    pub user: User,
}

/// Announces a proposal whose status changed.
#[derive(Debug, PartialEq, Eq)]
pub struct ProposalStatusChanged {
    pub proposal: Proposal,
}

/// Announces a vote, by the name of the proposal voted on.
#[derive(Debug, PartialEq, Eq)]
pub struct ProposalVoted {
    pub proposal: String,
}

/// A poll: proposals that the owner creates, opens and closes, and on which each
/// registered account votes at most once.
pub struct Voting {
    pub owner: AccountId,
    /// The identifier that the next proposal gets.
    pub proposal_id: ProposalId,
    /// The identifier that the next user gets.
    pub user_id: UserId,
    /// One more than the number of proposals opened since the last closing.
    pub active_proposal: i32,
    pub proposal: Store<ProposalId, Proposal>,
    pub user: Store<UserId, User>,
    pub voted: Store<(AccountId, ProposalId), bool>,
}

/// The proposal `p` as it is once opened for voting: its tally reset.
pub open spec fn as_opened(p: Proposal) -> Proposal {
    Proposal {
        proposal_name: p.proposal_name,
        vote_aye: 0,
        vote_nye: 0,
        total_vote: 0,
        proposal_status: true,
        voting_finished: false,
        id: p.id,
    }
}

/// The proposal `p` as it is once voting on it is closed: its tally kept.
pub open spec fn as_closed(p: Proposal) -> Proposal {
    Proposal {
        proposal_name: p.proposal_name,
        vote_aye: p.vote_aye,
        vote_nye: p.vote_nye,
        total_vote: p.total_vote,
        proposal_status: p.proposal_status,
        voting_finished: true,
        id: p.id,
    }
}

/// The proposal `p` with one more vote of the kind `vote`.
pub open spec fn with_vote(p: Proposal, vote: Vote) -> Proposal {
    Proposal {
        proposal_name: p.proposal_name,
        vote_aye: if vote == Vote::Aye {
            (p.vote_aye + 1) as i32
        } else {
            p.vote_aye
        },
        vote_nye: if vote == Vote::Nye {
            (p.vote_nye + 1) as i32
        } else {
            p.vote_nye
        },
        total_vote: (p.total_vote + 1) as i32,
        proposal_status: p.proposal_status,
        voting_finished: p.voting_finished,
        id: p.id,
    }
}

/// Whether one more vote of the kind `vote` fits the counters of `p`.
pub open spec fn has_room_for(p: Proposal, vote: Vote) -> bool {
    &&& p.total_vote < i32::MAX
    &&& vote == Vote::Aye ==> p.vote_aye < i32::MAX
    &&& vote == Vote::Nye ==> p.vote_nye < i32::MAX
}

/// Whether the tally of `p` adds up.
pub open spec fn tally_adds_up(p: Proposal) -> bool {
    &&& 0 <= p.vote_aye
    &&& 0 <= p.vote_nye
    &&& p.total_vote == p.vote_aye + p.vote_nye
}

/// The freshly created proposal with the given name and identifier.
pub open spec fn fresh_proposal(proposal_name: String, id: ProposalId) -> Proposal {
    Proposal {
        proposal_name,
        vote_aye: 0,
        vote_nye: 0,
        total_vote: 0,
        proposal_status: false,
        voting_finished: false,
        id,
    }
}

impl Voting {
    /// The proposals in the order of their identifiers.
    pub open spec fn all_proposals(&self) -> Seq<Proposal> {
        filed_below(self.proposal@, self.proposal_id as int)
    }

    /// The users in the order of their identifiers.
    pub open spec fn all_users(&self) -> Seq<User> {
        filed_below(self.user@, self.user_id as int)
    }

    /// Whether some user is registered with the account `account`.
    pub open spec fn is_registered(&self, account: AccountId) -> bool {
        exists|i: int|
            0 <= i < self.all_users().len() && (#[trigger] self.all_users()[i]).user_account
                == account
    }

    /// Whether `account` has voted on the proposal `id`.
    pub open spec fn has_voted(&self, account: AccountId, id: ProposalId) -> bool {
        self.voted@.contains_key((account, id)) && self.voted@[(account, id)]
    }

    /// Whether the proposal `id` exists and is opened for voting.
    pub open spec fn is_opened(&self, id: ProposalId) -> bool {
        self.proposal@.contains_key(id) && self.proposal@[id].proposal_status
    }

    /// The state that every poll is in: identifiers are handed out in order by the
    /// two counters, each proposal is filed under its own identifier with a tally
    /// that adds up, each user's name has at least three bytes, votes are only
    /// ever recorded as cast, and at most one opening is outstanding.
    pub open spec fn wf(&self) -> bool {
        &&& 0 <= self.proposal_id
        &&& 0 <= self.user_id
        &&& 1 <= self.active_proposal <= 2
        &&& forall|k: ProposalId| #[trigger]
            self.proposal@.contains_key(k) ==> {
                &&& 0 <= k < self.proposal_id
                &&& self.proposal@[k].id == k
                &&& tally_adds_up(self.proposal@[k])
            }
        &&& forall|k: UserId| #[trigger]
            self.user@.contains_key(k) ==> {
                &&& 0 <= k < self.user_id
                &&& byte_len(self.user@[k].user_name@) >= 3
            }
        &&& forall|k: (AccountId, ProposalId)| #[trigger]
            self.voted@.contains_key(k) ==> self.voted@[k] && self.proposal@.contains_key(k.1)
    }

    /// Whether a proposal is filed under every identifier that the counter has
    /// handed out.
    pub open spec fn is_complete(&self) -> bool {
        forall|k: ProposalId|
            0 <= k < self.proposal_id ==> #[trigger] self.proposal@.contains_key(k)
    }

    /// Why `caller` may not open the proposal `id`, if anything stands against it.
    pub open spec fn opening_refusal(&self, caller: AccountId, id: ProposalId) -> Option<
        ProposalError,
    > {
        if self.owner != caller {
            Some(ProposalError::NotOwner)
        } else if self.active_proposal > 1 {
            Some(ProposalError::ReachAcitveProposalLimit)
        } else if !self.proposal@.contains_key(id) {
            Some(ProposalError::AccountNotRegistered)
        } else if self.proposal@[id].voting_finished {
            Some(ProposalError::VotingFinishedAlready)
        } else {
            None
        }
    }

    /// Why `caller` may not close the proposal `id`, if anything stands against it.
    pub open spec fn closing_refusal(&self, caller: AccountId, id: ProposalId) -> Option<
        ProposalError,
    > {
        if self.owner != caller {
            Some(ProposalError::NotOwner)
        } else if !self.proposal@.contains_key(id) {
            None
        } else if !self.proposal@[id].proposal_status {
            Some(ProposalError::StatusNotAgreed)
        } else if self.proposal@[id].voting_finished {
            Some(ProposalError::VotingFinishedAlready)
        } else {
            None
        }
    }

    /// Why `caller` may not vote on the proposal `id`, if anything stands against it.
    pub open spec fn vote_refusal(&self, caller: AccountId, id: ProposalId) -> Option<
        ProposalError,
    > {
        if !self.is_opened(id) {
            Some(ProposalError::ProposalStatusError)
        } else if self.proposal@[id].voting_finished {
            Some(ProposalError::VotingFinishedAlready)
        } else if !self.is_registered(caller) {
            Some(ProposalError::AccountNotRegistered)
        } else if self.has_voted(caller, id) {
            Some(ProposalError::AlreadyVoted)
        } else {
            None
        }
    }

    /// A poll owned by `caller`, without proposals, users or votes.
    pub fn new(caller: AccountId) -> (poll: Self)
        ensures
            poll.owner == caller,
            poll.proposal_id == 0,
            poll.user_id == 0,
            poll.active_proposal == 1,
            poll.proposal@ == Map::<ProposalId, Proposal>::empty(),
            poll.user@ == Map::<UserId, User>::empty(),
            poll.voted@ == Map::<(AccountId, ProposalId), bool>::empty(),
            poll.wf(),
            poll.is_complete(),
    {
        Voting {
            owner: caller,
            proposal: Store::new(),
            user: Store::new(),
            proposal_id: 0,
            user_id: 0,
            voted: Store::new(),
            active_proposal: 1,
        }
    }

    /// Creates a proposal named `proposal_name` under the next proposal
    /// identifier; only the owner may.
    pub fn create_proposal(&mut self, caller: AccountId, proposal_name: String) -> (r: Result<
        ProposalCreated,
        ProposalError,
    >)
        requires
            old(self).owner == caller ==> old(self).proposal_id < i32::MAX,
        ensures
            old(self).owner != caller ==> r == Err::<ProposalCreated, ProposalError>(
                ProposalError::NotOwner,
            ) && *final(self) == *old(self),
            old(self).owner == caller ==> {
                let created = fresh_proposal(proposal_name, old(self).proposal_id);
                &&& r == Ok::<ProposalCreated, ProposalError>(ProposalCreated { proposal: created })
                &&& final(self).proposal@ == old(self).proposal@.insert(
                    old(self).proposal_id,
                    created,
                )
                &&& final(self).proposal_id == old(self).proposal_id + 1
                &&& final(self).owner == old(self).owner
                &&& final(self).user_id == old(self).user_id
                &&& final(self).active_proposal == old(self).active_proposal
                &&& final(self).user == old(self).user
                &&& final(self).voted == old(self).voted
                &&& old(self).proposal_id >= 0 ==> final(self).all_proposals() == old(
                    self,
                ).all_proposals().push(created)
            },
            old(self).wf() ==> final(self).wf(),
            old(self).is_complete() ==> final(self).is_complete(),
    {
        if !self.check_owner(caller) {
            return Err(ProposalError::NotOwner);
        }
        let proposal_id = self.get_next_id();
        let proposal = Proposal {
            proposal_name,
            vote_aye: 0,
            vote_nye: 0,
            total_vote: 0,
            proposal_status: false,
            voting_finished: false,
            id: proposal_id,
        };
        self.proposal.insert(proposal_id, proposal.clone());
        proof {
            if proposal_id >= 0 {
                lemma_filed_below_insert(
                    old(self).proposal@,
                    proposal_id as int,
                    proposal_id,
                    proposal,
                );
            }
        }
        Ok(ProposalCreated { proposal })
    }

    /// Opens the proposal `id` for voting and resets its tally; only the owner
    /// may, and only while no other opening is outstanding.
    pub fn change_proposal_status(&mut self, caller: AccountId, id: ProposalId) -> (r: Result<
        (),
        ProposalError,
    >)
        ensures
            r == (match old(self).opening_refusal(caller, id) {
                Some(e) => Err::<(), ProposalError>(e),
                None => Ok::<(), ProposalError>(()),
            }),
            r is Err ==> *final(self) == *old(self),
            r is Ok ==> {
                &&& final(self).proposal@ == old(self).proposal@.insert(
                    id,
                    as_opened(old(self).proposal@[id]),
                )
                &&& final(self).active_proposal == old(self).active_proposal + 1
                &&& final(self).owner == old(self).owner
                &&& final(self).proposal_id == old(self).proposal_id
                &&& final(self).user_id == old(self).user_id
                &&& final(self).user == old(self).user
                &&& final(self).voted == old(self).voted
            },
            old(self).wf() ==> final(self).wf(),
            old(self).is_complete() ==> final(self).is_complete(),
    {
        if !self.check_owner(caller) {
            return Err(ProposalError::NotOwner);
        }
        if !(self.active_proposal <= 1) {
            return Err(ProposalError::ReachAcitveProposalLimit);
        }
        let p = match self.proposal.get(&id) {
            None => {
                return Err(ProposalError::AccountNotRegistered);
            },
            Some(v) => {
                if v.voting_finished {
                    return Err(ProposalError::VotingFinishedAlready);
                }
                Proposal {
                    proposal_name: v.proposal_name.clone(),
                    vote_aye: 0,
                    vote_nye: 0,
                    total_vote: 0,
                    proposal_status: true,
                    voting_finished: false,
                    id: v.id,
                }
            },
        };
        self.proposal.insert(id, p);
        self.active_proposal += 1;
        Ok(())
    }

    /// Closes the voting on the proposal `id`, where there is such a proposal,
    /// and lets the owner open a proposal again; only the owner may.
    pub fn remove_active_proposal(&mut self, caller: AccountId, id: ProposalId) -> (r: Result<
        (),
        ProposalError,
    >)
        ensures
            r == (match old(self).closing_refusal(caller, id) {
                Some(e) => Err::<(), ProposalError>(e),
                None => Ok::<(), ProposalError>(()),
            }),
            r is Err ==> *final(self) == *old(self),
            r is Ok ==> {
                &&& final(self).proposal@ == (if old(self).proposal@.contains_key(id) {
                    old(self).proposal@.insert(id, as_closed(old(self).proposal@[id]))
                } else {
                    old(self).proposal@
                })
                &&& final(self).active_proposal == 1
                &&& final(self).owner == old(self).owner
                &&& final(self).proposal_id == old(self).proposal_id
                &&& final(self).user_id == old(self).user_id
                &&& final(self).user == old(self).user
                &&& final(self).voted == old(self).voted
            },
            old(self).wf() ==> final(self).wf(),
            old(self).is_complete() ==> final(self).is_complete(),
    {
        if !self.check_owner(caller) {
            return Err(ProposalError::NotOwner);
        }
        let closing = match self.proposal.get(&id) {
            None => None,
            Some(v) => {
                if !v.proposal_status {
                    return Err(ProposalError::StatusNotAgreed);
                }
                if v.voting_finished {
                    return Err(ProposalError::VotingFinishedAlready);
                }
                Some(
                    Proposal {
                        proposal_name: v.proposal_name.clone(),
                        vote_aye: v.vote_aye,
                        vote_nye: v.vote_nye,
                        total_vote: v.total_vote,
                        proposal_status: v.proposal_status,
                        voting_finished: true,
                        id: v.id,
                    },
                )
            },
        };
        match closing {
            Some(p) => {
                self.proposal.insert(id, p);
            },
            None => {},
        }
        self.active_proposal = 1;
        Ok(())
    }

    /// Registers the account `user_account` under the name `user_name`, which must
    /// have at least three bytes, and under the next user identifier.
    pub fn register_user(&mut self, user_account: AccountId, user_name: String) -> (r: Result<
        UserCreated,
        ProposalError,
    >)
        requires
            byte_len(user_name@) >= 3 ==> old(self).user_id < i32::MAX,
        ensures
            byte_len(user_name@) < 3 ==> r == Err::<UserCreated, ProposalError>(
                ProposalError::ShortNameLen,
            ) && *final(self) == *old(self),
            byte_len(user_name@) >= 3 ==> {
                let user = User { user_name, user_account };
                &&& r == Ok::<UserCreated, ProposalError>(UserCreated { user })
                &&& final(self).user@ == old(self).user@.insert(old(self).user_id, user)
                &&& final(self).user_id == old(self).user_id + 1
                &&& final(self).owner == old(self).owner
                &&& final(self).proposal_id == old(self).proposal_id
                &&& final(self).active_proposal == old(self).active_proposal
                &&& final(self).proposal == old(self).proposal
                &&& final(self).voted == old(self).voted
                &&& old(self).user_id >= 0 ==> final(self).all_users() == old(
                    self,
                ).all_users().push(user) && final(self).is_registered(user_account)
            },
            old(self).wf() ==> final(self).wf(),
            old(self).is_complete() ==> final(self).is_complete(),
    {
        if !(byte_length(&user_name) >= 3) {
            return Err(ProposalError::ShortNameLen);
        }
        let user = User { user_name, user_account };
        let uid = self.get_next_userid();
        self.user.insert(uid, user.clone());
        proof {
            if uid >= 0 {
                lemma_filed_below_insert(old(self).user@, uid as int, uid, user);
                let listed = self.all_users();
                assert(listed[listed.len() - 1].user_account == user_account);
            }
        }
        Ok(UserCreated { user })
    }

    /// Why `caller` may not vote on the proposal `id`, if anything stands against
    /// it: the proposal must be opened and not closed, the caller registered, and
    /// no vote of the caller on the proposal recorded.
    pub fn check_vote(&mut self, caller: AccountId, id: ProposalId) -> (refusal: Option<
        ProposalError,
    >)
        ensures
            *final(self) == *old(self),
            refusal == old(self).vote_refusal(caller, id),
    {
        let (status, finished) = match self.proposal.get(&id) {
            Some(p) => (p.proposal_status, p.voting_finished),
            None => (false, false),
        };
        if !status {
            return Some(ProposalError::ProposalStatusError);
        }
        if finished {
            return Some(ProposalError::VotingFinishedAlready);
        }
        if !self.check_register_user(caller) {
            return Some(ProposalError::AccountNotRegistered);
        }
        let is_voted = match self.voted.get(&(caller, id)) {
            Some(v) => *v,
            None => false,
        };
        if is_voted {
            return Some(ProposalError::AlreadyVoted);
        }
        None
    }

    /// Casts the vote of `caller` on the proposal `id`. The proposal must be
    /// opened and not closed, the caller registered, and this the caller's first
    /// vote on the proposal.
    pub fn vote_proposal(&mut self, caller: AccountId, vote: Vote, id: ProposalId) -> (r: Result<
        (),
        ProposalError,
    >)
        requires
            old(self).vote_refusal(caller, id) is None ==> has_room_for(
                old(self).proposal@[id],
                vote,
            ),
        ensures
            r == (match old(self).vote_refusal(caller, id) {
                Some(e) => Err::<(), ProposalError>(e),
                None => Ok::<(), ProposalError>(()),
            }),
            r is Err ==> *final(self) == *old(self),
            r is Ok ==> {
                &&& final(self).proposal@ == old(self).proposal@.insert(
                    id,
                    with_vote(old(self).proposal@[id], vote),
                )
                &&& final(self).voted@ == old(self).voted@.insert((caller, id), true)
                &&& final(self).owner == old(self).owner
                &&& final(self).proposal_id == old(self).proposal_id
                &&& final(self).user_id == old(self).user_id
                &&& final(self).active_proposal == old(self).active_proposal
                &&& final(self).user == old(self).user
                &&& final(self).vote_refusal(caller, id) == Some(ProposalError::AlreadyVoted)
            },
            old(self).wf() ==> final(self).wf(),
            old(self).is_complete() ==> final(self).is_complete(),
    {
        match self.check_vote(caller, id) {
            Some(e) => {
                return Err(e);
            },
            None => {},
        }
        let p = match self.proposal.get(&id) {
            Some(proposal) => match vote {
                Vote::Aye => Proposal {
                    proposal_name: proposal.proposal_name.clone(),
                    vote_aye: proposal.vote_aye + 1,
                    vote_nye: proposal.vote_nye,
                    total_vote: proposal.total_vote + 1,
                    proposal_status: proposal.proposal_status,
                    voting_finished: proposal.voting_finished,
                    id: proposal.id,
                },
                Vote::Nye => Proposal {
                    proposal_name: proposal.proposal_name.clone(),
                    vote_aye: proposal.vote_aye,
                    vote_nye: proposal.vote_nye + 1,
                    total_vote: proposal.total_vote + 1,
                    proposal_status: proposal.proposal_status,
                    voting_finished: proposal.voting_finished,
                    id: proposal.id,
                },
            },
            None => Proposal::default(),
        };
        self.proposal.insert(id, p);
        self.voted.insert((caller, id), true);
        proof {
            assert(self.all_users() == old(self).all_users());
            assert(old(self).is_registered(caller));
            let i = choose|i: int|
                0 <= i < old(self).all_users().len() && (#[trigger] old(
                    self,
                ).all_users()[i]).user_account == caller;
            assert(self.all_users()[i].user_account == caller);
        }
        Ok(())
    }

    /// The proposals that have been opened for voting, in the order of their
    /// identifiers.
    pub fn get_active_proposal(&mut self) -> (active_result: Vec<Proposal>)
        ensures
            *final(self) == *old(self),
            active_result@ == old(self).all_proposals().filter(
                |p: Proposal| p.proposal_status,
            ),
    {
        let mut active_result: Vec<Proposal> = Vec::new();
        let mut i: i32 = 0;
        while i < self.proposal_id
            invariant
                *self == *old(self),
                0 <= i,
                i <= self.proposal_id || i == 0,
                active_result@ == filed_below(self.proposal@, i as int).filter(
                    |p: Proposal| p.proposal_status,
                ),
            decreases self.proposal_id - i,
        {
            match self.proposal.get(&i) {
                Some(value) => {
                    proof {
                        lemma_filter_push(
                            filed_below(self.proposal@, i as int),
                            *value,
                            |p: Proposal| p.proposal_status,
                        );
                    }
                    if value.proposal_status {
                        active_result.push(value.clone());
                    }
                },
                None => {},
            }
            i += 1;
        }
        active_result
    }

    /// All proposals, in the order of their identifiers.
    pub fn get_all_proposal(&mut self) -> (result: Vec<Proposal>)
        ensures
            *final(self) == *old(self),
            result@ == old(self).all_proposals(),
    {
        let mut result: Vec<Proposal> = Vec::new();
        let mut i: i32 = 0;
        while i < self.proposal_id
            invariant
                *self == *old(self),
                0 <= i,
                i <= self.proposal_id || i == 0,
                result@ == filed_below(self.proposal@, i as int),
            decreases self.proposal_id - i,
        {
            match self.proposal.get(&i) {
                Some(value) => {
                    result.push(value.clone());
                },
                None => {},
            }
            i += 1;
        }
        result
    }

    /// All registered users, in the order of their identifiers.
    pub fn get_all_users(&mut self) -> (result: Vec<User>)
        ensures
            *final(self) == *old(self),
            result@ == old(self).all_users(),
    {
        let mut result: Vec<User> = Vec::new();
        let mut i: i32 = 0;
        while i < self.user_id
            invariant
                *self == *old(self),
                0 <= i,
                i <= self.user_id || i == 0,
                result@ == filed_below(self.user@, i as int),
            decreases self.user_id - i,
        {
            match self.user.get(&i) {
                Some(value) => {
                    result.push(value.clone());
                },
                None => {},
            }
            i += 1;
        }
        result
    }

    /// Hands out the next proposal identifier.
    pub fn get_next_id(&mut self) -> (id: ProposalId)
        requires
            old(self).proposal_id < i32::MAX,
        ensures
            id == old(self).proposal_id,
            final(self).proposal_id == old(self).proposal_id + 1,
            final(self).owner == old(self).owner,
            final(self).user_id == old(self).user_id,
            final(self).active_proposal == old(self).active_proposal,
            final(self).proposal == old(self).proposal,
            final(self).user == old(self).user,
            final(self).voted == old(self).voted,
    {
        let id = self.proposal_id;
        self.proposal_id += 1;
        id
    }

    /// Hands out the next user identifier.
    pub fn get_next_userid(&mut self) -> (id: UserId)
        requires
            old(self).user_id < i32::MAX,
        ensures
            id == old(self).user_id,
            final(self).user_id == old(self).user_id + 1,
            final(self).owner == old(self).owner,
            final(self).proposal_id == old(self).proposal_id,
            final(self).active_proposal == old(self).active_proposal,
            final(self).proposal == old(self).proposal,
            final(self).user == old(self).user,
            final(self).voted == old(self).voted,
    {
        let id = self.user_id;
        self.user_id += 1;
        id
    }

    /// Whether `user` owns the poll.
    pub fn check_owner(&self, user: AccountId) -> (r: bool)
        ensures
            r == (self.owner == user),
    {
        if self.owner == user {
            true
        } else {
            false
        }
    }

    /// Whether some user is registered with the account `caller`.
    pub fn check_register_user(&mut self, caller: AccountId) -> (registered: bool)
        ensures
            *final(self) == *old(self),
            registered == old(self).is_registered(caller),
    {
        let user = self.get_all_users();
        let mut ruser = false;
        let mut i: usize = 0;
        while i < user.len()
            invariant_except_break
                i <= user@.len(),
                !ruser,
                forall|j: int| 0 <= j < i ==> (#[trigger] user@[j]).user_account != caller,
            ensures
                ruser ==> exists|j: int|
                    0 <= j < user@.len() && (#[trigger] user@[j]).user_account == caller,
                !ruser ==> forall|j: int|
                    0 <= j < user@.len() ==> (#[trigger] user@[j]).user_account != caller,
            decreases user@.len() - i,
        {
            if user[i].user_account == caller {
                ruser = true;
                break;
            }
            i += 1;
        }
        ruser
    }

    /// The account that owns the poll.
    pub fn get_account_id(&self) -> (owner: AccountId)
        ensures
            owner == self.owner,
    {
        self.owner
    }
}

/// In a poll in which a proposal is filed under every identifier handed out, the
/// listing of all proposals holds one proposal for each identifier, in the order
/// of the identifiers: as many as the counter says, the `i`-th with identifier `i`.
pub proof fn lemma_proposals_in_order(poll: Voting)
    requires
        poll.wf(),
        poll.is_complete(),
    ensures
        poll.all_proposals().len() == poll.proposal_id,
        forall|i: int|
            0 <= i < poll.proposal_id ==> (#[trigger] poll.all_proposals()[i]).id == i,
{
    lemma_filed_below_complete(poll.proposal@, poll.proposal_id as int);
    assert forall|i: int| 0 <= i < poll.proposal_id implies (#[trigger] poll.all_proposals()[i]).id
        == i by {
        assert(filed_below(poll.proposal@, poll.proposal_id as int)[i] == poll.proposal@[i as i32]);
        assert(poll.proposal@.contains_key(i as i32));
    }
}

} // verus!
