//! A poll whose owner registers the proposals and the voters.

use vstd::prelude::*;
use crate::account::{AccountId, zero_account};
use crate::store::{Store, filed_below, lemma_filed_below_complete, lemma_filed_below_insert};

verus! {

/// The identifier of a proposal.
pub type ProposalId = i32;

/// The identifier of a user.
pub type UserId = i32;

/// A proposal with its tally.
#[derive(Debug, PartialEq)]
pub struct Proposal {
    pub proposal_name: String,
    pub vote_aye: i32,
    pub vote_nye: i32,
    pub total_vote: i32,
    /// Whether the proposal has been opened for voting.
    pub proposal_status: bool,
}

impl Clone for Proposal {
    fn clone(&self) -> (r: Self)
        ensures
            r == *self,
    {
        Proposal {
            proposal_name: self.proposal_name.clone(),
            vote_aye: self.vote_aye,
            vote_nye: self.vote_nye,
            total_vote: self.total_vote,
            proposal_status: self.proposal_status,
        }
    }
}

impl Default for Proposal {
    /// The proposal without a name, without votes, not opened.
    fn default() -> (r: Self)
        ensures
            r.proposal_name@ == Seq::<char>::empty(),
            r.vote_aye == 0,
            r.vote_nye == 0,
            r.total_vote == 0,
            !r.proposal_status,
    {
        Proposal {
            proposal_name: String::new(),
            vote_aye: 0,
            vote_nye: 0,
            total_vote: 0,
            proposal_status: false,
        }
    }
}

/// A registered voter.
#[derive(Debug, PartialEq)]
pub struct User {
    pub user_name: String,
    pub user_account: AccountId,
    pub voted_proposal: Vec<Proposal>,
}

/// Whether `a` and `b` are the same user: the same name and account, and the
/// same proposals one after the other.
pub open spec fn same_user(a: User, b: User) -> bool {
    &&& a.user_name == b.user_name
    &&& a.user_account == b.user_account
    &&& a.voted_proposal@ == b.voted_proposal@
}

/// Whether `u` is the user as registered under `user_name` for `user_account`.
pub open spec fn is_new_user(u: User, user_name: String, user_account: AccountId) -> bool {
    &&& u.user_name == user_name
    &&& u.user_account == user_account
    &&& u.voted_proposal@ == Seq::<Proposal>::empty()
}

impl Clone for User {
    fn clone(&self) -> (r: Self)
        ensures
            same_user(r, *self),
    {
        let mut voted_proposal: Vec<Proposal> = Vec::new();
        let mut i: usize = 0;
        while i < self.voted_proposal.len()
            invariant
                i <= self.voted_proposal@.len(),
                voted_proposal@ == self.voted_proposal@.take(i as int),
            decreases self.voted_proposal@.len() - i,
        {
            voted_proposal.push(self.voted_proposal[i].clone());
            assert(self.voted_proposal@.take(i + 1) == self.voted_proposal@.take(i as int).push(
                self.voted_proposal@[i as int],
            ));
            i += 1;
        }
        assert(self.voted_proposal@.take(i as int) == self.voted_proposal@);
        User {
            user_name: self.user_name.clone(),
            user_account: self.user_account,
            voted_proposal,
        }
    }
}

impl Default for User {
    /// The user without a name, at the zero account.
    fn default() -> (r: Self)
        ensures
            r.user_name@ == Seq::<char>::empty(),
            r.user_account == zero_account(),
            r.voted_proposal@ == Seq::<Proposal>::empty(),
    {
        User {
            user_name: String::new(),
            user_account: AccountId::zero(),
            voted_proposal: Vec::new(),
        }
    }
}

/// A vote for or against a proposal.
#[derive(Debug, Clone, Copy, PartialEq, Eq, Structural)]
pub enum Vote {
    Aye,
    Nye,
}

/// Why a message of the poll is refused.
#[derive(Debug, Clone, Copy, PartialEq, Eq, Structural)]
pub enum ProposalError {
    NotOwner,
    ProposalNotFound,
    AccountNotRegistered,
}

/// Announces a proposal that was created.
#[derive(Debug, PartialEq)]
pub struct ProposalCreated {
    pub proposal: Proposal,
}

/// Announces a proposal that was looked up.
#[derive(Debug, PartialEq)]
pub struct GetProposal {
    pub proposal: Proposal,
}

/// Announces a user that was registered.
#[derive(Debug, PartialEq)]
pub struct UserCreated {
    pub user: User,
}

/// Announces a proposal whose status changed.
#[derive(Debug, PartialEq)]
pub struct ProposalStatusChanged {
    pub proposal: Proposal,
}

/// Announces a vote, by the name of the proposal voted on.
#[derive(Debug, PartialEq)]
pub struct ProposalVoted {
    pub proposal: String,
}

/// A poll in three phases: the owner registers proposals and voters, opens
/// proposals, and each registered account votes at most once on each.
pub struct VotingDapp {
    pub owner: AccountId,
    pub proposal: Store<ProposalId, Proposal>,
    pub user: Store<UserId, User>,
    /// The identifier that the next proposal gets.
    pub proposal_id: ProposalId,
    /// The identifier that the next user gets.
    pub user_id: UserId,
    pub voted: Store<(AccountId, ProposalId), bool>,
}

/// The freshly created proposal with the given name.
pub open spec fn fresh_proposal(proposal_name: String) -> Proposal {
    Proposal { proposal_name, vote_aye: 0, vote_nye: 0, total_vote: 0, proposal_status: false }
}

/// The proposal `p` as it is once opened for voting: its tally reset.
pub open spec fn as_opened(p: Proposal) -> Proposal {
    Proposal {
        proposal_name: p.proposal_name,
        vote_aye: 0,
        vote_nye: 0,
        total_vote: 0,
        proposal_status: true,
    }
}

/// The proposal `p` with one more vote of the kind `vote`.
pub open spec fn with_vote(p: Proposal, vote: Vote) -> Proposal {
    Proposal {
        proposal_name: p.proposal_name,
        vote_aye: if vote == Vote::Aye {
            (p.vote_aye + 1) as i32
        } else {
            p.vote_aye
        },
        vote_nye: if vote == Vote::Nye {
            (p.vote_nye + 1) as i32
        } else {
            p.vote_nye
        },
        total_vote: (p.total_vote + 1) as i32,
        proposal_status: p.proposal_status,
    }
}

/// Whether one more vote of the kind `vote` fits the counters of `p`.
pub open spec fn has_room_for(p: Proposal, vote: Vote) -> bool {
    &&& p.total_vote < i32::MAX
    &&& vote == Vote::Aye ==> p.vote_aye < i32::MAX
    &&& vote == Vote::Nye ==> p.vote_nye < i32::MAX
}

/// Whether the tally of `p` adds up.
pub open spec fn tally_adds_up(p: Proposal) -> bool {
    &&& 0 <= p.vote_aye
    &&& 0 <= p.vote_nye
    &&& p.total_vote == p.vote_aye + p.vote_nye
}

impl VotingDapp {
    /// The proposals in the order of their identifiers.
    pub open spec fn all_proposals(&self) -> Seq<Proposal> {
        filed_below(self.proposal@, self.proposal_id as int)
    }

    /// The users in the order of their identifiers.
    pub open spec fn all_users(&self) -> Seq<User> {
        filed_below(self.user@, self.user_id as int)
    }

    /// Whether some user is registered with the account `account`.
    pub open spec fn is_registered(&self, account: AccountId) -> bool {
        exists|i: int|
            0 <= i < self.all_users().len() && (#[trigger] self.all_users()[i]).user_account
                == account
    }

    /// Whether `account` has voted on the proposal `id`.
    pub open spec fn has_voted(&self, account: AccountId, id: ProposalId) -> bool {
        self.voted@.contains_key((account, id)) && self.voted@[(account, id)]
    }

    /// Whether the proposal `id` exists and is opened for voting.
    pub open spec fn is_opened(&self, id: ProposalId) -> bool {
        self.proposal@.contains_key(id) && self.proposal@[id].proposal_status
    }

    /// Whether a proposal is filed under every identifier that the counter has
    /// handed out.
    pub open spec fn is_complete(&self) -> bool {
        forall|k: ProposalId|
            0 <= k < self.proposal_id ==> #[trigger] self.proposal@.contains_key(k)
    }

    /// Whether `caller` may vote on the proposal `id`: the proposal is opened, the
    /// caller registered, and no vote of the caller on it recorded.
    pub open spec fn may_vote(&self, caller: AccountId, id: ProposalId) -> bool {
        &&& self.is_opened(id)
        &&& self.is_registered(caller)
        &&& !self.has_voted(caller, id)
    }

    /// The state that every poll is in: identifiers are handed out in order by the
    /// two counters, each tally adds up, and votes are only ever recorded as cast,
    /// on proposals that exist.
    pub open spec fn wf(&self) -> bool {
        &&& 0 <= self.proposal_id
        &&& 0 <= self.user_id
        &&& forall|k: ProposalId| #[trigger]
            self.proposal@.contains_key(k) ==> {
                &&& 0 <= k < self.proposal_id
                &&& tally_adds_up(self.proposal@[k])
            }
        &&& forall|k: UserId| #[trigger] self.user@.contains_key(k) ==> 0 <= k < self.user_id
        &&& forall|k: (AccountId, ProposalId)| #[trigger]
            self.voted@.contains_key(k) ==> self.voted@[k] && self.proposal@.contains_key(k.1)
    }

    /// A poll owned by `caller`, without proposals, users or votes.
    pub fn new(caller: AccountId) -> (poll: Self)
        ensures
            poll.owner == caller,
            poll.proposal_id == 0,
            poll.user_id == 0,
            poll.proposal@ == Map::<ProposalId, Proposal>::empty(),
            poll.user@ == Map::<UserId, User>::empty(),
            poll.voted@ == Map::<(AccountId, ProposalId), bool>::empty(),
            poll.wf(),
            poll.is_complete(),
    {
        VotingDapp {
            owner: caller,
            proposal: Store::new(),
            user: Store::new(),
            proposal_id: 0,
            user_id: 0,
            voted: Store::new(),
        }
    }

    /// Creates a proposal named `proposal_name` under the next proposal
    /// identifier. Only the owner may call this.
    pub fn create_proposal(&mut self, caller: AccountId, proposal_name: String) -> (r: Result<
        ProposalCreated,
        ProposalError,
    >)
        requires
            old(self).owner == caller,
            old(self).proposal_id < i32::MAX,
        ensures
            r == Ok::<ProposalCreated, ProposalError>(
                ProposalCreated { proposal: fresh_proposal(proposal_name) },
            ),
            final(self).proposal@ == old(self).proposal@.insert(
                old(self).proposal_id,
                fresh_proposal(proposal_name),
            ),
            final(self).proposal_id == old(self).proposal_id + 1,
            final(self).owner == old(self).owner,
            final(self).user_id == old(self).user_id,
            final(self).user == old(self).user,
            final(self).voted == old(self).voted,
            old(self).proposal_id >= 0 ==> final(self).all_proposals() == old(
                self,
            ).all_proposals().push(fresh_proposal(proposal_name)),
            old(self).wf() ==> final(self).wf(),
            old(self).is_complete() ==> final(self).is_complete(),
    {
        let proposal = Proposal {
            proposal_name,
            vote_aye: 0,
            vote_nye: 0,
            total_vote: 0,
            proposal_status: false,
        };
        let proposal_id = self.get_next_id();
        self.proposal.insert(proposal_id, proposal.clone());
        proof {
            if proposal_id >= 0 {
                lemma_filed_below_insert(
                    old(self).proposal@,
                    proposal_id as int,
                    proposal_id,
                    proposal,
                );
            }
        }
        Ok(ProposalCreated { proposal })
    }

    /// Opens the proposal `id` for voting and resets its tally. Only the owner
    /// may call this.
    pub fn change_proposal_status(&mut self, caller: AccountId, id: ProposalId) -> (r: Result<
        (),
        ProposalError,
    >)
        requires
            old(self).owner == caller,
        ensures
            !old(self).proposal@.contains_key(id) ==> r == Err::<(), ProposalError>(
                ProposalError::AccountNotRegistered,
            ) && *final(self) == *old(self),
            old(self).proposal@.contains_key(id) ==> {
                &&& r == Ok::<(), ProposalError>(())
                &&& final(self).proposal@ == old(self).proposal@.insert(
                    id,
                    as_opened(old(self).proposal@[id]),
                )
                &&& final(self).owner == old(self).owner
                &&& final(self).proposal_id == old(self).proposal_id
                &&& final(self).user_id == old(self).user_id
                &&& final(self).user == old(self).user
                &&& final(self).voted == old(self).voted
            },
            old(self).wf() ==> final(self).wf(),
            old(self).is_complete() ==> final(self).is_complete(),
    {
        let p = match self.proposal.get(&id) {
            None => {
                return Err(ProposalError::AccountNotRegistered);
            },
            Some(v) => Proposal {
                proposal_name: v.proposal_name.clone(),
                vote_aye: 0,
                vote_nye: 0,
                total_vote: 0,
                proposal_status: true,
            },
        };
        self.proposal.insert(id, p);
        Ok(())
    }

    /// Registers the account `user_account` under the name `user_name` and under
    /// the next user identifier. Only the owner may call this.
    pub fn register_user(
        &mut self,
        caller: AccountId,
        user_account: AccountId,
        user_name: String,
    ) -> (r: Result<UserCreated, ProposalError>)
        requires
            old(self).owner == caller,
            old(self).user_id < i32::MAX,
        ensures
            r is Ok,
            is_new_user(r->Ok_0.user, user_name, user_account),
            final(self).user@.contains_key(old(self).user_id),
            is_new_user(final(self).user@[old(self).user_id], user_name, user_account),
            final(self).user@ == old(self).user@.insert(
                old(self).user_id,
                final(self).user@[old(self).user_id],
            ),
            final(self).user_id == old(self).user_id + 1,
            final(self).owner == old(self).owner,
            final(self).proposal_id == old(self).proposal_id,
            final(self).proposal == old(self).proposal,
            final(self).voted == old(self).voted,
            old(self).user_id >= 0 ==> final(self).all_users() == old(self).all_users().push(
                final(self).user@[old(self).user_id],
            ) && final(self).is_registered(user_account),
            old(self).wf() ==> final(self).wf(),
            old(self).is_complete() ==> final(self).is_complete(),
    {
        let user = User { user_name, user_account, voted_proposal: Vec::new() };
        let uid = self.get_next_userid();
        let filed = user.clone();
        self.user.insert(uid, filed);
        proof {
            if uid >= 0 {
                lemma_filed_below_insert(old(self).user@, uid as int, uid, filed);
                let listed = self.all_users();
                assert(listed[listed.len() - 1].user_account == user_account);
            }
        }
        Ok(UserCreated { user })
    }

    /// Casts the vote of `caller` on the proposal `id`. Only a registered account
    /// may call this, on an opened proposal and once for each proposal.
    pub fn vote_proposal(&mut self, caller: AccountId, vote: Vote, id: ProposalId) -> (r: Result<
        (),
        ProposalError,
    >)
        requires
            old(self).may_vote(caller, id),
            has_room_for(old(self).proposal@[id], vote),
        ensures
            r == Ok::<(), ProposalError>(()),
            final(self).proposal@ == old(self).proposal@.insert(
                id,
                with_vote(old(self).proposal@[id], vote),
            ),
            final(self).voted@ == old(self).voted@.insert((caller, id), true),
            final(self).owner == old(self).owner,
            final(self).proposal_id == old(self).proposal_id,
            final(self).user_id == old(self).user_id,
            final(self).user == old(self).user,
            !final(self).may_vote(caller, id),
            old(self).wf() ==> final(self).wf(),
            old(self).is_complete() ==> final(self).is_complete(),
    {
        let p = match self.proposal.get(&id) {
            Some(proposal) => match vote {
                Vote::Aye => Proposal {
                    proposal_name: proposal.proposal_name.clone(),
                    vote_aye: proposal.vote_aye + 1,
                    vote_nye: proposal.vote_nye,
                    total_vote: proposal.total_vote + 1,
                    proposal_status: proposal.proposal_status,
                },
                Vote::Nye => Proposal {
                    proposal_name: proposal.proposal_name.clone(),
                    vote_aye: proposal.vote_aye,
                    vote_nye: proposal.vote_nye + 1,
                    total_vote: proposal.total_vote + 1,
                    proposal_status: proposal.proposal_status,
                },
            },
            None => Proposal::default(),
        };
        self.proposal.insert(id, p);
        self.voted.insert((caller, id), true);
        Ok(())
    }

    /// All proposals, in the order of their identifiers.
    pub fn get_all_proposal(&mut self) -> (result: Vec<Proposal>)
        ensures
            *final(self) == *old(self),
            result@ == old(self).all_proposals(),
    {
        let mut result: Vec<Proposal> = Vec::new();
        let mut i: i32 = 0;
        while i < self.proposal_id
            invariant
                *self == *old(self),
                0 <= i,
                i <= self.proposal_id || i == 0,
                result@ == filed_below(self.proposal@, i as int),
            decreases self.proposal_id - i,
        {
            match self.proposal.get(&i) {
                Some(value) => {
                    result.push(value.clone());
                },
                None => {},
            }
            i += 1;
        }
        result
    }

    /// All registered users, in the order of their identifiers.
    pub fn get_all_users(&mut self) -> (result: Vec<User>)
        ensures
            *final(self) == *old(self),
            result@.len() == old(self).all_users().len(),
            forall|i: int|
                0 <= i < result@.len() ==> same_user(
                    #[trigger] result@[i],
                    old(self).all_users()[i],
                ),
    {
        let mut result: Vec<User> = Vec::new();
        let mut i: i32 = 0;
        while i < self.user_id
            invariant
                *self == *old(self),
                0 <= i,
                i <= self.user_id || i == 0,
                result@.len() == filed_below(self.user@, i as int).len(),
                forall|j: int|
                    0 <= j < result@.len() ==> same_user(
                        #[trigger] result@[j],
                        filed_below(self.user@, i as int)[j],
                    ),
            decreases self.user_id - i,
        {
            match self.user.get(&i) {
                Some(value) => {
                    result.push(value.clone());
                },
                None => {},
            }
            i += 1;
        }
        result
    }

    /// Hands out the next proposal identifier.
    pub fn get_next_id(&mut self) -> (id: ProposalId)
        requires
            old(self).proposal_id < i32::MAX,
        ensures
            id == old(self).proposal_id,
            final(self).proposal_id == old(self).proposal_id + 1,
            final(self).owner == old(self).owner,
            final(self).user_id == old(self).user_id,
            final(self).proposal == old(self).proposal,
            final(self).user == old(self).user,
            final(self).voted == old(self).voted,
    {
        let id = self.proposal_id;
        self.proposal_id += 1;
        id
    }

    /// Hands out the next user identifier.
    pub fn get_next_userid(&mut self) -> (id: UserId)
        requires
            old(self).user_id < i32::MAX,
        ensures
            id == old(self).user_id,
            final(self).user_id == old(self).user_id + 1,
            final(self).owner == old(self).owner,
            final(self).proposal_id == old(self).proposal_id,
            final(self).proposal == old(self).proposal,
            final(self).user == old(self).user,
            final(self).voted == old(self).voted,
    {
        let id = self.user_id;
        self.user_id += 1;
        id
    }

    /// Whether `user` owns the poll.
    pub fn check_owner(&self, user: AccountId) -> (r: bool)
        ensures
            r == (self.owner == user),
    {
        if self.owner == user {
            true
        } else {
            false
        }
    }

    /// Whether some user is registered with the account `caller`.
    pub fn check_register_user(&mut self, caller: AccountId) -> (registered: bool)
        ensures
            *final(self) == *old(self),
            registered == old(self).is_registered(caller),
    {
        let user = self.get_all_users();
        let mut ruser = false;
        let mut i: usize = 0;
        while i < user.len()
            invariant_except_break
                i <= user@.len(),
                !ruser,
                forall|j: int| 0 <= j < i ==> (#[trigger] user@[j]).user_account != caller,
            ensures
                ruser ==> exists|j: int|
                    0 <= j < user@.len() && (#[trigger] user@[j]).user_account == caller,
                !ruser ==> forall|j: int|
                    0 <= j < user@.len() ==> (#[trigger] user@[j]).user_account != caller,
            decreases user@.len() - i,
        {
            if user[i].user_account == caller {
                ruser = true;
                break;
            }
            i += 1;
        }
        proof {
            let listed = old(self).all_users();
            if ruser {
                let j = choose|j: int|
                    0 <= j < user@.len() && (#[trigger] user@[j]).user_account == caller;
                assert(same_user(user@[j], listed[j]));
                assert(listed[j].user_account == caller);
            } else {
                assert forall|j: int| 0 <= j < listed.len() implies (#[trigger] listed[
                    j
                ]).user_account != caller by {
                    assert(same_user(user@[j], listed[j]));
                }
            }
        }
        ruser
    }
}

/// In a poll in which a proposal is filed under every identifier handed out, the
/// listing of all proposals holds one proposal for each identifier, in the order
/// of the identifiers: as many as the counter says, the `i`-th the one filed
/// under `i`.
pub proof fn lemma_proposals_in_order(poll: VotingDapp)
    requires
        poll.wf(),
        poll.is_complete(),
    ensures
        poll.all_proposals().len() == poll.proposal_id,
        forall|i: int|
            0 <= i < poll.proposal_id ==> #[trigger] poll.all_proposals()[i]
                == poll.proposal@[i as i32],
{
    lemma_filed_below_complete(poll.proposal@, poll.proposal_id as int);
    assert forall|i: int| 0 <= i < poll.proposal_id implies #[trigger] poll.all_proposals()[i]
        == poll.proposal@[i as i32] by {
        assert(filed_below(poll.proposal@, poll.proposal_id as int)[i] == poll.proposal@[i as i32]);
    }
}

} // verus!
