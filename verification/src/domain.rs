//! The voting domain: the configuration, the registry of accounts, the
//! proposal store and the vote ledger, with one operation per request.
//!
//! Every operation checks all that could make it fail before it changes
//! anything, so a rejected request leaves the domain as it was.

use vstd::prelude::*;
use crate::account::{accounts_view, AccountView, UserAccount};
use crate::audit::{
    counters_match,
    creators_known,
    identities_distinct,
    proposals_consistent,
    voters_known,
    votes_distinct,
    votes_within,
};
use crate::ballot::{admit_proposal, admit_vote};
use crate::config::VotinConfig;
use crate::error::VotingError;
use crate::identity::Identity;
use crate::counting::{
    lemma_account_index,
    lemma_proposals_by_bound,
    lemma_vote_index,
    lemma_votes_by_bound,
};
use crate::preservation::{
    lemma_assign_role_keeps_inv,
    lemma_cast_vote_keeps_inv,
    lemma_create_proposal_keeps_inv,
    lemma_initial_state_valid,
    lemma_register_keeps_inv,
    lemma_step_keeps_inv,
    lemma_update_voting_power_keeps_inv,
};
use crate::model::{
    account_index,
    assign_role_step,
    cancel_proposal_step,
    cast_vote_step,
    complete_proposal_step,
    create_proposal_step,
    distinct_identities,
    has_voted,
    holds,
    initial_state,
    initialize_step,
    inv,
    is_registered,
    pause_proposal_step,
    register_step,
    resume_proposal_step,
    set_paused_step,
    update_voting_power_step,
    vote_index,
    vote_record_of,
    DomainState,
    Request,
};
use crate::proposal::{proposals_view, Proposal, ProposalView};
use crate::role::{authorize, Capability, UserRole};
use crate::vote::VoteRecord;

verus! {

/// A voting domain.
pub struct VotingDomain {
    config: VotinConfig,
    users: Vec<UserAccount>,
    proposals: Vec<Proposal>,
    votes: Vec<VoteRecord>,
}

impl View for VotingDomain {
    type V = DomainState;

    closed spec fn view(&self) -> DomainState {
        DomainState {
            config: self.config@,
            users: accounts_view(self.users@),
            proposals: proposals_view(self.proposals@),
            votes: self.votes@,
        }
    }
}

/// Looks for the account of `identity`.
fn find_account(users: &Vec<UserAccount>, identity: Identity) -> (found: Option<usize>)
    requires
        distinct_identities(accounts_view(users@)),
    ensures
        match found {
            Some(i) => i < users.len() && is_registered(accounts_view(users@), identity)
                && account_index(accounts_view(users@), identity) == i,
            None => !is_registered(accounts_view(users@), identity),
        },
{
    let mut i: usize = 0;
    while i < users.len()
        invariant
            i <= users.len(),
            distinct_identities(accounts_view(users@)),
            forall|k: int| 0 <= k < i ==> (#[trigger] accounts_view(users@)[k]).authority != identity,
        decreases users.len() - i,
    {
        if users[i].authority == identity {
            proof {
                lemma_account_index(accounts_view(users@), i as int);
            }
            return Some(i);
        }
        i += 1;
    }
    None
}

/// Looks for the vote of `voter` on proposal `proposal_id`.
fn find_vote(votes: &Vec<VoteRecord>, proposal_id: u64, voter: Identity) -> (found: Option<usize>)
    ensures
        match found {
            Some(k) => k < votes.len() && votes[k as int].is_for(proposal_id, voter) && has_voted(
                votes@,
                proposal_id,
                voter,
            ),
            None => !has_voted(votes@, proposal_id, voter),
        },
{
    let mut k: usize = 0;
    while k < votes.len()
        invariant
            k <= votes.len(),
            forall|j: int| 0 <= j < k ==> !(#[trigger] votes@[j]).is_for(proposal_id, voter),
        decreases votes.len() - k,
    {
        if votes[k].matches(proposal_id, voter) {
            return Some(k);
        }
        k += 1;
    }
    None
}

/// The role of `caller`, where `caller` has an account and the role grants
/// `required`.
fn authorized_role(users: &Vec<UserAccount>, caller: Identity, required: Capability) -> (role:
    Option<UserRole>)
    requires
        distinct_identities(accounts_view(users@)),
    ensures
        match role {
            Some(r) => holds(accounts_view(users@), caller, required) && r == accounts_view(
                users@,
            )[account_index(accounts_view(users@), caller)].role,
            None => !holds(accounts_view(users@), caller, required),
        },
{
    match find_account(users, caller) {
        Some(c) => {
            let role = users[c].role;
            if authorize(role, required) {
                Some(role)
            } else {
                None
            }
        },
        None => None,
    }
}

/// Adds `account` unless its identity has an account already; tells whether
/// it was added.
fn create_account_if_absent(users: &mut Vec<UserAccount>, account: UserAccount) -> (created: bool)
    requires
        distinct_identities(accounts_view(old(users)@)),
    ensures
        created == !is_registered(accounts_view(old(users)@), account.authority),
        created ==> final(users)@ == old(users)@.push(account),
        !created ==> final(users)@ == old(users)@,
{
    match find_account(users, account.authority) {
        Some(_) => false,
        None => {
            users.push(account);
            true
        },
    }
}

/// Adds `record` unless its voter has a vote on its proposal already; tells
/// whether it was added.
fn create_vote_if_absent(votes: &mut Vec<VoteRecord>, record: VoteRecord) -> (created: bool)
    ensures
        created == !has_voted(old(votes)@, record.proposal_id, record.voter),
        created ==> final(votes)@ == old(votes)@.push(record),
        !created ==> final(votes)@ == old(votes)@,
{
    match find_vote(votes, record.proposal_id, record.voter) {
        Some(_) => false,
        None => {
            votes.push(record);
            true
        },
    }
}

/// The state that stored records stand for.
pub open spec fn snapshot(
    config: VotinConfig,
    users: Seq<UserAccount>,
    proposals: Seq<Proposal>,
    votes: Seq<VoteRecord>,
) -> DomainState {
    DomainState {
        config: config@,
        users: accounts_view(users),
        proposals: proposals_view(proposals),
        votes,
    }
}

/// What a slot that may hold a domain stands for.
pub open spec fn slot_view(slot: Option<VotingDomain>) -> Option<DomainState> {
    match slot {
        Some(domain) => Some(domain@),
        None => None,
    }
}

/// Sets up the voting domain in `slot` for `owner`, with a voting window from
/// `voting_start_time` to `voting_end_time`. A slot that holds a domain is
/// left alone, and so is an empty one where the window does not end after it
/// starts.
pub fn initialize_voting_system(
    slot: &mut Option<VotingDomain>,
    owner: Identity,
    voting_start_time: i64,
    voting_end_time: i64,
) -> (res: Result<(), VotingError>)
    ensures
        match initialize_step(slot_view(*old(slot)), owner, voting_start_time, voting_end_time) {
            Ok(next) => res is Ok && slot_view(*final(slot)) == Some(next) && inv(next),
            Err(e) => res == Err::<(), VotingError>(e) && *final(slot) == *old(slot),
        },
{
    if slot.is_some() {
        return Err(VotingError::AlreadyInitialized);
    }
    match VotinConfig::new(owner, voting_start_time, voting_end_time) {
        Err(e) => Err(e),
        Ok(config) => {
            let domain = VotingDomain {
                config,
                users: Vec::new(),
                proposals: Vec::new(),
                votes: Vec::new(),
            };
            proof {
                assert(domain@.users =~= Seq::<AccountView>::empty());
                assert(domain@.proposals =~= Seq::<ProposalView>::empty());
                assert(domain@.votes =~= Seq::<VoteRecord>::empty());
                assert(domain@ == initial_state(owner, voting_start_time, voting_end_time));
                lemma_initial_state_valid(owner, voting_start_time, voting_end_time);
            }
            *slot = Some(domain);
            Ok(())
        },
    }
}

impl VotingDomain {
    /// Rebuilds a domain from stored records: the configuration, the accounts
    /// in order of registration, the proposals in order of their identifiers
    /// and the vote records. Records that do not make up a valid domain are
    /// refused.
    pub fn restore(
        config: VotinConfig,
        users: Vec<UserAccount>,
        proposals: Vec<Proposal>,
        votes: Vec<VoteRecord>,
    ) -> (domain: Option<VotingDomain>)
        ensures
            domain is Some <==> inv(snapshot(config, users@, proposals@, votes@)),
            domain is Some ==> domain->0@ == snapshot(config, users@, proposals@, votes@),
    {
        let valid = config.voting_end_time > config.voting_start_time && config.total_users
            == users.len() as u64 && config.total_proposals == proposals.len() as u64
            && identities_distinct(&users) && votes_distinct(&votes) && proposals_consistent(
            &proposals,
            &votes,
        ) && votes_within(&votes, proposals.len()) && voters_known(&votes, &users)
            && creators_known(&proposals, &users) && counters_match(&users, &votes, &proposals);
        if valid {
            Some(VotingDomain { config, users, proposals, votes })
        } else {
            None
        }
    }

    /// The accounts, in order of registration.
    pub fn users(&self) -> (users: &Vec<UserAccount>)
        ensures
            accounts_view(users@) == self@.users,
    {
        &self.users
    }

    /// The proposals, each at the position of its identifier.
    pub fn proposals(&self) -> (proposals: &Vec<Proposal>)
        ensures
            proposals_view(proposals@) == self@.proposals,
    {
        &self.proposals
    }

    /// The vote records, in the order in which the votes were cast.
    pub fn votes(&self) -> (votes: &Vec<VoteRecord>)
        ensures
            votes@ == self@.votes,
    {
        &self.votes
    }

    /// The domain's configuration.
    pub fn config(&self) -> (config: VotinConfig)
        ensures
            config@ == self@.config,
    {
        self.config
    }

    /// The account of `identity`, if it is registered.
    pub fn user_account(&self, identity: Identity) -> (account: Option<UserAccount>)
        requires
            inv(self@),
        ensures
            match account {
                Some(a) => is_registered(self@.users, identity) && a@ == self@.users[account_index(
                    self@.users,
                    identity,
                )],
                None => !is_registered(self@.users, identity),
            },
    {
        match find_account(&self.users, identity) {
            Some(i) => Some(self.users[i]),
            None => None,
        }
    }

    /// The proposal with identifier `proposal_id`, if there is one.
    pub fn proposal(&self, proposal_id: u64) -> (proposal: Option<&Proposal>)
        ensures
            match proposal {
                Some(p) => proposal_id < self@.proposals.len() && p@
                    == self@.proposals[proposal_id as int],
                None => proposal_id >= self@.proposals.len(),
            },
    {
        if proposal_id >= self.proposals.len() as u64 {
            None
        } else {
            Some(&self.proposals[proposal_id as usize])
        }
    }

    /// The record of the vote of `voter` on proposal `proposal_id`, if there
    /// is one.
    pub fn vote_record(&self, proposal_id: u64, voter: Identity) -> (record: Option<VoteRecord>)
        requires
            inv(self@),
        ensures
            match record {
                Some(r) => has_voted(self@.votes, proposal_id, voter) && r == self@.votes[vote_index(
                    self@.votes,
                    proposal_id,
                    voter,
                )],
                None => !has_voted(self@.votes, proposal_id, voter),
            },
    {
        match find_vote(&self.votes, proposal_id, voter) {
            Some(k) => {
                proof {
                    lemma_vote_index(self.votes@, k as int);
                }
                Some(self.votes[k])
            },
            None => None,
        }
    }

    /// Registers `caller` as a voter with voting power 1.
    pub fn register_user(&mut self, caller: Identity) -> (res: Result<(), VotingError>)
        requires
            inv(old(self)@),
        ensures
            inv(final(self)@),
            match register_step(old(self)@, caller) {
                Ok(next) => res is Ok && final(self)@ == next,
                Err(e) => res == Err::<(), VotingError>(e) && final(self)@ == old(self)@,
            },
    {
        if !create_account_if_absent(&mut self.users, UserAccount::new(caller)) {
            return Err(VotingError::AlreadyRegistered);
        }
        proof {
            assert(old(self)@.config.total_users == old(self).users@.len());
            assert(self.users@.len() == old(self).users@.len() + 1);
            assert(self.users@.len() == self.users.len());
        }
        self.config.count_registration();
        proof {
            assert(accounts_view(self.users@) =~= accounts_view(old(self).users@).push(
                crate::account::fresh_account(caller),
            ));
            lemma_register_keeps_inv(old(self)@, caller);
        }
        Ok(())
    }

    /// Gives `target` the role that `new_role` stands for, on behalf of
    /// `caller`, who must be an admin.
    pub fn assign_role(&mut self, caller: Identity, target: Identity, new_role: u8) -> (res: Result<
        (),
        VotingError,
    >)
        requires
            inv(old(self)@),
        ensures
            inv(final(self)@),
            match assign_role_step(old(self)@, caller, target, new_role) {
                Ok(next) => res is Ok && final(self)@ == next,
                Err(e) => res == Err::<(), VotingError>(e) && final(self)@ == old(self)@,
            },
    {
        let by = match authorized_role(&self.users, caller, Capability::ManageRole) {
            Some(role) => role,
            None => {
                return Err(VotingError::Unauthorized);
            },
        };
        if UserRole::from_code(new_role).is_none() {
            return Err(VotingError::InvalidRole);
        }
        let t: usize = match find_account(&self.users, target) {
            Some(t) => t,
            None => {
                return Err(VotingError::NotRegistered);
            },
        };
        let res = self.users[t].assign_role(by, new_role);
        proof {
            let next = assign_role_step(old(self)@, caller, target, new_role)->Ok_0;
            assert(accounts_view(self.users@) =~= next.users);
            lemma_assign_role_keeps_inv(old(self)@, caller, target, new_role);
        }
        res
    }

    /// Sets the voting power of `target` to `new_power`, on behalf of
    /// `caller`, who must be an admin. Votes that were cast keep the power
    /// they were cast with.
    pub fn update_voting_power(&mut self, caller: Identity, target: Identity, new_power: u64) -> (res:
        Result<(), VotingError>)
        requires
            inv(old(self)@),
        ensures
            inv(final(self)@),
            match update_voting_power_step(old(self)@, caller, target, new_power) {
                Ok(next) => res is Ok && final(self)@ == next,
                Err(e) => res == Err::<(), VotingError>(e) && final(self)@ == old(self)@,
            },
    {
        let by = match authorized_role(&self.users, caller, Capability::ManageRole) {
            Some(role) => role,
            None => {
                return Err(VotingError::Unauthorized);
            },
        };
        let t: usize = match find_account(&self.users, target) {
            Some(t) => t,
            None => {
                return Err(VotingError::NotRegistered);
            },
        };
        let res = self.users[t].set_voting_power(by, new_power);
        proof {
            let next = update_voting_power_step(old(self)@, caller, target, new_power)->Ok_0;
            assert(accounts_view(self.users@) =~= next.users);
            lemma_update_voting_power_keeps_inv(old(self)@, caller, target, new_power);
        }
        res
    }

    /// Opens a proposal for `caller` at time `now` and returns its
    /// identifier. The texts must be within their bounds, the caller must be
    /// allowed to open proposals, and the domain must not be paused.
    pub fn create_proposal(
        &mut self,
        caller: Identity,
        title: String,
        description: String,
        now: i64,
    ) -> (res: Result<u64, VotingError>)
        requires
            inv(old(self)@),
        ensures
            inv(final(self)@),
            match create_proposal_step(old(self)@, caller, title@, description@, now) {
                Ok(next) => res is Ok && res->Ok_0 == old(self)@.config.total_proposals
                    && final(self)@ == next,
                Err(e) => res == Err::<u64, VotingError>(e) && final(self)@ == old(self)@,
            },
    {
        let found = find_account(&self.users, caller);
        let creator: Option<&UserAccount> = match found {
            Some(i) => Some(&self.users[i]),
            None => None,
        };
        if let Err(e) = admit_proposal(&self.config, creator, title.as_str(), description.as_str()) {
            return Err(e);
        }
        let c: usize = match found {
            Some(c) => c,
            None => {
                return Err(VotingError::Unauthorized);
            },
        };
        let proposal = match Proposal::new(
            caller,
            self.config.total_proposals,
            title,
            description,
            now,
        ) {
            Ok(proposal) => proposal,
            Err(e) => {
                return Err(e);
            },
        };
        self.proposals.push(proposal);
        proof {
            assert(old(self)@.config.total_proposals == old(self).proposals@.len());
            lemma_proposals_by_bound(old(self)@.proposals, caller);
            assert(old(self)@.users[c as int].proposals_created <= old(self).proposals@.len());
            assert(self.proposals@.len() == self.proposals.len());
        }
        let id: u64 = self.config.next_proposal_id();
        self.users[c].count_proposal();
        proof {
            let next = create_proposal_step(old(self)@, caller, title@, description@, now)->Ok_0;
            assert(accounts_view(self.users@) =~= next.users);
            assert(proposals_view(self.proposals@) =~= next.proposals);
            assert(self@ == next);
            lemma_create_proposal_keeps_inv(old(self)@, caller, title@, description@, now);
        }
        Ok(id)
    }

    /// Pauses the active proposal `proposal_id` on behalf of `caller`, who
    /// must be a moderator or an admin.
    pub fn pause_proposal(&mut self, caller: Identity, proposal_id: u64) -> (res: Result<
        (),
        VotingError,
    >)
        requires
            inv(old(self)@),
        ensures
            inv(final(self)@),
            match pause_proposal_step(old(self)@, caller, proposal_id) {
                Ok(next) => res is Ok && final(self)@ == next,
                Err(e) => res == Err::<(), VotingError>(e) && final(self)@ == old(self)@,
            },
    {
        let role = match authorized_role(&self.users, caller, Capability::Moderate) {
            Some(role) => role,
            None => {
                return Err(VotingError::Unauthorized);
            },
        };
        if proposal_id >= self.proposals.len() as u64 {
            return Err(VotingError::ProposalNotActive);
        }
        let res = self.proposals[proposal_id as usize].pause(role);
        proof {
            let step = pause_proposal_step(old(self)@, caller, proposal_id);
            if step is Ok {
                assert(proposals_view(self.proposals@) =~= step->Ok_0.proposals);
                lemma_step_keeps_inv(old(self)@, Request::PauseProposal { caller, proposal_id });
            } else {
                assert(self.proposals@ =~= old(self).proposals@);
            }
        }
        res
    }

    /// Resumes the paused proposal `proposal_id` on behalf of `caller`, who
    /// must be a moderator or an admin.
    pub fn resume_proposal(&mut self, caller: Identity, proposal_id: u64) -> (res: Result<
        (),
        VotingError,
    >)
        requires
            inv(old(self)@),
        ensures
            inv(final(self)@),
            match resume_proposal_step(old(self)@, caller, proposal_id) {
                Ok(next) => res is Ok && final(self)@ == next,
                Err(e) => res == Err::<(), VotingError>(e) && final(self)@ == old(self)@,
            },
    {
        let role = match authorized_role(&self.users, caller, Capability::Moderate) {
            Some(role) => role,
            None => {
                return Err(VotingError::Unauthorized);
            },
        };
        if proposal_id >= self.proposals.len() as u64 {
            return Err(VotingError::ProposalNotActive);
        }
        let res = self.proposals[proposal_id as usize].resume(role);
        proof {
            let step = resume_proposal_step(old(self)@, caller, proposal_id);
            if step is Ok {
                assert(proposals_view(self.proposals@) =~= step->Ok_0.proposals);
                lemma_step_keeps_inv(old(self)@, Request::ResumeProposal { caller, proposal_id });
            } else {
                assert(self.proposals@ =~= old(self).proposals@);
            }
        }
        res
    }

    /// Completes proposal `proposal_id` on behalf of `caller`, who must be
    /// its creator.
    pub fn complete_proposal(&mut self, caller: Identity, proposal_id: u64) -> (res: Result<
        (),
        VotingError,
    >)
        requires
            inv(old(self)@),
        ensures
            inv(final(self)@),
            match complete_proposal_step(old(self)@, caller, proposal_id) {
                Ok(next) => res is Ok && final(self)@ == next,
                Err(e) => res == Err::<(), VotingError>(e) && final(self)@ == old(self)@,
            },
    {
        if proposal_id >= self.proposals.len() as u64 {
            return Err(VotingError::ProposalNotActive);
        }
        let res = self.proposals[proposal_id as usize].complete(caller);
        proof {
            let step = complete_proposal_step(old(self)@, caller, proposal_id);
            if step is Ok {
                assert(proposals_view(self.proposals@) =~= step->Ok_0.proposals);
                lemma_step_keeps_inv(
                    old(self)@,
                    Request::CompleteProposal { caller, proposal_id },
                );
            } else {
                assert(self.proposals@ =~= old(self).proposals@);
            }
        }
        res
    }

    /// Cancels proposal `proposal_id` on behalf of `caller`, who must be an
    /// admin.
    pub fn cancel_proposal(&mut self, caller: Identity, proposal_id: u64) -> (res: Result<
        (),
        VotingError,
    >)
        requires
            inv(old(self)@),
        ensures
            inv(final(self)@),
            match cancel_proposal_step(old(self)@, caller, proposal_id) {
                Ok(next) => res is Ok && final(self)@ == next,
                Err(e) => res == Err::<(), VotingError>(e) && final(self)@ == old(self)@,
            },
    {
        let role = match authorized_role(&self.users, caller, Capability::ManageRole) {
            Some(role) => role,
            None => {
                return Err(VotingError::Unauthorized);
            },
        };
        if proposal_id >= self.proposals.len() as u64 {
            return Err(VotingError::ProposalNotActive);
        }
        let res = self.proposals[proposal_id as usize].cancel(role);
        proof {
            let step = cancel_proposal_step(old(self)@, caller, proposal_id);
            assert(step is Ok);
            assert(proposals_view(self.proposals@) =~= step->Ok_0.proposals);
            lemma_step_keeps_inv(old(self)@, Request::CancelProposal { caller, proposal_id });
        }
        res
    }

    /// Pauses the whole domain on behalf of `caller`, who must be its owner.
    pub fn pause_system(&mut self, caller: Identity) -> (res: Result<(), VotingError>)
        requires
            inv(old(self)@),
        ensures
            inv(final(self)@),
            match set_paused_step(old(self)@, caller, true) {
                Ok(next) => res is Ok && final(self)@ == next,
                Err(e) => res == Err::<(), VotingError>(e) && final(self)@ == old(self)@,
            },
    {
        let res = self.config.pause(caller);
        proof {
            if res is Ok {
                lemma_step_keeps_inv(old(self)@, Request::PauseSystem { caller });
            }
        }
        res
    }

    /// Lifts the pause of the whole domain on behalf of `caller`, who must be
    /// its owner.
    pub fn resume_system(&mut self, caller: Identity) -> (res: Result<(), VotingError>)
        requires
            inv(old(self)@),
        ensures
            inv(final(self)@),
            match set_paused_step(old(self)@, caller, false) {
                Ok(next) => res is Ok && final(self)@ == next,
                Err(e) => res == Err::<(), VotingError>(e) && final(self)@ == old(self)@,
            },
    {
        let res = self.config.resume(caller);
        proof {
            if res is Ok {
                lemma_step_keeps_inv(old(self)@, Request::ResumeSystem { caller });
            }
        }
        res
    }

    /// Casts the vote of `caller` on proposal `proposal_id` at time `now`.
    /// The vote is admitted inside the voting window, while neither the
    /// domain nor the proposal is paused or closed, with a valid option, from
    /// a registered voter who has not voted on this proposal. It adds the
    /// voter's present voting power to the tally of the chosen option and
    /// leaves a record that is returned.
    pub fn cast_vote(
        &mut self,
        caller: Identity,
        proposal_id: u64,
        vote_option: u8,
        now: i64,
    ) -> (res: Result<VoteRecord, VotingError>)
        requires
            inv(old(self)@),
        ensures
            inv(final(self)@),
            match cast_vote_step(old(self)@, caller, proposal_id, vote_option, now) {
                Ok(next) => res == Ok::<VoteRecord, VotingError>(
                    vote_record_of(old(self)@, caller, proposal_id, vote_option, now),
                ) && final(self)@ == next,
                Err(e) => res == Err::<VoteRecord, VotingError>(e) && final(self)@ == old(self)@,
            },
    {
        let option = match admit_vote(
            &self.config,
            self.proposal(proposal_id),
            vote_option,
            now,
        ) {
            Ok(option) => option,
            Err(e) => {
                return Err(e);
            },
        };
        let c: usize = match find_account(&self.users, caller) {
            Some(c) => c,
            None => {
                return Err(VotingError::NotRegistered);
            },
        };
        proof {
            assert(proposal_id < self@.proposals.len());
            assert(self@.proposals.len() == self.proposals.len());
        }
        let p: usize = proposal_id as usize;
        let record = VoteRecord::new(&self.users[c], proposal_id, option, now);
        if !create_vote_if_absent(&mut self.votes, record) {
            return Err(VotingError::AlreadyVoted);
        }
        proof {
            lemma_votes_by_bound(old(self).votes@, caller);
            assert(old(self)@.users[c as int].votes_cast <= old(self).votes@.len());
            assert(self.votes@.len() == self.votes.len());
        }
        self.proposals[p].add_votes(option, record.voting_power_used);
        self.users[c].count_vote();
        proof {
            let next = cast_vote_step(old(self)@, caller, proposal_id, vote_option, now)->Ok_0;
            assert(accounts_view(self.users@) =~= next.users);
            assert(proposals_view(self.proposals@) =~= next.proposals);
            assert(self@ == next);
            lemma_cast_vote_keeps_inv(old(self)@, caller, proposal_id, vote_option, now);
        }
        Ok(record)
    }
}

} // verus!
