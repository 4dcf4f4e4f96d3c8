//! The voting domain as a mathematical state, the invariant that every
//! reachable state meets, and the effect of each operation on a state.
//!
//! Each operation is a function from the state before it and its arguments
//! to either the state after it or the reason for which it is rejected. A
//! rejected operation has no state after it: nothing changes.

use vstd::prelude::*;
use crate::account::{fresh_account, AccountView};
use crate::ballot::{admission_error, creation_error};
use crate::config::{initial_config, set_paused, ConfigView};
use crate::error::VotingError;
use crate::identity::Identity;
use crate::proposal::{
    cancelled_by,
    completed_by,
    opened,
    paused_by,
    resumed_by,
    tallied,
    text_error,
    ProposalView,
};
use crate::role::{grants, role_of_code, Capability};
use crate::vote::{option_of_code, VoteOption, VoteRecord};

verus! {

/// All that a voting domain holds.
pub struct DomainState {
    /// The domain's configuration.
    pub config: ConfigView,
    /// The accounts, in order of registration.
    pub users: Seq<AccountView>,
    /// The proposals, each at the position of its identifier.
    pub proposals: Seq<ProposalView>,
    /// The vote records, in the order in which the votes were cast.
    pub votes: Seq<VoteRecord>,
}

/// Whether `identity` has an account among `users`.
pub open spec fn is_registered(users: Seq<AccountView>, identity: Identity) -> bool {
    exists|i: int| 0 <= i < users.len() && (#[trigger] users[i]).authority == identity
}

/// The position of the account of `identity` among `users`, where it has one.
pub open spec fn account_index(users: Seq<AccountView>, identity: Identity) -> int {
    choose|i: int| 0 <= i < users.len() && (#[trigger] users[i]).authority == identity
}

/// Whether `identity` has an account whose role grants `capability`.
pub open spec fn holds(users: Seq<AccountView>, identity: Identity, capability: Capability) -> bool {
    is_registered(users, identity) && grants(
        users[account_index(users, identity)].role,
        capability,
    )
}

/// Whether `votes` holds a vote of `voter` on proposal `proposal_id`.
pub open spec fn has_voted(votes: Seq<VoteRecord>, proposal_id: u64, voter: Identity) -> bool {
    exists|k: int| 0 <= k < votes.len() && (#[trigger] votes[k]).is_for(proposal_id, voter)
}

/// The position of the vote of `voter` on proposal `proposal_id`, where there
/// is one.
pub open spec fn vote_index(votes: Seq<VoteRecord>, proposal_id: u64, voter: Identity) -> int {
    choose|k: int| 0 <= k < votes.len() && (#[trigger] votes[k]).is_for(proposal_id, voter)
}

/// The voting power that the records in `votes` spent on `option` for
/// proposal `proposal_id`.
pub open spec fn power_cast(votes: Seq<VoteRecord>, proposal_id: nat, option: VoteOption) -> nat
    decreases votes.len(),
{
    if votes.len() == 0 {
        0
    } else {
        let last = votes.last();
        let spent: nat = if last.proposal_id == proposal_id && last.vote_option == option {
            last.voting_power_used as nat
        } else {
            0
        };
        power_cast(votes.drop_last(), proposal_id, option) + spent
    }
}

/// All the voting power that the records in `votes` spent on proposal
/// `proposal_id`.
pub open spec fn total_power_cast(votes: Seq<VoteRecord>, proposal_id: nat) -> nat {
    power_cast(votes, proposal_id, VoteOption::For) + power_cast(
        votes,
        proposal_id,
        VoteOption::Against,
    ) + power_cast(votes, proposal_id, VoteOption::Abstain)
}

/// A total as a tally shows it: capped at `u64::MAX`.
pub open spec fn capped(total: nat) -> u64 {
    if total > u64::MAX {
        u64::MAX
    } else {
        total as u64
    }
}

/// No two accounts belong to one identity.
pub open spec fn distinct_identities(users: Seq<AccountView>) -> bool {
    forall|i: int, j: int|
        0 <= i < j < users.len() ==> (#[trigger] users[i]).authority != (
        #[trigger] users[j]).authority
}

/// No two records are the vote of one voter on one proposal.
pub open spec fn distinct_votes(votes: Seq<VoteRecord>) -> bool {
    forall|i: int, j: int|
        0 <= i < j < votes.len() ==> !(#[trigger] votes[i]).is_for(
            (#[trigger] votes[j]).proposal_id,
            votes[j].voter,
        )
}

/// The proposal at position `i` carries `i` as its identifier, its texts are
/// within bounds, and each of its tallies is the capped total of the power
/// that the vote records spent on it.
pub open spec fn proposal_in_order(
    proposals: Seq<ProposalView>,
    votes: Seq<VoteRecord>,
    i: int,
) -> bool {
    let p = proposals[i];
    &&& p.proposal_id == i
    &&& text_error(p.title, p.description) is None
    &&& p.votes_for == capped(power_cast(votes, i as nat, VoteOption::For))
    &&& p.votes_against == capped(power_cast(votes, i as nat, VoteOption::Against))
    &&& p.votes_abstain == capped(power_cast(votes, i as nat, VoteOption::Abstain))
}

/// Every proposal is in order.
pub open spec fn proposals_in_order(proposals: Seq<ProposalView>, votes: Seq<VoteRecord>) -> bool {
    forall|i: int| 0 <= i < proposals.len() ==> #[trigger] proposal_in_order(proposals, votes, i)
}

/// Every vote record names one of the first `count` proposals.
pub open spec fn votes_name_proposals(votes: Seq<VoteRecord>, count: nat) -> bool {
    forall|k: int| 0 <= k < votes.len() ==> (#[trigger] votes[k]).proposal_id < count
}

/// The number of records in `votes` that are votes of `voter`.
pub open spec fn votes_by(votes: Seq<VoteRecord>, voter: Identity) -> nat
    decreases votes.len(),
{
    if votes.len() == 0 {
        0
    } else {
        votes_by(votes.drop_last(), voter) + if votes.last().voter == voter {
            1nat
        } else {
            0nat
        }
    }
}

/// The number of `proposals` that `creator` opened.
pub open spec fn proposals_by(proposals: Seq<ProposalView>, creator: Identity) -> nat
    decreases proposals.len(),
{
    if proposals.len() == 0 {
        0
    } else {
        proposals_by(proposals.drop_last(), creator) + if proposals.last().creator == creator {
            1nat
        } else {
            0nat
        }
    }
}

/// Every account counts the votes that its identity cast and the proposals
/// that it opened.
pub open spec fn counters_exact(
    users: Seq<AccountView>,
    votes: Seq<VoteRecord>,
    proposals: Seq<ProposalView>,
) -> bool {
    forall|i: int|
        0 <= i < users.len() ==> (#[trigger] users[i]).votes_cast == votes_by(
            votes,
            users[i].authority,
        ) && users[i].proposals_created == proposals_by(proposals, users[i].authority)
}

/// Every vote is the vote of a registered identity.
pub open spec fn voters_registered(votes: Seq<VoteRecord>, users: Seq<AccountView>) -> bool {
    forall|k: int| 0 <= k < votes.len() ==> is_registered(users, (#[trigger] votes[k]).voter)
}

/// Every proposal was opened by a registered identity.
pub open spec fn creators_registered(proposals: Seq<ProposalView>, users: Seq<AccountView>) -> bool {
    forall|i: int|
        0 <= i < proposals.len() ==> is_registered(users, (#[trigger] proposals[i]).creator)
}

/// What holds of a voting domain at any time.
pub open spec fn inv(s: DomainState) -> bool {
    &&& s.config.voting_end_time > s.config.voting_start_time
    &&& s.config.total_users == s.users.len()
    &&& s.config.total_proposals == s.proposals.len()
    &&& distinct_identities(s.users)
    &&& distinct_votes(s.votes)
    &&& proposals_in_order(s.proposals, s.votes)
    &&& votes_name_proposals(s.votes, s.proposals.len())
    &&& voters_registered(s.votes, s.users)
    &&& creators_registered(s.proposals, s.users)
    &&& counters_exact(s.users, s.votes, s.proposals)
}

/// The state of a domain that `owner` has just set up.
pub open spec fn initial_state(owner: Identity, start: i64, end: i64) -> DomainState {
    DomainState {
        config: initial_config(owner, start, end),
        users: Seq::empty(),
        proposals: Seq::empty(),
        votes: Seq::empty(),
    }
}

/// Setting a domain up where `existing` tells whether one is there already.
pub open spec fn initialize_step(
    existing: Option<DomainState>,
    owner: Identity,
    start: i64,
    end: i64,
) -> Result<DomainState, VotingError> {
    if existing is Some {
        Err(VotingError::AlreadyInitialized)
    } else if end <= start {
        Err(VotingError::InvalidWindow)
    } else {
        Ok(initial_state(owner, start, end))
    }
}

/// Registering `caller`.
pub open spec fn register_step(s: DomainState, caller: Identity) -> Result<
    DomainState,
    VotingError,
> {
    if is_registered(s.users, caller) {
        Err(VotingError::AlreadyRegistered)
    } else {
        Ok(
            DomainState {
                config: ConfigView { total_users: s.config.total_users + 1, ..s.config },
                users: s.users.push(fresh_account(caller)),
                ..s
            },
        )
    }
}

/// `caller` giving `target` the role that `role_code` stands for.
pub open spec fn assign_role_step(
    s: DomainState,
    caller: Identity,
    target: Identity,
    role_code: u8,
) -> Result<DomainState, VotingError> {
    if !holds(s.users, caller, Capability::ManageRole) {
        Err(VotingError::Unauthorized)
    } else if role_of_code(role_code) is None {
        Err(VotingError::InvalidRole)
    } else if !is_registered(s.users, target) {
        Err(VotingError::NotRegistered)
    } else {
        let t = account_index(s.users, target);
        Ok(
            DomainState {
                users: s.users.update(
                    t,
                    AccountView { role: role_of_code(role_code)->0, ..s.users[t] },
                ),
                ..s
            },
        )
    }
}

/// `caller` setting the voting power of `target` to `new_power`.
pub open spec fn update_voting_power_step(
    s: DomainState,
    caller: Identity,
    target: Identity,
    new_power: u64,
) -> Result<DomainState, VotingError> {
    if !holds(s.users, caller, Capability::ManageRole) {
        Err(VotingError::Unauthorized)
    } else if !is_registered(s.users, target) {
        Err(VotingError::NotRegistered)
    } else {
        let t = account_index(s.users, target);
        Ok(
            DomainState {
                users: s.users.update(t, AccountView { voting_power: new_power, ..s.users[t] }),
                ..s
            },
        )
    }
}

/// `caller` opening a proposal at time `now`. The proposal's identifier is
/// the number of proposals opened before it.
pub open spec fn create_proposal_step(
    s: DomainState,
    caller: Identity,
    title: Seq<char>,
    description: Seq<char>,
    now: i64,
) -> Result<DomainState, VotingError> {
    let refusal = creation_error(s.config, account_of(s.users, caller), title, description);
    if refusal is Some {
        Err(refusal->0)
    } else {
        let c = account_index(s.users, caller);
        Ok(
            DomainState {
                config: ConfigView { total_proposals: s.config.total_proposals + 1, ..s.config },
                users: s.users.update(
                    c,
                    AccountView {
                        proposals_created: s.users[c].proposals_created + 1,
                        ..s.users[c]
                    },
                ),
                proposals: s.proposals.push(
                    opened(caller, s.config.total_proposals, title, description, now),
                ),
                ..s
            },
        )
    }
}

/// The proposal with identifier `proposal_id`, if there is one.
pub open spec fn proposal_at(proposals: Seq<ProposalView>, proposal_id: u64) -> Option<
    ProposalView,
> {
    if proposal_id < proposals.len() {
        Some(proposals[proposal_id as int])
    } else {
        None
    }
}

/// The account of `identity`, if it has one.
pub open spec fn account_of(users: Seq<AccountView>, identity: Identity) -> Option<AccountView> {
    if is_registered(users, identity) {
        Some(users[account_index(users, identity)])
    } else {
        None
    }
}

/// Why the vote that `caller` casts at time `now` on proposal `proposal_id`
/// with `option_code` is not admitted, if it is not. The first of the checks
/// that fails decides: the voting window, the domain's pause, the proposal's
/// status, the option, the voter's registration, an earlier vote.
pub open spec fn vote_error(
    s: DomainState,
    caller: Identity,
    proposal_id: u64,
    option_code: u8,
    now: i64,
) -> Option<VotingError> {
    let admission = admission_error(
        s.config,
        proposal_at(s.proposals, proposal_id),
        option_code,
        now,
    );
    if admission is Some {
        admission
    } else if !is_registered(s.users, caller) {
        Some(VotingError::NotRegistered)
    } else if has_voted(s.votes, proposal_id, caller) {
        Some(VotingError::AlreadyVoted)
    } else {
        None
    }
}

/// The record of the vote that `caller` casts at time `now`: it keeps the
/// voting power that the voter has at that moment.
pub open spec fn vote_record_of(
    s: DomainState,
    caller: Identity,
    proposal_id: u64,
    option_code: u8,
    now: i64,
) -> VoteRecord {
    VoteRecord {
        voter: caller,
        proposal_id,
        vote_option: option_of_code(option_code)->0,
        voting_power_used: s.users[account_index(s.users, caller)].voting_power,
        voted_at: now,
    }
}

/// `caller` casting a vote at time `now`: the proposal's tally grows by the
/// voter's power, the record joins the ledger, the voter's count grows by one.
pub open spec fn cast_vote_step(
    s: DomainState,
    caller: Identity,
    proposal_id: u64,
    option_code: u8,
    now: i64,
) -> Result<DomainState, VotingError> {
    if vote_error(s, caller, proposal_id, option_code, now) is Some {
        Err(vote_error(s, caller, proposal_id, option_code, now)->0)
    } else {
        let c = account_index(s.users, caller);
        let record = vote_record_of(s, caller, proposal_id, option_code, now);
        Ok(
            DomainState {
                config: s.config,
                users: s.users.update(
                    c,
                    AccountView { votes_cast: s.users[c].votes_cast + 1, ..s.users[c] },
                ),
                proposals: s.proposals.update(
                    proposal_id as int,
                    tallied(
                        s.proposals[proposal_id as int],
                        record.vote_option,
                        record.voting_power_used,
                    ),
                ),
                votes: s.votes.push(record),
            },
        )
    }
}

/// The state in which proposal `proposal_id` has become `outcome`, or the
/// error that `outcome` is.
pub open spec fn with_proposal(
    s: DomainState,
    proposal_id: u64,
    outcome: Result<ProposalView, VotingError>,
) -> Result<DomainState, VotingError> {
    match outcome {
        Ok(next) => Ok(DomainState { proposals: s.proposals.update(proposal_id as int, next), ..s }),
        Err(e) => Err(e),
    }
}

/// `caller` pausing proposal `proposal_id`.
pub open spec fn pause_proposal_step(s: DomainState, caller: Identity, proposal_id: u64) -> Result<
    DomainState,
    VotingError,
> {
    if !holds(s.users, caller, Capability::Moderate) {
        Err(VotingError::Unauthorized)
    } else if proposal_id >= s.proposals.len() {
        Err(VotingError::ProposalNotActive)
    } else {
        with_proposal(
            s,
            proposal_id,
            paused_by(
                s.proposals[proposal_id as int],
                s.users[account_index(s.users, caller)].role,
            ),
        )
    }
}

/// `caller` resuming proposal `proposal_id`.
pub open spec fn resume_proposal_step(s: DomainState, caller: Identity, proposal_id: u64) -> Result<
    DomainState,
    VotingError,
> {
    if !holds(s.users, caller, Capability::Moderate) {
        Err(VotingError::Unauthorized)
    } else if proposal_id >= s.proposals.len() {
        Err(VotingError::ProposalNotActive)
    } else {
        with_proposal(
            s,
            proposal_id,
            resumed_by(
                s.proposals[proposal_id as int],
                s.users[account_index(s.users, caller)].role,
            ),
        )
    }
}

/// `caller` completing proposal `proposal_id`.
pub open spec fn complete_proposal_step(
    s: DomainState,
    caller: Identity,
    proposal_id: u64,
) -> Result<DomainState, VotingError> {
    if proposal_id >= s.proposals.len() {
        Err(VotingError::ProposalNotActive)
    } else {
        with_proposal(s, proposal_id, completed_by(s.proposals[proposal_id as int], caller))
    }
}

/// `caller` cancelling proposal `proposal_id`.
pub open spec fn cancel_proposal_step(s: DomainState, caller: Identity, proposal_id: u64) -> Result<
    DomainState,
    VotingError,
> {
    if !holds(s.users, caller, Capability::ManageRole) {
        Err(VotingError::Unauthorized)
    } else if proposal_id >= s.proposals.len() {
        Err(VotingError::ProposalNotActive)
    } else {
        with_proposal(
            s,
            proposal_id,
            cancelled_by(
                s.proposals[proposal_id as int],
                s.users[account_index(s.users, caller)].role,
            ),
        )
    }
}

/// `caller` setting the pause flag of the whole domain to `paused`.
pub open spec fn set_paused_step(s: DomainState, caller: Identity, paused: bool) -> Result<
    DomainState,
    VotingError,
> {
    match set_paused(s.config, caller, paused) {
        Ok(config) => Ok(DomainState { config, ..s }),
        Err(e) => Err(e),
    }
}

/// A request to the domain, with the caller's identity and, where the
/// operation reads the clock, the time of the call.
pub enum Request {
    Register { caller: Identity },
    AssignRole { caller: Identity, target: Identity, role_code: u8 },
    UpdateVotingPower { caller: Identity, target: Identity, new_power: u64 },
    CreateProposal { caller: Identity, title: Seq<char>, description: Seq<char>, now: i64 },
    CastVote { caller: Identity, proposal_id: u64, option_code: u8, now: i64 },
    PauseProposal { caller: Identity, proposal_id: u64 },
    ResumeProposal { caller: Identity, proposal_id: u64 },
    CompleteProposal { caller: Identity, proposal_id: u64 },
    CancelProposal { caller: Identity, proposal_id: u64 },
    PauseSystem { caller: Identity },
    ResumeSystem { caller: Identity },
}

/// The effect of the request `op` on `s`.
pub open spec fn step(s: DomainState, op: Request) -> Result<DomainState, VotingError> {
    match op {
        Request::Register { caller } => register_step(s, caller),
        Request::AssignRole { caller, target, role_code } => assign_role_step(
            s,
            caller,
            target,
            role_code,
        ),
        Request::UpdateVotingPower { caller, target, new_power } => update_voting_power_step(
            s,
            caller,
            target,
            new_power,
        ),
        Request::CreateProposal { caller, title, description, now } => create_proposal_step(
            s,
            caller,
            title,
            description,
            now,
        ),
        Request::CastVote { caller, proposal_id, option_code, now } => cast_vote_step(
            s,
            caller,
            proposal_id,
            option_code,
            now,
        ),
        Request::PauseProposal { caller, proposal_id } => pause_proposal_step(
            s,
            caller,
            proposal_id,
        ),
        Request::ResumeProposal { caller, proposal_id } => resume_proposal_step(
            s,
            caller,
            proposal_id,
        ),
        Request::CompleteProposal { caller, proposal_id } => complete_proposal_step(
            s,
            caller,
            proposal_id,
        ),
        Request::CancelProposal { caller, proposal_id } => cancel_proposal_step(
            s,
            caller,
            proposal_id,
        ),
        Request::PauseSystem { caller } => set_paused_step(s, caller, true),
        Request::ResumeSystem { caller } => set_paused_step(s, caller, false),
    }
}

/// The state that `op` leaves: the state after it where it is carried out,
/// the state before it where it is rejected.
pub open spec fn apply(s: DomainState, op: Request) -> DomainState {
    match step(s, op) {
        Ok(next) => next,
        Err(_) => s,
    }
}

/// The state after the requests `ops` were made of `s`, one after the other.
pub open spec fn run(s: DomainState, ops: Seq<Request>) -> DomainState
    decreases ops.len(),
{
    if ops.len() == 0 {
        s
    } else {
        apply(run(s, ops.drop_last()), ops.last())
    }
}

} // verus!
