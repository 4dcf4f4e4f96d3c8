//! What holds of every voting domain, proved of the model.

use vstd::prelude::*;
use crate::config::window_error;
use crate::counting::{
    lemma_account_index,
    lemma_proposals_by_bound,
    lemma_update_keeps_identities,
    lemma_votes_by_bound,
};
use crate::error::VotingError;
use crate::identity::Identity;
use crate::preservation::lemma_run_keeps_inv;
use crate::model::{
    account_index,
    apply,
    capped,
    cast_vote_step,
    create_proposal_step,
    has_voted,
    holds,
    inv,
    is_registered,
    power_cast,
    proposal_in_order,
    proposals_by,
    register_step,
    run,
    step,
    total_power_cast,
    update_voting_power_step,
    vote_error,
    vote_record_of,
    votes_by,
    DomainState,
    Request,
};
use crate::proposal::{tally_of, text_error, ProposalStatus};
use crate::role::Capability;
use crate::vote::VoteOption;

verus! {

/// No identity has two accounts.
pub proof fn lemma_one_account_per_identity(s: DomainState, i: int, j: int)
    requires
        inv(s),
        0 <= i < s.users.len(),
        0 <= j < s.users.len(),
        s.users[i].authority == s.users[j].authority,
    ensures
        i == j,
{
    lemma_account_index(s.users, i);
    lemma_account_index(s.users, j);
}

/// An identity that has registered cannot register again: the second request
/// is rejected and changes nothing.
pub proof fn lemma_second_registration_fails(s: DomainState, caller: Identity)
    requires
        register_step(s, caller) is Ok,
    ensures
        register_step(register_step(s, caller)->Ok_0, caller) == Err::<DomainState, VotingError>(
            VotingError::AlreadyRegistered,
        ),
        apply(register_step(s, caller)->Ok_0, Request::Register { caller }) == register_step(
            s,
            caller,
        )->Ok_0,
{
    let next = register_step(s, caller)->Ok_0;
    assert(next.users[s.users.len() as int].authority == caller);
}

/// Every account counts the votes that its identity cast and the proposals
/// that it opened.
pub proof fn lemma_accounts_count_their_records(s: DomainState, i: int)
    requires
        inv(s),
        0 <= i < s.users.len(),
    ensures
        s.users[i].votes_cast == votes_by(s.votes, s.users[i].authority),
        s.users[i].proposals_created == proposals_by(s.proposals, s.users[i].authority),
        s.users[i].votes_cast <= s.votes.len(),
        s.users[i].proposals_created <= s.proposals.len(),
{
    lemma_votes_by_bound(s.votes, s.users[i].authority);
    lemma_proposals_by_bound(s.proposals, s.users[i].authority);
}

/// Every vote is the vote of a registered identity on a proposal that
/// exists, and every proposal was opened by a registered identity.
pub proof fn lemma_records_name_what_exists(s: DomainState)
    requires
        inv(s),
    ensures
        forall|k: int|
            0 <= k < s.votes.len() ==> is_registered(s.users, (#[trigger] s.votes[k]).voter)
                && s.votes[k].proposal_id < s.proposals.len(),
        forall|i: int|
            0 <= i < s.proposals.len() ==> is_registered(
                s.users,
                (#[trigger] s.proposals[i]).creator,
            ),
{
}

/// No voter has two votes on one proposal.
pub proof fn lemma_one_vote_per_proposal_and_voter(s: DomainState, i: int, j: int)
    requires
        inv(s),
        0 <= i < s.votes.len(),
        0 <= j < s.votes.len(),
        s.votes[i].is_for(s.votes[j].proposal_id, s.votes[j].voter),
    ensures
        i == j,
{
    if i < j {
        assert(!s.votes[i].is_for(s.votes[j].proposal_id, s.votes[j].voter));
    } else if j < i {
        assert(!s.votes[j].is_for(s.votes[i].proposal_id, s.votes[i].voter));
    }
}

/// A vote adds the voter's power to the tally of the chosen option, once,
/// and leaves the two other tallies as they were.
pub proof fn lemma_vote_counts_once(
    s: DomainState,
    caller: Identity,
    proposal_id: u64,
    option_code: u8,
    now: i64,
    option: VoteOption,
)
    requires
        inv(s),
        cast_vote_step(s, caller, proposal_id, option_code, now) is Ok,
    ensures
        ({
            let next = cast_vote_step(s, caller, proposal_id, option_code, now)->Ok_0;
            let record = vote_record_of(s, caller, proposal_id, option_code, now);
            let before = tally_of(s.proposals[proposal_id as int], option);
            &&& next.votes == s.votes.push(record)
            &&& record.voting_power_used == s.users[account_index(s.users, caller)].voting_power
            &&& tally_of(next.proposals[proposal_id as int], option) == if option
                == record.vote_option {
                before.saturating_add(record.voting_power_used)
            } else {
                before
            }
        }),
{
}

/// Whoever has voted on a proposal cannot vote on it again, with whatever
/// option and at whatever time: the second vote is rejected and changes
/// nothing. Where it would otherwise have been admitted, the reason given is
/// that the voter has already voted.
pub proof fn lemma_second_vote_fails(
    s: DomainState,
    caller: Identity,
    proposal_id: u64,
    option_code: u8,
    now: i64,
    second_option_code: u8,
    second_now: i64,
)
    requires
        inv(s),
        cast_vote_step(s, caller, proposal_id, option_code, now) is Ok,
    ensures
        ({
            let next = cast_vote_step(s, caller, proposal_id, option_code, now)->Ok_0;
            let second = cast_vote_step(next, caller, proposal_id, second_option_code, second_now);
            &&& second is Err
            &&& vote_error(s, caller, proposal_id, second_option_code, second_now) is None
                ==> second == Err::<DomainState, VotingError>(VotingError::AlreadyVoted)
            &&& apply(
                next,
                Request::CastVote {
                    caller,
                    proposal_id,
                    option_code: second_option_code,
                    now: second_now,
                },
            ) == next
        }),
{
    let next = cast_vote_step(s, caller, proposal_id, option_code, now)->Ok_0;
    let c = account_index(s.users, caller);
    lemma_update_keeps_identities(s.users, c, next.users[c]);
    assert(next.votes[s.votes.len() as int].is_for(proposal_id, caller));
    assert(has_voted(next.votes, proposal_id, caller));
}

/// A proposal that is opened gets the number of proposals opened before it
/// as its identifier, and the count of proposals grows by one.
pub proof fn lemma_create_assigns_next_id(
    s: DomainState,
    caller: Identity,
    title: Seq<char>,
    description: Seq<char>,
    now: i64,
)
    requires
        create_proposal_step(s, caller, title, description, now) is Ok,
    ensures
        ({
            let next = create_proposal_step(s, caller, title, description, now)->Ok_0;
            &&& next.config.total_proposals == s.config.total_proposals + 1
            &&& next.proposals.len() == s.proposals.len() + 1
            &&& next.proposals.last().proposal_id == s.config.total_proposals
            &&& next.proposals.last().status == ProposalStatus::Active
            &&& forall|i: int| 0 <= i < s.proposals.len() ==> next.proposals[i] == s.proposals[i]
        }),
{
}

/// The count of proposals grows by one with each proposal that is opened,
/// and no other operation changes it.
pub proof fn lemma_proposal_counter(s: DomainState, op: Request)
    requires
        inv(s),
    ensures
        apply(s, op).config.total_proposals == s.config.total_proposals + if step(s, op) is Ok
            && op is CreateProposal {
            1nat
        } else {
            0nat
        },
{
}

/// The count of proposals never falls.
pub proof fn lemma_proposal_counter_never_falls(s: DomainState, ops: Seq<Request>)
    requires
        inv(s),
    ensures
        run(s, ops).config.total_proposals >= s.config.total_proposals,
    decreases ops.len(),
{
    if ops.len() > 0 {
        lemma_proposal_counter_never_falls(s, ops.drop_last());
        lemma_run_keeps_inv(s, ops.drop_last());
        lemma_proposal_counter(run(s, ops.drop_last()), ops.last());
    }
}

/// No two proposals share an identifier.
pub proof fn lemma_proposal_ids_distinct(s: DomainState, i: int, j: int)
    requires
        inv(s),
        0 <= i < s.proposals.len(),
        0 <= j < s.proposals.len(),
        s.proposals[i].proposal_id == s.proposals[j].proposal_id,
    ensures
        i == j,
{
    assert(proposal_in_order(s.proposals, s.votes, i));
    assert(proposal_in_order(s.proposals, s.votes, j));
}

/// Whatever requests were made of a valid domain, no two of its proposals
/// share an identifier.
pub proof fn lemma_proposal_ids_stay_distinct(s: DomainState, ops: Seq<Request>, i: int, j: int)
    requires
        inv(s),
        0 <= i < run(s, ops).proposals.len(),
        0 <= j < run(s, ops).proposals.len(),
        run(s, ops).proposals[i].proposal_id == run(s, ops).proposals[j].proposal_id,
    ensures
        i == j,
{
    lemma_run_keeps_inv(s, ops);
    lemma_proposal_ids_distinct(run(s, ops), i, j);
}

/// How an operation may change a proposal: in its status and, by a vote on
/// an active proposal, in its tallies, and in nothing else. A status changes
/// to `Paused` only from `Active` and by a pause, to `Active` only from
/// `Paused` and by a resumption, to `Completed` only by a completion and to
/// `Cancelled` only by a cancellation. A proposal that is completed or
/// cancelled is never active or paused again, and its tallies stay as they
/// are.
pub proof fn lemma_proposal_lifecycle(s: DomainState, op: Request, i: int)
    requires
        0 <= i < s.proposals.len(),
    ensures
        ({
            let before = s.proposals[i];
            let after = apply(s, op).proposals[i];
            let closed = before.status == ProposalStatus::Completed || before.status
                == ProposalStatus::Cancelled;
            &&& i < apply(s, op).proposals.len()
            &&& after.proposal_id == before.proposal_id
            &&& after.creator == before.creator
            &&& after.title == before.title
            &&& after.description == before.description
            &&& after.created_at == before.created_at
            &&& after.status != before.status ==> match after.status {
                ProposalStatus::Paused => before.status == ProposalStatus::Active
                    && op is PauseProposal,
                ProposalStatus::Active => before.status == ProposalStatus::Paused
                    && op is ResumeProposal,
                ProposalStatus::Completed => op is CompleteProposal,
                ProposalStatus::Cancelled => op is CancelProposal,
            }
            &&& !(op is CastVote && before.status == ProposalStatus::Active) ==> after.votes_for
                == before.votes_for && after.votes_against == before.votes_against
                && after.votes_abstain == before.votes_abstain
            &&& closed ==> after.status == ProposalStatus::Completed || after.status
                == ProposalStatus::Cancelled
        }),
{
}

/// Each tally of a proposal is the power that the vote records spent on that
/// option, capped at `u64::MAX`.
pub proof fn lemma_tallies_are_capped_totals(s: DomainState, i: int, option: VoteOption)
    requires
        inv(s),
        0 <= i < s.proposals.len(),
    ensures
        tally_of(s.proposals[i], option) == capped(power_cast(s.votes, i as nat, option)),
{
    assert(proposal_in_order(s.proposals, s.votes, i));
}

/// The three tallies of a proposal never show more than the voting power
/// that the vote records spent on it, and they add up to exactly that power
/// unless the power spent on one option has passed `u64::MAX`, where the
/// tally of that option stays.
pub proof fn lemma_tallies_match_votes(s: DomainState, i: int)
    requires
        inv(s),
        0 <= i < s.proposals.len(),
    ensures
        s.proposals[i].votes_for + s.proposals[i].votes_against + s.proposals[i].votes_abstain
            <= total_power_cast(s.votes, i as nat),
        s.proposals[i].votes_for + s.proposals[i].votes_against + s.proposals[i].votes_abstain
            == total_power_cast(s.votes, i as nat) <==> power_cast(
            s.votes,
            i as nat,
            VoteOption::For,
        ) <= u64::MAX && power_cast(s.votes, i as nat, VoteOption::Against) <= u64::MAX
            && power_cast(s.votes, i as nat, VoteOption::Abstain) <= u64::MAX,
{
    assert(proposal_in_order(s.proposals, s.votes, i));
}

/// A change of voting power touches neither the tallies nor the vote
/// records: votes that were cast keep the power they were cast with.
pub proof fn lemma_power_change_leaves_votes(
    s: DomainState,
    caller: Identity,
    target: Identity,
    new_power: u64,
)
    requires
        update_voting_power_step(s, caller, target, new_power) is Ok,
    ensures
        update_voting_power_step(s, caller, target, new_power)->Ok_0.proposals == s.proposals,
        update_voting_power_step(s, caller, target, new_power)->Ok_0.votes == s.votes,
{
}

/// While the domain is paused, no proposal is opened and no vote admitted.
pub proof fn lemma_paused_domain_admits_nothing(s: DomainState, op: Request)
    requires
        s.config.is_paused,
        op is CreateProposal || op is CastVote,
    ensures
        step(s, op) is Err,
        op is CreateProposal && text_error(op->title, op->description) is None && holds(
            s.users,
            op->CreateProposal_caller,
            Capability::CreateProposal,
        ) ==> step(s, op) == Err::<DomainState, VotingError>(VotingError::DomainPaused),
        op is CastVote && window_error(s.config, op->CastVote_now) is None ==> step(s, op)
            == Err::<DomainState, VotingError>(VotingError::DomainPaused),
{
}

/// Only a caller whose account holds the admin's capability changes a role
/// or a voting power; any other caller is turned away as unauthorized.
pub proof fn lemma_only_admins_manage_accounts(s: DomainState, op: Request)
    requires
        op is AssignRole || op is UpdateVotingPower,
        !holds(
            s.users,
            if op is AssignRole {
                op->AssignRole_caller
            } else {
                op->UpdateVotingPower_caller
            },
            Capability::ManageRole,
        ),
    ensures
        step(s, op) == Err::<DomainState, VotingError>(VotingError::Unauthorized),
        apply(s, op) == s,
{
}

} // verus!
