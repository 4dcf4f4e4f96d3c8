//! The invariant holds when a domain is set up, and every operation keeps it.

use vstd::prelude::*;
use crate::account::{fresh_account, AccountView};
use crate::config::ConfigView;
use crate::counting::{
    lemma_account_index,
    lemma_capped_sum,
    lemma_power_cast_none,
    lemma_power_cast_push,
    lemma_proposals_by_none,
    lemma_proposals_by_push,
    lemma_proposals_by_update,
    lemma_push_keeps_registered,
    lemma_update_keeps_identities,
    lemma_votes_by_none,
    lemma_votes_by_push,
};
use crate::identity::Identity;
use crate::model::{
    account_index,
    assign_role_step,
    cast_vote_step,
    counters_exact,
    create_proposal_step,
    creators_registered,
    distinct_identities,
    initial_state,
    inv,
    is_registered,
    power_cast,
    proposal_in_order,
    proposals_by,
    register_step,
    run,
    step,
    update_voting_power_step,
    vote_record_of,
    voters_registered,
    votes_by,
    DomainState,
    Request,
};
use crate::proposal::{ProposalStatus, ProposalView};
use crate::vote::VoteOption;

verus! {

/// A domain that was just set up meets the invariant.
pub proof fn lemma_initial_state_valid(owner: Identity, start: i64, end: i64)
    requires
        end > start,
    ensures
        inv(initial_state(owner, start, end)),
{
}

/// Registration keeps the invariant.
pub proof fn lemma_register_keeps_inv(s: DomainState, caller: Identity)
    requires
        inv(s),
        register_step(s, caller) is Ok,
    ensures
        inv(register_step(s, caller)->Ok_0),
{
    let next = register_step(s, caller)->Ok_0;
    assert forall|i: int| 0 <= i < next.proposals.len() implies #[trigger] proposal_in_order(
        next.proposals,
        next.votes,
        i,
    ) by {
        assert(proposal_in_order(s.proposals, s.votes, i));
    }
    assert forall|i: int, j: int| 0 <= i < j < next.users.len() implies (
    #[trigger] next.users[i]).authority != (#[trigger] next.users[j]).authority by {
        if j < s.users.len() {
            assert(s.users[i].authority != s.users[j].authority);
        } else {
            assert(s.users[i].authority != caller);
        }
    }
    assert forall|k: int| 0 <= k < next.votes.len() implies is_registered(
        next.users,
        (#[trigger] next.votes[k]).voter,
    ) by {
        lemma_push_keeps_registered(s.users, fresh_account(caller), s.votes[k].voter);
    }
    assert forall|i: int| 0 <= i < next.proposals.len() implies is_registered(
        next.users,
        (#[trigger] next.proposals[i]).creator,
    ) by {
        lemma_push_keeps_registered(s.users, fresh_account(caller), s.proposals[i].creator);
    }
    assert forall|i: int| 0 <= i < next.users.len() implies (#[trigger] next.users[i]).votes_cast
        == votes_by(next.votes, next.users[i].authority) && next.users[i].proposals_created
        == proposals_by(next.proposals, next.users[i].authority) by {
        if i < s.users.len() {
            assert(next.users[i] == s.users[i]);
        } else {
            assert forall|k: int| 0 <= k < s.votes.len() implies (#[trigger] s.votes[k]).voter
                != caller by {
                assert(is_registered(s.users, s.votes[k].voter));
            }
            lemma_votes_by_none(s.votes, caller);
            assert forall|j: int| 0 <= j < s.proposals.len() implies (
            #[trigger] s.proposals[j]).creator != caller by {
                assert(is_registered(s.users, s.proposals[j].creator));
            }
            lemma_proposals_by_none(s.proposals, caller);
        }
    }
}

/// Changing an account but neither its identity nor its counters keeps
/// what the invariant says of accounts, and so does counting one more vote
/// or proposal for it together with the record that is counted.
proof fn lemma_accounts_still_valid(s: DomainState, next: DomainState, c: int)
    requires
        inv(s),
        0 <= c < s.users.len(),
        next.users == s.users.update(c, next.users[c]),
        next.users[c].authority == s.users[c].authority,
        next.users[c].votes_cast == votes_by(next.votes, s.users[c].authority),
        next.users[c].proposals_created == proposals_by(next.proposals, s.users[c].authority),
        forall|i: int|
            0 <= i < s.users.len() && i != c ==> votes_by(next.votes, (#[trigger] s.users[i]).authority)
                == votes_by(s.votes, s.users[i].authority) && proposals_by(
                next.proposals,
                s.users[i].authority,
            ) == proposals_by(s.proposals, s.users[i].authority),
        forall|k: int|
            0 <= k < next.votes.len() ==> is_registered(s.users, (#[trigger] next.votes[k]).voter),
        forall|i: int|
            0 <= i < next.proposals.len() ==> is_registered(
                s.users,
                (#[trigger] next.proposals[i]).creator,
            ),
    ensures
        distinct_identities(next.users),
        voters_registered(next.votes, next.users),
        creators_registered(next.proposals, next.users),
        counters_exact(next.users, next.votes, next.proposals),
{
    lemma_update_keeps_identities(s.users, c, next.users[c]);
    assert forall|i: int| 0 <= i < next.users.len() implies (#[trigger] next.users[i]).votes_cast
        == votes_by(next.votes, next.users[i].authority) && next.users[i].proposals_created
        == proposals_by(next.proposals, next.users[i].authority) by {
        if i != c {
            assert(next.users[i] == s.users[i]);
        }
    }
}

/// Giving an account another role or voting power keeps the invariant.
proof fn lemma_account_change_keeps_inv(s: DomainState, t: int, account: AccountView)
    requires
        inv(s),
        0 <= t < s.users.len(),
        account.authority == s.users[t].authority,
        account.votes_cast == s.users[t].votes_cast,
        account.proposals_created == s.users[t].proposals_created,
    ensures
        inv(DomainState { users: s.users.update(t, account), ..s }),
{
    let next = DomainState { users: s.users.update(t, account), ..s };
    lemma_accounts_still_valid(s, next, t);
    assert forall|i: int| 0 <= i < next.proposals.len() implies #[trigger] proposal_in_order(
        next.proposals,
        next.votes,
        i,
    ) by {
        assert(proposal_in_order(s.proposals, s.votes, i));
    }
}

/// Assigning a role keeps the invariant.
pub proof fn lemma_assign_role_keeps_inv(
    s: DomainState,
    caller: Identity,
    target: Identity,
    role_code: u8,
)
    requires
        inv(s),
        assign_role_step(s, caller, target, role_code) is Ok,
    ensures
        inv(assign_role_step(s, caller, target, role_code)->Ok_0),
{
    let t = account_index(s.users, target);
    let next = assign_role_step(s, caller, target, role_code)->Ok_0;
    lemma_account_change_keeps_inv(s, t, next.users[t]);
}

/// Setting a voting power keeps the invariant.
pub proof fn lemma_update_voting_power_keeps_inv(
    s: DomainState,
    caller: Identity,
    target: Identity,
    new_power: u64,
)
    requires
        inv(s),
        update_voting_power_step(s, caller, target, new_power) is Ok,
    ensures
        inv(update_voting_power_step(s, caller, target, new_power)->Ok_0),
{
    let t = account_index(s.users, target);
    let next = update_voting_power_step(s, caller, target, new_power)->Ok_0;
    lemma_account_change_keeps_inv(s, t, next.users[t]);
}

/// Opening a proposal keeps the invariant.
pub proof fn lemma_create_proposal_keeps_inv(
    s: DomainState,
    caller: Identity,
    title: Seq<char>,
    description: Seq<char>,
    now: i64,
)
    requires
        inv(s),
        create_proposal_step(s, caller, title, description, now) is Ok,
    ensures
        inv(create_proposal_step(s, caller, title, description, now)->Ok_0),
{
    let next = create_proposal_step(s, caller, title, description, now)->Ok_0;
    let c = account_index(s.users, caller);
    let id = s.proposals.len();
    let proposal = next.proposals[id as int];
    assert(s.users[c].authority == caller);
    lemma_proposals_by_push(s.proposals, proposal, caller);
    assert forall|i: int| 0 <= i < s.users.len() && i != c implies votes_by(
        next.votes,
        (#[trigger] s.users[i]).authority,
    ) == votes_by(s.votes, s.users[i].authority) && proposals_by(
        next.proposals,
        s.users[i].authority,
    ) == proposals_by(s.proposals, s.users[i].authority) by {
        lemma_account_index(s.users, i);
        lemma_proposals_by_push(s.proposals, proposal, s.users[i].authority);
    }
    assert forall|i: int| 0 <= i < next.proposals.len() implies is_registered(
        s.users,
        (#[trigger] next.proposals[i]).creator,
    ) by {
        if i < id {
            assert(is_registered(s.users, s.proposals[i].creator));
        }
    }
    lemma_accounts_still_valid(s, next, c);
    assert forall|i: int| 0 <= i < next.proposals.len() implies #[trigger] proposal_in_order(
        next.proposals,
        next.votes,
        i,
    ) by {
        if i < id {
            assert(proposal_in_order(s.proposals, s.votes, i));
        } else {
            assert forall|k: int| 0 <= k < s.votes.len() implies (
            #[trigger] s.votes[k]).proposal_id != id by {}
            lemma_power_cast_none(s.votes, id, VoteOption::For);
            lemma_power_cast_none(s.votes, id, VoteOption::Against);
            lemma_power_cast_none(s.votes, id, VoteOption::Abstain);
        }
    }
}

/// Casting a vote keeps the invariant.
pub proof fn lemma_cast_vote_keeps_inv(
    s: DomainState,
    caller: Identity,
    proposal_id: u64,
    option_code: u8,
    now: i64,
)
    requires
        inv(s),
        cast_vote_step(s, caller, proposal_id, option_code, now) is Ok,
    ensures
        inv(cast_vote_step(s, caller, proposal_id, option_code, now)->Ok_0),
{
    let next = cast_vote_step(s, caller, proposal_id, option_code, now)->Ok_0;
    let c = account_index(s.users, caller);
    let record = vote_record_of(s, caller, proposal_id, option_code, now);
    let p = proposal_id as int;
    assert(s.users[c].authority == caller);
    lemma_votes_by_push(s.votes, record, caller);
    lemma_proposals_by_update(s.proposals, p, next.proposals[p], caller);
    assert forall|i: int| 0 <= i < s.users.len() && i != c implies votes_by(
        next.votes,
        (#[trigger] s.users[i]).authority,
    ) == votes_by(s.votes, s.users[i].authority) && proposals_by(
        next.proposals,
        s.users[i].authority,
    ) == proposals_by(s.proposals, s.users[i].authority) by {
        lemma_account_index(s.users, i);
        lemma_votes_by_push(s.votes, record, s.users[i].authority);
        lemma_proposals_by_update(s.proposals, p, next.proposals[p], s.users[i].authority);
    }
    assert forall|k: int| 0 <= k < next.votes.len() implies is_registered(
        s.users,
        (#[trigger] next.votes[k]).voter,
    ) by {
        if k < s.votes.len() {
            assert(is_registered(s.users, s.votes[k].voter));
        }
    }
    assert forall|i: int| 0 <= i < next.proposals.len() implies is_registered(
        s.users,
        (#[trigger] next.proposals[i]).creator,
    ) by {
        assert(is_registered(s.users, s.proposals[i].creator));
    }
    lemma_accounts_still_valid(s, next, c);
    assert forall|i: int, j: int| 0 <= i < j < next.votes.len() implies !(
    #[trigger] next.votes[i]).is_for((#[trigger] next.votes[j]).proposal_id, next.votes[j].voter) by {
        if j < s.votes.len() {
            assert(!s.votes[i].is_for(s.votes[j].proposal_id, s.votes[j].voter));
        } else {
            assert(!s.votes[i].is_for(proposal_id, caller));
        }
    }
    assert forall|i: int| 0 <= i < next.proposals.len() implies #[trigger] proposal_in_order(
        next.proposals,
        next.votes,
        i,
    ) by {
        assert(proposal_in_order(s.proposals, s.votes, i));
        lemma_power_cast_push(s.votes, record, i as nat, VoteOption::For);
        lemma_power_cast_push(s.votes, record, i as nat, VoteOption::Against);
        lemma_power_cast_push(s.votes, record, i as nat, VoteOption::Abstain);
        lemma_capped_sum(power_cast(s.votes, i as nat, VoteOption::For), record.voting_power_used);
        lemma_capped_sum(
            power_cast(s.votes, i as nat, VoteOption::Against),
            record.voting_power_used,
        );
        lemma_capped_sum(
            power_cast(s.votes, i as nat, VoteOption::Abstain),
            record.voting_power_used,
        );
    }
    assert forall|k: int| 0 <= k < next.votes.len() implies (#[trigger] next.votes[k]).proposal_id
        < next.proposals.len() by {
        if k < s.votes.len() {
            assert(s.votes[k].proposal_id < s.proposals.len());
        }
    }
}

/// Changing the status of a proposal, and nothing else of it, keeps the
/// invariant.
proof fn lemma_status_change_keeps_inv(s: DomainState, proposal_id: u64, status: ProposalStatus)
    requires
        inv(s),
        proposal_id < s.proposals.len(),
    ensures
        inv(
            DomainState {
                proposals: s.proposals.update(
                    proposal_id as int,
                    ProposalView { status, ..s.proposals[proposal_id as int] },
                ),
                ..s
            },
        ),
{
    let p = proposal_id as int;
    let changed = ProposalView { status, ..s.proposals[p] };
    let next = DomainState { proposals: s.proposals.update(p, changed), ..s };
    assert forall|i: int| 0 <= i < next.proposals.len() implies #[trigger] proposal_in_order(
        next.proposals,
        next.votes,
        i,
    ) by {
        assert(proposal_in_order(s.proposals, s.votes, i));
    }
    assert forall|i: int| 0 <= i < next.proposals.len() implies is_registered(
        next.users,
        (#[trigger] next.proposals[i]).creator,
    ) by {
        assert(is_registered(s.users, s.proposals[i].creator));
    }
    assert forall|i: int| 0 <= i < next.users.len() implies (#[trigger] next.users[i]).votes_cast
        == votes_by(next.votes, next.users[i].authority) && next.users[i].proposals_created
        == proposals_by(next.proposals, next.users[i].authority) by {
        lemma_proposals_by_update(s.proposals, p, changed, s.users[i].authority);
    }
    assert forall|k: int| 0 <= k < next.votes.len() implies (#[trigger] next.votes[k]).proposal_id
        < next.proposals.len() by {
        assert(s.votes[k].proposal_id < s.proposals.len());
    }
}

/// Setting the pause flag keeps the invariant.
proof fn lemma_config_flag_keeps_inv(s: DomainState, paused: bool)
    requires
        inv(s),
    ensures
        inv(DomainState { config: ConfigView { is_paused: paused, ..s.config }, ..s }),
{
    let next = DomainState {
        config: ConfigView { is_paused: paused, ..s.config },
        ..s
    };
    assert forall|i: int| 0 <= i < next.proposals.len() implies #[trigger] proposal_in_order(
        next.proposals,
        next.votes,
        i,
    ) by {
        assert(proposal_in_order(s.proposals, s.votes, i));
    }
}

/// Every operation that is carried out keeps the invariant.
pub proof fn lemma_step_keeps_inv(s: DomainState, op: Request)
    requires
        inv(s),
        step(s, op) is Ok,
    ensures
        inv(step(s, op)->Ok_0),
{
    match op {
        Request::Register { caller } => {
            lemma_register_keeps_inv(s, caller);
        },
        Request::AssignRole { caller, target, role_code } => {
            lemma_assign_role_keeps_inv(s, caller, target, role_code);
        },
        Request::UpdateVotingPower { caller, target, new_power } => {
            lemma_update_voting_power_keeps_inv(s, caller, target, new_power);
        },
        Request::CreateProposal { caller, title, description, now } => {
            lemma_create_proposal_keeps_inv(s, caller, title, description, now);
        },
        Request::CastVote { caller, proposal_id, option_code, now } => {
            lemma_cast_vote_keeps_inv(s, caller, proposal_id, option_code, now);
        },
        Request::PauseProposal { caller, proposal_id } => {
            lemma_status_change_keeps_inv(s, proposal_id, ProposalStatus::Paused);
        },
        Request::ResumeProposal { caller, proposal_id } => {
            lemma_status_change_keeps_inv(s, proposal_id, ProposalStatus::Active);
        },
        Request::CompleteProposal { caller, proposal_id } => {
            lemma_status_change_keeps_inv(s, proposal_id, ProposalStatus::Completed);
        },
        Request::CancelProposal { caller, proposal_id } => {
            lemma_status_change_keeps_inv(s, proposal_id, ProposalStatus::Cancelled);
        },
        Request::PauseSystem { caller } => {
            lemma_config_flag_keeps_inv(s, true);
        },
        Request::ResumeSystem { caller } => {
            lemma_config_flag_keeps_inv(s, false);
        },
    }
}

/// Whatever requests are made of a valid domain, in whatever order and
/// whether they are carried out or rejected, the domain stays valid.
pub proof fn lemma_run_keeps_inv(s: DomainState, ops: Seq<Request>)
    requires
        inv(s),
    ensures
        inv(run(s, ops)),
    decreases ops.len(),
{
    if ops.len() > 0 {
        lemma_run_keeps_inv(s, ops.drop_last());
        let before = run(s, ops.drop_last());
        if step(before, ops.last()) is Ok {
            lemma_step_keeps_inv(before, ops.last());
        }
    }
}

} // verus!
