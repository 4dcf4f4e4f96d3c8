//! Facts about looking accounts and votes up, and about the sums and counts
//! that the invariant speaks of.

use vstd::prelude::*;
use crate::account::AccountView;
use crate::identity::Identity;
use crate::model::{
    account_index,
    capped,
    distinct_identities,
    distinct_votes,
    has_voted,
    holds,
    is_registered,
    power_cast,
    proposals_by,
    vote_index,
    votes_by,
};
use crate::proposal::ProposalView;
use crate::vote::{VoteOption, VoteRecord};

verus! {

/// Where identities are distinct, the account of an identity is found at
/// the one position that holds it.
pub proof fn lemma_account_index(users: Seq<AccountView>, i: int)
    requires
        distinct_identities(users),
        0 <= i < users.len(),
    ensures
        is_registered(users, users[i].authority),
        account_index(users, users[i].authority) == i,
{
    let identity = users[i].authority;
    assert(users[i].authority == identity);
    let j = account_index(users, identity);
    assert(0 <= j < users.len() && users[j].authority == identity);
    if i < j {
        assert(users[i].authority != users[j].authority);
    } else if j < i {
        assert(users[j].authority != users[i].authority);
    }
}

/// Where no voter has two votes on one proposal, a vote is found at the one
/// position that holds it.
pub proof fn lemma_vote_index(votes: Seq<VoteRecord>, k: int)
    requires
        distinct_votes(votes),
        0 <= k < votes.len(),
    ensures
        has_voted(votes, votes[k].proposal_id, votes[k].voter),
        vote_index(votes, votes[k].proposal_id, votes[k].voter) == k,
{
    let proposal_id = votes[k].proposal_id;
    let voter = votes[k].voter;
    assert(votes[k].is_for(proposal_id, voter));
    let j = vote_index(votes, proposal_id, voter);
    assert(0 <= j < votes.len() && votes[j].is_for(proposal_id, voter));
    if k < j {
        assert(!votes[k].is_for(votes[j].proposal_id, votes[j].voter));
    } else if j < k {
        assert(!votes[j].is_for(votes[k].proposal_id, votes[k].voter));
    }
}

/// Changing an account but not its identity keeps every identity where it
/// was.
pub proof fn lemma_update_keeps_identities(users: Seq<AccountView>, t: int, account: AccountView)
    requires
        distinct_identities(users),
        0 <= t < users.len(),
        account.authority == users[t].authority,
    ensures
        distinct_identities(users.update(t, account)),
        forall|identity: Identity|
            is_registered(users.update(t, account), identity) == is_registered(users, identity),
        forall|identity: Identity|
            is_registered(users, identity) ==> account_index(users.update(t, account), identity)
                == account_index(users, identity),
{
    let next = users.update(t, account);
    assert forall|i: int, j: int| 0 <= i < j < next.len() implies (#[trigger] next[i]).authority
        != (#[trigger] next[j]).authority by {
        assert(users[i].authority != users[j].authority);
    }
    assert forall|identity: Identity|
        is_registered(next, identity) == is_registered(users, identity) by {
        if is_registered(users, identity) {
            let i = account_index(users, identity);
            assert(next[i].authority == identity);
        }
        if is_registered(next, identity) {
            let i = account_index(next, identity);
            assert(users[i].authority == identity);
        }
    }
    assert forall|identity: Identity| is_registered(users, identity) implies account_index(
        next,
        identity,
    ) == account_index(users, identity) by {
        let i = account_index(users, identity);
        assert(next[i].authority == identity);
        lemma_account_index(next, i);
    }
}

/// Whoever is registered stays registered when an account is added.
pub proof fn lemma_push_keeps_registered(
    users: Seq<AccountView>,
    account: AccountView,
    identity: Identity,
)
    requires
        is_registered(users, identity),
    ensures
        is_registered(users.push(account), identity),
{
    let i = account_index(users, identity);
    assert(users.push(account)[i].authority == identity);
}

/// The power that `record` spends on `option` for proposal `proposal_id`.
pub open spec fn power_spent(record: VoteRecord, proposal_id: nat, option: VoteOption) -> nat {
    if record.proposal_id == proposal_id && record.vote_option == option {
        record.voting_power_used as nat
    } else {
        0
    }
}

/// A new record adds its power to the total of its own proposal and option,
/// and to no other.
pub proof fn lemma_power_cast_push(
    votes: Seq<VoteRecord>,
    record: VoteRecord,
    proposal_id: nat,
    option: VoteOption,
)
    ensures
        power_cast(votes.push(record), proposal_id, option) == power_cast(
            votes,
            proposal_id,
            option,
        ) + power_spent(record, proposal_id, option),
{
    assert(votes.push(record).drop_last() =~= votes);
    assert(votes.push(record).last() == record);
}

/// Where no record names a proposal, no power was spent on it.
pub proof fn lemma_power_cast_none(votes: Seq<VoteRecord>, proposal_id: nat, option: VoteOption)
    requires
        forall|k: int| 0 <= k < votes.len() ==> (#[trigger] votes[k]).proposal_id != proposal_id,
    ensures
        power_cast(votes, proposal_id, option) == 0,
    decreases votes.len(),
{
    if votes.len() > 0 {
        let rest = votes.drop_last();
        assert forall|k: int| 0 <= k < rest.len() implies (#[trigger] rest[k]).proposal_id
            != proposal_id by {
            assert(rest[k] == votes[k]);
        }
        lemma_power_cast_none(rest, proposal_id, option);
        assert(votes.last() == votes[votes.len() - 1]);
    }
}

/// Adding to a capped total and capping again is the saturating sum.
pub proof fn lemma_capped_sum(total: nat, power: u64)
    ensures
        capped(total + power as nat) == capped(total).saturating_add(power),
{
}

/// A new record adds one to the count of its voter, and nothing to any other.
pub proof fn lemma_votes_by_push(votes: Seq<VoteRecord>, record: VoteRecord, voter: Identity)
    ensures
        votes_by(votes.push(record), voter) == votes_by(votes, voter) + if record.voter == voter {
            1nat
        } else {
            0nat
        },
{
    assert(votes.push(record).drop_last() =~= votes);
    assert(votes.push(record).last() == record);
}

/// Who has no record among the votes has cast none.
pub proof fn lemma_votes_by_none(votes: Seq<VoteRecord>, voter: Identity)
    requires
        forall|k: int| 0 <= k < votes.len() ==> (#[trigger] votes[k]).voter != voter,
    ensures
        votes_by(votes, voter) == 0,
    decreases votes.len(),
{
    if votes.len() > 0 {
        let rest = votes.drop_last();
        assert forall|k: int| 0 <= k < rest.len() implies (#[trigger] rest[k]).voter != voter by {
            assert(rest[k] == votes[k]);
        }
        lemma_votes_by_none(rest, voter);
        assert(votes.last() == votes[votes.len() - 1]);
    }
}

/// Nobody has cast more votes than there are records.
pub proof fn lemma_votes_by_bound(votes: Seq<VoteRecord>, voter: Identity)
    ensures
        votes_by(votes, voter) <= votes.len(),
    decreases votes.len(),
{
    if votes.len() > 0 {
        lemma_votes_by_bound(votes.drop_last(), voter);
    }
}

/// A new proposal adds one to the count of its creator, and nothing to any
/// other.
pub proof fn lemma_proposals_by_push(
    proposals: Seq<ProposalView>,
    proposal: ProposalView,
    creator: Identity,
)
    ensures
        proposals_by(proposals.push(proposal), creator) == proposals_by(proposals, creator)
            + if proposal.creator == creator {
            1nat
        } else {
            0nat
        },
{
    assert(proposals.push(proposal).drop_last() =~= proposals);
    assert(proposals.push(proposal).last() == proposal);
}

/// Who created none of the proposals has opened none.
pub proof fn lemma_proposals_by_none(proposals: Seq<ProposalView>, creator: Identity)
    requires
        forall|i: int| 0 <= i < proposals.len() ==> (#[trigger] proposals[i]).creator != creator,
    ensures
        proposals_by(proposals, creator) == 0,
    decreases proposals.len(),
{
    if proposals.len() > 0 {
        let rest = proposals.drop_last();
        assert forall|i: int| 0 <= i < rest.len() implies (#[trigger] rest[i]).creator
            != creator by {
            assert(rest[i] == proposals[i]);
        }
        lemma_proposals_by_none(rest, creator);
        assert(proposals.last() == proposals[proposals.len() - 1]);
    }
}

/// Nobody has opened more proposals than there are.
pub proof fn lemma_proposals_by_bound(proposals: Seq<ProposalView>, creator: Identity)
    ensures
        proposals_by(proposals, creator) <= proposals.len(),
    decreases proposals.len(),
{
    if proposals.len() > 0 {
        lemma_proposals_by_bound(proposals.drop_last(), creator);
    }
}

/// Changing a proposal but not its creator changes nobody's count.
pub proof fn lemma_proposals_by_update(
    proposals: Seq<ProposalView>,
    i: int,
    proposal: ProposalView,
    creator: Identity,
)
    requires
        0 <= i < proposals.len(),
        proposal.creator == proposals[i].creator,
    ensures
        proposals_by(proposals.update(i, proposal), creator) == proposals_by(proposals, creator),
    decreases proposals.len(),
{
    let next = proposals.update(i, proposal);
    if i == proposals.len() - 1 {
        assert(next.drop_last() =~= proposals.drop_last());
    } else {
        assert(next.drop_last() =~= proposals.drop_last().update(i, proposal));
        lemma_proposals_by_update(proposals.drop_last(), i, proposal, creator);
    }
}

} // verus!
