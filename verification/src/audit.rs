//! Checks that decide, record by record, whether stored records make up a
//! valid voting domain.

use vstd::prelude::*;
use crate::account::{accounts_view, UserAccount};
use crate::identity::Identity;
use crate::counting::{
    lemma_capped_sum,
    lemma_power_cast_push,
    lemma_proposals_by_push,
    lemma_votes_by_push,
};
use crate::model::{
    capped,
    counters_exact,
    creators_registered,
    distinct_identities,
    distinct_votes,
    is_registered,
    power_cast,
    proposal_in_order,
    proposals_by,
    proposals_in_order,
    voters_registered,
    votes_by,
    votes_name_proposals,
};
use crate::proposal::{check_text, proposals_view, Proposal};
use crate::vote::{VoteOption, VoteRecord};

verus! {

/// Whether no two of `users` belong to one identity.
pub fn identities_distinct(users: &Vec<UserAccount>) -> (ok: bool)
    ensures
        ok == distinct_identities(accounts_view(users@)),
{
    let ghost view = accounts_view(users@);
    let mut j: usize = 0;
    while j < users.len()
        invariant
            j <= users.len(),
            view == accounts_view(users@),
            forall|a: int, b: int|
                0 <= a < b < j ==> (#[trigger] view[a]).authority != (#[trigger] view[b]).authority,
        decreases users.len() - j,
    {
        let mut i: usize = 0;
        while i < j
            invariant
                i <= j < users.len(),
                view == accounts_view(users@),
                forall|a: int| 0 <= a < i ==> (#[trigger] view[a]).authority != view[j as int].authority,
            decreases j - i,
        {
            if users[i].authority == users[j].authority {
                proof {
                    assert(view[i as int].authority == view[j as int].authority);
                }
                return false;
            }
            i += 1;
        }
        j += 1;
    }
    true
}

/// Whether no two of `votes` are the vote of one voter on one proposal.
pub fn votes_distinct(votes: &Vec<VoteRecord>) -> (ok: bool)
    ensures
        ok == distinct_votes(votes@),
{
    let mut j: usize = 0;
    while j < votes.len()
        invariant
            j <= votes.len(),
            forall|a: int, b: int|
                0 <= a < b < j ==> !(#[trigger] votes@[a]).is_for(
                    (#[trigger] votes@[b]).proposal_id,
                    votes@[b].voter,
                ),
        decreases votes.len() - j,
    {
        let mut i: usize = 0;
        while i < j
            invariant
                i <= j < votes.len(),
                forall|a: int|
                    0 <= a < i ==> !(#[trigger] votes@[a]).is_for(
                        votes@[j as int].proposal_id,
                        votes@[j as int].voter,
                    ),
            decreases j - i,
        {
            if votes[i].matches(votes[j].proposal_id, votes[j].voter) {
                return false;
            }
            i += 1;
        }
        j += 1;
    }
    true
}

/// Whether every one of `votes` names one of the first `count` proposals.
pub fn votes_within(votes: &Vec<VoteRecord>, count: usize) -> (ok: bool)
    ensures
        ok == votes_name_proposals(votes@, count as nat),
{
    let mut k: usize = 0;
    while k < votes.len()
        invariant
            k <= votes.len(),
            forall|a: int| 0 <= a < k ==> (#[trigger] votes@[a]).proposal_id < count,
        decreases votes.len() - k,
    {
        if votes[k].proposal_id >= count as u64 {
            return false;
        }
        k += 1;
    }
    true
}

/// Whether `identity` has an account among `users`.
pub fn has_account(users: &Vec<UserAccount>, identity: Identity) -> (found: bool)
    ensures
        found == is_registered(accounts_view(users@), identity),
{
    let ghost view = accounts_view(users@);
    let mut i: usize = 0;
    while i < users.len()
        invariant
            i <= users.len(),
            view == accounts_view(users@),
            forall|a: int| 0 <= a < i ==> (#[trigger] view[a]).authority != identity,
        decreases users.len() - i,
    {
        if users[i].authority == identity {
            proof {
                assert(view[i as int].authority == identity);
            }
            return true;
        }
        i += 1;
    }
    false
}

/// Whether every one of `votes` is the vote of an identity with an account
/// among `users`.
pub fn voters_known(votes: &Vec<VoteRecord>, users: &Vec<UserAccount>) -> (ok: bool)
    ensures
        ok == voters_registered(votes@, accounts_view(users@)),
{
    let mut k: usize = 0;
    while k < votes.len()
        invariant
            k <= votes.len(),
            forall|a: int|
                0 <= a < k ==> is_registered(accounts_view(users@), (#[trigger] votes@[a]).voter),
        decreases votes.len() - k,
    {
        if !has_account(users, votes[k].voter) {
            return false;
        }
        k += 1;
    }
    true
}

/// Whether every one of `proposals` was opened by an identity with an
/// account among `users`.
pub fn creators_known(proposals: &Vec<Proposal>, users: &Vec<UserAccount>) -> (ok: bool)
    ensures
        ok == creators_registered(proposals_view(proposals@), accounts_view(users@)),
{
    let ghost view = proposals_view(proposals@);
    let mut i: usize = 0;
    while i < proposals.len()
        invariant
            i <= proposals.len(),
            view == proposals_view(proposals@),
            forall|a: int|
                0 <= a < i ==> is_registered(accounts_view(users@), (#[trigger] view[a]).creator),
        decreases proposals.len() - i,
    {
        if !has_account(users, proposals[i].creator) {
            proof {
                assert(!is_registered(accounts_view(users@), view[i as int].creator));
            }
            return false;
        }
        i += 1;
    }
    true
}

/// The number of `votes` that `voter` cast.
pub fn count_votes_by(votes: &Vec<VoteRecord>, voter: Identity) -> (count: usize)
    ensures
        count == votes_by(votes@, voter),
{
    let mut count: usize = 0;
    let mut k: usize = 0;
    while k < votes.len()
        invariant
            k <= votes.len(),
            count <= k,
            count == votes_by(votes@.take(k as int), voter),
        decreases votes.len() - k,
    {
        proof {
            assert(votes@.take(k + 1) =~= votes@.take(k as int).push(votes@[k as int]));
            lemma_votes_by_push(votes@.take(k as int), votes@[k as int], voter);
        }
        if votes[k].voter == voter {
            count += 1;
        }
        k += 1;
    }
    proof {
        assert(votes@.take(votes.len() as int) =~= votes@);
    }
    count
}

/// The number of `proposals` that `creator` opened.
pub fn count_proposals_by(proposals: &Vec<Proposal>, creator: Identity) -> (count: usize)
    ensures
        count == proposals_by(proposals_view(proposals@), creator),
{
    let ghost view = proposals_view(proposals@);
    let mut count: usize = 0;
    let mut i: usize = 0;
    while i < proposals.len()
        invariant
            i <= proposals.len(),
            count <= i,
            view == proposals_view(proposals@),
            count == proposals_by(view.take(i as int), creator),
        decreases proposals.len() - i,
    {
        proof {
            assert(view.take(i + 1) =~= view.take(i as int).push(view[i as int]));
            lemma_proposals_by_push(view.take(i as int), view[i as int], creator);
        }
        if proposals[i].creator == creator {
            count += 1;
        }
        i += 1;
    }
    proof {
        assert(view.take(proposals.len() as int) =~= view);
    }
    count
}

/// Whether every one of `users` counts the votes that its identity cast and
/// the proposals that it opened.
pub fn counters_match(
    users: &Vec<UserAccount>,
    votes: &Vec<VoteRecord>,
    proposals: &Vec<Proposal>,
) -> (ok: bool)
    ensures
        ok == counters_exact(accounts_view(users@), votes@, proposals_view(proposals@)),
{
    let ghost view = accounts_view(users@);
    let mut i: usize = 0;
    while i < users.len()
        invariant
            i <= users.len(),
            view == accounts_view(users@),
            forall|a: int|
                0 <= a < i ==> (#[trigger] view[a]).votes_cast == votes_by(
                    votes@,
                    view[a].authority,
                ) && view[a].proposals_created == proposals_by(
                    proposals_view(proposals@),
                    view[a].authority,
                ),
        decreases users.len() - i,
    {
        let account = &users[i];
        if account.votes_cast != count_votes_by(votes, account.authority) as u64
            || account.proposals_created != count_proposals_by(proposals, account.authority) as u64 {
            proof {
                assert(view[i as int].votes_cast != votes_by(votes@, view[i as int].authority)
                    || view[i as int].proposals_created != proposals_by(
                    proposals_view(proposals@),
                    view[i as int].authority,
                ));
            }
            return false;
        }
        i += 1;
    }
    true
}

/// The voting power that `votes` spent on `option` for proposal
/// `proposal_id`, as a tally shows it.
pub fn power_total(votes: &Vec<VoteRecord>, proposal_id: u64, option: VoteOption) -> (total: u64)
    ensures
        total == capped(power_cast(votes@, proposal_id as nat, option)),
{
    let mut total: u64 = 0;
    let mut k: usize = 0;
    while k < votes.len()
        invariant
            k <= votes.len(),
            total == capped(power_cast(votes@.take(k as int), proposal_id as nat, option)),
        decreases votes.len() - k,
    {
        let record = votes[k];
        proof {
            let seen = votes@.take(k as int);
            assert(votes@.take(k + 1) =~= seen.push(votes@[k as int]));
            lemma_power_cast_push(seen, votes@[k as int], proposal_id as nat, option);
            lemma_capped_sum(
                power_cast(seen, proposal_id as nat, option),
                record.voting_power_used,
            );
        }
        if record.proposal_id == proposal_id && record.vote_option == option {
            total = total.saturating_add(record.voting_power_used);
        }
        k += 1;
    }
    proof {
        assert(votes@.take(votes.len() as int) =~= votes@);
    }
    total
}

/// Whether each of `proposals` carries its position as its identifier, keeps
/// its texts within bounds, and shows in its tallies what `votes` spent on it.
pub fn proposals_consistent(proposals: &Vec<Proposal>, votes: &Vec<VoteRecord>) -> (ok: bool)
    ensures
        ok == proposals_in_order(proposals_view(proposals@), votes@),
{
    let ghost view = proposals_view(proposals@);
    let mut i: usize = 0;
    while i < proposals.len()
        invariant
            i <= proposals.len(),
            view == proposals_view(proposals@),
            forall|a: int| 0 <= a < i ==> #[trigger] proposal_in_order(view, votes@, a),
        decreases proposals.len() - i,
    {
        let p = &proposals[i];
        let id: u64 = i as u64;
        let ok = p.proposal_id == id && check_text(p.title.as_str(), p.description.as_str()).is_ok()
            && p.votes_for == power_total(votes, id, VoteOption::For) && p.votes_against
            == power_total(votes, id, VoteOption::Against) && p.votes_abstain == power_total(
            votes,
            id,
            VoteOption::Abstain,
        );
        if !ok {
            proof {
                assert(!proposal_in_order(view, votes@, i as int));
            }
            return false;
        }
        i += 1;
    }
    true
}

} // verus!
