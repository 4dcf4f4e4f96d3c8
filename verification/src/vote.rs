//! Vote options and the record that a cast vote leaves behind.

use vstd::prelude::*;
use crate::account::UserAccount;
use crate::identity::Identity;

verus! {

/// What a voter may answer to a proposal.
#[derive(Clone, Copy, Debug, PartialEq, Eq, Structural)]
pub enum VoteOption {
    /// In favour.
    For,
    /// Opposed.
    Against,
    /// Counted, but for neither side.
    Abstain,
}

/// The option that a code stands for, if any.
pub open spec fn option_of_code(code: u8) -> Option<VoteOption> {
    if code == 0 {
        Some(VoteOption::For)
    } else if code == 1 {
        Some(VoteOption::Against)
    } else if code == 2 {
        Some(VoteOption::Abstain)
    } else {
        None
    }
}

impl VoteOption {
    /// Decodes an option from its one-byte code: 0 is `For`, 1 is `Against`,
    /// 2 is `Abstain`, every other code names none.
    pub fn from_code(code: u8) -> (option: Option<VoteOption>)
        ensures
            option == option_of_code(code),
    {
        match code {
            0 => Some(VoteOption::For),
            1 => Some(VoteOption::Against),
            2 => Some(VoteOption::Abstain),
            _ => None,
        }
    }

    /// The one-byte code of the option.
    pub fn code(&self) -> (code: u8)
        ensures
            code <= 2,
            option_of_code(code) == Some(*self),
    {
        match self {
            VoteOption::For => 0,
            VoteOption::Against => 1,
            VoteOption::Abstain => 2,
        }
    }
}

/// The proof that `voter` voted on proposal `proposal_id`. It is written once,
/// when the vote is cast, and never changed.
#[derive(Clone, Copy, Debug, PartialEq, Eq, Structural)]
pub struct VoteRecord {
    /// Who voted.
    pub voter: Identity,
    /// The proposal voted on.
    pub proposal_id: u64,
    /// The answer given.
    pub vote_option: VoteOption,
    /// The voter's voting power at the moment of the vote.
    pub voting_power_used: u64,
    /// When the vote was cast.
    pub voted_at: i64,
}

impl VoteRecord {
    /// The record of a vote that `voter` casts at time `now`: it keeps the
    /// voting power that `voter` has at that moment.
    pub fn new(voter: &UserAccount, proposal_id: u64, option: VoteOption, now: i64) -> (record:
        VoteRecord)
        ensures
            record == (VoteRecord {
                voter: voter.authority,
                proposal_id,
                vote_option: option,
                voting_power_used: voter.voting_power,
                voted_at: now,
            }),
    {
        VoteRecord {
            voter: voter.authority,
            proposal_id,
            vote_option: option,
            voting_power_used: voter.voting_power,
            voted_at: now,
        }
    }

    /// Whether this record is the vote of `voter` on proposal `proposal_id`.
    pub open spec fn is_for(self, proposal_id: u64, voter: Identity) -> bool {
        self.proposal_id == proposal_id && self.voter == voter
    }

    /// Whether this record is the vote of `voter` on proposal `proposal_id`.
    pub fn matches(&self, proposal_id: u64, voter: Identity) -> (found: bool)
        ensures
            found == self.is_for(proposal_id, voter),
    {
        self.proposal_id == proposal_id && self.voter == voter
    }
}

} // verus!
