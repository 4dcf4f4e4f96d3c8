//! Admission: the checks that a vote and a new proposal must pass before
//! anything is written.

use vstd::prelude::*;
use crate::account::{AccountView, UserAccount};
use crate::config::{window_error, ConfigView, VotinConfig};
use crate::error::VotingError;
use crate::proposal::{check_text, text_error, Proposal, ProposalStatus, ProposalView};
use crate::role::{grants, Capability};
use crate::vote::{option_of_code, VoteOption};

verus! {

/// Why a vote with `option_code`, cast at time `now` on `proposal`, is not
/// admitted, if it is not. The checks come in this order and the first that
/// fails decides: the voting window, the domain's pause, the proposal (there
/// must be one, and it must be active), the option.
pub open spec fn admission_error(
    config: ConfigView,
    proposal: Option<ProposalView>,
    option_code: u8,
    now: i64,
) -> Option<VotingError> {
    if window_error(config, now) is Some {
        window_error(config, now)
    } else if config.is_paused {
        Some(VotingError::DomainPaused)
    } else if proposal is None || proposal->0.status != ProposalStatus::Active {
        Some(VotingError::ProposalNotActive)
    } else if option_of_code(option_code) is None {
        Some(VotingError::InvalidVoteOption)
    } else {
        None
    }
}

/// Why `creator` cannot open a proposal with these texts, if it cannot. The
/// checks come in this order and the first that fails decides: the title,
/// the description, the creator's account and role, the domain's pause.
pub open spec fn creation_error(
    config: ConfigView,
    creator: Option<AccountView>,
    title: Seq<char>,
    description: Seq<char>,
) -> Option<VotingError> {
    if text_error(title, description) is Some {
        text_error(title, description)
    } else if creator is None || !grants(creator->0.role, Capability::CreateProposal) {
        Some(VotingError::Unauthorized)
    } else if config.is_paused {
        Some(VotingError::DomainPaused)
    } else {
        None
    }
}

/// What a proposal that may be missing stands for.
pub open spec fn proposal_view(proposal: Option<&Proposal>) -> Option<ProposalView> {
    match proposal {
        Some(p) => Some(p@),
        None => None,
    }
}

/// What an account that may be missing stands for.
pub open spec fn account_view(account: Option<&UserAccount>) -> Option<AccountView> {
    match account {
        Some(a) => Some(a@),
        None => None,
    }
}

/// Decides whether a vote with `vote_option`, cast at time `now` on
/// `proposal`, is admitted, and decodes the option if it is.
pub fn admit_vote(
    config: &VotinConfig,
    proposal: Option<&Proposal>,
    vote_option: u8,
    now: i64,
) -> (res: Result<VoteOption, VotingError>)
    ensures
        match admission_error(config@, proposal_view(proposal), vote_option, now) {
            Some(e) => res == Err::<VoteOption, VotingError>(e),
            None => res == Ok::<VoteOption, VotingError>(option_of_code(vote_option)->0),
        },
{
    if let Err(e) = config.check_window(now) {
        return Err(e);
    }
    if config.is_paused {
        return Err(VotingError::DomainPaused);
    }
    match proposal {
        None => {
            return Err(VotingError::ProposalNotActive);
        },
        Some(p) => {
            if !p.is_active() {
                return Err(VotingError::ProposalNotActive);
            }
        },
    }
    match VoteOption::from_code(vote_option) {
        Some(option) => Ok(option),
        None => Err(VotingError::InvalidVoteOption),
    }
}

/// Decides whether `creator` may open a proposal with these texts.
pub fn admit_proposal(
    config: &VotinConfig,
    creator: Option<&UserAccount>,
    title: &str,
    description: &str,
) -> (res: Result<(), VotingError>)
    ensures
        match creation_error(config@, account_view(creator), title@, description@) {
            Some(e) => res == Err::<(), VotingError>(e),
            None => res is Ok,
        },
{
    if let Err(e) = check_text(title, description) {
        return Err(e);
    }
    match creator {
        None => {
            return Err(VotingError::Unauthorized);
        },
        Some(account) => {
            if !account.role.can_create_proposal() {
                return Err(VotingError::Unauthorized);
            }
        },
    }
    if config.is_paused {
        return Err(VotingError::DomainPaused);
    }
    Ok(())
}

} // verus!
