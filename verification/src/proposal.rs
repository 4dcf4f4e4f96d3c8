//! Proposals: their text bounds, their lifecycle and their tallies.

use vstd::prelude::*;
use crate::error::VotingError;
use crate::identity::Identity;
use crate::role::{authorize, grants, Capability, UserRole};
use crate::vote::VoteOption;

verus! {

/// The longest title, in bytes of its UTF-8 encoding.
pub const MAX_TITLE_LENGTH: usize = 64;

/// The longest description, in bytes of its UTF-8 encoding.
pub const MAX_DESCRIPTION_LENGTH: usize = 256;

/// Where a proposal stands in its lifecycle.
#[derive(Clone, Copy, Debug, PartialEq, Eq, Structural)]
pub enum ProposalStatus {
    /// Open to votes.
    Active,
    /// Suspended by a moderator; may be resumed.
    Paused,
    /// Closed by its creator.
    Completed,
    /// Withdrawn by an admin.
    Cancelled,
}

/// A votable item.
#[derive(Clone, Debug, PartialEq, Eq)]
pub struct Proposal {
    /// The identity that opened the proposal.
    pub creator: Identity,
    /// The proposal's identifier: the number of proposals opened before it.
    pub proposal_id: u64,
    /// A title of at most `MAX_TITLE_LENGTH` bytes.
    pub title: String,
    /// A description of at most `MAX_DESCRIPTION_LENGTH` bytes.
    pub description: String,
    /// The voting power cast in favour, capped at `u64::MAX`.
    pub votes_for: u64,
    /// The voting power cast against, capped at `u64::MAX`.
    pub votes_against: u64,
    /// The voting power that abstained, capped at `u64::MAX`.
    pub votes_abstain: u64,
    /// Where the proposal stands in its lifecycle.
    pub status: ProposalStatus,
    /// When the proposal was opened.
    pub created_at: i64,
}

/// What a proposal stands for: its texts as character sequences, its
/// identifier unbounded.
pub struct ProposalView {
    pub creator: Identity,
    pub proposal_id: nat,
    pub title: Seq<char>,
    pub description: Seq<char>,
    pub votes_for: u64,
    pub votes_against: u64,
    pub votes_abstain: u64,
    pub status: ProposalStatus,
    pub created_at: i64,
}

impl View for Proposal {
    type V = ProposalView;

    open spec fn view(&self) -> ProposalView {
        ProposalView {
            creator: self.creator,
            proposal_id: self.proposal_id as nat,
            title: self.title@,
            description: self.description@,
            votes_for: self.votes_for,
            votes_against: self.votes_against,
            votes_abstain: self.votes_abstain,
            status: self.status,
            created_at: self.created_at,
        }
    }
}

/// What a list of proposals stands for.
pub open spec fn proposals_view(proposals: Seq<Proposal>) -> Seq<ProposalView> {
    proposals.map_values(|proposal: Proposal| proposal@)
}

/// The length of a text: the number of bytes of its UTF-8 encoding.
pub open spec fn text_len(text: Seq<char>) -> nat {
    vstd::utf8::encode_utf8(text).len()
}

/// Why a title and a description cannot be accepted, if they cannot; the
/// title is judged first.
pub open spec fn text_error(title: Seq<char>, description: Seq<char>) -> Option<VotingError> {
    if text_len(title) > MAX_TITLE_LENGTH {
        Some(VotingError::TitleTooLong)
    } else if text_len(description) > MAX_DESCRIPTION_LENGTH {
        Some(VotingError::DescriptionTooLong)
    } else {
        None
    }
}

/// The proposal that `creator` opens at time `now` under identifier `id`:
/// active, with empty tallies.
pub open spec fn opened(
    creator: Identity,
    id: nat,
    title: Seq<char>,
    description: Seq<char>,
    now: i64,
) -> ProposalView {
    ProposalView {
        creator,
        proposal_id: id,
        title,
        description,
        votes_for: 0,
        votes_against: 0,
        votes_abstain: 0,
        status: ProposalStatus::Active,
        created_at: now,
    }
}

/// The proposal after `power` was added to the tally of `option`. A tally
/// that would pass `u64::MAX` stays there.
pub open spec fn tallied(proposal: ProposalView, option: VoteOption, power: u64) -> ProposalView {
    match option {
        VoteOption::For => ProposalView {
            votes_for: proposal.votes_for.saturating_add(power),
            ..proposal
        },
        VoteOption::Against => ProposalView {
            votes_against: proposal.votes_against.saturating_add(power),
            ..proposal
        },
        VoteOption::Abstain => ProposalView {
            votes_abstain: proposal.votes_abstain.saturating_add(power),
            ..proposal
        },
    }
}

/// The tally that `proposal` keeps for `option`.
pub open spec fn tally_of(proposal: ProposalView, option: VoteOption) -> u64 {
    match option {
        VoteOption::For => proposal.votes_for,
        VoteOption::Against => proposal.votes_against,
        VoteOption::Abstain => proposal.votes_abstain,
    }
}

/// The outcome of a caller with `role` pausing `proposal`: a moderator's
/// right, and only an active proposal can be paused.
pub open spec fn paused_by(proposal: ProposalView, role: UserRole) -> Result<
    ProposalView,
    VotingError,
> {
    if !grants(role, Capability::Moderate) {
        Err(VotingError::Unauthorized)
    } else if proposal.status != ProposalStatus::Active {
        Err(VotingError::ProposalNotActive)
    } else {
        Ok(ProposalView { status: ProposalStatus::Paused, ..proposal })
    }
}

/// The outcome of a caller with `role` resuming `proposal`: a moderator's
/// right, and only a paused proposal can be resumed.
pub open spec fn resumed_by(proposal: ProposalView, role: UserRole) -> Result<
    ProposalView,
    VotingError,
> {
    if !grants(role, Capability::Moderate) {
        Err(VotingError::Unauthorized)
    } else if proposal.status != ProposalStatus::Paused {
        Err(VotingError::ProposalNotActive)
    } else {
        Ok(ProposalView { status: ProposalStatus::Active, ..proposal })
    }
}

/// The outcome of `caller` completing `proposal`: the creator's right,
/// whatever the proposal's status.
pub open spec fn completed_by(proposal: ProposalView, caller: Identity) -> Result<
    ProposalView,
    VotingError,
> {
    if caller != proposal.creator {
        Err(VotingError::Unauthorized)
    } else {
        Ok(ProposalView { status: ProposalStatus::Completed, ..proposal })
    }
}

/// The outcome of a caller with `role` cancelling `proposal`: an admin's
/// right, whatever the proposal's status.
pub open spec fn cancelled_by(proposal: ProposalView, role: UserRole) -> Result<
    ProposalView,
    VotingError,
> {
    if !grants(role, Capability::ManageRole) {
        Err(VotingError::Unauthorized)
    } else {
        Ok(ProposalView { status: ProposalStatus::Cancelled, ..proposal })
    }
}

/// Checks a title and a description against their length bounds.
pub fn check_text(title: &str, description: &str) -> (res: Result<(), VotingError>)
    ensures
        match text_error(title@, description@) {
            Some(e) => res == Err::<(), VotingError>(e),
            None => res is Ok,
        },
{
    if title.as_bytes().len() > MAX_TITLE_LENGTH {
        Err(VotingError::TitleTooLong)
    } else if description.as_bytes().len() > MAX_DESCRIPTION_LENGTH {
        Err(VotingError::DescriptionTooLong)
    } else {
        Ok(())
    }
}

impl Proposal {
    /// Opens a proposal for `creator` under identifier `proposal_id`, or
    /// rejects a text that is too long.
    pub fn new(
        creator: Identity,
        proposal_id: u64,
        title: String,
        description: String,
        created_at: i64,
    ) -> (res: Result<Proposal, VotingError>)
        ensures
            match text_error(title@, description@) {
                Some(e) => res == Err::<Proposal, VotingError>(e),
                None => res is Ok && res->Ok_0@ == opened(
                    creator,
                    proposal_id as nat,
                    title@,
                    description@,
                    created_at,
                ),
            },
    {
        match check_text(title.as_str(), description.as_str()) {
            Err(e) => Err(e),
            Ok(()) => Ok(
                Proposal {
                    creator,
                    proposal_id,
                    title,
                    description,
                    votes_for: 0,
                    votes_against: 0,
                    votes_abstain: 0,
                    status: ProposalStatus::Active,
                    created_at,
                },
            ),
        }
    }

    /// Adds `power` to the tally of `option`, stopping at `u64::MAX`.
    pub fn add_votes(&mut self, option: VoteOption, power: u64)
        ensures
            final(self)@ == tallied(old(self)@, option, power),
    {
        match option {
            VoteOption::For => {
                self.votes_for = self.votes_for.saturating_add(power);
            },
            VoteOption::Against => {
                self.votes_against = self.votes_against.saturating_add(power);
            },
            VoteOption::Abstain => {
                self.votes_abstain = self.votes_abstain.saturating_add(power);
            },
        }
    }

    /// Whether votes can be cast on the proposal.
    pub fn is_active(&self) -> (active: bool)
        ensures
            active == (self.status == ProposalStatus::Active),
    {
        self.status == ProposalStatus::Active
    }

    /// Pauses the proposal on behalf of a caller with `role`.
    pub fn pause(&mut self, role: UserRole) -> (res: Result<(), VotingError>)
        ensures
            match paused_by(old(self)@, role) {
                Ok(next) => res is Ok && final(self)@ == next,
                Err(e) => res == Err::<(), VotingError>(e) && *final(self) == *old(self),
            },
    {
        if !authorize(role, Capability::Moderate) {
            return Err(VotingError::Unauthorized);
        }
        if self.status != ProposalStatus::Active {
            return Err(VotingError::ProposalNotActive);
        }
        self.status = ProposalStatus::Paused;
        Ok(())
    }

    /// Resumes the paused proposal on behalf of a caller with `role`.
    pub fn resume(&mut self, role: UserRole) -> (res: Result<(), VotingError>)
        ensures
            match resumed_by(old(self)@, role) {
                Ok(next) => res is Ok && final(self)@ == next,
                Err(e) => res == Err::<(), VotingError>(e) && *final(self) == *old(self),
            },
    {
        if !authorize(role, Capability::Moderate) {
            return Err(VotingError::Unauthorized);
        }
        if self.status != ProposalStatus::Paused {
            return Err(VotingError::ProposalNotActive);
        }
        self.status = ProposalStatus::Active;
        Ok(())
    }

    /// Completes the proposal on behalf of `caller`, who must be its creator.
    pub fn complete(&mut self, caller: Identity) -> (res: Result<(), VotingError>)
        ensures
            match completed_by(old(self)@, caller) {
                Ok(next) => res is Ok && final(self)@ == next,
                Err(e) => res == Err::<(), VotingError>(e) && *final(self) == *old(self),
            },
    {
        if caller != self.creator {
            return Err(VotingError::Unauthorized);
        }
        self.status = ProposalStatus::Completed;
        Ok(())
    }

    /// Cancels the proposal on behalf of a caller with `role`.
    pub fn cancel(&mut self, role: UserRole) -> (res: Result<(), VotingError>)
        ensures
            match cancelled_by(old(self)@, role) {
                Ok(next) => res is Ok && final(self)@ == next,
                Err(e) => res == Err::<(), VotingError>(e) && *final(self) == *old(self),
            },
    {
        if !authorize(role, Capability::ManageRole) {
            return Err(VotingError::Unauthorized);
        }
        self.status = ProposalStatus::Cancelled;
        Ok(())
    }
}

} // verus!
