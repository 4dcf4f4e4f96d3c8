//! The ways a request can be turned down.

use vstd::prelude::*;

verus! {

/// Why an operation was rejected. A rejected operation leaves every record
/// as it was.
#[derive(Clone, Copy, Debug, PartialEq, Eq, Structural)]
pub enum VotingError {
    /// The voting domain has already been set up.
    AlreadyInitialized,
    /// The voting window does not end after it starts.
    InvalidWindow,
    /// The caller lacks the capability, or is not the identity required.
    Unauthorized,
    /// The role code names no role.
    InvalidRole,
    /// The identity already has an account.
    AlreadyRegistered,
    /// The identity has no account.
    NotRegistered,
    /// The title is longer than `MAX_TITLE_LENGTH` bytes.
    TitleTooLong,
    /// The description is longer than `MAX_DESCRIPTION_LENGTH` bytes.
    DescriptionTooLong,
    /// The whole domain is paused.
    DomainPaused,
    /// The proposal does not exist or is not in the status the operation needs.
    ProposalNotActive,
    /// The current time lies before the voting window.
    VotingNotStarted,
    /// The current time lies after the voting window.
    VotingEnded,
    /// The vote option code names no option.
    InvalidVoteOption,
    /// The voter has already voted on this proposal.
    AlreadyVoted,
}

} // verus!
