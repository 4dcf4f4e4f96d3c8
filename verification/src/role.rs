//! Roles and the capabilities they grant.

use vstd::prelude::*;

verus! {

/// The tier of a registered participant.
#[derive(Clone, Copy, Debug, PartialEq, Eq, Structural)]
pub enum UserRole {
    /// May vote.
    Voter,
    /// May vote and open proposals.
    Proposer,
    /// May vote, open proposals, and pause or resume them.
    Moderator,
    /// Holds every capability.
    Admin,
}

/// Something a role may or may not be allowed to do.
#[derive(Clone, Copy, Debug, PartialEq, Eq, Structural)]
pub enum Capability {
    /// Casting a vote.
    Vote,
    /// Opening a proposal.
    CreateProposal,
    /// Pausing and resuming a proposal.
    Moderate,
    /// Changing another account's role or voting power, cancelling a proposal.
    ManageRole,
}

/// The authorization policy: whether `role` holds `capability`.
pub open spec fn grants(role: UserRole, capability: Capability) -> bool {
    match capability {
        Capability::Vote => true,
        Capability::CreateProposal => role != UserRole::Voter,
        Capability::Moderate => role == UserRole::Moderator || role == UserRole::Admin,
        Capability::ManageRole => role == UserRole::Admin,
    }
}

/// The position of a role in the order `Voter`, `Proposer`, `Moderator`, `Admin`.
pub open spec fn rank(role: UserRole) -> nat {
    match role {
        UserRole::Voter => 0,
        UserRole::Proposer => 1,
        UserRole::Moderator => 2,
        UserRole::Admin => 3,
    }
}

/// The role that a code stands for, if any.
pub open spec fn role_of_code(code: u8) -> Option<UserRole> {
    if code == 0 {
        Some(UserRole::Voter)
    } else if code == 1 {
        Some(UserRole::Proposer)
    } else if code == 2 {
        Some(UserRole::Moderator)
    } else if code == 3 {
        Some(UserRole::Admin)
    } else {
        None
    }
}

/// Decides whether a caller with `caller_role` may exercise `required`.
pub fn authorize(caller_role: UserRole, required: Capability) -> (allowed: bool)
    ensures
        allowed == grants(caller_role, required),
{
    match required {
        Capability::Vote => true,
        Capability::CreateProposal => match caller_role {
            UserRole::Voter => false,
            _ => true,
        },
        Capability::Moderate => match caller_role {
            UserRole::Moderator | UserRole::Admin => true,
            _ => false,
        },
        Capability::ManageRole => match caller_role {
            UserRole::Admin => true,
            _ => false,
        },
    }
}

impl UserRole {
    /// Every role may vote.
    pub fn can_vote(&self) -> (allowed: bool)
        ensures
            allowed == grants(*self, Capability::Vote),
    {
        authorize(*self, Capability::Vote)
    }

    /// Proposers, moderators and admins may open proposals.
    pub fn can_create_proposal(&self) -> (allowed: bool)
        ensures
            allowed == grants(*self, Capability::CreateProposal),
    {
        authorize(*self, Capability::CreateProposal)
    }

    /// Moderators and admins may pause and resume proposals.
    pub fn can_moderate(&self) -> (allowed: bool)
        ensures
            allowed == grants(*self, Capability::Moderate),
    {
        authorize(*self, Capability::Moderate)
    }

    /// Only admins may manage roles.
    pub fn manage_role(&self) -> (allowed: bool)
        ensures
            allowed == grants(*self, Capability::ManageRole),
    {
        authorize(*self, Capability::ManageRole)
    }

    /// Decodes a role from its one-byte code: 0 to 3 name the four roles in
    /// rising order, every other code names none.
    pub fn from_code(code: u8) -> (role: Option<UserRole>)
        ensures
            role == role_of_code(code),
    {
        match code {
            0 => Some(UserRole::Voter),
            1 => Some(UserRole::Proposer),
            2 => Some(UserRole::Moderator),
            3 => Some(UserRole::Admin),
            _ => None,
        }
    }

    /// The one-byte code of the role.
    pub fn code(&self) -> (code: u8)
        ensures
            code == rank(*self),
            role_of_code(code) == Some(*self),
    {
        match self {
            UserRole::Voter => 0,
            UserRole::Proposer => 1,
            UserRole::Moderator => 2,
            UserRole::Admin => 3,
        }
    }
}

/// An admin holds every capability.
pub proof fn lemma_admin_holds_every_capability(capability: Capability)
    ensures
        grants(UserRole::Admin, capability),
{
}

/// A voter holds the capability to vote and no other.
pub proof fn lemma_voter_holds_only_vote(capability: Capability)
    ensures
        grants(UserRole::Voter, capability) <==> capability == Capability::Vote,
{
}

/// Capabilities grow with rank: what a role may do, every higher role may do.
pub proof fn lemma_capabilities_grow_with_rank(
    lower: UserRole,
    higher: UserRole,
    capability: Capability,
)
    requires
        rank(lower) <= rank(higher),
        grants(lower, capability),
    ensures
        grants(higher, capability),
{
}

/// A role code decodes exactly when it is at most 3, and then to the role of
/// that rank.
pub proof fn lemma_role_codes(code: u8)
    ensures
        role_of_code(code) is Some <==> code <= 3,
        role_of_code(code) is Some ==> rank(role_of_code(code)->0) == code,
{
}

} // verus!
