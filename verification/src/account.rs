//! The account of a registered identity.

use vstd::prelude::*;
use crate::error::VotingError;
use crate::identity::Identity;
use crate::role::{authorize, grants, role_of_code, Capability, UserRole};

verus! {

/// What the registry knows of one identity.
#[derive(Clone, Copy, Debug, PartialEq, Eq, Structural)]
pub struct UserAccount {
    /// The identity that the account belongs to.
    pub authority: Identity,
    /// The account's tier.
    pub role: UserRole,
    /// The weight that a vote of this account adds to a tally.
    pub voting_power: u64,
    /// How many proposals the identity has opened.
    pub proposals_created: u64,
    /// How many votes the identity has cast.
    pub votes_cast: u64,
}

/// What an account stands for, with unbounded counters.
pub struct AccountView {
    pub authority: Identity,
    pub role: UserRole,
    pub voting_power: u64,
    pub proposals_created: nat,
    pub votes_cast: nat,
}

impl View for UserAccount {
    type V = AccountView;

    open spec fn view(&self) -> AccountView {
        AccountView {
            authority: self.authority,
            role: self.role,
            voting_power: self.voting_power,
            proposals_created: self.proposals_created as nat,
            votes_cast: self.votes_cast as nat,
        }
    }
}

/// What a list of accounts stands for.
pub open spec fn accounts_view(users: Seq<UserAccount>) -> Seq<AccountView> {
    users.map_values(|account: UserAccount| account@)
}

/// The account that registration gives to `identity`: a voter with voting
/// power 1 who has done nothing yet.
pub open spec fn fresh_account(identity: Identity) -> AccountView {
    AccountView {
        authority: identity,
        role: UserRole::Voter,
        voting_power: 1,
        proposals_created: 0,
        votes_cast: 0,
    }
}

/// The outcome of a caller with role `by` giving `account` the role that
/// `role_code` stands for: an admin's right, and the code must name a role.
pub open spec fn with_role(account: AccountView, by: UserRole, role_code: u8) -> Result<
    AccountView,
    VotingError,
> {
    if !grants(by, Capability::ManageRole) {
        Err(VotingError::Unauthorized)
    } else if role_of_code(role_code) is None {
        Err(VotingError::InvalidRole)
    } else {
        Ok(AccountView { role: role_of_code(role_code)->0, ..account })
    }
}

/// The outcome of a caller with role `by` setting the voting power of
/// `account` to `new_power`: an admin's right. Any power is accepted.
pub open spec fn with_voting_power(account: AccountView, by: UserRole, new_power: u64) -> Result<
    AccountView,
    VotingError,
> {
    if !grants(by, Capability::ManageRole) {
        Err(VotingError::Unauthorized)
    } else {
        Ok(AccountView { voting_power: new_power, ..account })
    }
}

impl UserAccount {
    /// The account of a newly registered identity.
    pub fn new(identity: Identity) -> (account: UserAccount)
        ensures
            account@ == fresh_account(identity),
    {
        UserAccount {
            authority: identity,
            role: UserRole::Voter,
            voting_power: 1,
            proposals_created: 0,
            votes_cast: 0,
        }
    }

    /// Gives the account the role that `new_role` stands for, on behalf of
    /// a caller with role `by`.
    pub fn assign_role(&mut self, by: UserRole, new_role: u8) -> (res: Result<(), VotingError>)
        ensures
            match with_role(old(self)@, by, new_role) {
                Ok(next) => res is Ok && final(self)@ == next,
                Err(e) => res == Err::<(), VotingError>(e) && *final(self) == *old(self),
            },
    {
        if !authorize(by, Capability::ManageRole) {
            return Err(VotingError::Unauthorized);
        }
        match UserRole::from_code(new_role) {
            Some(role) => {
                self.role = role;
                Ok(())
            },
            None => Err(VotingError::InvalidRole),
        }
    }

    /// Sets the account's voting power to `new_power`, on behalf of a caller
    /// with role `by`.
    pub fn set_voting_power(&mut self, by: UserRole, new_power: u64) -> (res: Result<
        (),
        VotingError,
    >)
        ensures
            match with_voting_power(old(self)@, by, new_power) {
                Ok(next) => res is Ok && final(self)@ == next,
                Err(e) => res == Err::<(), VotingError>(e) && *final(self) == *old(self),
            },
    {
        if !authorize(by, Capability::ManageRole) {
            return Err(VotingError::Unauthorized);
        }
        self.voting_power = new_power;
        Ok(())
    }

    /// Counts one more proposal opened by this identity.
    pub fn count_proposal(&mut self)
        requires
            old(self).proposals_created < u64::MAX,
        ensures
            final(self)@ == (AccountView {
                proposals_created: old(self)@.proposals_created + 1,
                ..old(self)@
            }),
    {
        self.proposals_created = self.proposals_created + 1;
    }

    /// Counts one more vote cast by this identity.
    pub fn count_vote(&mut self)
        requires
            old(self).votes_cast < u64::MAX,
        ensures
            final(self)@ == (AccountView { votes_cast: old(self)@.votes_cast + 1, ..old(self)@ }),
    {
        self.votes_cast = self.votes_cast + 1;
    }
}

} // verus!
