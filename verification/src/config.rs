//! The configuration of a voting domain: its owner, its voting window, its
//! pause flag and its counters.

use vstd::prelude::*;
use crate::error::VotingError;
use crate::identity::Identity;

verus! {

/// The single configuration record of a voting domain.
#[derive(Clone, Copy, Debug, PartialEq, Eq, Structural)]
pub struct VotinConfig {
    /// The identity that set the domain up and may pause it.
    pub authority: Identity,
    /// How many proposals were ever opened; also the next proposal's identifier.
    pub total_proposals: u64,
    /// How many identities are registered.
    pub total_users: u64,
    /// The first instant at which votes are admitted.
    pub voting_start_time: i64,
    /// The last instant at which votes are admitted.
    pub voting_end_time: i64,
    /// While set, no proposal is opened and no vote admitted.
    pub is_paused: bool,
}

/// What a configuration record stands for, with unbounded counters.
pub struct ConfigView {
    pub authority: Identity,
    pub total_proposals: nat,
    pub total_users: nat,
    pub voting_start_time: i64,
    pub voting_end_time: i64,
    pub is_paused: bool,
}

impl View for VotinConfig {
    type V = ConfigView;

    open spec fn view(&self) -> ConfigView {
        ConfigView {
            authority: self.authority,
            total_proposals: self.total_proposals as nat,
            total_users: self.total_users as nat,
            voting_start_time: self.voting_start_time,
            voting_end_time: self.voting_end_time,
            is_paused: self.is_paused,
        }
    }
}

/// The configuration of a domain that has just been set up.
pub open spec fn initial_config(authority: Identity, start: i64, end: i64) -> ConfigView {
    ConfigView {
        authority,
        total_proposals: 0,
        total_users: 0,
        voting_start_time: start,
        voting_end_time: end,
        is_paused: false,
    }
}

/// Why a vote at time `now` falls outside the window of `config`, if it does.
pub open spec fn window_error(config: ConfigView, now: i64) -> Option<VotingError> {
    if now < config.voting_start_time {
        Some(VotingError::VotingNotStarted)
    } else if now > config.voting_end_time {
        Some(VotingError::VotingEnded)
    } else {
        None
    }
}

/// The outcome of `caller` setting the pause flag of `config` to `paused`:
/// only the owner may.
pub open spec fn set_paused(config: ConfigView, caller: Identity, paused: bool) -> Result<
    ConfigView,
    VotingError,
> {
    if caller == config.authority {
        Ok(ConfigView { is_paused: paused, ..config })
    } else {
        Err(VotingError::Unauthorized)
    }
}

impl VotinConfig {
    /// Builds the configuration of a new domain owned by `authority`, or
    /// rejects a window that does not end after it starts.
    pub fn new(authority: Identity, voting_start_time: i64, voting_end_time: i64) -> (res: Result<
        VotinConfig,
        VotingError,
    >)
        ensures
            voting_end_time <= voting_start_time ==> res == Err::<VotinConfig, VotingError>(
                VotingError::InvalidWindow,
            ),
            voting_end_time > voting_start_time ==> res is Ok && res->Ok_0@ == initial_config(
                authority,
                voting_start_time,
                voting_end_time,
            ),
    {
        if voting_end_time <= voting_start_time {
            return Err(VotingError::InvalidWindow);
        }
        Ok(
            VotinConfig {
                authority,
                total_proposals: 0,
                total_users: 0,
                voting_start_time,
                voting_end_time,
                is_paused: false,
            },
        )
    }

    /// Pauses the domain on behalf of `caller`, who must be its owner.
    pub fn pause(&mut self, caller: Identity) -> (res: Result<(), VotingError>)
        ensures
            match set_paused(old(self)@, caller, true) {
                Ok(next) => res is Ok && final(self)@ == next,
                Err(e) => res == Err::<(), VotingError>(e) && *final(self) == *old(self),
            },
    {
        if caller != self.authority {
            return Err(VotingError::Unauthorized);
        }
        self.is_paused = true;
        Ok(())
    }

    /// Lifts the pause on behalf of `caller`, who must be the domain's owner.
    pub fn resume(&mut self, caller: Identity) -> (res: Result<(), VotingError>)
        ensures
            match set_paused(old(self)@, caller, false) {
                Ok(next) => res is Ok && final(self)@ == next,
                Err(e) => res == Err::<(), VotingError>(e) && *final(self) == *old(self),
            },
    {
        if caller != self.authority {
            return Err(VotingError::Unauthorized);
        }
        self.is_paused = false;
        Ok(())
    }

    /// Hands out the identifier of the next proposal and advances the counter.
    pub fn next_proposal_id(&mut self) -> (id: u64)
        requires
            old(self).total_proposals < u64::MAX,
        ensures
            id == old(self).total_proposals,
            final(self)@ == (ConfigView {
                total_proposals: old(self)@.total_proposals + 1,
                ..old(self)@
            }),
    {
        let id: u64 = self.total_proposals;
        self.total_proposals = id + 1;
        id
    }

    /// Counts one more registered identity.
    pub fn count_registration(&mut self)
        requires
            old(self).total_users < u64::MAX,
        ensures
            final(self)@ == (ConfigView {
                total_users: old(self)@.total_users + 1,
                ..old(self)@
            }),
    {
        self.total_users = self.total_users + 1;
    }

    /// Checks that `now` lies inside the voting window, both ends included.
    pub fn check_window(&self, now: i64) -> (res: Result<(), VotingError>)
        ensures
            match window_error(self@, now) {
                Some(e) => res == Err::<(), VotingError>(e),
                None => res is Ok,
            },
    {
        if now < self.voting_start_time {
            Err(VotingError::VotingNotStarted)
        } else if now > self.voting_end_time {
            Err(VotingError::VotingEnded)
        } else {
            Ok(())
        }
    }
}

} // verus!
