use voting_program::account::UserAccount;
use voting_program::domain::{initialize_voting_system, VotingDomain};
use voting_program::error::VotingError;
use voting_program::identity::Identity;
use voting_program::proposal::ProposalStatus;
use voting_program::role::UserRole;
use voting_program::vote::{VoteOption, VoteRecord};

const OWNER: Identity = Identity { hi: 0, lo: 1 };
const ADMIN: Identity = Identity { hi: 0, lo: 2 };
const VOTER: Identity = Identity { hi: 0, lo: 3 };
const PROPOSER: Identity = Identity { hi: 0, lo: 4 };
const STRANGER: Identity = Identity { hi: 7, lo: 0 };

fn new_domain() -> VotingDomain {
    let mut slot = None;
    assert_eq!(initialize_voting_system(&mut slot, OWNER, 100, 200), Ok(()));
    slot.unwrap()
}

fn with_role(domain: VotingDomain, who: Identity, role: UserRole) -> VotingDomain {
    let users: Vec<UserAccount> = domain
        .users()
        .iter()
        .map(|account| {
            let mut account = *account;
            if account.authority == who {
                account.role = role;
            }
            account
        })
        .collect();
    VotingDomain::restore(
        domain.config(),
        users,
        domain.proposals().clone(),
        domain.votes().clone(),
    )
    .unwrap()
}

/// A domain with window [100, 200], an admin, a voter and a proposer.
fn staffed_domain() -> VotingDomain {
    let mut domain = new_domain();
    assert_eq!(domain.register_user(ADMIN), Ok(()));
    assert_eq!(domain.register_user(VOTER), Ok(()));
    assert_eq!(domain.register_user(PROPOSER), Ok(()));
    let mut domain = with_role(domain, ADMIN, UserRole::Admin);
    assert_eq!(domain.assign_role(ADMIN, PROPOSER, 1), Ok(()));
    domain
}

#[test]
fn a_vote_is_counted_once() {
    let mut domain = staffed_domain();
    assert_eq!(domain.user_account(VOTER).unwrap().voting_power, 1);
    assert_eq!(domain.user_account(VOTER).unwrap().role, UserRole::Voter);
    assert_eq!(domain.user_account(PROPOSER).unwrap().role, UserRole::Proposer);

    let id = domain.create_proposal(PROPOSER, "T".to_string(), "D".to_string(), 120);
    assert_eq!(id, Ok(0));
    let proposal = domain.proposal(0).unwrap();
    assert_eq!(proposal.proposal_id, 0);
    assert_eq!(proposal.status, ProposalStatus::Active);
    assert_eq!(proposal.title, "T");
    assert_eq!(proposal.description, "D");
    assert_eq!(proposal.creator, PROPOSER);
    assert_eq!(proposal.created_at, 120);

    let record = domain.cast_vote(VOTER, 0, 0, 150);
    assert_eq!(
        record,
        Ok(VoteRecord {
            voter: VOTER,
            proposal_id: 0,
            vote_option: VoteOption::For,
            voting_power_used: 1,
            voted_at: 150,
        })
    );
    assert_eq!(domain.proposal(0).unwrap().votes_for, 1);
    assert_eq!(domain.vote_record(0, VOTER), Some(record.unwrap()));
    assert_eq!(domain.user_account(VOTER).unwrap().votes_cast, 1);

    assert_eq!(domain.cast_vote(VOTER, 0, 0, 150), Err(VotingError::AlreadyVoted));
    assert_eq!(domain.proposal(0).unwrap().votes_for, 1);
    assert_eq!(domain.proposal(0).unwrap().votes_against, 0);
    assert_eq!(domain.proposal(0).unwrap().votes_abstain, 0);
    assert_eq!(domain.votes().len(), 1);
    assert_eq!(domain.user_account(VOTER).unwrap().votes_cast, 1);
}

#[test]
fn votes_outside_the_window_are_rejected() {
    let mut domain = staffed_domain();
    assert_eq!(domain.create_proposal(PROPOSER, "T".to_string(), "D".to_string(), 10), Ok(0));
    assert_eq!(domain.cast_vote(VOTER, 0, 0, 50), Err(VotingError::VotingNotStarted));
    assert_eq!(domain.cast_vote(VOTER, 0, 0, 250), Err(VotingError::VotingEnded));
    assert_eq!(domain.proposal(0).unwrap().votes_for, 0);
    assert_eq!(domain.votes().len(), 0);
    assert_eq!(domain.user_account(VOTER).unwrap().votes_cast, 0);
}

#[test]
fn votes_keep_the_power_they_were_cast_with() {
    let mut domain = staffed_domain();
    assert_eq!(domain.create_proposal(PROPOSER, "T".to_string(), "D".to_string(), 100), Ok(0));
    assert_eq!(domain.create_proposal(PROPOSER, "U".to_string(), "E".to_string(), 100), Ok(1));
    assert_eq!(domain.cast_vote(VOTER, 0, 0, 150).unwrap().voting_power_used, 1);

    assert_eq!(domain.update_voting_power(ADMIN, VOTER, 5), Ok(()));
    assert_eq!(domain.user_account(VOTER).unwrap().voting_power, 5);
    assert_eq!(domain.proposal(0).unwrap().votes_for, 1);
    assert_eq!(domain.vote_record(0, VOTER).unwrap().voting_power_used, 1);

    let second = domain.cast_vote(VOTER, 1, 1, 160).unwrap();
    assert_eq!(second.voting_power_used, 5);
    assert_eq!(second.vote_option, VoteOption::Against);
    assert_eq!(domain.proposal(1).unwrap().votes_against, 5);
    assert_eq!(domain.proposal(1).unwrap().votes_for, 0);
    assert_eq!(domain.proposal(0).unwrap().votes_for, 1);
    assert_eq!(domain.proposal(0).unwrap().votes_against, 0);
    assert_eq!(domain.vote_record(0, VOTER).unwrap().voting_power_used, 1);
    assert_eq!(domain.user_account(VOTER).unwrap().votes_cast, 2);
}

#[test]
fn a_paused_domain_admits_nothing() {
    let mut domain = staffed_domain();
    assert_eq!(domain.create_proposal(PROPOSER, "T".to_string(), "D".to_string(), 100), Ok(0));
    assert_eq!(domain.pause_system(OWNER), Ok(()));
    assert!(domain.config().is_paused);

    assert_eq!(
        domain.create_proposal(PROPOSER, "U".to_string(), "E".to_string(), 100),
        Err(VotingError::DomainPaused)
    );
    assert_eq!(domain.cast_vote(VOTER, 0, 0, 150), Err(VotingError::DomainPaused));
    assert_eq!(domain.config().total_proposals, 1);
    assert_eq!(domain.proposals().len(), 1);
    assert_eq!(domain.votes().len(), 0);
    assert_eq!(domain.user_account(PROPOSER).unwrap().proposals_created, 1);

    assert_eq!(domain.resume_system(OWNER), Ok(()));
    assert!(!domain.config().is_paused);
    assert_eq!(domain.create_proposal(PROPOSER, "U".to_string(), "E".to_string(), 100), Ok(1));
    assert!(domain.cast_vote(VOTER, 0, 0, 150).is_ok());
}

#[test]
fn only_admins_assign_roles() {
    let mut domain = staffed_domain();
    assert_eq!(domain.assign_role(VOTER, PROPOSER, 3), Err(VotingError::Unauthorized));
    assert_eq!(domain.user_account(PROPOSER).unwrap().role, UserRole::Proposer);
    assert_eq!(domain.assign_role(PROPOSER, VOTER, 3), Err(VotingError::Unauthorized));
    assert_eq!(domain.user_account(VOTER).unwrap().role, UserRole::Voter);
    assert_eq!(domain.assign_role(STRANGER, VOTER, 3), Err(VotingError::Unauthorized));
    assert_eq!(domain.assign_role(OWNER, VOTER, 3), Err(VotingError::Unauthorized));
    assert_eq!(domain.user_account(VOTER).unwrap().role, UserRole::Voter);
}
