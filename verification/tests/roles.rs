use voting_program::role::{authorize, Capability, UserRole};
use voting_program::vote::VoteOption;

const ROLES: [UserRole; 4] =
    [UserRole::Voter, UserRole::Proposer, UserRole::Moderator, UserRole::Admin];
const CAPABILITIES: [Capability; 4] = [
    Capability::Vote,
    Capability::CreateProposal,
    Capability::Moderate,
    Capability::ManageRole,
];

#[test]
fn admin_holds_every_capability() {
    let admin = UserRole::Admin;
    assert!(admin.manage_role());
    assert!(admin.can_moderate());
    assert!(admin.can_create_proposal());
    assert!(admin.can_vote());
    for capability in CAPABILITIES {
        assert!(authorize(admin, capability));
    }
}

#[test]
fn voter_holds_only_the_vote() {
    let voter = UserRole::Voter;
    assert!(voter.can_vote());
    assert!(!voter.can_create_proposal());
    assert!(!voter.can_moderate());
    assert!(!voter.manage_role());
    assert!(authorize(voter, Capability::Vote));
    assert!(!authorize(voter, Capability::CreateProposal));
    assert!(!authorize(voter, Capability::Moderate));
    assert!(!authorize(voter, Capability::ManageRole));
}

#[test]
fn proposer_and_moderator_capabilities() {
    let proposer = UserRole::Proposer;
    assert!(proposer.can_vote());
    assert!(proposer.can_create_proposal());
    assert!(!proposer.can_moderate());
    assert!(!proposer.manage_role());

    let moderator = UserRole::Moderator;
    assert!(moderator.can_vote());
    assert!(moderator.can_create_proposal());
    assert!(moderator.can_moderate());
    assert!(!moderator.manage_role());
}

#[test]
fn authorize_agrees_with_the_role_predicates() {
    for role in ROLES {
        assert_eq!(authorize(role, Capability::Vote), role.can_vote());
        assert_eq!(authorize(role, Capability::CreateProposal), role.can_create_proposal());
        assert_eq!(authorize(role, Capability::Moderate), role.can_moderate());
        assert_eq!(authorize(role, Capability::ManageRole), role.manage_role());
    }
}

#[test]
fn capabilities_grow_with_rank() {
    for (low, lower) in ROLES.iter().enumerate() {
        for higher in &ROLES[low..] {
            for capability in CAPABILITIES {
                if authorize(*lower, capability) {
                    assert!(authorize(*higher, capability));
                }
            }
        }
    }
}

#[test]
fn role_codes() {
    assert_eq!(UserRole::from_code(0), Some(UserRole::Voter));
    assert_eq!(UserRole::from_code(1), Some(UserRole::Proposer));
    assert_eq!(UserRole::from_code(2), Some(UserRole::Moderator));
    assert_eq!(UserRole::from_code(3), Some(UserRole::Admin));
    assert_eq!(UserRole::from_code(4), None);
    assert_eq!(UserRole::from_code(255), None);
    for role in ROLES {
        assert_eq!(UserRole::from_code(role.code()), Some(role));
    }
    assert_eq!(UserRole::Admin.code(), 3);
}

#[test]
fn vote_option_codes() {
    assert_eq!(VoteOption::from_code(0), Some(VoteOption::For));
    assert_eq!(VoteOption::from_code(1), Some(VoteOption::Against));
    assert_eq!(VoteOption::from_code(2), Some(VoteOption::Abstain));
    assert_eq!(VoteOption::from_code(3), None);
    assert_eq!(VoteOption::from_code(255), None);
    assert_eq!(VoteOption::For.code(), 0);
    assert_eq!(VoteOption::Against.code(), 1);
    assert_eq!(VoteOption::Abstain.code(), 2);
}
