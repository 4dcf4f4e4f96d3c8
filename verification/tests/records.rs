use voting_program::account::UserAccount;
use voting_program::audit::{
    count_proposals_by, count_votes_by, counters_match, creators_known, has_account,
    identities_distinct, power_total, proposals_consistent, voters_known, votes_distinct,
    votes_within,
};
use voting_program::ballot::{admit_proposal, admit_vote};
use voting_program::config::VotinConfig;
use voting_program::error::VotingError;
use voting_program::identity::{Identity, KEY_LENGTH};
use voting_program::proposal::{
    check_text, Proposal, ProposalStatus, MAX_DESCRIPTION_LENGTH, MAX_TITLE_LENGTH,
};
use voting_program::role::UserRole;
use voting_program::vote::{VoteOption, VoteRecord};

const OWNER: Identity = Identity { hi: 0, lo: 1 };
const ALICE: Identity = Identity { hi: 0, lo: 2 };
const BOB: Identity = Identity { hi: 0, lo: 3 };

fn config() -> VotinConfig {
    VotinConfig::new(OWNER, 100, 200).unwrap()
}

fn proposal() -> Proposal {
    Proposal::new(ALICE, 0, "T".to_string(), "D".to_string(), 120).unwrap()
}

fn vote(proposal_id: u64, voter: Identity, option: VoteOption, power: u64) -> VoteRecord {
    VoteRecord {
        voter,
        proposal_id,
        vote_option: option,
        voting_power_used: power,
        voted_at: 150,
    }
}

#[test]
fn identity_from_key_bytes() {
    let mut key = [0u8; 32];
    key[0] = 1;
    key[1] = 2;
    key[16] = 3;
    key[31] = 4;
    let identity = Identity::from_bytes(&key).unwrap();
    assert_eq!(identity.lo, 0x0201);
    assert_eq!(identity.hi, (4u128 << 120) + 3);
    assert_eq!(identity, Identity::new((4u128 << 120) + 3, 0x0201));
    assert_eq!(identity.to_bytes(), key.to_vec());
    assert_eq!(Identity::from_bytes(&[0xff; 32]), Some(Identity { hi: u128::MAX, lo: u128::MAX }));
}

#[test]
fn identity_keys_have_32_bytes() {
    assert_eq!(KEY_LENGTH, 32);
    assert_eq!(Identity::from_bytes(&[0u8; 31]), None);
    assert_eq!(Identity::from_bytes(&[0u8; 33]), None);
    assert_eq!(Identity::from_bytes(&[]), None);
    assert_eq!(Identity { hi: 9, lo: 7 }.to_bytes().len(), 32);
}

#[test]
fn identity_bytes_round_trip() {
    for identity in [
        Identity { hi: 0, lo: 0 },
        Identity { hi: 1, lo: 0 },
        Identity { hi: 0, lo: 1 },
        Identity { hi: u128::MAX, lo: 12345678901234567890 },
    ] {
        assert_eq!(Identity::from_bytes(&identity.to_bytes()), Some(identity));
    }
    let key: Vec<u8> = (0u8..32).collect();
    assert_eq!(Identity::from_bytes(&key).unwrap().to_bytes(), key);
    assert_ne!(Identity { hi: 1, lo: 0 }.to_bytes(), Identity { hi: 0, lo: 1 }.to_bytes());
}

#[test]
fn a_new_config_counts_nothing() {
    assert_eq!(
        VotinConfig::new(OWNER, -5, 7),
        Ok(VotinConfig {
            authority: OWNER,
            total_proposals: 0,
            total_users: 0,
            voting_start_time: -5,
            voting_end_time: 7,
            is_paused: false,
        })
    );
    assert_eq!(VotinConfig::new(OWNER, 7, 7), Err(VotingError::InvalidWindow));
    assert_eq!(VotinConfig::new(OWNER, 8, 7), Err(VotingError::InvalidWindow));
    assert!(VotinConfig::new(OWNER, 7, 8).is_ok());
}

#[test]
fn config_counters_advance_by_one() {
    let mut config = config();
    assert_eq!(config.next_proposal_id(), 0);
    assert_eq!(config.next_proposal_id(), 1);
    assert_eq!(config.next_proposal_id(), 2);
    assert_eq!(config.total_proposals, 3);
    config.count_registration();
    config.count_registration();
    assert_eq!(config.total_users, 2);
    assert_eq!(config.total_proposals, 3);
    config.total_proposals = u64::MAX - 1;
    assert_eq!(config.next_proposal_id(), u64::MAX - 1);
    assert_eq!(config.total_proposals, u64::MAX);
}

#[test]
fn config_pause_is_the_owners() {
    let mut config = config();
    assert_eq!(config.pause(ALICE), Err(VotingError::Unauthorized));
    assert!(!config.is_paused);
    assert_eq!(config.pause(OWNER), Ok(()));
    assert!(config.is_paused);
    assert_eq!(config.resume(ALICE), Err(VotingError::Unauthorized));
    assert!(config.is_paused);
    assert_eq!(config.resume(OWNER), Ok(()));
    assert_eq!(config, VotinConfig::new(OWNER, 100, 200).unwrap());
}

#[test]
fn config_window_check() {
    let config = config();
    assert_eq!(config.check_window(i64::MIN), Err(VotingError::VotingNotStarted));
    assert_eq!(config.check_window(99), Err(VotingError::VotingNotStarted));
    assert_eq!(config.check_window(100), Ok(()));
    assert_eq!(config.check_window(150), Ok(()));
    assert_eq!(config.check_window(200), Ok(()));
    assert_eq!(config.check_window(201), Err(VotingError::VotingEnded));
    assert_eq!(config.check_window(i64::MAX), Err(VotingError::VotingEnded));
}

#[test]
fn account_changes_are_the_admins() {
    let mut account = UserAccount::new(ALICE);
    assert_eq!(account.assign_role(UserRole::Moderator, 1), Err(VotingError::Unauthorized));
    assert_eq!(account.assign_role(UserRole::Moderator, 9), Err(VotingError::Unauthorized));
    assert_eq!(account.assign_role(UserRole::Admin, 9), Err(VotingError::InvalidRole));
    assert_eq!(account, UserAccount::new(ALICE));
    assert_eq!(account.assign_role(UserRole::Admin, 1), Ok(()));
    assert_eq!(account.role, UserRole::Proposer);
    assert_eq!(account.set_voting_power(UserRole::Proposer, 4), Err(VotingError::Unauthorized));
    assert_eq!(account.voting_power, 1);
    assert_eq!(account.set_voting_power(UserRole::Admin, 4), Ok(()));
    assert_eq!(
        account,
        UserAccount {
            authority: ALICE,
            role: UserRole::Proposer,
            voting_power: 4,
            proposals_created: 0,
            votes_cast: 0,
        }
    );
}

#[test]
fn account_counters_advance_by_one() {
    let mut account = UserAccount::new(ALICE);
    account.count_vote();
    account.count_vote();
    account.count_proposal();
    assert_eq!(account.votes_cast, 2);
    assert_eq!(account.proposals_created, 1);
    assert_eq!(account.voting_power, 1);
    assert_eq!(account.role, UserRole::Voter);
}

#[test]
fn text_bounds() {
    assert_eq!(MAX_TITLE_LENGTH, 64);
    assert_eq!(MAX_DESCRIPTION_LENGTH, 256);
    assert_eq!(check_text("", ""), Ok(()));
    assert_eq!(check_text(&"a".repeat(64), &"b".repeat(256)), Ok(()));
    assert_eq!(check_text(&"a".repeat(65), &"b".repeat(256)), Err(VotingError::TitleTooLong));
    assert_eq!(check_text(&"a".repeat(64), &"b".repeat(257)), Err(VotingError::DescriptionTooLong));
    assert_eq!(check_text(&"a".repeat(65), &"b".repeat(257)), Err(VotingError::TitleTooLong));
    // Sixteen four-byte characters fill a title; one more byte is too many.
    assert_eq!(check_text(&"🗳".repeat(16), ""), Ok(()));
    assert_eq!(check_text(&("🗳".repeat(16) + "a"), ""), Err(VotingError::TitleTooLong));
}

#[test]
fn a_new_proposal_is_active_and_empty() {
    assert_eq!(
        Proposal::new(ALICE, 3, "T".to_string(), "D".to_string(), 120),
        Ok(Proposal {
            creator: ALICE,
            proposal_id: 3,
            title: "T".to_string(),
            description: "D".to_string(),
            votes_for: 0,
            votes_against: 0,
            votes_abstain: 0,
            status: ProposalStatus::Active,
            created_at: 120,
        })
    );
    assert_eq!(
        Proposal::new(ALICE, 3, "a".repeat(65), "D".to_string(), 120),
        Err(VotingError::TitleTooLong)
    );
    assert_eq!(
        Proposal::new(ALICE, 3, "T".to_string(), "a".repeat(257), 120),
        Err(VotingError::DescriptionTooLong)
    );
}

#[test]
fn proposal_tallies_add_up_and_saturate() {
    let mut proposal = proposal();
    proposal.add_votes(VoteOption::For, 3);
    proposal.add_votes(VoteOption::For, 4);
    proposal.add_votes(VoteOption::Against, 5);
    proposal.add_votes(VoteOption::Abstain, u64::MAX - 1);
    assert_eq!(proposal.votes_for, 7);
    assert_eq!(proposal.votes_against, 5);
    assert_eq!(proposal.votes_abstain, u64::MAX - 1);
    proposal.add_votes(VoteOption::Abstain, 1);
    assert_eq!(proposal.votes_abstain, u64::MAX);
    proposal.add_votes(VoteOption::Abstain, 1);
    assert_eq!(proposal.votes_abstain, u64::MAX);
    proposal.add_votes(VoteOption::Against, u64::MAX);
    assert_eq!(proposal.votes_against, u64::MAX);
    assert_eq!(proposal.votes_for, 7);
    assert_eq!(proposal.status, ProposalStatus::Active);
}

#[test]
fn proposal_lifecycle() {
    let mut proposal = proposal();
    assert!(proposal.is_active());
    assert_eq!(proposal.resume(UserRole::Admin), Err(VotingError::ProposalNotActive));
    assert_eq!(proposal.pause(UserRole::Proposer), Err(VotingError::Unauthorized));
    assert_eq!(proposal.pause(UserRole::Moderator), Ok(()));
    assert_eq!(proposal.status, ProposalStatus::Paused);
    assert!(!proposal.is_active());
    assert_eq!(proposal.pause(UserRole::Moderator), Err(VotingError::ProposalNotActive));
    assert_eq!(proposal.resume(UserRole::Voter), Err(VotingError::Unauthorized));
    assert_eq!(proposal.resume(UserRole::Admin), Ok(()));
    assert_eq!(proposal.status, ProposalStatus::Active);

    assert_eq!(proposal.complete(BOB), Err(VotingError::Unauthorized));
    assert_eq!(proposal.status, ProposalStatus::Active);
    assert_eq!(proposal.complete(ALICE), Ok(()));
    assert_eq!(proposal.status, ProposalStatus::Completed);
    assert_eq!(proposal.pause(UserRole::Admin), Err(VotingError::ProposalNotActive));
    assert_eq!(proposal.resume(UserRole::Admin), Err(VotingError::ProposalNotActive));

    assert_eq!(proposal.cancel(UserRole::Moderator), Err(VotingError::Unauthorized));
    assert_eq!(proposal.status, ProposalStatus::Completed);
    assert_eq!(proposal.cancel(UserRole::Admin), Ok(()));
    assert_eq!(proposal.status, ProposalStatus::Cancelled);
    assert_eq!(Proposal { status: ProposalStatus::Active, ..proposal }, self::proposal());
}

#[test]
fn vote_admission_checks_in_order() {
    let open = config();
    let paused = VotinConfig { is_paused: true, ..open };
    let active = proposal();
    let suspended = Proposal { status: ProposalStatus::Paused, ..proposal() };
    let completed = Proposal { status: ProposalStatus::Completed, ..proposal() };
    let cancelled = Proposal { status: ProposalStatus::Cancelled, ..proposal() };

    assert_eq!(admit_vote(&open, Some(&active), 0, 150), Ok(VoteOption::For));
    assert_eq!(admit_vote(&open, Some(&active), 1, 100), Ok(VoteOption::Against));
    assert_eq!(admit_vote(&open, Some(&active), 2, 200), Ok(VoteOption::Abstain));

    assert_eq!(admit_vote(&paused, None, 3, 99), Err(VotingError::VotingNotStarted));
    assert_eq!(admit_vote(&paused, None, 3, 201), Err(VotingError::VotingEnded));
    assert_eq!(admit_vote(&paused, None, 3, 150), Err(VotingError::DomainPaused));
    assert_eq!(admit_vote(&paused, Some(&active), 0, 150), Err(VotingError::DomainPaused));
    assert_eq!(admit_vote(&open, None, 3, 150), Err(VotingError::ProposalNotActive));
    assert_eq!(admit_vote(&open, Some(&suspended), 3, 150), Err(VotingError::ProposalNotActive));
    assert_eq!(admit_vote(&open, Some(&completed), 0, 150), Err(VotingError::ProposalNotActive));
    assert_eq!(admit_vote(&open, Some(&cancelled), 0, 150), Err(VotingError::ProposalNotActive));
    assert_eq!(admit_vote(&open, Some(&active), 3, 150), Err(VotingError::InvalidVoteOption));
}

#[test]
fn proposal_admission_checks_in_order() {
    let open = config();
    let paused = VotinConfig { is_paused: true, ..open };
    let voter = UserAccount::new(ALICE);
    let proposer = UserAccount { role: UserRole::Proposer, ..voter };
    let long = "a".repeat(65);
    let longer = "a".repeat(257);

    assert_eq!(admit_proposal(&open, Some(&proposer), "T", "D"), Ok(()));
    assert_eq!(admit_proposal(&paused, None, &long, &longer), Err(VotingError::TitleTooLong));
    assert_eq!(admit_proposal(&paused, None, "T", &longer), Err(VotingError::DescriptionTooLong));
    assert_eq!(admit_proposal(&paused, None, "T", "D"), Err(VotingError::Unauthorized));
    assert_eq!(admit_proposal(&paused, Some(&voter), "T", "D"), Err(VotingError::Unauthorized));
    assert_eq!(admit_proposal(&paused, Some(&proposer), "T", "D"), Err(VotingError::DomainPaused));
    assert_eq!(admit_proposal(&open, Some(&voter), "T", "D"), Err(VotingError::Unauthorized));
}

#[test]
fn a_vote_record_keeps_the_voters_power() {
    let voter = UserAccount { voting_power: 6, ..UserAccount::new(BOB) };
    let record = VoteRecord::new(&voter, 4, VoteOption::Abstain, 170);
    assert_eq!(
        record,
        VoteRecord {
            voter: BOB,
            proposal_id: 4,
            vote_option: VoteOption::Abstain,
            voting_power_used: 6,
            voted_at: 170,
        }
    );
    assert!(record.matches(4, BOB));
    assert!(!record.matches(4, ALICE));
    assert!(!record.matches(5, BOB));
}

#[test]
fn power_totals_by_proposal_and_option() {
    let votes = vec![
        vote(0, ALICE, VoteOption::For, 3),
        vote(1, ALICE, VoteOption::For, 10),
        vote(0, BOB, VoteOption::For, 4),
        vote(0, OWNER, VoteOption::Against, 5),
    ];
    assert_eq!(power_total(&votes, 0, VoteOption::For), 7);
    assert_eq!(power_total(&votes, 0, VoteOption::Against), 5);
    assert_eq!(power_total(&votes, 0, VoteOption::Abstain), 0);
    assert_eq!(power_total(&votes, 1, VoteOption::For), 10);
    assert_eq!(power_total(&votes, 2, VoteOption::For), 0);
    assert_eq!(power_total(&vec![], 0, VoteOption::For), 0);
    let heavy = vec![
        vote(0, ALICE, VoteOption::For, u64::MAX),
        vote(0, BOB, VoteOption::For, u64::MAX),
    ];
    assert_eq!(power_total(&heavy, 0, VoteOption::For), u64::MAX);
}

#[test]
fn audits_of_accounts() {
    let alice = UserAccount::new(ALICE);
    let bob = UserAccount { votes_cast: 2, proposals_created: 1, ..UserAccount::new(BOB) };
    assert!(identities_distinct(&vec![]));
    assert!(identities_distinct(&vec![alice]));
    assert!(identities_distinct(&vec![alice, bob]));
    assert!(!identities_distinct(&vec![alice, bob, UserAccount { voting_power: 8, ..alice }]));
    assert!(!identities_distinct(&vec![alice, alice]));
    assert!(has_account(&vec![alice, bob], BOB));
    assert!(has_account(&vec![alice, bob], ALICE));
    assert!(!has_account(&vec![alice, bob], OWNER));
    assert!(!has_account(&vec![], ALICE));
}

#[test]
fn audits_of_counters() {
    let votes = vec![
        vote(0, BOB, VoteOption::For, 3),
        vote(1, ALICE, VoteOption::For, 3),
        vote(1, BOB, VoteOption::Against, 3),
    ];
    let proposals = vec![
        Proposal { creator: BOB, ..proposal() },
        Proposal { creator: BOB, proposal_id: 1, ..proposal() },
        Proposal { creator: ALICE, proposal_id: 2, ..proposal() },
    ];
    assert_eq!(count_votes_by(&votes, BOB), 2);
    assert_eq!(count_votes_by(&votes, ALICE), 1);
    assert_eq!(count_votes_by(&votes, OWNER), 0);
    assert_eq!(count_votes_by(&vec![], BOB), 0);
    assert_eq!(count_proposals_by(&proposals, BOB), 2);
    assert_eq!(count_proposals_by(&proposals, ALICE), 1);
    assert_eq!(count_proposals_by(&proposals, OWNER), 0);
    assert_eq!(count_proposals_by(&vec![], BOB), 0);

    let alice = UserAccount { votes_cast: 1, proposals_created: 1, ..UserAccount::new(ALICE) };
    let bob = UserAccount { votes_cast: 2, proposals_created: 2, ..UserAccount::new(BOB) };
    let owner = UserAccount::new(OWNER);
    assert!(counters_match(&vec![alice, bob, owner], &votes, &proposals));
    assert!(counters_match(&vec![], &votes, &proposals));
    assert!(!counters_match(&vec![alice, UserAccount { votes_cast: 1, ..bob }], &votes, &proposals));
    assert!(!counters_match(
        &vec![alice, UserAccount { proposals_created: 3, ..bob }],
        &votes,
        &proposals
    ));
    assert!(!counters_match(&vec![alice, bob], &vec![], &proposals));
    assert!(!counters_match(&vec![alice, bob], &votes, &vec![]));

    assert!(voters_known(&votes, &vec![alice, bob]));
    assert!(!voters_known(&votes, &vec![alice]));
    assert!(voters_known(&vec![], &vec![]));
    assert!(creators_known(&proposals, &vec![alice, bob]));
    assert!(!creators_known(&proposals, &vec![bob]));
    assert!(creators_known(&vec![], &vec![]));
}

#[test]
fn audits_of_votes() {
    let votes = vec![
        vote(0, ALICE, VoteOption::For, 3),
        vote(1, ALICE, VoteOption::For, 3),
        vote(0, BOB, VoteOption::For, 3),
    ];
    assert!(votes_distinct(&votes));
    assert!(votes_distinct(&vec![]));
    let mut twice = votes.clone();
    twice.push(vote(1, ALICE, VoteOption::Against, 9));
    assert!(!votes_distinct(&twice));
    assert!(votes_within(&votes, 2));
    assert!(!votes_within(&votes, 1));
    assert!(!votes_within(&votes, 0));
    assert!(votes_within(&vec![], 0));
}

#[test]
fn audits_of_proposals() {
    let votes = vec![vote(0, ALICE, VoteOption::For, 3), vote(1, BOB, VoteOption::Abstain, 4)];
    let first = Proposal { votes_for: 3, ..proposal() };
    let second = Proposal { proposal_id: 1, votes_abstain: 4, ..proposal() };
    assert!(proposals_consistent(&vec![first.clone(), second.clone()], &votes));
    assert!(proposals_consistent(&vec![], &vec![]));
    assert!(!proposals_consistent(&vec![second.clone(), first.clone()], &votes));
    assert!(!proposals_consistent(&vec![first.clone(), second.clone()], &vec![]));
    let miscounted = Proposal { votes_for: 4, ..first.clone() };
    assert!(!proposals_consistent(&vec![miscounted, second.clone()], &votes));
    let wordy = Proposal { description: "d".repeat(257), ..first };
    assert!(!proposals_consistent(&vec![wordy, second], &votes));
}
