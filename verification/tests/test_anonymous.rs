use lance_protocol::address::Address;
use lance_protocol::admin::anonymous_voting_setup;
use lance_protocol::anonymous::{check_ballots, check_commitments, check_proof, voted_among, DEFAULT_MAX_WEIGHT};
use lance_protocol::config::AnonymousVoteConfig;
use lance_protocol::contract::ProtocolContract;
use lance_protocol::curve::g1_identity;
use lance_protocol::dispute::{Dispute, MAX_VOTES_PER_PROPOSAL};
use lance_protocol::disputes::{create_dispute, execute};
use lance_protocol::error::Error;
use lance_protocol::status::DisputeStatus;
use lance_protocol::storage::{get_anonymous_voting_config, get_dispute};
use lance_protocol::vote::{AnonymousVote, Vote2};
use lance_protocol::voting::{build_commitments_from_votes, vote};
use soroban_sdk::testutils::EnvTestConfig;
use soroban_sdk::Env;

const GENERATOR: &str = "17f1d3a73197d7942695638c4fa9ac0fc3688c4f9774b905a14e3a3f171bac586c55e83ff97a1aeffb3af00adb22c6bb08b3f481e3aaa0f1a09e30ed741d8ae4fcf5e095d5d00af600db18cb2c04b3edd03cc744a2888ae40caa232946c5e7e1";
const TWICE: &str = "0572cbea904d67468808c8eb50a9450c9721db309128012543902d0ac358a62ae28f75bb8f1c7c42c39a8c5529bf0f4e166a9d8cabc673a322fda673779d8e3822ba3ecb8670e461f73bb9021d5fd76a4c56d9d4cd16bd1bba86881979749d28";

const OPENED_AT: u64 = 1_000;
const DEADLINE: u64 = 2_000;

fn env() -> Env {
    Env::new_with_config(EnvTestConfig { capture_snapshot_at_drop: false })
}

fn point(hex: &str) -> [u8; 96] {
    let mut bytes = [0u8; 96];
    for i in 0..96 {
        bytes[i] = u8::from_str_radix(&hex[2 * i..2 * i + 2], 16).unwrap();
    }
    bytes
}

fn creator() -> Address {
    Address::account(0, 10)
}

fn counterpart() -> Address {
    Address::account(0, 11)
}

fn judge(n: u128) -> Address {
    Address::account(1, n)
}

fn open_dispute() -> Dispute {
    Dispute::open(
        4,
        1,
        creator(),
        counterpart(),
        String::from("evidence"),
        DEADLINE,
        Address::contract(0, 3),
        OPENED_AT,
    )
}

fn ballot(voter: Address, weight: u32, commitments: Vec<[u8; 96]>) -> AnonymousVote {
    AnonymousVote {
        address: voter,
        weight,
        encrypted_seeds: vec![String::from("s0"), String::from("s1"), String::from("s2")],
        encrypted_votes: vec![String::from("v0"), String::from("v1"), String::from("v2")],
        commitments,
    }
}

fn members() -> Vec<[u8; 96]> {
    vec![point(GENERATOR), point(TWICE), g1_identity()]
}

fn simple_config(env: &Env) -> AnonymousVoteConfig {
    AnonymousVoteConfig::from_parts(env, point(GENERATOR), point(TWICE), String::from("key"))
        .unwrap()
}

fn commitments(env: &Env, config: &AnonymousVoteConfig, votes: [u128; 3], seeds: [u128; 3]) -> Vec<[u8; 96]> {
    (0..3).map(|i| config.commit(env, votes[i], seeds[i])).collect()
}

#[test]
fn ballot_of_a_member_is_recorded() {
    let env = env();
    let mut dispute = open_dispute();

    let result = dispute.cast_ballot(&env, judge(1), ballot(judge(1), 3, members()), 1_500, 100);

    assert_eq!(result, Ok(()));
    assert_eq!(dispute.vote_data.votes.len(), 1);
    assert_eq!(dispute.vote_data.votes[0].address, judge(1));
    assert_eq!(dispute.vote_data.votes[0].weight, 3);
    assert_eq!(dispute.vote_data.votes[0].commitments, members());
    assert_eq!(dispute.vote_data.votes[0].encrypted_votes[2], "v2");
    assert!(voted_among(&dispute.vote_data.votes, judge(1)));
    assert!(!voted_among(&dispute.vote_data.votes, judge(2)));
    assert!(dispute.is_well_formed());
}

#[test]
fn ballot_needs_three_commitments() {
    let env = env();
    let mut dispute = open_dispute();
    let two = vec![point(GENERATOR), point(TWICE)];
    let four = vec![point(GENERATOR), point(TWICE), g1_identity(), point(TWICE)];

    assert_eq!(
        dispute.cast_ballot(&env, judge(1), ballot(judge(1), 3, two), 1_500, 100),
        Err(Error::BadCommitment)
    );
    assert_eq!(
        dispute.cast_ballot(&env, judge(1), ballot(judge(1), 3, four), 1_500, 100),
        Err(Error::BadCommitment)
    );
    assert_eq!(
        dispute.cast_ballot(&env, judge(1), ballot(judge(1), 3, Vec::new()), 1_500, 100),
        Err(Error::BadCommitment)
    );
    assert!(dispute.vote_data.votes.is_empty());
}

#[test]
fn ballot_with_a_commitment_outside_the_group_is_refused() {
    let env = env();
    let mut off_curve = point(GENERATOR);
    off_curve[60] ^= 0x10;
    let mut compressed = point(GENERATOR);
    compressed[0] |= 0x80;
    let mut torsion = [0u8; 96];
    torsion[95] = 2;

    for bad in [off_curve, compressed, torsion, [0u8; 96], [0xffu8; 96]] {
        for slot in 0..3 {
            let mut dispute = open_dispute();
            let mut list = members();
            list[slot] = bad;

            assert!(!check_commitments(&env, &list));
            assert_eq!(
                dispute.cast_ballot(&env, judge(1), ballot(judge(1), 3, list), 1_500, 100),
                Err(Error::BadCommitment)
            );
            assert!(dispute.vote_data.votes.is_empty());
        }
    }
    assert!(check_commitments(&env, &members()));
    assert!(check_commitments(&env, &Vec::new()));
}

#[test]
fn ballot_is_refused_in_the_order_of_the_rules() {
    let mut dispute = open_dispute();
    dispute.record_ballot(judge(1), ballot(judge(1), 3, members()), true, 1_500, 100).unwrap();
    let short = vec![point(GENERATOR)];

    assert_eq!(
        dispute.record_ballot(judge(1), ballot(judge(2), 101, short.clone()), false, DEADLINE, 0),
        Err(Error::ProposalVotingTime)
    );
    assert_eq!(
        dispute.record_ballot(judge(1), ballot(judge(2), 101, short.clone()), false, 1_999, 0),
        Err(Error::AlreadyVoted)
    );
    assert_eq!(
        dispute.record_ballot(judge(3), ballot(judge(2), 101, short), true, 1_999, 0),
        Err(Error::BadCommitment)
    );
    assert_eq!(
        dispute.record_ballot(judge(3), ballot(judge(2), 101, members()), false, 1_999, 0),
        Err(Error::BadCommitment)
    );
    assert_eq!(
        dispute.record_ballot(judge(3), ballot(judge(2), 101, members()), true, 1_999, 0),
        Err(Error::WrongVoter)
    );
    assert_eq!(
        dispute.record_ballot(judge(3), ballot(judge(3), 101, members()), true, 1_999, 0),
        Err(Error::UnknownMember)
    );
    assert_eq!(
        dispute.record_ballot(judge(3), ballot(judge(3), 101, members()), true, 1_999, 100),
        Err(Error::VoterWeight)
    );
    assert_eq!(
        dispute.record_ballot(judge(3), ballot(judge(3), 100, members()), true, 1_999, 100),
        Ok(())
    );
    assert_eq!(dispute.vote_data.votes.len(), 2);
}

#[test]
fn ballots_stop_at_the_cap() {
    let mut dispute = open_dispute();
    for n in 0..MAX_VOTES_PER_PROPOSAL {
        let voter = judge(n as u128);
        assert_eq!(
            dispute.record_ballot(voter, ballot(voter, 1, members()), true, 1_500, 100),
            Ok(())
        );
    }

    let over = dispute.record_ballot(judge(5_000), ballot(judge(5_000), 1, members()), true, 1_500, 100);
    let late = dispute.record_ballot(judge(5_000), ballot(judge(5_000), 1, members()), true, 2_500, 100);

    assert_eq!(MAX_VOTES_PER_PROPOSAL, 1000);
    assert_eq!(over, Err(Error::VoteLimitExceeded));
    assert_eq!(late, Err(Error::ProposalVotingTime));
    assert_eq!(dispute.vote_data.votes.len(), 1000);
}

#[test]
fn proof_holds_for_the_weighted_sums() {
    let env = env();
    let config = simple_config(&env);
    let mut dispute = open_dispute();
    let first = commitments(&env, &config, [3, 1, 1], [5, 4, 6]);
    let second = commitments(&env, &config, [0, 2, 0], [7, 8, 9]);
    dispute.cast_ballot(&env, judge(1), ballot(judge(1), 3, first), 1_500, 100).unwrap();
    dispute.cast_ballot(&env, judge(2), ballot(judge(2), 2, second), 1_500, 100).unwrap();

    let proven = check_proof(&env, &dispute, &config, &vec![9, 7, 3], &vec![29, 28, 36]);

    assert_eq!(proven, Ok(true));
}

#[test]
fn proof_fails_when_one_number_is_changed() {
    let env = env();
    let config = simple_config(&env);
    let mut dispute = open_dispute();
    let first = commitments(&env, &config, [3, 1, 1], [5, 4, 6]);
    dispute.cast_ballot(&env, judge(1), ballot(judge(1), 3, first), 1_500, 100).unwrap();
    let tallies = [9u128, 3, 3];
    let seeds = [15u128, 12, 18];
    assert_eq!(check_proof(&env, &dispute, &config, &tallies.to_vec(), &seeds.to_vec()), Ok(true));

    for slot in 0..3 {
        let mut wrong_tally = tallies.to_vec();
        wrong_tally[slot] += 1;
        let mut wrong_seed = seeds.to_vec();
        wrong_seed[slot] -= 1;

        assert_eq!(check_proof(&env, &dispute, &config, &wrong_tally, &seeds.to_vec()), Ok(false));
        assert_eq!(check_proof(&env, &dispute, &config, &tallies.to_vec(), &wrong_seed), Ok(false));
    }
}

#[test]
fn proof_for_no_votes_is_the_identity() {
    let env = env();
    let config = simple_config(&env);
    let dispute = open_dispute();

    assert_eq!(check_proof(&env, &dispute, &config, &vec![0, 0, 0], &vec![0, 0, 0]), Ok(true));
    assert_eq!(check_proof(&env, &dispute, &config, &vec![0, 1, 0], &vec![0, 0, 0]), Ok(false));
    assert_eq!(check_proof(&env, &dispute, &config, &vec![0, 0, 0], &vec![0, 0, 1]), Ok(false));
}

#[test]
fn proof_checks_the_choices_that_both_lists_cover() {
    let env = env();
    let config = simple_config(&env);
    let mut dispute = open_dispute();
    let first = commitments(&env, &config, [3, 1, 1], [5, 4, 6]);
    dispute.cast_ballot(&env, judge(1), ballot(judge(1), 3, first), 1_500, 100).unwrap();

    assert_eq!(check_proof(&env, &dispute, &config, &vec![9, 3], &vec![15, 12, 0]), Ok(true));
    assert_eq!(check_proof(&env, &dispute, &config, &vec![9, 3, 3, 77], &vec![15, 12, 18, 1]), Ok(true));
    assert_eq!(check_proof(&env, &dispute, &config, &Vec::new(), &vec![1]), Ok(true));
    assert_eq!(check_proof(&env, &dispute, &config, &vec![9, 4], &vec![15, 12, 18]), Ok(false));
}

#[test]
fn proof_is_only_checked_for_an_open_dispute() {
    let env = env();
    let config = simple_config(&env);
    let mut dispute = open_dispute();
    dispute.dispute_status = DisputeStatus::CREATOR;

    let result = check_proof(&env, &dispute, &config, &vec![0, 0, 0], &vec![0, 0, 0]);

    assert_eq!(result, Err(Error::ProposalActive));
}

#[test]
fn proof_fails_on_a_recorded_commitment_outside_the_group() {
    let env = env();
    let config = simple_config(&env);
    let mut dispute = open_dispute();
    let mut list = members();
    list[1] = [0u8; 96];
    dispute.record_ballot(judge(1), ballot(judge(1), 1, list), true, 1_500, 100).unwrap();

    assert!(!check_ballots(&env, &dispute.vote_data.votes));
    assert_eq!(check_proof(&env, &dispute, &config, &vec![0, 0, 0], &vec![0, 0, 0]), Ok(false));
}

#[test]
fn setup_keeps_the_derived_configuration_under_the_project() {
    let env = env();
    let mut contract = ProtocolContract::new();

    anonymous_voting_setup(&env, &mut contract, 7, String::from("first key"));
    anonymous_voting_setup(&env, &mut contract, 8, String::from("second key"));
    anonymous_voting_setup(&env, &mut contract, 7, String::from("third key"));

    let derived = AnonymousVoteConfig::derive(&env, String::new());
    let seven = get_anonymous_voting_config(&contract, 7).unwrap();
    let eight = get_anonymous_voting_config(&contract, 8).unwrap();
    assert_eq!(seven.public_key(), "first key");
    assert_eq!(eight.public_key(), "second key");
    assert_eq!(seven.vote_generator_point(), derived.vote_generator_point());
    assert_eq!(seven.seed_generator_point(), derived.seed_generator_point());
    assert!(matches!(
        get_anonymous_voting_config(&contract, 9),
        Err(Error::NoAnonymousVotingConfig)
    ));
}

#[test]
fn commitments_are_built_for_each_vote_and_seed() {
    let env = env();
    let mut contract = ProtocolContract::new();
    anonymous_voting_setup(&env, &mut contract, 7, String::from("key"));
    let config = get_anonymous_voting_config(&contract, 7).unwrap();

    let built =
        build_commitments_from_votes(&env, &contract, 7, &vec![3, 1, 1, 0], &vec![5, 4, 6, 0]).unwrap();

    assert_eq!(
        built,
        vec![
            config.commit(&env, 3, 5),
            config.commit(&env, 1, 4),
            config.commit(&env, 1, 6),
            g1_identity(),
        ]
    );
    assert_ne!(built[0], config.vote_generator_point());
    assert_ne!(built[0], built[1]);
    assert!(check_commitments(&env, &built));
    assert_eq!(build_commitments_from_votes(&env, &contract, 7, &Vec::new(), &Vec::new()), Ok(Vec::new()));
}

#[test]
fn commitments_need_as_many_seeds_as_votes_and_a_configuration() {
    let env = env();
    let mut contract = ProtocolContract::new();
    anonymous_voting_setup(&env, &mut contract, 7, String::from("key"));

    assert_eq!(
        build_commitments_from_votes(&env, &contract, 7, &vec![1, 2], &vec![1]),
        Err(Error::TallySeedError)
    );
    assert_eq!(
        build_commitments_from_votes(&env, &contract, 8, &vec![1, 2], &vec![1]),
        Err(Error::TallySeedError)
    );
    assert_eq!(
        build_commitments_from_votes(&env, &contract, 8, &vec![1, 2], &vec![1, 2]),
        Err(Error::NoAnonymousVotingConfig)
    );
    assert_eq!(Error::TallySeedError.code(), 27);
    assert_eq!(Error::NoAnonymousVotingConfig.code(), 28);
}

fn voted_contract(env: &Env) -> ProtocolContract {
    let mut contract = ProtocolContract::new();
    anonymous_voting_setup(env, &mut contract, 4, String::from("key"));
    create_dispute(
        &mut contract,
        4,
        creator(),
        counterpart(),
        String::from("evidence"),
        DEADLINE,
        Address::contract(0, 3),
        OPENED_AT,
    )
    .unwrap();
    let list = build_commitments_from_votes(env, &contract, 4, &vec![3, 1, 1], &vec![5, 4, 6]).unwrap();
    vote(env, &mut contract, judge(1), 1, Vote2::AnonymousVote(ballot(judge(1), 3, list)), 1_500, DEFAULT_MAX_WEIGHT).unwrap();
    contract
}

#[test]
fn vote_is_kept_in_the_dispute() {
    let env = env();
    let contract = voted_contract(&env);

    let kept = get_dispute(&contract, 1).unwrap();

    assert_eq!(kept.vote_data.votes.len(), 1);
    assert_eq!(kept.vote_data.votes[0].address, judge(1));
    assert_eq!(kept.dispute_status, DisputeStatus::OPEN);
}

#[test]
fn vote_errors_change_nothing() {
    let env = env();
    let mut contract = voted_contract(&env);
    let list = build_commitments_from_votes(&env, &contract, 4, &vec![1, 0, 0], &vec![1, 2, 3]).unwrap();

    let missing = vote(&env, &mut contract, judge(2), 9, Vote2::AnonymousVote(ballot(judge(2), 1, list.clone())), 1_500, 100);
    let late = vote(&env, &mut contract, judge(2), 1, Vote2::AnonymousVote(ballot(judge(2), 1, list.clone())), DEADLINE, 100);
    let twice = vote(&env, &mut contract, judge(1), 1, Vote2::AnonymousVote(ballot(judge(1), 1, list.clone())), 1_500, 100);
    let other = vote(&env, &mut contract, judge(2), 1, Vote2::AnonymousVote(ballot(judge(3), 1, list.clone())), 1_500, 100);
    let heavy = vote(&env, &mut contract, judge(2), 1, Vote2::AnonymousVote(ballot(judge(2), 101, list.clone())), 1_500, 100);
    let unknown = vote(&env, &mut contract, judge(2), 1, Vote2::AnonymousVote(ballot(judge(2), 1, list.clone())), 1_500, 0);
    let mut broken = list;
    broken[2][95] ^= 1;
    let bad = vote(&env, &mut contract, judge(2), 1, Vote2::AnonymousVote(ballot(judge(2), 1, broken)), 1_500, 100);

    assert_eq!(missing, Err(Error::DisputeNotFound));
    assert_eq!(late, Err(Error::ProposalVotingTime));
    assert_eq!(twice, Err(Error::AlreadyVoted));
    assert_eq!(other, Err(Error::WrongVoter));
    assert_eq!(heavy, Err(Error::VoterWeight));
    assert_eq!(unknown, Err(Error::UnknownMember));
    assert_eq!(bad, Err(Error::BadCommitment));
    assert_eq!(get_dispute(&contract, 1).unwrap().vote_data.votes.len(), 1);
}

#[test]
fn execute_with_a_changed_tally_or_seed_changes_nothing() {
    let env = env();
    let mut contract = voted_contract(&env);
    let tallies = [9u128, 3, 3];
    let seeds = [15u128, 12, 18];

    for slot in 0..3 {
        let mut wrong_tally = tallies.to_vec();
        wrong_tally[slot] ^= 1;
        let mut wrong_seed = seeds.to_vec();
        wrong_seed[slot] ^= 4;

        let by_tally = execute(&env, &mut contract, 1, Some(wrong_tally), Some(seeds.to_vec()), DEADLINE);
        let by_seed = execute(&env, &mut contract, 1, Some(tallies.to_vec()), Some(wrong_seed), DEADLINE);

        assert_eq!(by_tally, Err(Error::InvalidProof));
        assert_eq!(by_seed, Err(Error::InvalidProof));
        let kept = get_dispute(&contract, 1).unwrap();
        assert_eq!(kept.dispute_status, DisputeStatus::OPEN);
        assert_eq!(kept.votes_for, 0);
        assert_eq!(kept.votes_against, 0);
        assert_eq!(kept.winner, None);
        assert_eq!(kept.finish_timestamp, None);
    }
    assert_eq!(Error::InvalidProof.code(), 38);

    let honest = execute(&env, &mut contract, 1, Some(tallies.to_vec()), Some(seeds.to_vec()), DEADLINE);
    assert_eq!(honest, Ok(DisputeStatus::CREATOR));
}

#[test]
fn execute_is_refused_in_the_order_of_the_rules() {
    let env = env();
    let mut contract = voted_contract(&env);
    let tallies = Some(vec![9u128, 3, 3]);
    let seeds = Some(vec![15u128, 12, 18]);

    assert_eq!(
        execute(&env, &mut contract, 2, tallies.clone(), seeds.clone(), DEADLINE),
        Err(Error::DisputeNotFound)
    );
    assert_eq!(
        execute(&env, &mut contract, 1, None, None, DEADLINE - 1),
        Err(Error::ProposalVotingTime)
    );
    assert_eq!(execute(&env, &mut contract, 1, None, seeds.clone(), DEADLINE), Err(Error::TallySeedError));
    assert_eq!(execute(&env, &mut contract, 1, tallies.clone(), None, DEADLINE), Err(Error::TallySeedError));
    assert_eq!(
        execute(&env, &mut contract, 1, Some(vec![9, 3]), seeds.clone(), DEADLINE),
        Err(Error::TallySeedError)
    );
    assert_eq!(
        execute(&env, &mut contract, 1, tallies.clone(), Some(vec![15, 12, 18, 0]), DEADLINE),
        Err(Error::TallySeedError)
    );
    assert_eq!(get_dispute(&contract, 1).unwrap().dispute_status, DisputeStatus::OPEN);

    assert_eq!(
        execute(&env, &mut contract, 1, tallies.clone(), seeds.clone(), DEADLINE),
        Ok(DisputeStatus::CREATOR)
    );
    assert_eq!(
        execute(&env, &mut contract, 1, tallies, seeds, DEADLINE + 5),
        Err(Error::ProposalActive)
    );
    assert_eq!(get_dispute(&contract, 1).unwrap().finish_timestamp, Some(DEADLINE));
    assert_eq!(Error::ProposalVotingTime.code(), 30);
}

#[test]
fn execute_needs_a_configuration_for_the_project() {
    let env = env();
    let mut contract = ProtocolContract::new();
    create_dispute(
        &mut contract,
        4,
        creator(),
        counterpart(),
        String::from("evidence"),
        DEADLINE,
        Address::contract(0, 3),
        OPENED_AT,
    )
    .unwrap();

    let result = execute(&env, &mut contract, 1, Some(vec![0, 0, 0]), Some(vec![0, 0, 0]), DEADLINE);

    assert_eq!(result, Err(Error::NoAnonymousVotingConfig));
    assert_eq!(get_dispute(&contract, 1).unwrap().dispute_status, DisputeStatus::OPEN);
}

#[test]
fn tally_above_32_bits_is_kept_whole() {
    let env = env();
    let mut contract = ProtocolContract::new();
    anonymous_voting_setup(&env, &mut contract, 4, String::from("key"));
    create_dispute(
        &mut contract,
        4,
        creator(),
        counterpart(),
        String::from("evidence"),
        DEADLINE,
        Address::contract(0, 3),
        OPENED_AT,
    )
    .unwrap();
    let large = 1u128 << 33;
    let list =
        build_commitments_from_votes(&env, &contract, 4, &vec![large, 3, 0], &vec![5, 4, 6]).unwrap();
    vote(&env, &mut contract, judge(1), 1, Vote2::AnonymousVote(ballot(judge(1), 2, list)), 1_500, 100)
        .unwrap();

    let status = execute(
        &env,
        &mut contract,
        1,
        Some(vec![2 * large, 6, 0]),
        Some(vec![10, 8, 12]),
        DEADLINE,
    );

    assert_eq!(status, Ok(DisputeStatus::CREATOR));
    let kept = get_dispute(&contract, 1).unwrap();
    assert_eq!(kept.votes_for, 17_179_869_184);
    assert_eq!(kept.votes_against, 6);
    assert_eq!(kept.winner, Some(creator()));
}

#[test]
fn second_setup_changes_nothing() {
    let env = env();
    let mut contract = ProtocolContract::new();
    anonymous_voting_setup(&env, &mut contract, 7, String::from("first key"));
    let before = get_anonymous_voting_config(&contract, 7).unwrap();

    anonymous_voting_setup(&env, &mut contract, 7, String::from("another key"));
    anonymous_voting_setup(&env, &mut contract, 7, String::new());

    let after = get_anonymous_voting_config(&contract, 7).unwrap();
    assert_eq!(after.public_key(), "first key");
    assert_eq!(after.vote_generator_point(), before.vote_generator_point());
    assert_eq!(after.seed_generator_point(), before.seed_generator_point());
    assert!(matches!(
        get_anonymous_voting_config(&contract, 8),
        Err(Error::NoAnonymousVotingConfig)
    ));
}
