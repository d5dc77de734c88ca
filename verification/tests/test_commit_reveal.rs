use lance_protocol::address::Address;
use lance_protocol::commit_reveal::{commit_hash, reveal_digests};
use lance_protocol::dispute::Dispute;
use lance_protocol::error::Error;
use lance_protocol::status::DisputeStatus;
use lance_protocol::vote::Vote;
use soroban_sdk::testutils::EnvTestConfig;
use soroban_sdk::Env;

fn env() -> Env {
    Env::new_with_config(EnvTestConfig { capture_snapshot_at_drop: false })
}

fn digest(hex: &str) -> [u8; 32] {
    let mut bytes = [0u8; 32];
    for i in 0..32 {
        bytes[i] = u8::from_str_radix(&hex[2 * i..2 * i + 2], 16).unwrap();
    }
    bytes
}

fn creator() -> Address {
    Address::account(0, 10)
}

fn counterpart() -> Address {
    Address::account(0, 11)
}

fn judge(n: u128) -> Address {
    Address::account(1, n)
}

fn open_dispute() -> Dispute {
    Dispute::open(
        4,
        1,
        creator(),
        counterpart(),
        String::from("evidence"),
        2_000,
        Address::contract(0, 3),
        1_000,
    )
}

fn dispute_with_commits(hashes: &[[u8; 32]]) -> Dispute {
    let mut dispute = open_dispute();
    for (n, hash) in hashes.iter().enumerate() {
        dispute.register_judge(judge(n as u128)).unwrap();
        dispute.commit(judge(n as u128), *hash).unwrap();
    }
    dispute
}

#[test]
fn commit_hash_is_the_digest_of_the_vote_text_and_the_secret() {
    let env = env();

    assert_eq!(
        commit_hash(&env, true, &b"secret_1".to_vec()),
        digest("0916c6cedee2ce8e3efbd8a7dd6c4223c2ca33f7e931d1b4bd03a87bcd95ecb9")
    );
    assert_eq!(
        commit_hash(&env, false, &b"secret_3".to_vec()),
        digest("bfe340a447bef57ef19b5628fa05f52b2c0e164d936a7bf26a0f62fac5c08dc7")
    );
    assert_eq!(
        commit_hash(&env, true, &b"my_secret_123".to_vec()),
        digest("49bde0d630ad7819892810c8c235a500b85b1d43390ae515f247fdd03a00713c")
    );
}

#[test]
fn commit_hash_of_an_empty_secret_is_the_digest_of_the_vote_text() {
    let env = env();

    assert_eq!(
        commit_hash(&env, true, &Vec::new()),
        digest("b5bea41b6c623f7c09f1bf24dcae58ebab3c0cdd90ad966bc43a45b44867e12b")
    );
    assert_eq!(
        commit_hash(&env, false, &Vec::new()),
        digest("fcbcf165908dd18a9e49f7ff27810176db8e9f63b4352213741664245224f8aa")
    );
}

#[test]
fn reveal_digests_hashes_index_by_index() {
    let env = env();

    let digests = reveal_digests(
        &env,
        &vec![true, false, true],
        &vec![b"secret_1".to_vec(), b"secret_3".to_vec(), Vec::new()],
    );

    assert_eq!(
        digests,
        vec![
            digest("0916c6cedee2ce8e3efbd8a7dd6c4223c2ca33f7e931d1b4bd03a87bcd95ecb9"),
            digest("bfe340a447bef57ef19b5628fa05f52b2c0e164d936a7bf26a0f62fac5c08dc7"),
            digest("b5bea41b6c623f7c09f1bf24dcae58ebab3c0cdd90ad966bc43a45b44867e12b"),
        ]
    );
    assert!(reveal_digests(&env, &Vec::new(), &Vec::new()).is_empty());
}

#[test]
fn reveal_counts_votes_given_matching_hashes() {
    let hashes = [[1u8; 32], [2u8; 32], [3u8; 32]];
    let mut dispute = dispute_with_commits(&hashes);

    let result =
        dispute.resolve_by_reveal(creator(), &vec![true, true, false], &hashes.to_vec(), 1_500);

    assert_eq!(result, Ok(()));
    assert_eq!(dispute.dispute_status, DisputeStatus::FINISHED);
    assert_eq!(dispute.votes_for, 2);
    assert_eq!(dispute.votes_against, 1);
    assert_eq!(dispute.winner, Some(creator()));
    assert_eq!(dispute.finish_timestamp, Some(1_500));
    assert_eq!(
        dispute.votes,
        vec![
            Vote { account: judge(0), vote: true },
            Vote { account: judge(1), vote: true },
            Vote { account: judge(2), vote: false },
        ]
    );
    assert!(dispute.is_well_formed());
}

#[test]
fn tie_goes_to_the_counterpart() {
    let hashes = [[1u8; 32], [2u8; 32]];
    let mut dispute = dispute_with_commits(&hashes);

    dispute.resolve_by_reveal(creator(), &vec![true, false], &hashes.to_vec(), 1_500).unwrap();

    assert_eq!(dispute.votes_for, 1);
    assert_eq!(dispute.votes_against, 1);
    assert_eq!(dispute.winner, Some(counterpart()));
}

#[test]
fn reveal_without_any_commit_goes_to_the_counterpart() {
    let mut dispute = open_dispute();

    dispute.resolve_by_reveal(creator(), &Vec::new(), &Vec::new(), 1_500).unwrap();

    assert_eq!(dispute.dispute_status, DisputeStatus::FINISHED);
    assert_eq!(dispute.votes_for, 0);
    assert_eq!(dispute.votes_against, 0);
    assert_eq!(dispute.winner, Some(counterpart()));
}

#[test]
fn one_wrong_hash_refuses_the_whole_reveal() {
    let hashes = [[1u8; 32], [2u8; 32], [3u8; 32]];
    for wrong in 0..3 {
        let mut dispute = dispute_with_commits(&hashes);
        let mut shown = hashes.to_vec();
        shown[wrong][31] ^= 1;

        let result = dispute.resolve_by_reveal(creator(), &vec![true, true, false], &shown, 1_500);

        assert_eq!(result, Err(Error::InvalidReveal));
        assert_eq!(dispute.dispute_status, DisputeStatus::OPEN);
        assert_eq!(dispute.votes_for, 0);
        assert_eq!(dispute.votes_against, 0);
        assert!(dispute.votes.is_empty());
        assert_eq!(dispute.winner, None);
        assert_eq!(dispute.finish_timestamp, None);
    }
}

#[test]
fn reveal_needs_one_vote_and_one_hash_per_commit() {
    let hashes = [[1u8; 32], [2u8; 32]];
    let mut dispute = dispute_with_commits(&hashes);

    let few_votes = dispute.resolve_by_reveal(creator(), &vec![true], &hashes.to_vec(), 1_500);
    let few_hashes =
        dispute.resolve_by_reveal(creator(), &vec![true, false], &vec![[1u8; 32]], 1_500);
    let many = dispute.resolve_by_reveal(
        creator(),
        &vec![true, false, true],
        &vec![[1u8; 32], [2u8; 32], [3u8; 32]],
        1_500,
    );

    assert_eq!(few_votes, Err(Error::InvalidReveal));
    assert_eq!(few_hashes, Err(Error::InvalidReveal));
    assert_eq!(many, Err(Error::InvalidReveal));
    assert_eq!(dispute.ready_for_reveal(creator(), 2, 1), Err(Error::InvalidReveal));
    assert_eq!(dispute.ready_for_reveal(creator(), 2, 2), Ok(()));
    assert_eq!(dispute.dispute_status, DisputeStatus::OPEN);
}

#[test]
fn only_the_creator_reveals_and_only_once() {
    let hashes = [[1u8; 32]];
    let mut dispute = dispute_with_commits(&hashes);

    let by_counterpart =
        dispute.resolve_by_reveal(counterpart(), &vec![true], &hashes.to_vec(), 1_500);
    let by_judge = dispute.resolve_by_reveal(judge(0), &vec![true], &hashes.to_vec(), 1_500);
    assert_eq!(by_counterpart, Err(Error::NotAuthorized));
    assert_eq!(by_judge, Err(Error::NotAuthorized));

    dispute.resolve_by_reveal(creator(), &vec![true], &hashes.to_vec(), 1_500).unwrap();
    let again = dispute.resolve_by_reveal(creator(), &vec![true], &hashes.to_vec(), 1_600);

    assert_eq!(again, Err(Error::DisputeAlreadyResolved));
    assert_eq!(dispute.finish_timestamp, Some(1_500));
}

#[test]
fn commit_needs_a_registered_judge_and_an_open_dispute() {
    let mut dispute = open_dispute();
    dispute.register_judge(judge(1)).unwrap();

    assert_eq!(dispute.commit(judge(2), [0u8; 32]), Err(Error::JudgeNotAllowedToVote));
    assert_eq!(dispute.commit(creator(), [0u8; 32]), Err(Error::JudgeNotAllowedToVote));
    assert_eq!(dispute.commit(judge(1), [7u8; 32]), Ok(()));
    assert_eq!(dispute.commit(judge(1), [8u8; 32]), Err(Error::JudgeAlreadyVoted));
    assert_eq!(dispute.voters, vec![judge(1)]);
    assert_eq!(dispute.vote_commits, vec![[7u8; 32]]);

    dispute.dispute_status = DisputeStatus::VOTING;
    assert_eq!(dispute.commit(judge(1), [8u8; 32]), Err(Error::DisputeNotOpen));
    dispute.dispute_status = DisputeStatus::FINISHED;
    assert_eq!(dispute.commit(judge(1), [8u8; 32]), Err(Error::DisputeAlreadyResolved));
}

#[test]
fn registration_is_refused_in_the_order_of_the_rules() {
    let mut dispute = open_dispute();

    assert_eq!(dispute.register_judge(creator()), Err(Error::NotAuthorized));
    assert_eq!(dispute.register_judge(counterpart()), Err(Error::NotAuthorized));
    assert_eq!(dispute.register_judge(judge(1)), Ok(()));
    assert_eq!(dispute.register_judge(judge(1)), Err(Error::JudgeAlreadyVoted));
    assert_eq!(dispute.register_judge(judge(2)), Ok(()));
    assert_eq!(dispute.able_to_vote, vec![judge(1), judge(2)]);

    dispute.dispute_status = DisputeStatus::FINISHED;
    assert_eq!(dispute.register_judge(judge(3)), Err(Error::InvalidDisputeStatus));
    assert_eq!(dispute.register_judge(judge(1)), Err(Error::InvalidDisputeStatus));
    assert_eq!(dispute.register_judge(creator()), Err(Error::NotAuthorized));
    assert_eq!(dispute.able_to_vote, vec![judge(1), judge(2)]);
}
