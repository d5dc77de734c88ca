//! The commit-reveal scheme: a judge publishes the hash of its vote and a
//! secret, and the vote counts once the two are shown to give that hash.

use vstd::prelude::*;
use crate::address::{contains_address, Address};
use crate::bytes::{contents, same_list};
use crate::dispute::{Dispute, DisputeView};
use crate::error::Error;
use crate::host::{sha256, sha256_digest};
use crate::status::DisputeStatus;
use crate::vote::Vote;

verus! {

/// A vote as the text that is hashed: `true` or `false`.
pub open spec fn vote_text(vote: bool) -> Seq<u8> {
    if vote {
        seq![0x74u8, 0x72u8, 0x75u8, 0x65u8]
    } else {
        seq![0x66u8, 0x61u8, 0x6cu8, 0x73u8, 0x65u8]
    }
}

/// The hash that commits to `vote` under `secret`: the digest of the vote's
/// text followed by the secret.
pub open spec fn commit_digest(vote: bool, secret: Seq<u8>) -> Seq<u8> {
    sha256_digest(vote_text(vote) + secret)
}

/// The hashes that commit to each vote under the secret at the same index,
/// for as many indices as both lists have.
pub open spec fn commit_digests(votes: Seq<bool>, secrets: Seq<Seq<u8>>) -> Seq<Seq<u8>> {
    let count = if votes.len() <= secrets.len() {
        votes.len()
    } else {
        secrets.len()
    };
    Seq::new(count, |i: int| commit_digest(votes[i], secrets[i]))
}

/// The secrets of a list, as their bytes.
pub open spec fn secret_bytes(secrets: Seq<Vec<u8>>) -> Seq<Seq<u8>> {
    secrets.map_values(|secret: Vec<u8>| secret@)
}

/// The longest secret that can be hashed: with the vote's text before it, the
/// hashed string must be indexed by 32-bit numbers.
pub const MAX_SECRET_LEN: usize = 0xffff_fff0;

/// Computes the hash that commits to `vote` under `secret`.
pub fn commit_hash(env: &soroban_sdk::Env, vote: bool, secret: &Vec<u8>) -> (hash: [u8; 32])
    requires
        secret@.len() <= MAX_SECRET_LEN,
    ensures
        hash@ == commit_digest(vote, secret@),
{
    let mut data: Vec<u8> = Vec::new();
    if vote {
        data.push(0x74);
        data.push(0x72);
        data.push(0x75);
        data.push(0x65);
    } else {
        data.push(0x66);
        data.push(0x61);
        data.push(0x6c);
        data.push(0x73);
        data.push(0x65);
    }
    assert(data@ =~= vote_text(vote));
    let mut i: usize = 0;
    while i < secret.len()
        invariant
            i <= secret.len(),
            data@ == vote_text(vote) + secret@.subrange(0, i as int),
        decreases secret.len() - i,
    {
        data.push(secret[i]);
        assert(data@ =~= vote_text(vote) + secret@.subrange(0, i + 1));
        i += 1;
    }
    assert(secret@.subrange(0, secret@.len() as int) =~= secret@);
    sha256(env, &data)
}

/// Computes the hashes that commit to each vote under the secret at the same
/// index, for as many indices as both lists have.
pub fn reveal_digests(env: &soroban_sdk::Env, votes: &Vec<bool>, secrets: &Vec<Vec<u8>>) -> (digests:
    Vec<[u8; 32]>)
    requires
        forall|i: int| 0 <= i < secrets@.len() ==> (#[trigger] secrets@[i])@.len() <= MAX_SECRET_LEN,
    ensures
        contents(digests@) == commit_digests(votes@, secret_bytes(secrets@)),
{
    let count = if votes.len() <= secrets.len() {
        votes.len()
    } else {
        secrets.len()
    };
    let mut digests: Vec<[u8; 32]> = Vec::new();
    let mut i: usize = 0;
    while i < count
        invariant
            i <= count,
            count <= votes@.len(),
            count <= secrets@.len(),
            forall|k: int|
                0 <= k < secrets@.len() ==> (#[trigger] secrets@[k])@.len() <= MAX_SECRET_LEN,
            digests@.len() == i,
            forall|k: int|
                0 <= k < i ==> (#[trigger] digests@[k])@ == commit_digest(votes@[k], secrets@[k]@),
        decreases count - i,
    {
        let digest = commit_hash(env, votes[i], &secrets[i]);
        digests.push(digest);
        i += 1;
    }
    assert(contents(digests@) =~= commit_digests(votes@, secret_bytes(secrets@)));
    digests
}

/// Why `voter` cannot commit to the dispute, if it cannot.
pub open spec fn commit_error(dispute: DisputeView, voter: Address) -> Option<Error> {
    if dispute.dispute_status == DisputeStatus::FINISHED {
        Some(Error::DisputeAlreadyResolved)
    } else if dispute.dispute_status != DisputeStatus::OPEN {
        Some(Error::DisputeNotOpen)
    } else if !dispute.able_to_vote.contains(voter) {
        Some(Error::JudgeNotAllowedToVote)
    } else if dispute.voters.contains(voter) {
        Some(Error::JudgeAlreadyVoted)
    } else {
        None
    }
}

/// The dispute with the commit of `voter` recorded after the others.
pub open spec fn committed(dispute: DisputeView, voter: Address, hash: Seq<u8>) -> DisputeView {
    DisputeView {
        voters: dispute.voters.push(voter),
        vote_commits: dispute.vote_commits.push(hash),
        ..dispute
    }
}

/// How many of `votes` are for the creator.
pub open spec fn votes_in_favour(votes: Seq<bool>) -> nat
    decreases votes.len(),
{
    if votes.len() == 0 {
        0
    } else {
        votes_in_favour(votes.drop_last()) + if votes.last() {
            1nat
        } else {
            0nat
        }
    }
}

/// At most all votes are for the creator.
pub proof fn lemma_votes_in_favour_bounded(votes: Seq<bool>)
    ensures
        votes_in_favour(votes) <= votes.len(),
    decreases votes.len(),
{
    if votes.len() > 0 {
        lemma_votes_in_favour_bounded(votes.drop_last());
    }
}

/// The votes of the judges in `voters`, index by index.
pub open spec fn revealed_votes(voters: Seq<Address>, votes: Seq<bool>) -> Seq<Vote> {
    Seq::new(votes.len(), |i: int| Vote { account: voters[i], vote: votes[i] })
}

/// Who wins with these counts: the creator with strictly more votes for than
/// against, the counterpart otherwise, a tie included.
pub open spec fn majority_winner(dispute: DisputeView, votes_for: int, votes_against: int) -> Address {
    if votes_for > votes_against {
        dispute.creator
    } else {
        dispute.counterpart
    }
}

/// Why no reveal is taken for the dispute, if none is: only the creator
/// reveals, only an open dispute is revealed, and there is one vote and one
/// secret for each commit.
pub open spec fn reveal_refusal(
    dispute: DisputeView,
    revealer: Address,
    votes: nat,
    secrets: nat,
) -> Option<Error> {
    if revealer != dispute.creator {
        Some(Error::NotAuthorized)
    } else if dispute.dispute_status == DisputeStatus::FINISHED {
        Some(Error::DisputeAlreadyResolved)
    } else if dispute.dispute_status != DisputeStatus::OPEN {
        Some(Error::DisputeNotOpen)
    } else if votes != dispute.voters.len() || secrets != dispute.voters.len() {
        Some(Error::InvalidReveal)
    } else {
        None
    }
}

/// Why the reveal is refused, if it is: for the reasons above, or because
/// some hash is not the one committed at its index.
pub open spec fn reveal_error(
    dispute: DisputeView,
    revealer: Address,
    votes: Seq<bool>,
    digests: Seq<Seq<u8>>,
) -> Option<Error> {
    match reveal_refusal(dispute, revealer, votes.len(), digests.len()) {
        Some(error) => Some(error),
        None => if digests != dispute.vote_commits {
            Some(Error::InvalidReveal)
        } else {
            None
        },
    }
}

/// The dispute resolved by the reveal of `votes` at time `now`.
pub open spec fn revealed(dispute: DisputeView, votes: Seq<bool>, now: u64) -> DisputeView {
    let votes_for = votes_in_favour(votes);
    let votes_against = votes.len() - votes_for;
    DisputeView {
        votes: revealed_votes(dispute.voters, votes),
        votes_for: votes_for as u128,
        votes_against: votes_against as u128,
        dispute_status: DisputeStatus::FINISHED,
        finish_timestamp: Some(now),
        winner: Some(majority_winner(dispute, votes_for as int, votes_against)),
        ..dispute
    }
}

impl Dispute {
    /// Records the commit of `voter`, or says why not and leaves the dispute
    /// as it was.
    pub fn commit(&mut self, voter: Address, commit_hash: [u8; 32]) -> (result: Result<(), Error>)
        requires
            old(self).wf(),
        ensures
            final(self).wf(),
            match commit_error(old(self)@, voter) {
                Some(error) => result == Err::<(), Error>(error) && final(self)@ == old(self)@,
                None => result is Ok && final(self)@ == committed(old(self)@, voter, commit_hash@),
            },
    {
        if self.dispute_status == DisputeStatus::FINISHED {
            return Err(Error::DisputeAlreadyResolved);
        }
        if self.dispute_status != DisputeStatus::OPEN {
            return Err(Error::DisputeNotOpen);
        }
        if !contains_address(&self.able_to_vote, voter) {
            return Err(Error::JudgeNotAllowedToVote);
        }
        if contains_address(&self.voters, voter) {
            return Err(Error::JudgeAlreadyVoted);
        }
        let ghost before = self@;
        self.voters.push(voter);
        self.vote_commits.push(commit_hash);
        proof {
            assert(self.voters.len() <= usize::MAX);
            assert(self@.vote_commits =~= before.vote_commits.push(commit_hash@));
            assert(self@ == committed(before, voter, commit_hash@));
            assert forall|i: int| 0 <= i < self@.voters.len() implies self@.able_to_vote.contains(
                #[trigger] self@.voters[i],
            ) by {
                if i < before.voters.len() {
                    assert(self@.voters[i] == before.voters[i]);
                }
            }
        }
        Ok(())
    }

    /// Whether a reveal of so many votes with so many secrets may be taken
    /// for the dispute.
    pub fn ready_for_reveal(&self, revealer: Address, votes: usize, secrets: usize) -> (result:
        Result<(), Error>)
        ensures
            result == match reveal_refusal(self@, revealer, votes as nat, secrets as nat) {
                Some(error) => Err::<(), Error>(error),
                None => Ok::<(), Error>(()),
            },
    {
        if revealer != self.creator {
            return Err(Error::NotAuthorized);
        }
        if self.dispute_status == DisputeStatus::FINISHED {
            return Err(Error::DisputeAlreadyResolved);
        }
        if self.dispute_status != DisputeStatus::OPEN {
            return Err(Error::DisputeNotOpen);
        }
        let count = self.voters.len();
        if votes != count || secrets != count {
            return Err(Error::InvalidReveal);
        }
        Ok(())
    }

    /// Resolves the dispute by the reveal of `votes`, given the hashes that
    /// `votes` and their secrets give, or says why not and leaves the dispute
    /// as it was. Nothing is revealed unless every hash is the one committed.
    pub fn resolve_by_reveal(
        &mut self,
        revealer: Address,
        votes: &Vec<bool>,
        digests: &Vec<[u8; 32]>,
        now: u64,
    ) -> (result: Result<(), Error>)
        requires
            old(self).wf(),
        ensures
            final(self).wf(),
            match reveal_error(old(self)@, revealer, votes@, contents(digests@)) {
                Some(error) => result == Err::<(), Error>(error) && final(self)@ == old(self)@,
                None => result is Ok && final(self)@ == revealed(old(self)@, votes@, now),
            },
    {
        match self.ready_for_reveal(revealer, votes.len(), digests.len()) {
            Err(error) => {
                return Err(error);
            },
            Ok(()) => {},
        }
        if !same_list(digests, &self.vote_commits) {
            return Err(Error::InvalidReveal);
        }
        let count = self.voters.len();
        let mut revealed_list: Vec<Vote> = Vec::new();
        let mut votes_for: u128 = 0;
        let mut votes_against: u128 = 0;
        let mut i: usize = 0;
        while i < count
            invariant
                i <= count,
                count == self.voters.len(),
                count == votes.len(),
                revealed_list@ == revealed_votes(self.voters@, votes@.subrange(0, i as int)),
                votes_for == votes_in_favour(votes@.subrange(0, i as int)),
                votes_for + votes_against == i,
            decreases count - i,
        {
            let vote = votes[i];
            revealed_list.push(Vote { account: self.voters[i], vote });
            if vote {
                votes_for += 1;
            } else {
                votes_against += 1;
            }
            proof {
                let shorter = votes@.subrange(0, i as int);
                let longer = votes@.subrange(0, i + 1);
                assert(longer.drop_last() =~= shorter);
                assert(revealed_list@ =~= revealed_votes(self.voters@, longer));
            }
            i += 1;
        }
        assert(votes@.subrange(0, count as int) =~= votes@);
        let ghost before = self@;
        self.votes = revealed_list;
        self.votes_for = votes_for;
        self.votes_against = votes_against;
        self.dispute_status = DisputeStatus::FINISHED;
        self.finish_timestamp = Some(now);
        if votes_for > votes_against {
            self.winner = Some(self.creator);
        } else {
            self.winner = Some(self.counterpart);
        }
        assert(self@ == revealed(before, votes@, now));
        Ok(())
    }
}

} // verus!
