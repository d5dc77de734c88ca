//! The dispute record and what holds of every record.

use vstd::prelude::*;
use crate::address::{contains_address, Address};
use crate::bytes::{contents, copy_list};
use crate::status::DisputeStatus;
use crate::vote::{
    ballots,
    copy_ballots,
    AnonymousVote,
    AnonymousVoteView,
    Vote,
    VoteData,
    VoteDataView,
};

verus! {

/// The most anonymous votes one dispute takes.
pub const MAX_VOTES_PER_PROPOSAL: usize = 1000;

/// A dispute between a creator and a counterpart, with the judges admitted to
/// it, what they committed and revealed, and its outcome.
#[derive(Clone, Debug)]
pub struct Dispute {
    pub project_id: u32,
    pub dispute_id: u32,
    /// The judges admitted to this dispute, in the order they registered.
    pub able_to_vote: Vec<Address>,
    /// The judges who have committed; `vote_commits` holds their hashes, index
    /// by index.
    pub voters: Vec<Address>,
    pub vote_commits: Vec<[u8; 32]>,
    /// The revealed votes, in the order of `voters`.
    pub votes: Vec<Vote>,
    pub dispute_status: DisputeStatus,
    pub initial_timestamp: u64,
    pub finish_timestamp: Option<u64>,
    pub creator: Address,
    pub counterpart: Address,
    pub winner: Option<Address>,
    pub creator_proves: String,
    pub counterpart_proves: Option<String>,
    pub waiting_for_judges: bool,
    pub votes_for: u128,
    pub votes_against: u128,
    pub vote_data: VoteData,
    /// The contract that opened the dispute and reads its outcome.
    pub called_contract: Address,
}

/// What a dispute holds.
pub struct DisputeView {
    pub project_id: u32,
    pub dispute_id: u32,
    pub able_to_vote: Seq<Address>,
    pub voters: Seq<Address>,
    pub vote_commits: Seq<Seq<u8>>,
    pub votes: Seq<Vote>,
    pub dispute_status: DisputeStatus,
    pub initial_timestamp: u64,
    pub finish_timestamp: Option<u64>,
    pub creator: Address,
    pub counterpart: Address,
    pub winner: Option<Address>,
    pub creator_proves: Seq<char>,
    pub counterpart_proves: Option<Seq<char>>,
    pub waiting_for_judges: bool,
    pub votes_for: u128,
    pub votes_against: u128,
    pub vote_data: VoteDataView,
    pub called_contract: Address,
}

/// The characters of an optional text.
pub open spec fn optional_text(text: Option<String>) -> Option<Seq<char>> {
    match text {
        Some(t) => Some(t@),
        None => None,
    }
}

impl View for Dispute {
    type V = DisputeView;

    open spec fn view(&self) -> DisputeView {
        DisputeView {
            project_id: self.project_id,
            dispute_id: self.dispute_id,
            able_to_vote: self.able_to_vote@,
            voters: self.voters@,
            vote_commits: contents(self.vote_commits@),
            votes: self.votes@,
            dispute_status: self.dispute_status,
            initial_timestamp: self.initial_timestamp,
            finish_timestamp: self.finish_timestamp,
            creator: self.creator,
            counterpart: self.counterpart,
            winner: self.winner,
            creator_proves: self.creator_proves@,
            counterpart_proves: optional_text(self.counterpart_proves),
            waiting_for_judges: self.waiting_for_judges,
            votes_for: self.votes_for,
            votes_against: self.votes_against,
            vote_data: self.vote_data@,
            called_contract: self.called_contract,
        }
    }
}

/// Whether `voter` has cast one of `votes`.
pub open spec fn has_voted(votes: Seq<AnonymousVoteView>, voter: Address) -> bool {
    exists|i: int| 0 <= i < votes.len() && (#[trigger] votes[i]).address == voter
}

impl DisputeView {
    /// The judges: nobody is admitted twice, and the two parties are never
    /// admitted.
    pub open spec fn judges_valid(self) -> bool {
        &&& self.able_to_vote.no_duplicates()
        &&& !self.able_to_vote.contains(self.creator)
        &&& !self.able_to_vote.contains(self.counterpart)
    }

    /// The commits: nobody commits twice, only admitted judges commit, each
    /// committed judge has one hash, at the same index, and the commits are
    /// counted by a machine number.
    pub open spec fn commits_valid(self) -> bool {
        &&& self.voters.len() <= usize::MAX
        &&& self.voters.no_duplicates()
        &&& forall|i: int|
            0 <= i < self.voters.len() ==> self.able_to_vote.contains(#[trigger] self.voters[i])
        &&& self.vote_commits.len() == self.voters.len()
    }

    /// The revealed votes: they follow the order of the commits, and an open
    /// dispute has none, nor any count or outcome.
    pub open spec fn reveals_valid(self) -> bool {
        &&& self.votes.len() <= self.voters.len()
        &&& forall|i: int|
            0 <= i < self.votes.len() ==> (#[trigger] self.votes[i]).account == self.voters[i]
        &&& self.dispute_status == DisputeStatus::OPEN ==> {
            &&& self.votes.len() == 0
            &&& self.votes_for == 0
            &&& self.votes_against == 0
            &&& self.winner is None
            &&& self.finish_timestamp is None
        }
    }

    /// The anonymous votes: at most the cap, one per voter, three commitments
    /// each.
    pub open spec fn ballots_valid(self) -> bool {
        &&& self.vote_data.votes.len() <= MAX_VOTES_PER_PROPOSAL
        &&& forall|i: int, j: int|
            0 <= i < j < self.vote_data.votes.len() ==> (#[trigger] self.vote_data.votes[i]).address
                != (#[trigger] self.vote_data.votes[j]).address
        &&& forall|i: int|
            0 <= i < self.vote_data.votes.len() ==> (#[trigger] self.vote_data.votes[i]).commitments.len()
                == 3
    }

    /// What holds of every dispute record.
    pub open spec fn wf(self) -> bool {
        &&& self.judges_valid()
        &&& self.commits_valid()
        &&& self.reveals_valid()
        &&& self.ballots_valid()
    }
}

/// Whether no address occurs twice in the list.
pub fn distinct(list: &Vec<Address>) -> (distinct: bool)
    ensures
        distinct == list@.no_duplicates(),
{
    let mut i: usize = 0;
    while i < list.len()
        invariant
            i <= list.len(),
            forall|a: int, b: int| 0 <= a < b < i ==> list@[a] != list@[b],
        decreases list.len() - i,
    {
        let mut j: usize = 0;
        while j < i
            invariant
                j <= i,
                i < list.len(),
                forall|a: int| 0 <= a < j ==> list@[a] != list@[i as int],
            decreases i - j,
        {
            if list[j] == list[i] {
                return false;
            }
            j += 1;
        }
        i += 1;
    }
    true
}

/// Whether every address of `inner` occurs in `outer`.
pub fn all_among(inner: &Vec<Address>, outer: &Vec<Address>) -> (among: bool)
    ensures
        among == forall|i: int| 0 <= i < inner@.len() ==> outer@.contains(#[trigger] inner@[i]),
{
    let mut i: usize = 0;
    while i < inner.len()
        invariant
            i <= inner.len(),
            forall|k: int| 0 <= k < i ==> outer@.contains(#[trigger] inner@[k]),
        decreases inner.len() - i,
    {
        if !contains_address(outer, inner[i]) {
            return false;
        }
        i += 1;
    }
    true
}

/// Whether the votes are those of the judges in `voters`, index by index.
fn votes_follow(votes: &Vec<Vote>, voters: &Vec<Address>) -> (follow: bool)
    requires
        votes@.len() <= voters@.len(),
    ensures
        follow == forall|i: int|
            0 <= i < votes@.len() ==> (#[trigger] votes@[i]).account == voters@[i],
{
    let mut i: usize = 0;
    while i < votes.len()
        invariant
            i <= votes.len(),
            votes@.len() <= voters@.len(),
            forall|k: int| 0 <= k < i ==> (#[trigger] votes@[k]).account == voters@[k],
        decreases votes.len() - i,
    {
        if votes[i].account != voters[i] {
            return false;
        }
        i += 1;
    }
    true
}

/// Whether nobody cast two of the votes, and each vote has three commitments.
fn ballots_well_formed(votes: &Vec<AnonymousVote>) -> (valid: bool)
    ensures
        valid == {
            &&& forall|i: int, j: int|
                0 <= i < j < votes@.len() ==> (#[trigger] ballots(votes@)[i]).address
                    != (#[trigger] ballots(votes@)[j]).address
            &&& forall|i: int|
                0 <= i < votes@.len() ==> (#[trigger] ballots(votes@)[i]).commitments.len() == 3
        },
{
    let mut i: usize = 0;
    while i < votes.len()
        invariant
            i <= votes.len(),
            forall|a: int, b: int|
                0 <= a < b < i ==> (#[trigger] ballots(votes@)[a]).address != (
                #[trigger] ballots(votes@)[b]).address,
            forall|a: int|
                0 <= a < i ==> (#[trigger] ballots(votes@)[a]).commitments.len() == 3,
        decreases votes.len() - i,
    {
        if votes[i].commitments.len() != 3 {
            assert(ballots(votes@)[i as int].commitments.len() != 3);
            return false;
        }
        let mut j: usize = 0;
        while j < i
            invariant
                j <= i,
                i < votes.len(),
                forall|a: int|
                    0 <= a < j ==> (#[trigger] ballots(votes@)[a]).address != ballots(
                        votes@,
                    )[i as int].address,
            decreases i - j,
        {
            if votes[j].address == votes[i].address {
                assert(ballots(votes@)[j as int].address == ballots(votes@)[i as int].address);
                return false;
            }
            j += 1;
        }
        i += 1;
    }
    true
}

impl Dispute {
    /// What holds of every dispute record.
    pub open spec fn wf(&self) -> bool {
        self@.wf()
    }

    /// Whether this record is a valid one. A record that was built field by
    /// field is checked with this before it is worked on.
    pub fn is_well_formed(&self) -> (valid: bool)
        ensures
            valid == self.wf(),
    {
        let judges_valid = distinct(&self.able_to_vote) && !contains_address(
            &self.able_to_vote,
            self.creator,
        ) && !contains_address(&self.able_to_vote, self.counterpart);
        if !judges_valid {
            return false;
        }
        let commits_valid = distinct(&self.voters) && all_among(&self.voters, &self.able_to_vote)
            && self.vote_commits.len() == self.voters.len();
        if !commits_valid {
            return false;
        }
        if self.votes.len() > self.voters.len() {
            return false;
        }
        if !votes_follow(&self.votes, &self.voters) {
            return false;
        }
        let untouched = self.votes.len() == 0 && self.votes_for == 0 && self.votes_against == 0
            && self.winner.is_none() && self.finish_timestamp.is_none();
        if self.dispute_status == DisputeStatus::OPEN && !untouched {
            return false;
        }
        self.vote_data.votes.len() <= MAX_VOTES_PER_PROPOSAL && ballots_well_formed(
            &self.vote_data.votes,
        )
    }

    /// A dispute as it is opened: no judges, no commits, no votes, no outcome.
    pub fn open(
        project_id: u32,
        dispute_id: u32,
        creator: Address,
        counterpart: Address,
        proof_text: String,
        voting_ends_at: u64,
        called_contract: Address,
        now: u64,
    ) -> (dispute: Dispute)
        ensures
            dispute.wf(),
            dispute@ == opened(
                project_id,
                dispute_id,
                creator,
                counterpart,
                proof_text@,
                voting_ends_at,
                called_contract,
                now,
            ),
    {
        let dispute = Dispute {
            project_id,
            dispute_id,
            able_to_vote: Vec::new(),
            voters: Vec::new(),
            vote_commits: Vec::new(),
            votes: Vec::new(),
            dispute_status: DisputeStatus::OPEN,
            initial_timestamp: now,
            finish_timestamp: None,
            creator,
            counterpart,
            winner: None,
            creator_proves: proof_text,
            counterpart_proves: None,
            waiting_for_judges: false,
            votes_for: 0,
            votes_against: 0,
            vote_data: VoteData { voting_ends_at, votes: Vec::new() },
            called_contract,
        };
        assert(dispute@.vote_commits =~= Seq::empty());
        assert(dispute@.vote_data.votes =~= Seq::empty());
        dispute
    }

    /// A copy of this dispute.
    pub fn duplicate(&self) -> (copy: Dispute)
        ensures
            copy@ == self@,
    {
        let counterpart_proves = match &self.counterpart_proves {
            Some(text) => Some(text.clone()),
            None => None,
        };
        let able_to_vote = self.able_to_vote.clone();
        let voters = self.voters.clone();
        let votes = self.votes.clone();
        assert(able_to_vote@ =~= self.able_to_vote@);
        assert(voters@ =~= self.voters@);
        assert(votes@ =~= self.votes@);
        Dispute {
            project_id: self.project_id,
            dispute_id: self.dispute_id,
            able_to_vote,
            voters,
            vote_commits: copy_list(&self.vote_commits),
            votes,
            dispute_status: self.dispute_status,
            initial_timestamp: self.initial_timestamp,
            finish_timestamp: self.finish_timestamp,
            creator: self.creator,
            counterpart: self.counterpart,
            winner: self.winner,
            creator_proves: self.creator_proves.clone(),
            counterpart_proves,
            waiting_for_judges: self.waiting_for_judges,
            votes_for: self.votes_for,
            votes_against: self.votes_against,
            vote_data: VoteData {
                voting_ends_at: self.vote_data.voting_ends_at,
                votes: copy_ballots(&self.vote_data.votes),
            },
            called_contract: self.called_contract,
        }
    }
}

/// The dispute that opening creates.
pub open spec fn opened(
    project_id: u32,
    dispute_id: u32,
    creator: Address,
    counterpart: Address,
    proof_text: Seq<char>,
    voting_ends_at: u64,
    called_contract: Address,
    now: u64,
) -> DisputeView {
    DisputeView {
        project_id,
        dispute_id,
        able_to_vote: Seq::empty(),
        voters: Seq::empty(),
        vote_commits: Seq::empty(),
        votes: Seq::empty(),
        dispute_status: DisputeStatus::OPEN,
        initial_timestamp: now,
        finish_timestamp: None,
        creator,
        counterpart,
        winner: None,
        creator_proves: proof_text,
        counterpart_proves: None,
        waiting_for_judges: false,
        votes_for: 0,
        votes_against: 0,
        vote_data: VoteDataView { voting_ends_at, votes: Seq::empty() },
        called_contract,
    }
}

} // verus!
