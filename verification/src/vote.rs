//! Votes, in both schemes, and the generator points an anonymous vote is
//! committed under.

use vstd::prelude::*;
use crate::address::Address;
use crate::bytes::{contents, copy_list, copy_texts, texts};

verus! {

/// A revealed vote of the commit-reveal scheme: `true` is for the creator.
#[derive(Clone, Copy, Debug, PartialEq, Eq, Structural)]
pub struct Vote {
    pub account: Address,
    pub vote: bool,
}

/// The standing of a member, which bounds the weight of its votes.
#[derive(Clone, Copy, Debug, PartialEq, Eq, Structural)]
pub enum Badge {
    Developer,
    Triage,
    Community,
    /// Has a registered domain.
    Verified,
    Default,
}

/// The weight that goes with a badge.
pub open spec fn badge_weight(badge: Badge) -> u32 {
    match badge {
        Badge::Developer => 10_000_000,
        Badge::Triage => 5_000_000,
        Badge::Community => 1_000_000,
        Badge::Verified => 500_000,
        Badge::Default => 1,
    }
}

impl Badge {
    /// The weight that goes with this badge.
    pub fn weight(self) -> (weight: u32)
        ensures
            weight == badge_weight(self),
    {
        match self {
            Badge::Developer => 10_000_000,
            Badge::Triage => 5_000_000,
            Badge::Community => 1_000_000,
            Badge::Verified => 500_000,
            Badge::Default => 1,
        }
    }
}

/// A weighted vote of the anonymous scheme. The choice is hidden: the vote
/// carries one commitment per choice (approve, reject, abstain), and the
/// encrypted votes and seeds from which the tally is later computed.
#[derive(Clone, Debug)]
pub struct AnonymousVote {
    pub address: Address,
    pub weight: u32,
    pub encrypted_seeds: Vec<String>,
    pub encrypted_votes: Vec<String>,
    pub commitments: Vec<[u8; 96]>,
}

/// What an anonymous vote holds.
pub struct AnonymousVoteView {
    pub address: Address,
    pub weight: u32,
    pub encrypted_seeds: Seq<Seq<char>>,
    pub encrypted_votes: Seq<Seq<char>>,
    pub commitments: Seq<Seq<u8>>,
}

impl View for AnonymousVote {
    type V = AnonymousVoteView;

    open spec fn view(&self) -> AnonymousVoteView {
        AnonymousVoteView {
            address: self.address,
            weight: self.weight,
            encrypted_seeds: texts(self.encrypted_seeds@),
            encrypted_votes: texts(self.encrypted_votes@),
            commitments: contents(self.commitments@),
        }
    }
}

impl AnonymousVote {
    /// A copy of this vote.
    pub fn duplicate(&self) -> (copy: AnonymousVote)
        ensures
            copy@ == self@,
    {
        AnonymousVote {
            address: self.address,
            weight: self.weight,
            encrypted_seeds: copy_texts(&self.encrypted_seeds),
            encrypted_votes: copy_texts(&self.encrypted_votes),
            commitments: copy_list(&self.commitments),
        }
    }
}

/// A vote as it is handed in. Every vote is an anonymous one.
#[derive(Clone, Debug)]
pub enum Vote2 {
    AnonymousVote(AnonymousVote),
}

impl View for Vote2 {
    type V = AnonymousVoteView;

    open spec fn view(&self) -> AnonymousVoteView {
        match self {
            Vote2::AnonymousVote(vote) => vote@,
        }
    }
}

impl Vote2 {
    /// The anonymous vote that was handed in.
    pub fn into_anonymous(self) -> (vote: AnonymousVote)
        ensures
            vote@ == self@,
    {
        match self {
            Vote2::AnonymousVote(vote) => vote,
        }
    }
}

/// What a list of anonymous votes holds.
pub open spec fn ballots(list: Seq<AnonymousVote>) -> Seq<AnonymousVoteView> {
    list.map_values(|vote: AnonymousVote| vote@)
}

/// A copy of a list of anonymous votes.
pub fn copy_ballots(list: &Vec<AnonymousVote>) -> (copy: Vec<AnonymousVote>)
    ensures
        ballots(copy@) == ballots(list@),
{
    let mut copy: Vec<AnonymousVote> = Vec::new();
    let mut i: usize = 0;
    while i < list.len()
        invariant
            i <= list.len(),
            copy@.len() == i,
            forall|k: int| 0 <= k < i ==> copy@[k]@ == list@[k]@,
        decreases list.len() - i,
    {
        copy.push(list[i].duplicate());
        i += 1;
    }
    assert(ballots(copy@) =~= ballots(list@));
    copy
}

/// The anonymous voting of one dispute: its deadline and the votes cast.
#[derive(Clone, Debug)]
pub struct VoteData {
    pub voting_ends_at: u64,
    pub votes: Vec<AnonymousVote>,
}

/// What the anonymous voting of a dispute holds.
pub struct VoteDataView {
    pub voting_ends_at: u64,
    pub votes: Seq<AnonymousVoteView>,
}

impl View for VoteData {
    type V = VoteDataView;

    open spec fn view(&self) -> VoteDataView {
        VoteDataView { voting_ends_at: self.voting_ends_at, votes: ballots(self.votes@) }
    }
}

} // verus!
