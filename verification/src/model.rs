//! The ledger as a mathematical value, and what each call does to it.
//!
//! Everything the executable ledger promises is stated over the types of this
//! module: a [`LedgerView`] holds the debates and the votes in the order in
//! which they were recorded, and spec functions say what a call returns and
//! which ledger it leaves behind.

use vstd::prelude::*;

verus! {

/// The choice that supports the first figure of a debate.
pub const FIGURE_ONE: u8 = 1;

/// The choice that supports the second figure of a debate.
pub const FIGURE_TWO: u8 = 2;

/// Why a vote was turned down.
#[derive(Clone, Copy, Debug, PartialEq, Eq, Structural)]
pub enum VoteError {
    /// No debate has the id that the vote names.
    NotFound,
    /// The choice is neither [`FIGURE_ONE`] nor [`FIGURE_TWO`].
    InvalidChoice,
    /// The caller has already voted in that debate.
    DuplicateVote,
}

impl VoteError {
    /// What the error tells the caller.
    pub open spec fn message_text(self) -> Seq<char> {
        match self {
            VoteError::NotFound => "Debate not found!"@,
            VoteError::InvalidChoice => "Invalid choice! Choose 1 or 2."@,
            VoteError::DuplicateVote => "You have already voted in this debate!"@,
        }
    }

    /// What the error tells the caller.
    pub fn message(&self) -> (text: &'static str)
        ensures
            text@ == self.message_text(),
    {
        match self {
            VoteError::NotFound => "Debate not found!",
            VoteError::InvalidChoice => "Invalid choice! Choose 1 or 2.",
            VoteError::DuplicateVote => "You have already voted in this debate!",
        }
    }
}

/// A choice is valid when it names one of the two figures.
pub open spec fn valid_choice(choice: u8) -> bool {
    choice == FIGURE_ONE || choice == FIGURE_TWO
}

/// A recorded debate.
#[verifier::ext_equal]
pub struct DebateView {
    pub topic: Seq<char>,
    pub creator: Seq<char>,
    pub created_at: u64,
    pub figure_1_name: Seq<char>,
    pub figure_1_image_url: Seq<char>,
    pub figure_2_name: Seq<char>,
    pub figure_2_image_url: Seq<char>,
    /// The lines of the dialogue, each a speaker, what is said, and a note.
    pub debate_dialogue: Seq<(Seq<char>, Seq<char>, Seq<char>)>,
}

/// A recorded vote.
#[verifier::ext_equal]
pub struct VoteView {
    pub debate_id: u64,
    pub voter: Seq<char>,
    pub voted_at: u64,
    pub choice: u8,
}

impl VoteView {
    /// The vote was cast in `debate_id` by `voter`.
    pub open spec fn cast_by(self, debate_id: u64, voter: Seq<char>) -> bool {
        self.debate_id == debate_id && self.voter == voter
    }

    /// The vote counts for `choice` in `debate_id`.
    pub open spec fn counts_for(self, debate_id: u64, choice: u8) -> bool {
        self.debate_id == debate_id && self.choice == choice
    }
}

/// One line of a debate listing: the debate without its dialogue, and its tallies.
#[verifier::ext_equal]
pub struct DebateSummaryView {
    pub id: u64,
    pub topic: Seq<char>,
    pub creator: Seq<char>,
    pub created_at: u64,
    pub figure_1_name: Seq<char>,
    pub figure_1_image_url: Seq<char>,
    pub figure_2_name: Seq<char>,
    pub figure_2_image_url: Seq<char>,
    pub figure_1_votes: nat,
    pub figure_2_votes: nat,
}

/// A debate in full, with its tallies.
#[verifier::ext_equal]
pub struct DebateDetailView {
    pub id: u64,
    pub debate: DebateView,
    pub figure_1_votes: nat,
    pub figure_2_votes: nat,
}

/// A call that changes the ledger.
pub enum Call {
    /// Record this debate.
    CreateDebate(DebateView),
    /// Cast this vote, if the ledger accepts it.
    VoteDebate(VoteView),
}

/// How many of `votes` count for `choice` in `debate_id`.
pub open spec fn count_votes(votes: Seq<VoteView>, debate_id: u64, choice: u8) -> nat
    decreases votes.len(),
{
    if votes.len() == 0 {
        0
    } else {
        let rest = count_votes(votes.drop_last(), debate_id, choice);
        if votes.last().counts_for(debate_id, choice) {
            rest + 1
        } else {
            rest
        }
    }
}

/// How many of `votes` were cast in `debate_id`, whatever their choice.
pub open spec fn count_ballots(votes: Seq<VoteView>, debate_id: u64) -> nat
    decreases votes.len(),
{
    if votes.len() == 0 {
        0
    } else {
        let rest = count_ballots(votes.drop_last(), debate_id);
        if votes.last().debate_id == debate_id {
            rest + 1
        } else {
            rest
        }
    }
}

/// The ledger: who owns it, the debates and votes recorded so far, and the
/// ids that the next debate and the next vote will get.
///
/// Ids are handed out from 1 upwards and nothing is ever removed, so the
/// debate with id `n` stands at position `n - 1` of `debates`, and the vote
/// with id `n` at position `n - 1` of `votes`.
#[verifier::ext_equal]
pub struct LedgerView {
    pub owner_id: Seq<char>,
    pub debates: Seq<DebateView>,
    pub next_debate_id: nat,
    pub votes: Seq<VoteView>,
    pub next_vote_id: nat,
}

impl LedgerView {
    /// The ledger right after initialisation: empty, both counters at 1.
    pub open spec fn init(owner_id: Seq<char>) -> LedgerView {
        LedgerView {
            owner_id,
            debates: Seq::empty(),
            next_debate_id: 1,
            votes: Seq::empty(),
            next_vote_id: 1,
        }
    }

    /// A debate with this id has been created.
    pub open spec fn has_debate(self, debate_id: u64) -> bool {
        1 <= debate_id <= self.debates.len()
    }

    /// The debate with this id.
    pub open spec fn debate(self, debate_id: u64) -> DebateView
        recommends
            self.has_debate(debate_id),
    {
        self.debates[debate_id - 1]
    }

    /// `voter` has a vote on record in `debate_id`.
    pub open spec fn has_voted(self, debate_id: u64, voter: Seq<char>) -> bool {
        exists|i: int|
            0 <= i < self.votes.len() && (#[trigger] self.votes[i]).cast_by(debate_id, voter)
    }

    /// Position `i` holds the earliest vote of `voter` in `debate_id`.
    pub open spec fn is_first_vote_at(self, i: int, debate_id: u64, voter: Seq<char>) -> bool {
        &&& 0 <= i < self.votes.len()
        &&& self.votes[i].cast_by(debate_id, voter)
        &&& forall|j: int| 0 <= j < i ==> !(#[trigger] self.votes[j]).cast_by(debate_id, voter)
    }

    /// The choice and the time of the vote that `voter` cast in `debate_id`,
    /// if there is one.
    pub open spec fn user_vote(self, debate_id: u64, voter: Seq<char>) -> Option<(u8, u64)> {
        if self.has_voted(debate_id, voter) {
            let i = choose|i: int| self.is_first_vote_at(i, debate_id, voter);
            Some((self.votes[i].choice, self.votes[i].voted_at))
        } else {
            None
        }
    }

    /// The number of votes on record for `choice` in `debate_id`.
    pub open spec fn tally(self, debate_id: u64, choice: u8) -> nat {
        count_votes(self.votes, debate_id, choice)
    }

    /// The number of votes on record in `debate_id`.
    pub open spec fn ballots(self, debate_id: u64) -> nat {
        count_ballots(self.votes, debate_id)
    }

    /// The listing line of the debate with this id.
    pub open spec fn summary(self, debate_id: u64) -> DebateSummaryView
        recommends
            self.has_debate(debate_id),
    {
        let debate = self.debate(debate_id);
        DebateSummaryView {
            id: debate_id,
            topic: debate.topic,
            creator: debate.creator,
            created_at: debate.created_at,
            figure_1_name: debate.figure_1_name,
            figure_1_image_url: debate.figure_1_image_url,
            figure_2_name: debate.figure_2_name,
            figure_2_image_url: debate.figure_2_image_url,
            figure_1_votes: self.tally(debate_id, FIGURE_ONE),
            figure_2_votes: self.tally(debate_id, FIGURE_TWO),
        }
    }

    /// The debate with this id in full, or nothing where no such debate exists.
    pub open spec fn detail(self, debate_id: u64) -> Option<DebateDetailView> {
        if self.has_debate(debate_id) {
            Some(
                DebateDetailView {
                    id: debate_id,
                    debate: self.debate(debate_id),
                    figure_1_votes: self.tally(debate_id, FIGURE_ONE),
                    figure_2_votes: self.tally(debate_id, FIGURE_TWO),
                },
            )
        } else {
            None
        }
    }

    /// The ledger after `debate` has been recorded under the next debate id.
    pub open spec fn create_debate(self, debate: DebateView) -> LedgerView {
        LedgerView {
            debates: self.debates.push(debate),
            next_debate_id: self.next_debate_id + 1,
            ..self
        }
    }

    /// What a vote in `debate_id` for `choice` by `voter` returns: the id of
    /// the new vote, or the first of the three checks that fails.
    pub open spec fn vote_outcome(self, debate_id: u64, voter: Seq<char>, choice: u8) -> Result<
        nat,
        VoteError,
    > {
        if !self.has_debate(debate_id) {
            Err(VoteError::NotFound)
        } else if !valid_choice(choice) {
            Err(VoteError::InvalidChoice)
        } else if self.has_voted(debate_id, voter) {
            Err(VoteError::DuplicateVote)
        } else {
            Ok(self.next_vote_id)
        }
    }

    /// The ledger after `vote` has been cast: with the vote recorded under
    /// the next vote id where it is accepted, unchanged where it is not.
    pub open spec fn vote_debate(self, vote: VoteView) -> LedgerView {
        if self.vote_outcome(vote.debate_id, vote.voter, vote.choice) is Ok {
            LedgerView {
                votes: self.votes.push(vote),
                next_vote_id: self.next_vote_id + 1,
                ..self
            }
        } else {
            self
        }
    }

    /// The ledger after one call.
    pub open spec fn step(self, call: Call) -> LedgerView {
        match call {
            Call::CreateDebate(debate) => self.create_debate(debate),
            Call::VoteDebate(vote) => self.vote_debate(vote),
        }
    }

    /// The ledger after a sequence of calls, made in order.
    pub open spec fn run(self, calls: Seq<Call>) -> LedgerView
        decreases calls.len(),
    {
        if calls.len() == 0 {
            self
        } else {
            self.run(calls.drop_last()).step(calls.last())
        }
    }

    /// What holds of the ledgers that calls can reach from an empty one, and
    /// of no others: each counter is one past the number of its entries, every
    /// vote names an existing debate and a valid choice, and no two votes
    /// share debate and voter.
    pub open spec fn wf(self) -> bool {
        &&& self.next_debate_id == self.debates.len() + 1
        &&& self.next_vote_id == self.votes.len() + 1
        &&& forall|i: int|
            0 <= i < self.votes.len() ==> self.has_debate((#[trigger] self.votes[i]).debate_id)
                && valid_choice(self.votes[i].choice)
        &&& forall|i: int, j: int|
            0 <= i < j < self.votes.len() ==> !(#[trigger] self.votes[i]).cast_by(
                (#[trigger] self.votes[j]).debate_id,
                self.votes[j].voter,
            )
    }
}

} // verus!
