//! The ledger itself: the state that records debates and votes, and the calls
//! that change and read it.

use crate::model::{
    count_votes, valid_choice, DebateView, LedgerView, VoteError, VoteView, FIGURE_ONE, FIGURE_TWO,
};
use crate::types::{debate_views, vote_views, CallContext, Debate, DebateDetail, DebateSummary, Vote};
use vstd::prelude::*;

verus! {

/// The ledger of debates and votes.
///
/// Debates and votes are kept in the order in which they were recorded; the
/// one with id `n` stands at position `n - 1`.
pub struct Contract {
    owner_id: String,
    debates: Vec<Debate>,
    next_debate_id: u64,
    votes: Vec<Vote>,
    next_vote_id: u64,
}

impl View for Contract {
    type V = LedgerView;

    closed spec fn view(&self) -> LedgerView {
        LedgerView {
            owner_id: self.owner_id@,
            debates: debate_views(self.debates@),
            next_debate_id: self.next_debate_id as nat,
            votes: vote_views(self.votes@),
            next_vote_id: self.next_vote_id as nat,
        }
    }
}

/// What a vote returned, with the new id as a natural number.
pub open spec fn outcome_view(result: Result<u64, VoteError>) -> Result<nat, VoteError> {
    match result {
        Ok(vote_id) => Ok(vote_id as nat),
        Err(error) => Err(error),
    }
}

/// The position of the earliest of the first `end` votes that `voter` cast in
/// `debate_id`.
fn find_vote_before(
    votes: &Vec<Vote>,
    end: usize,
    debate_id: u64,
    voter: &String,
) -> (found: Option<usize>)
    requires
        end <= votes.len(),
    ensures
        found matches Some(i) ==> i < end && votes@[i as int]@.cast_by(debate_id, voter@),
        found matches Some(i) ==> forall|j: int|
            0 <= j < i ==> !(#[trigger] votes@[j])@.cast_by(debate_id, voter@),
        found is None ==> forall|j: int|
            0 <= j < end ==> !(#[trigger] votes@[j])@.cast_by(debate_id, voter@),
{
    let mut i: usize = 0;
    while i < end
        invariant
            i <= end <= votes.len(),
            forall|j: int| 0 <= j < i ==> !(#[trigger] votes@[j])@.cast_by(debate_id, voter@),
        decreases end - i,
    {
        let vote = &votes[i];
        if vote.debate_id == debate_id && vote.voter == *voter {
            return Some(i);
        }
        i += 1;
    }
    None
}

/// The ledger that holds these debates and votes, in this order, with each
/// counter one past the number of its entries.
pub open spec fn ledger_of(
    owner_id: Seq<char>,
    debates: Seq<Debate>,
    votes: Seq<Vote>,
) -> LedgerView {
    LedgerView {
        owner_id,
        debates: debate_views(debates),
        next_debate_id: debates.len() + 1,
        votes: vote_views(votes),
        next_vote_id: votes.len() + 1,
    }
}

impl Contract {
    /// The ledger is one that calls can reach from an empty one: see
    /// [`LedgerView::wf`]. [`Contract::new`] and [`Contract::from_parts`] give
    /// such ledgers only, and every call keeps a ledger so.
    pub open spec fn wf(&self) -> bool {
        self@.wf()
    }

    /// An empty ledger owned by `owner_id`, with both counters at 1.
    pub fn new(owner_id: String) -> (contract: Contract)
        ensures
            contract.wf(),
            contract@ == LedgerView::init(owner_id@),
    {
        let contract = Contract {
            owner_id,
            debates: Vec::new(),
            next_debate_id: 1,
            votes: Vec::new(),
            next_vote_id: 1,
        };
        assert(contract@ =~= LedgerView::init(owner_id@));
        contract
    }

    /// The ledger that holds these debates and votes, each under the id that
    /// its position gives it. There is none where no sequence of calls could
    /// have left these entries behind (a vote names no debate among them or
    /// neither figure, or a voter has two votes in one debate), or where a
    /// counter would not fit.
    pub fn from_parts(
        owner_id: String,
        debates: Vec<Debate>,
        votes: Vec<Vote>,
    ) -> (restored: Option<Contract>)
        ensures
            restored is Some <==> ledger_of(owner_id@, debates@, votes@).wf() && debates@.len()
                < u64::MAX && votes@.len() < u64::MAX,
            restored matches Some(contract) ==> contract.wf(),
            restored matches Some(contract) ==> contract@ == ledger_of(owner_id@, debates@, votes@),
    {
        let ghost ledger = ledger_of(owner_id@, debates@, votes@);
        if debates.len() as u64 == u64::MAX || votes.len() as u64 == u64::MAX {
            return None;
        }
        let mut i: usize = 0;
        while i < votes.len()
            invariant
                i <= votes.len(),
                ledger == ledger_of(owner_id@, debates@, votes@),
                forall|k: int|
                    0 <= k < i ==> ledger.has_debate((#[trigger] ledger.votes[k]).debate_id)
                        && valid_choice(ledger.votes[k].choice),
                forall|j: int, k: int|
                    0 <= j < k < i ==> !(#[trigger] ledger.votes[j]).cast_by(
                        (#[trigger] ledger.votes[k]).debate_id,
                        ledger.votes[k].voter,
                    ),
            decreases votes.len() - i,
        {
            let vote = &votes[i];
            assert(ledger.votes[i as int] == vote@);
            if vote.debate_id < 1 || vote.debate_id > debates.len() as u64 {
                return None;
            }
            if vote.choice != FIGURE_ONE && vote.choice != FIGURE_TWO {
                return None;
            }
            match find_vote_before(&votes, i, vote.debate_id, &vote.voter) {
                Some(j) => {
                    assert(ledger.votes[j as int] == votes@[j as int]@);
                    return None;
                },
                None => {
                    assert forall|j: int| 0 <= j < i implies !(#[trigger] ledger.votes[j]).cast_by(
                        vote.debate_id,
                        vote.voter@,
                    ) by {
                        assert(ledger.votes[j] == votes@[j]@);
                    }
                },
            }
            i += 1;
        }
        let contract = Contract {
            owner_id,
            next_debate_id: debates.len() as u64 + 1,
            debates,
            next_vote_id: votes.len() as u64 + 1,
            votes,
        };
        assert(contract@ =~= ledger);
        Some(contract)
    }

    /// The account that initialised the ledger.
    pub fn owner_id(&self) -> (owner_id: &String)
        ensures
            owner_id@ == self@.owner_id,
    {
        &self.owner_id
    }

    /// The id that the next debate will get.
    pub fn next_debate_id(&self) -> (next: u64)
        ensures
            next == self@.next_debate_id,
    {
        self.next_debate_id
    }

    /// The id that the next vote will get.
    pub fn next_vote_id(&self) -> (next: u64)
        ensures
            next == self@.next_vote_id,
    {
        self.next_vote_id
    }

    /// The debates recorded so far, in the order of their ids.
    pub fn debates(&self) -> (debates: &Vec<Debate>)
        ensures
            debate_views(debates@) == self@.debates,
    {
        &self.debates
    }

    /// The votes recorded so far, in the order of their ids.
    pub fn votes(&self) -> (votes: &Vec<Vote>)
        ensures
            vote_views(votes@) == self@.votes,
    {
        &self.votes
    }

    /// The debate with this id, if it has been created.
    pub fn debate(&self, debate_id: u64) -> (found: Option<&Debate>)
        ensures
            found is Some <==> self@.has_debate(debate_id),
            found matches Some(debate) ==> debate@ == self@.debate(debate_id),
    {
        if 1 <= debate_id && debate_id <= self.debates.len() as u64 {
            Some(&self.debates[(debate_id - 1) as usize])
        } else {
            None
        }
    }

    /// The position of the earliest vote that `voter` cast in `debate_id`.
    fn find_vote(&self, debate_id: u64, voter: &String) -> (found: Option<usize>)
        ensures
            found matches Some(i) ==> self@.is_first_vote_at(i as int, debate_id, voter@),
            found is None ==> !self@.has_voted(debate_id, voter@),
    {
        find_vote_before(&self.votes, self.votes.len(), debate_id, voter)
    }

    /// The votes for the first and for the second figure of `debate_id`.
    fn tallies(&self, debate_id: u64) -> (counts: (u64, u64))
        ensures
            counts.0 == self@.tally(debate_id, FIGURE_ONE),
            counts.1 == self@.tally(debate_id, FIGURE_TWO),
    {
        let mut figure_1_votes: u64 = 0;
        let mut figure_2_votes: u64 = 0;
        let mut i: usize = 0;
        while i < self.votes.len()
            invariant
                i <= self.votes.len(),
                figure_1_votes <= i,
                figure_2_votes <= i,
                figure_1_votes == count_votes(self@.votes.take(i as int), debate_id, FIGURE_ONE),
                figure_2_votes == count_votes(self@.votes.take(i as int), debate_id, FIGURE_TWO),
            decreases self.votes.len() - i,
        {
            let vote = &self.votes[i];
            assert(self@.votes.take(i + 1).drop_last() =~= self@.votes.take(i as int));
            if vote.debate_id == debate_id {
                if vote.choice == FIGURE_ONE {
                    figure_1_votes += 1;
                } else if vote.choice == FIGURE_TWO {
                    figure_2_votes += 1;
                }
            }
            i += 1;
        }
        assert(self@.votes.take(i as int) =~= self@.votes);
        (figure_1_votes, figure_2_votes)
    }

    /// Records a debate created by the caller of `context` at its time, and
    /// returns the id of the debate. Nothing of what is handed in is checked:
    /// the topic and the dialogue may be empty.
    pub fn create_debate(
        &mut self,
        context: &CallContext,
        topic: String,
        figure_1_name: String,
        figure_1_image_url: String,
        figure_2_name: String,
        figure_2_image_url: String,
        debate_dialogue: Vec<(String, String, String)>,
    ) -> (debate_id: u64)
        requires
            old(self).wf(),
            old(self)@.next_debate_id < u64::MAX,
        ensures
            final(self).wf(),
            debate_id == old(self)@.next_debate_id,
            final(self)@ == old(self)@.create_debate(
                (DebateView {
                    topic: topic@,
                    creator: context.caller@,
                    created_at: context.timestamp_ms,
                    figure_1_name: figure_1_name@,
                    figure_1_image_url: figure_1_image_url@,
                    figure_2_name: figure_2_name@,
                    figure_2_image_url: figure_2_image_url@,
                    debate_dialogue: debate_dialogue.deep_view(),
                }),
            ),
    {
        let debate_id = self.next_debate_id;
        self.next_debate_id += 1;
        let debate = Debate {
            topic,
            creator: context.caller.clone(),
            created_at: context.timestamp_ms,
            figure_1_name,
            figure_1_image_url,
            figure_2_name,
            figure_2_image_url,
            debate_dialogue,
        };
        self.debates.push(debate);
        assert(self@ =~= old(self)@.create_debate(debate@));
        debate_id
    }

    /// What a vote for `choice` in `debate_id` by the caller of `context`
    /// would return, the ledger being left as it is: the id that the vote
    /// would get, or why it would be turned down. The three tests are made in
    /// this order: is there such a debate, does the choice name a figure, has
    /// the caller voted in the debate before.
    pub fn vote_outcome(
        &self,
        context: &CallContext,
        debate_id: u64,
        choice: u8,
    ) -> (result: Result<u64, VoteError>)
        ensures
            outcome_view(result) == self@.vote_outcome(debate_id, context.caller@, choice),
    {
        if self.debate(debate_id).is_none() {
            return Err(VoteError::NotFound);
        }
        if choice != FIGURE_ONE && choice != FIGURE_TWO {
            return Err(VoteError::InvalidChoice);
        }
        if self.find_vote(debate_id, &context.caller).is_some() {
            return Err(VoteError::DuplicateVote);
        }
        Ok(self.next_vote_id)
    }

    /// Casts a vote for `choice` in `debate_id` by the caller of `context` at
    /// its time, and returns the id of the vote.
    ///
    /// The vote is turned down, and the ledger left as it was, with
    /// [`VoteError::NotFound`] where no such debate exists, else with
    /// [`VoteError::InvalidChoice`] where the choice names neither figure, else
    /// with [`VoteError::DuplicateVote`] where the caller has voted in that
    /// debate before. Only a vote that is accepted needs an id, so only of
    /// such a vote is it asked that the counter can move on.
    pub fn vote_debate(
        &mut self,
        context: &CallContext,
        debate_id: u64,
        choice: u8,
    ) -> (result: Result<u64, VoteError>)
        requires
            old(self).wf(),
            old(self)@.vote_outcome(debate_id, context.caller@, choice) is Ok ==> old(
                self,
            )@.next_vote_id < u64::MAX,
        ensures
            final(self).wf(),
            outcome_view(result) == old(self)@.vote_outcome(debate_id, context.caller@, choice),
            final(self)@ == old(self)@.vote_debate(
                (VoteView {
                    debate_id,
                    voter: context.caller@,
                    voted_at: context.timestamp_ms,
                    choice,
                }),
            ),
            !old(self)@.has_debate(debate_id) ==> result matches Err(VoteError::NotFound),
            old(self)@.has_debate(debate_id) && !valid_choice(choice) ==> result matches Err(
                VoteError::InvalidChoice,
            ),
            old(self)@.has_debate(debate_id) && valid_choice(choice) && old(self)@.has_voted(
                debate_id,
                context.caller@,
            ) ==> result matches Err(VoteError::DuplicateVote),
            old(self)@.has_debate(debate_id) && valid_choice(choice) && !old(self)@.has_voted(
                debate_id,
                context.caller@,
            ) ==> (result matches Ok(vote_id) && vote_id == old(self)@.next_vote_id),
            result is Err ==> final(self)@ == old(self)@,
    {
        let vote_id = match self.vote_outcome(context, debate_id, choice) {
            Ok(vote_id) => vote_id,
            Err(error) => {
                return Err(error);
            },
        };
        self.next_vote_id += 1;
        let vote = Vote {
            debate_id,
            voter: context.caller.clone(),
            voted_at: context.timestamp_ms,
            choice,
        };
        self.votes.push(vote);
        assert(self@ =~= old(self)@.vote_debate(vote@));
        Ok(vote_id)
    }

    /// Every debate with its tallies, in the order of the debate ids.
    pub fn get_debates(&self) -> (list: Vec<DebateSummary>)
        ensures
            list@.len() == self@.debates.len(),
            forall|i: int|
                0 <= i < list@.len() ==> (#[trigger] list@[i])@ == self@.summary((i + 1) as u64),
    {
        let mut list: Vec<DebateSummary> = Vec::new();
        let mut i: usize = 0;
        while i < self.debates.len()
            invariant
                i <= self.debates.len(),
                list@.len() == i,
                forall|k: int|
                    0 <= k < i ==> (#[trigger] list@[k])@ == self@.summary((k + 1) as u64),
            decreases self.debates.len() - i,
        {
            let debate_id = i as u64 + 1;
            let debate = &self.debates[i];
            let (figure_1_votes, figure_2_votes) = self.tallies(debate_id);
            let summary = DebateSummary {
                id: debate_id,
                topic: debate.topic.clone(),
                creator: debate.creator.clone(),
                created_at: debate.created_at,
                figure_1_name: debate.figure_1_name.clone(),
                figure_1_image_url: debate.figure_1_image_url.clone(),
                figure_2_name: debate.figure_2_name.clone(),
                figure_2_image_url: debate.figure_2_image_url.clone(),
                figure_1_votes,
                figure_2_votes,
            };
            assert(summary@ =~= self@.summary(debate_id));
            list.push(summary);
            i += 1;
        }
        list
    }

    /// The debate with this id in full, with its tallies; nothing where no
    /// such debate has been created.
    pub fn get_detail_debate(&self, debate_id: u64) -> (detail: Option<DebateDetail>)
        ensures
            detail is Some <==> self@.has_debate(debate_id),
            detail matches Some(found) ==> self@.detail(debate_id) == Some(found@),
            detail is None ==> self@.detail(debate_id) is None,
    {
        match self.debate(debate_id) {
            None => None,
            Some(debate) => {
                let (figure_1_votes, figure_2_votes) = self.tallies(debate_id);
                let found = DebateDetail {
                    id: debate_id,
                    debate: debate.clone(),
                    figure_1_votes,
                    figure_2_votes,
                };
                assert(self@.detail(debate_id) == Some(found@));
                Some(found)
            },
        }
    }

    /// The choice and the time of the vote that the caller of `context` cast
    /// in `debate_id`; nothing where that caller has not voted there.
    pub fn get_user_vote_in_debate(
        &self,
        context: &CallContext,
        debate_id: u64,
    ) -> (vote: Option<(u8, u64)>)
        ensures
            vote == self@.user_vote(debate_id, context.caller@),
            vote is None <==> !self@.has_voted(debate_id, context.caller@),
    {
        match self.find_vote(debate_id, &context.caller) {
            None => None,
            Some(i) => {
                let found = &self.votes[i];
                proof {
                    let first = choose|k: int|
                        self@.is_first_vote_at(k, debate_id, context.caller@);
                    assert(self@.is_first_vote_at(i as int, debate_id, context.caller@));
                    assert(first == i);
                }
                Some((found.choice, found.voted_at))
            },
        }
    }
}

} // verus!
