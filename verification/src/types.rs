//! The records that the ledger stores and hands out.

use crate::model::{DebateDetailView, DebateSummaryView, DebateView, VoteView};
use vstd::prelude::*;

verus! {

/// A debate: a topic, two figures, and the dialogue between them.
#[derive(Debug, PartialEq, Eq)]
pub struct Debate {
    pub topic: String,
    pub creator: String,
    pub created_at: u64,
    pub figure_1_name: String,
    pub figure_1_image_url: String,
    pub figure_2_name: String,
    pub figure_2_image_url: String,
    pub debate_dialogue: Vec<(String, String, String)>,
}

impl View for Debate {
    type V = DebateView;

    open spec fn view(&self) -> DebateView {
        DebateView {
            topic: self.topic@,
            creator: self.creator@,
            created_at: self.created_at,
            figure_1_name: self.figure_1_name@,
            figure_1_image_url: self.figure_1_image_url@,
            figure_2_name: self.figure_2_name@,
            figure_2_image_url: self.figure_2_image_url@,
            debate_dialogue: self.debate_dialogue.deep_view(),
        }
    }
}

/// One caller's vote in one debate.
#[derive(Debug, PartialEq, Eq)]
pub struct Vote {
    pub debate_id: u64,
    pub voter: String,
    pub voted_at: u64,
    pub choice: u8,
}

impl View for Vote {
    type V = VoteView;

    open spec fn view(&self) -> VoteView {
        VoteView {
            debate_id: self.debate_id,
            voter: self.voter@,
            voted_at: self.voted_at,
            choice: self.choice,
        }
    }
}

/// One line of a debate listing.
#[derive(Debug, PartialEq, Eq)]
pub struct DebateSummary {
    pub id: u64,
    pub topic: String,
    pub creator: String,
    pub created_at: u64,
    pub figure_1_name: String,
    pub figure_1_image_url: String,
    pub figure_2_name: String,
    pub figure_2_image_url: String,
    pub figure_1_votes: u64,
    pub figure_2_votes: u64,
}

impl View for DebateSummary {
    type V = DebateSummaryView;

    open spec fn view(&self) -> DebateSummaryView {
        DebateSummaryView {
            id: self.id,
            topic: self.topic@,
            creator: self.creator@,
            created_at: self.created_at,
            figure_1_name: self.figure_1_name@,
            figure_1_image_url: self.figure_1_image_url@,
            figure_2_name: self.figure_2_name@,
            figure_2_image_url: self.figure_2_image_url@,
            figure_1_votes: self.figure_1_votes as nat,
            figure_2_votes: self.figure_2_votes as nat,
        }
    }
}

/// A debate in full, with its id and its tallies.
#[derive(Debug, PartialEq, Eq)]
pub struct DebateDetail {
    pub id: u64,
    pub debate: Debate,
    pub figure_1_votes: u64,
    pub figure_2_votes: u64,
}

impl View for DebateDetail {
    type V = DebateDetailView;

    open spec fn view(&self) -> DebateDetailView {
        DebateDetailView {
            id: self.id,
            debate: self.debate@,
            figure_1_votes: self.figure_1_votes as nat,
            figure_2_votes: self.figure_2_votes as nat,
        }
    }
}

/// Who makes a call, and when. Whoever serves the calls says so with each
/// of them; the ledger takes both as they are.
#[derive(Debug, PartialEq, Eq)]
pub struct CallContext {
    /// The account that signed the call.
    pub caller: String,
    /// The time of the call, in milliseconds since the Unix epoch.
    pub timestamp_ms: u64,
}

/// The debates of a vector as mathematical values, in order.
pub open spec fn debate_views(debates: Seq<Debate>) -> Seq<DebateView> {
    debates.map_values(|debate: Debate| debate@)
}

/// The votes of a vector as mathematical values, in order.
pub open spec fn vote_views(votes: Seq<Vote>) -> Seq<VoteView> {
    votes.map_values(|vote: Vote| vote@)
}

/// A copy of a dialogue, line by line.
fn clone_dialogue(dialogue: &Vec<(String, String, String)>) -> (copy: Vec<
    (String, String, String),
>)
    ensures
        copy.deep_view() == dialogue.deep_view(),
{
    let mut copy: Vec<(String, String, String)> = Vec::new();
    let mut i: usize = 0;
    while i < dialogue.len()
        invariant
            i <= dialogue.len(),
            copy.len() == i,
            forall|k: int| 0 <= k < i ==> copy@[k].deep_view() == dialogue@[k].deep_view(),
        decreases dialogue.len() - i,
    {
        let line = &dialogue[i];
        copy.push((line.0.clone(), line.1.clone(), line.2.clone()));
        i += 1;
    }
    assert(copy.deep_view() =~= dialogue.deep_view());
    copy
}

impl Clone for Debate {
    fn clone(&self) -> (copy: Debate)
        ensures
            copy@ == self@,
    {
        Debate {
            topic: self.topic.clone(),
            creator: self.creator.clone(),
            created_at: self.created_at,
            figure_1_name: self.figure_1_name.clone(),
            figure_1_image_url: self.figure_1_image_url.clone(),
            figure_2_name: self.figure_2_name.clone(),
            figure_2_image_url: self.figure_2_image_url.clone(),
            debate_dialogue: clone_dialogue(&self.debate_dialogue),
        }
    }
}

impl Clone for Vote {
    fn clone(&self) -> (copy: Vote)
        ensures
            copy@ == self@,
    {
        Vote {
            debate_id: self.debate_id,
            voter: self.voter.clone(),
            voted_at: self.voted_at,
            choice: self.choice,
        }
    }
}

impl Clone for DebateSummary {
    fn clone(&self) -> (copy: DebateSummary)
        ensures
            copy@ == self@,
    {
        DebateSummary {
            id: self.id,
            topic: self.topic.clone(),
            creator: self.creator.clone(),
            created_at: self.created_at,
            figure_1_name: self.figure_1_name.clone(),
            figure_1_image_url: self.figure_1_image_url.clone(),
            figure_2_name: self.figure_2_name.clone(),
            figure_2_image_url: self.figure_2_image_url.clone(),
            figure_1_votes: self.figure_1_votes,
            figure_2_votes: self.figure_2_votes,
        }
    }
}

impl Clone for DebateDetail {
    fn clone(&self) -> (copy: DebateDetail)
        ensures
            copy@ == self@,
    {
        DebateDetail {
            id: self.id,
            debate: self.debate.clone(),
            figure_1_votes: self.figure_1_votes,
            figure_2_votes: self.figure_2_votes,
        }
    }
}

impl Clone for CallContext {
    fn clone(&self) -> (copy: CallContext)
        ensures
            copy.caller@ == self.caller@,
            copy.timestamp_ms == self.timestamp_ms,
    {
        CallContext { caller: self.caller.clone(), timestamp_ms: self.timestamp_ms }
    }
}

} // verus!
