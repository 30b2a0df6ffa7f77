//! What holds of the ledger over any number of calls.
//!
//! The calls of [`Contract`](crate::Contract) are stated one at a time, each
//! over the ledger before it and the ledger after it. The proofs of this
//! module put calls in a row: they speak of [`LedgerView::run`], the ledger
//! after a whole sequence of calls, and so of every ledger that calls can
//! reach.

use crate::model::{
    count_ballots, count_votes, valid_choice, Call, DebateView, LedgerView, VoteError, VoteView,
    FIGURE_ONE, FIGURE_TWO,
};
use vstd::prelude::*;

verus! {

/// The call is a vote in `debate_id` that `ledger` accepts.
pub open spec fn is_accepted_vote(ledger: LedgerView, call: Call, debate_id: u64) -> bool {
    call matches Call::VoteDebate(vote) && vote.debate_id == debate_id && ledger.vote_outcome(
        vote.debate_id,
        vote.voter,
        vote.choice,
    ) is Ok
}

/// How many calls of the sequence are votes in `debate_id` that the ledger
/// accepts, the calls being made in order from `ledger` on.
pub open spec fn accepted_votes(ledger: LedgerView, calls: Seq<Call>, debate_id: u64) -> nat
    decreases calls.len(),
{
    if calls.len() == 0 {
        0
    } else {
        let earlier = accepted_votes(ledger, calls.drop_last(), debate_id);
        let before = ledger.run(calls.drop_last());
        if is_accepted_vote(before, calls.last(), debate_id) {
            earlier + 1
        } else {
            earlier
        }
    }
}

/// The call is a vote for `choice` in `debate_id` that `ledger` accepts.
pub open spec fn moves_tally(ledger: LedgerView, call: Call, debate_id: u64, choice: u8) -> bool {
    call matches Call::VoteDebate(vote) && vote.counts_for(debate_id, choice)
        && ledger.vote_outcome(vote.debate_id, vote.voter, vote.choice) is Ok
}

/// Calls only ever add: whatever the calls, the owner stays, every debate and
/// every vote on record stays where it is and as it is, and neither counter
/// goes back.
pub proof fn lemma_run_only_adds(ledger: LedgerView, calls: Seq<Call>)
    ensures
        ledger.run(calls).owner_id == ledger.owner_id,
        ledger.debates.len() <= ledger.run(calls).debates.len(),
        forall|i: int|
            0 <= i < ledger.debates.len() ==> #[trigger] ledger.run(calls).debates[i]
                == ledger.debates[i],
        ledger.votes.len() <= ledger.run(calls).votes.len(),
        forall|i: int|
            0 <= i < ledger.votes.len() ==> #[trigger] ledger.run(calls).votes[i]
                == ledger.votes[i],
        ledger.next_debate_id <= ledger.run(calls).next_debate_id,
        ledger.next_vote_id <= ledger.run(calls).next_vote_id,
    decreases calls.len(),
{
    if calls.len() > 0 {
        lemma_run_only_adds(ledger, calls.drop_last());
    }
}

/// An empty ledger is well formed.
pub proof fn lemma_init_is_wf(owner_id: Seq<char>)
    ensures
        LedgerView::init(owner_id).wf(),
{
}

/// One call keeps a well-formed ledger well formed: a vote that is accepted
/// names an existing debate and a valid choice, and is the first of its voter
/// in its debate.
pub proof fn lemma_step_keeps_wf(ledger: LedgerView, call: Call)
    requires
        ledger.wf(),
    ensures
        ledger.step(call).wf(),
{
    let after = ledger.step(call);
    match call {
        Call::CreateDebate(_) => {},
        Call::VoteDebate(vote) => {
            if ledger.vote_outcome(vote.debate_id, vote.voter, vote.choice) is Ok {
                assert forall|i: int, j: int| 0 <= i < j < after.votes.len() implies !(#[trigger]
                after.votes[i]).cast_by(
                    (#[trigger] after.votes[j]).debate_id,
                    after.votes[j].voter,
                ) by {
                    if j == ledger.votes.len() {
                        assert(after.votes[i] == ledger.votes[i]);
                    } else {
                        assert(after.votes[i] == ledger.votes[i]);
                        assert(after.votes[j] == ledger.votes[j]);
                    }
                }
            }
        },
    }
}

/// Every ledger that calls reach from a well-formed one is well formed. With
/// [`lemma_init_is_wf`]: at all times each counter is one past the number of
/// its entries, every vote names an existing debate and one of the two
/// figures, and no caller has two votes in one debate.
pub proof fn lemma_run_keeps_wf(ledger: LedgerView, calls: Seq<Call>)
    requires
        ledger.wf(),
    ensures
        ledger.run(calls).wf(),
    decreases calls.len(),
{
    if calls.len() > 0 {
        lemma_run_keeps_wf(ledger, calls.drop_last());
        lemma_step_keeps_wf(ledger.run(calls.drop_last()), calls.last());
    }
}

/// Debate ids strictly increase, and so never repeat: a debate gets the value
/// of the debate counter as its id, and after it has been created, whatever
/// calls follow, the counter stands above that id. Every later debate
/// therefore gets a larger id.
pub proof fn lemma_debate_ids_increase(ledger: LedgerView, debate: DebateView, later: Seq<Call>)
    ensures
        ledger.next_debate_id < ledger.create_debate(debate).run(later).next_debate_id,
{
    lemma_run_only_adds(ledger.create_debate(debate), later);
}

/// Vote ids strictly increase, and so never repeat: an accepted vote gets the
/// value of the vote counter as its id, and after it has been cast, whatever
/// calls follow, the counter stands above that id. Every later vote therefore
/// gets a larger id.
pub proof fn lemma_vote_ids_increase(ledger: LedgerView, vote: VoteView, later: Seq<Call>)
    requires
        ledger.vote_outcome(vote.debate_id, vote.voter, vote.choice) is Ok,
    ensures
        ledger.vote_outcome(vote.debate_id, vote.voter, vote.choice) == Ok::<nat, VoteError>(
            ledger.next_vote_id,
        ),
        ledger.next_vote_id < ledger.vote_debate(vote).run(later).next_vote_id,
{
    lemma_run_only_adds(ledger.vote_debate(vote), later);
}

/// The two counters do not touch each other: creating a debate leaves the
/// vote counter where it was, and a vote, accepted or not, leaves the debate
/// counter where it was.
pub proof fn lemma_counters_are_independent(ledger: LedgerView, debate: DebateView, vote: VoteView)
    ensures
        ledger.create_debate(debate).next_vote_id == ledger.next_vote_id,
        ledger.vote_debate(vote).next_debate_id == ledger.next_debate_id,
{
}

/// Who has voted in a debate cannot vote there again: after an accepted vote,
/// and whatever calls follow it, a vote of the same voter in the same debate
/// for either figure is turned down as a duplicate and leaves the ledger as it
/// was.
pub proof fn lemma_second_vote_is_duplicate(
    ledger: LedgerView,
    first: VoteView,
    later: Seq<Call>,
    second: VoteView,
)
    requires
        ledger.vote_outcome(first.debate_id, first.voter, first.choice) is Ok,
        second.debate_id == first.debate_id,
        second.voter == first.voter,
        valid_choice(second.choice),
    ensures
        ledger.vote_debate(first).run(later).vote_outcome(
            second.debate_id,
            second.voter,
            second.choice,
        ) == Err::<nat, VoteError>(VoteError::DuplicateVote),
        ledger.vote_debate(first).run(later).vote_debate(second) == ledger.vote_debate(
            first,
        ).run(later),
{
    let voted = ledger.vote_debate(first);
    let end = voted.run(later);
    lemma_run_only_adds(voted, later);
    let at = ledger.votes.len() as int;
    assert(voted.votes[at] == first);
    assert(end.votes[at].cast_by(second.debate_id, second.voter));
}

/// A debate, once created, never changes: whatever calls follow, it is still
/// there under its id, with every field as it was.
pub proof fn lemma_debates_never_change(ledger: LedgerView, later: Seq<Call>, debate_id: u64)
    requires
        ledger.has_debate(debate_id),
    ensures
        ledger.run(later).has_debate(debate_id),
        ledger.run(later).debate(debate_id) == ledger.debate(debate_id),
{
    lemma_run_only_adds(ledger, later);
}

/// What is asked of a debate is what was created: under the id that the
/// creation returned, and whatever calls follow, the ledger holds the debate
/// with exactly the fields that were handed in.
pub proof fn lemma_created_debate_is_kept(ledger: LedgerView, debate: DebateView, later: Seq<Call>)
    requires
        ledger.wf(),
        ledger.next_debate_id <= u64::MAX,
    ensures
        ledger.create_debate(debate).run(later).detail(ledger.next_debate_id as u64) matches Some(
            found,
        ) && found.id == ledger.next_debate_id && found.debate == debate,
        !ledger.has_debate(ledger.next_debate_id as u64),
        ledger.detail(ledger.next_debate_id as u64) is None,
{
    let created = ledger.create_debate(debate);
    let debate_id = ledger.next_debate_id as u64;
    assert(created.has_debate(debate_id));
    assert(created.debate(debate_id) == debate);
    lemma_debates_never_change(created, later, debate_id);
}

/// With every choice valid, each vote of a debate counts for exactly one of
/// its two figures.
pub proof fn lemma_counts_add_up(votes: Seq<VoteView>, debate_id: u64)
    requires
        forall|i: int| 0 <= i < votes.len() ==> valid_choice((#[trigger] votes[i]).choice),
    ensures
        count_votes(votes, debate_id, FIGURE_ONE) + count_votes(votes, debate_id, FIGURE_TWO)
            == count_ballots(votes, debate_id),
    decreases votes.len(),
{
    if votes.len() > 0 {
        let rest = votes.drop_last();
        assert forall|i: int| 0 <= i < rest.len() implies valid_choice(
            (#[trigger] rest[i]).choice,
        ) by {
            assert(rest[i] == votes[i]);
        }
        lemma_counts_add_up(rest, debate_id);
        assert(valid_choice(votes[votes.len() - 1].choice));
    }
}

/// One more vote on record adds one to the count that it counts for, and
/// nothing to any other.
pub proof fn lemma_count_push(votes: Seq<VoteView>, vote: VoteView, debate_id: u64, choice: u8)
    ensures
        vote.counts_for(debate_id, choice) ==> count_votes(votes.push(vote), debate_id, choice)
            == count_votes(votes, debate_id, choice) + 1,
        !vote.counts_for(debate_id, choice) ==> count_votes(votes.push(vote), debate_id, choice)
            == count_votes(votes, debate_id, choice),
        vote.debate_id == debate_id ==> count_ballots(votes.push(vote), debate_id)
            == count_ballots(votes, debate_id) + 1,
        vote.debate_id != debate_id ==> count_ballots(votes.push(vote), debate_id)
            == count_ballots(votes, debate_id),
{
    assert(votes.push(vote).drop_last() =~= votes);
}

/// The two tallies of a debate add up to the votes on record in it: each
/// vote counts for exactly one figure.
pub proof fn lemma_tallies_add_up(ledger: LedgerView, debate_id: u64)
    requires
        ledger.wf(),
    ensures
        ledger.tally(debate_id, FIGURE_ONE) + ledger.tally(debate_id, FIGURE_TWO) == ledger.ballots(
            debate_id,
        ),
{
    lemma_counts_add_up(ledger.votes, debate_id);
}

/// Only an accepted vote moves a tally, and only its own: it adds one to the
/// tally of its debate and choice. A vote that is turned down and the
/// creation of a debate leave every tally as it was.
pub proof fn lemma_step_moves_one_tally(ledger: LedgerView, call: Call, debate_id: u64, choice: u8)
    ensures
        ledger.step(call).tally(debate_id, choice) == ledger.tally(debate_id, choice) + (
        if moves_tally(ledger, call, debate_id, choice) {
            1nat
        } else {
            0nat
        }),
{
    match call {
        Call::VoteDebate(vote) => {
            lemma_count_push(ledger.votes, vote, debate_id, choice);
        },
        Call::CreateDebate(_) => {},
    }
}

/// What is asked of a debate changes only by a vote that is accepted in it:
/// a vote that is turned down, a vote in another debate and the creation of
/// another debate leave the detail of a debate as it was, and no vote makes a
/// debate that does not exist.
pub proof fn lemma_step_keeps_other_details(ledger: LedgerView, call: Call, debate_id: u64)
    requires
        ledger.has_debate(debate_id) || call is VoteDebate,
        !is_accepted_vote(ledger, call, debate_id),
    ensures
        ledger.step(call).detail(debate_id) == ledger.detail(debate_id),
{
    match call {
        Call::VoteDebate(vote) => {
            lemma_count_push(ledger.votes, vote, debate_id, FIGURE_ONE);
            lemma_count_push(ledger.votes, vote, debate_id, FIGURE_TWO);
        },
        Call::CreateDebate(_) => {},
    }
}

/// The votes on record in a debate are the votes that were accepted in it:
/// over any sequence of calls, their number grows by one with each accepted
/// vote in that debate, and with nothing else.
pub proof fn lemma_ballots_count_accepted_votes(
    ledger: LedgerView,
    calls: Seq<Call>,
    debate_id: u64,
)
    ensures
        ledger.run(calls).ballots(debate_id) == ledger.ballots(debate_id) + accepted_votes(
            ledger,
            calls,
            debate_id,
        ),
    decreases calls.len(),
{
    if calls.len() > 0 {
        lemma_ballots_count_accepted_votes(ledger, calls.drop_last(), debate_id);
        let before = ledger.run(calls.drop_last());
        match calls.last() {
            Call::VoteDebate(vote) => {
                lemma_count_push(before.votes, vote, debate_id, FIGURE_ONE);
            },
            Call::CreateDebate(_) => {},
        }
    }
}

/// The tallies count the accepted votes: in a ledger that a sequence of calls
/// has built from an empty one, the two tallies of a debate add up to the
/// number of votes that were accepted in that debate.
pub proof fn lemma_tallies_count_accepted_votes(
    owner_id: Seq<char>,
    calls: Seq<Call>,
    debate_id: u64,
)
    ensures
        LedgerView::init(owner_id).run(calls).tally(debate_id, FIGURE_ONE) + LedgerView::init(
            owner_id,
        ).run(calls).tally(debate_id, FIGURE_TWO) == accepted_votes(
            LedgerView::init(owner_id),
            calls,
            debate_id,
        ),
{
    let empty = LedgerView::init(owner_id);
    lemma_run_keeps_wf(empty, calls);
    lemma_tallies_add_up(empty.run(calls), debate_id);
    lemma_ballots_count_accepted_votes(empty, calls, debate_id);
}

/// The earliest vote of a voter in a debate stands at one position only.
pub proof fn lemma_first_vote_is_unique(
    ledger: LedgerView,
    i: int,
    j: int,
    debate_id: u64,
    voter: Seq<char>,
)
    requires
        ledger.is_first_vote_at(i, debate_id, voter),
        ledger.is_first_vote_at(j, debate_id, voter),
    ensures
        i == j,
{
    if i < j {
        assert(ledger.votes[i].cast_by(debate_id, voter));
    } else if j < i {
        assert(ledger.votes[j].cast_by(debate_id, voter));
    }
}

/// Who has not voted in a debate has no vote to ask for there.
pub proof fn lemma_no_vote_without_voting(ledger: LedgerView, debate_id: u64, voter: Seq<char>)
    ensures
        ledger.user_vote(debate_id, voter) is None <==> !ledger.has_voted(debate_id, voter),
{
}

/// A vote is remembered as it was cast: after an accepted vote, and whatever
/// calls follow it, asking for the vote of that voter in that debate gives
/// the choice and the time of exactly that vote.
pub proof fn lemma_vote_is_remembered(ledger: LedgerView, vote: VoteView, later: Seq<Call>)
    requires
        ledger.vote_outcome(vote.debate_id, vote.voter, vote.choice) is Ok,
    ensures
        ledger.vote_debate(vote).run(later).user_vote(vote.debate_id, vote.voter) == Some(
            (vote.choice, vote.voted_at),
        ),
{
    let voted = ledger.vote_debate(vote);
    let end = voted.run(later);
    lemma_run_only_adds(voted, later);
    let at = ledger.votes.len() as int;
    assert(voted.votes[at] == vote);
    assert(end.votes[at] == vote);
    assert forall|j: int| 0 <= j < at implies !(#[trigger] end.votes[j]).cast_by(
        vote.debate_id,
        vote.voter,
    ) by {
        assert(end.votes[j] == voted.votes[j]);
        assert(voted.votes[j] == ledger.votes[j]);
    }
    assert(end.is_first_vote_at(at, vote.debate_id, vote.voter));
    let first = choose|i: int| end.is_first_vote_at(i, vote.debate_id, vote.voter);
    lemma_first_vote_is_unique(end, first, at, vote.debate_id, vote.voter);
}

/// Running one sequence of calls and then another is running the two in a
/// row.
pub proof fn lemma_run_concat(ledger: LedgerView, first: Seq<Call>, then: Seq<Call>)
    ensures
        ledger.run(first + then) == ledger.run(first).run(then),
    decreases then.len(),
{
    if then.len() == 0 {
        assert(first + then =~= first);
    } else {
        lemma_run_concat(ledger, first, then.drop_last());
        assert((first + then).drop_last() =~= first + then.drop_last());
    }
}

/// The calls that build a ledger: the creation of each of its debates, then
/// the casting of each of its votes, in the order of their ids.
pub open spec fn calls_of(ledger: LedgerView) -> Seq<Call> {
    ledger.debates.map_values(|debate: DebateView| Call::CreateDebate(debate))
        + ledger.votes.map_values(|vote: VoteView| Call::VoteDebate(vote))
}

/// Creating debates one after the other from an empty ledger records them in
/// that order.
proof fn lemma_creations_build_debates(owner_id: Seq<char>, debates: Seq<DebateView>)
    ensures
        LedgerView::init(owner_id).run(
            debates.map_values(|debate: DebateView| Call::CreateDebate(debate)),
        ) == (LedgerView {
            debates,
            next_debate_id: debates.len() + 1,
            ..LedgerView::init(owner_id)
        }),
    decreases debates.len(),
{
    let calls = debates.map_values(|debate: DebateView| Call::CreateDebate(debate));
    if debates.len() > 0 {
        let earlier = debates.drop_last();
        lemma_creations_build_debates(owner_id, earlier);
        assert(calls.drop_last() =~= earlier.map_values(
            |debate: DebateView| Call::CreateDebate(debate),
        ));
        assert(earlier.push(debates.last()) =~= debates);
    } else {
        assert(debates =~= Seq::empty());
    }
}

/// Casting the first `count` votes of a well-formed ledger, one after the
/// other, in a ledger that holds its debates and no votes: each is accepted,
/// and they are recorded in that order.
proof fn lemma_castings_build_votes(ledger: LedgerView, count: int)
    requires
        ledger.wf(),
        0 <= count <= ledger.votes.len(),
    ensures
        (LedgerView { votes: Seq::empty(), next_vote_id: 1, ..ledger }).run(
            ledger.votes.take(count).map_values(|vote: VoteView| Call::VoteDebate(vote)),
        ) == (LedgerView {
            votes: ledger.votes.take(count),
            next_vote_id: (count + 1) as nat,
            ..ledger
        }),
    decreases count,
{
    let start = LedgerView { votes: Seq::empty(), next_vote_id: 1, ..ledger };
    let calls = ledger.votes.take(count).map_values(|vote: VoteView| Call::VoteDebate(vote));
    if count > 0 {
        lemma_castings_build_votes(ledger, count - 1);
        let vote = ledger.votes[count - 1];
        let before = LedgerView {
            votes: ledger.votes.take(count - 1),
            next_vote_id: count as nat,
            ..ledger
        };
        assert(calls.drop_last() =~= ledger.votes.take(count - 1).map_values(
            |vote: VoteView| Call::VoteDebate(vote),
        ));
        assert(calls.last() == Call::VoteDebate(vote));
        assert(before.has_debate(vote.debate_id));
        assert(valid_choice(vote.choice));
        assert(!before.has_voted(vote.debate_id, vote.voter)) by {
            assert forall|i: int| 0 <= i < before.votes.len() implies !(
            #[trigger] before.votes[i]).cast_by(vote.debate_id, vote.voter) by {
                assert(before.votes[i] == ledger.votes[i]);
            }
        }
        assert(ledger.votes.take(count - 1).push(vote) =~= ledger.votes.take(count));
    } else {
        assert(ledger.votes.take(0) =~= Seq::empty());
    }
}

/// Every well-formed ledger can be reached: the calls that build it, made in
/// order from an empty ledger of the same owner, lead to exactly that
/// ledger. With [`lemma_run_keeps_wf`], the well-formed ledgers are the ones
/// that calls can reach, and no others.
pub proof fn lemma_wf_is_reachable(ledger: LedgerView)
    requires
        ledger.wf(),
    ensures
        LedgerView::init(ledger.owner_id).run(calls_of(ledger)) == ledger,
{
    let creations = ledger.debates.map_values(|debate: DebateView| Call::CreateDebate(debate));
    let castings = ledger.votes.map_values(|vote: VoteView| Call::VoteDebate(vote));
    lemma_run_concat(LedgerView::init(ledger.owner_id), creations, castings);
    lemma_creations_build_debates(ledger.owner_id, ledger.debates);
    lemma_castings_build_votes(ledger, ledger.votes.len() as int);
    assert(ledger.votes.take(ledger.votes.len() as int) =~= ledger.votes);
    let with_debates = LedgerView::init(ledger.owner_id).run(creations);
    assert(with_debates =~= (LedgerView { votes: Seq::empty(), next_vote_id: 1, ..ledger }));
    assert(with_debates.run(castings) =~= ledger);
}

} // verus!
