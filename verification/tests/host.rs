use debate_ledger::{CallContext, Contract, DebateSummary, VoteError};
use near_sdk::test_utils::{testing_env_with_promise_results, VMContextBuilder};
use near_sdk::{AccountId, PromiseResult};

/// Lets the mocked host serve the next calls as signed by `signer` in a block
/// with this timestamp, in nanoseconds.
#[allow(deprecated)]
fn serve(signer: &str, block_timestamp_ns: u64) {
    let account: AccountId = signer.parse().unwrap();
    let mut builder = VMContextBuilder::new();
    builder.signer_account_id(account).block_timestamp(block_timestamp_ns);
    testing_env_with_promise_results(builder.build(), PromiseResult::Successful(Vec::new()));
}

/// The context of the call that the mocked host is serving.
fn context() -> CallContext {
    CallContext {
        caller: String::from(near_sdk::env::signer_account_id()),
        timestamp_ms: near_sdk::env::block_timestamp_ms(),
    }
}

fn create(contract: &mut Contract, topic: &str) -> u64 {
    assert!(contract.next_debate_id() < u64::MAX);
    contract.create_debate(
        &context(),
        topic.to_string(),
        "A".to_string(),
        "a.png".to_string(),
        "B".to_string(),
        "b.png".to_string(),
        Vec::new(),
    )
}

fn vote(contract: &mut Contract, debate_id: u64, choice: u8) -> Result<u64, VoteError> {
    if contract.vote_outcome(&context(), debate_id, choice).is_ok() {
        assert!(contract.next_vote_id() < u64::MAX);
    }
    contract.vote_debate(&context(), debate_id, choice)
}

#[test]
fn host_names_creator_and_time() {
    let mut contract = Contract::new("owner.near".to_string());
    serve("alice.near", 1_700_000_000_123_456_789);
    assert_eq!(create(&mut contract, "X vs Y"), 1);
    let detail = contract.get_detail_debate(1).unwrap();
    assert_eq!(detail.debate.creator, "alice.near");
    assert_eq!(detail.debate.created_at, 1_700_000_000_123);
    assert_eq!(detail.debate.topic, "X vs Y");
}

#[test]
fn host_time_is_in_whole_milliseconds() {
    let mut contract = Contract::new("owner.near".to_string());
    serve("alice.near", 999_999);
    create(&mut contract, "one");
    serve("alice.near", 1_000_000);
    create(&mut contract, "two");
    serve("alice.near", u64::MAX);
    create(&mut contract, "three");
    let times: Vec<u64> = contract.get_debates().iter().map(|line| line.created_at).collect();
    assert_eq!(times, vec![0, 1, 18_446_744_073_709]);
}

#[test]
fn scenario_with_the_host_naming_the_caller() {
    let mut contract = Contract::new("owner.near".to_string());
    serve("p.near", 5_000_000_000);
    assert_eq!(create(&mut contract, "X vs Y"), 1);
    serve("p.near", 6_000_000_000);
    assert_eq!(vote(&mut contract, 1, 1), Ok(1));
    serve("p.near", 7_000_000_000);
    assert_eq!(vote(&mut contract, 1, 2), Err(VoteError::DuplicateVote));
    assert_eq!(
        contract.get_debates(),
        vec![DebateSummary {
            id: 1,
            topic: "X vs Y".to_string(),
            creator: "p.near".to_string(),
            created_at: 5_000,
            figure_1_name: "A".to_string(),
            figure_1_image_url: "a.png".to_string(),
            figure_2_name: "B".to_string(),
            figure_2_image_url: "b.png".to_string(),
            figure_1_votes: 1,
            figure_2_votes: 0,
        }]
    );
    assert_eq!(contract.get_user_vote_in_debate(&context(), 1), Some((1, 6_000)));
}

#[test]
fn host_tells_voters_apart() {
    let mut contract = Contract::new("owner.near".to_string());
    serve("alice.near", 1_000_000);
    create(&mut contract, "one");
    assert_eq!(vote(&mut contract, 1, 2), Ok(1));
    serve("bob.near", 2_000_000);
    assert_eq!(contract.get_user_vote_in_debate(&context(), 1), None);
    assert_eq!(vote(&mut contract, 1, 1), Ok(2));
    assert_eq!(vote(&mut contract, 1, 1), Err(VoteError::DuplicateVote));
    assert_eq!(contract.get_user_vote_in_debate(&context(), 1), Some((1, 2)));
    serve("alice.near", 3_000_000);
    assert_eq!(contract.get_user_vote_in_debate(&context(), 1), Some((2, 1)));
    assert_eq!(contract.get_user_vote_in_debate(&context(), 2), None);
    let votes = contract.votes();
    assert_eq!(votes[0].voter, "alice.near");
    assert_eq!(votes[1].voter, "bob.near");
}

#[test]
fn host_caller_does_not_matter_for_missing_debate_or_invalid_choice() {
    let mut contract = Contract::new("owner.near".to_string());
    serve("alice.near", 1_000_000);
    assert_eq!(vote(&mut contract, 1, 1), Err(VoteError::NotFound));
    create(&mut contract, "one");
    serve("bob.near", 2_000_000);
    assert_eq!(vote(&mut contract, 2, 1), Err(VoteError::NotFound));
    assert_eq!(vote(&mut contract, 1, 0), Err(VoteError::InvalidChoice));
    assert_eq!(contract.next_vote_id(), 1);
}

#[test]
fn host_names_callers_by_account_ids() {
    let mut contract = Contract::new("owner.near".to_string());
    let shortest = "a0";
    let longest = "0123456789abcdef".repeat(4);
    let worded = "a-b_c.d9";
    for signer in [shortest, longest.as_str(), worded] {
        serve(signer, 1_000_000);
        let debate_id = create(&mut contract, "one");
        let creator = contract.get_detail_debate(debate_id).unwrap().debate.creator;
        assert_eq!(creator, signer);
        assert!(2 <= creator.len() && creator.len() <= 64);
        assert!(creator.parse::<AccountId>().is_ok());
        assert_eq!(vote(&mut contract, debate_id, 1), Ok(debate_id));
        assert_eq!(contract.votes()[(debate_id - 1) as usize].voter, signer);
    }
}

#[test]
fn host_time_stays_in_range() {
    let mut contract = Contract::new("owner.near".to_string());
    for block_timestamp_ns in [0, 1, 999_999_999, u64::MAX - 1, u64::MAX] {
        serve("alice.near", block_timestamp_ns);
        let debate_id = create(&mut contract, "one");
        let created_at = contract.get_detail_debate(debate_id).unwrap().debate.created_at;
        assert_eq!(created_at, block_timestamp_ns / 1_000_000);
        assert!(created_at <= u64::MAX / 1_000_000);
    }
}
