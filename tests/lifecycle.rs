use dao::{vote_weight, AccountId, Governor, GovernorError, ProposalVote, VoteType};

fn account(b: u8) -> AccountId {
    AccountId::from([b; 32])
}

fn tally(g: &Governor, id: u32) -> ProposalVote {
    g.get_proposal_vote(id).unwrap()
}

#[test]
fn propose_ids_are_sequential() {
    let mut g = Governor::new(account(1), 10);
    for expected in 0u32..5 {
        assert_eq!(g.next_proposal_id(), expected);
        assert_eq!(g.propose(account(9), 10, 3, 7, 500), Ok(expected));
        assert_eq!(g.next_proposal_id(), expected + 1);
    }
    let p = g.get_proposal(4).unwrap();
    assert_eq!(p.vote_start, 7);
    assert_eq!(p.vote_end, 7 + 3 * 60);
}

#[test]
fn propose_rejections_leave_counter() {
    let mut g = Governor::new(account(1), 10);
    // zero amount wins over the other failures
    assert_eq!(g.propose(account(9), 0, 0, 0, 0), Err(GovernorError::AmountShouldNotBeZero));
    // amount equal to the funds is refused: strictly less is needed
    assert_eq!(g.propose(account(9), 1000, 1, 0, 1000), Err(GovernorError::InsufficientBalance));
    assert_eq!(g.propose(account(9), 1001, 0, 0, 1000), Err(GovernorError::InsufficientBalance));
    assert_eq!(g.propose(account(9), 999, 0, 0, 1000), Err(GovernorError::DurationError));
    assert_eq!(g.next_proposal_id(), 0);
    assert_eq!(g.get_proposal(0), Err(GovernorError::ProposalNotFound));
}

#[test]
fn vote_adds_weight_once() {
    let mut g = Governor::new(account(1), 50);
    g.propose(account(9), 100, 1, 0, 1000).unwrap();
    assert_eq!(tally(&g, 0), ProposalVote { for_votes: 0, against_vote: 0 });
    assert!(!g.has_voted(0, account(2)));
    assert_eq!(g.vote(0, VoteType::For, account(2), 10, 1000, 300), Ok(()));
    assert!(g.has_voted(0, account(2)));
    assert_eq!(tally(&g, 0), ProposalVote { for_votes: 30, against_vote: 0 });
    assert_eq!(
        g.vote(0, VoteType::Against, account(2), 10, 1000, 900),
        Err(GovernorError::AlreadyVoted)
    );
    assert_eq!(tally(&g, 0), ProposalVote { for_votes: 30, against_vote: 0 });
    assert_eq!(g.vote(0, VoteType::Against, account(3), 60, 1000, 250), Ok(()));
    assert_eq!(tally(&g, 0), ProposalVote { for_votes: 30, against_vote: 25 });
}

#[test]
fn vote_errors() {
    let mut g = Governor::new(account(1), 0);
    assert_eq!(g.vote(0, VoteType::For, account(2), 0, 10, 1), Err(GovernorError::ProposalNotFound));
    g.propose(account(9), 100, 1, 100, 1000).unwrap();
    assert_eq!(
        g.vote(0, VoteType::For, account(2), 161, 10, 1),
        Err(GovernorError::VotePeriodEnded)
    );
    assert_eq!(g.vote(0, VoteType::For, account(2), 160, 0, 1), Err(GovernorError::DivisionByZero));
    assert!(!g.has_voted(0, account(2)));
    assert_eq!(g.execute(0, 1000), Ok(()));
    // executed wins over the time check
    assert_eq!(
        g.vote(0, VoteType::For, account(2), 10_000, 10, 1),
        Err(GovernorError::ProposalAlreadyExecuted)
    );
}

#[test]
fn execute_conditions_in_order() {
    let mut g = Governor::new(account(1), 50);
    g.propose(account(9), 100, 1, 0, 1000).unwrap();
    g.vote(0, VoteType::For, account(2), 0, 100, 20).unwrap();
    g.vote(0, VoteType::Against, account(3), 0, 100, 25).unwrap();
    assert_eq!(g.execute(0, 1000), Err(GovernorError::QuorumNotReached));
    g.vote(0, VoteType::Against, account(4), 0, 100, 5).unwrap();
    assert_eq!(g.execute(0, 1000), Err(GovernorError::ProposalNotAccepted));
    g.vote(0, VoteType::For, account(5), 0, 100, 10).unwrap();
    // a tie is accepted; funds must exceed the amount
    assert_eq!(tally(&g, 0), ProposalVote { for_votes: 30, against_vote: 30 });
    assert_eq!(g.execute(0, 100), Err(GovernorError::InsufficientBalance));
    assert!(!g.get_proposal(0).unwrap().executed);
    assert_eq!(g.execute(0, 101), Ok(()));
    assert!(g.get_proposal(0).unwrap().executed);
}

#[test]
fn execute_twice_pays_once() {
    let mut g = Governor::new(account(1), 0);
    let mut funds: u128 = 1000;
    let id = g.propose(account(2), 100, 1, 0, funds).unwrap();
    for _ in 0..3 {
        if g.execute(id, funds).is_ok() {
            funds -= g.get_proposal(id).unwrap().amount;
        }
    }
    assert_eq!(funds, 900);
    assert_eq!(g.execute(id, funds), Err(GovernorError::ProposalAlreadyExecuted));
}

#[test]
fn zero_quorum_executes_at_once() {
    let mut g = Governor::new(account(1), 0);
    let mut funds: u128 = 1000;
    assert_eq!(g.propose(account(2), 100, 1, 0, funds), Ok(0));
    assert_eq!(g.execute(0, funds), Ok(()));
    funds -= g.get_proposal(0).unwrap().amount;
    assert_eq!(funds, 900);
    assert!(g.get_proposal(0).unwrap().executed);
}

#[test]
fn quorum_scenario_before_votes() {
    let mut g = Governor::new(account(1), 50);
    assert_eq!(g.propose(account(2), 100, 1, 5, 1000), Ok(0));
    let p = g.get_proposal(0).unwrap();
    assert_eq!(p.vote_end, p.vote_start + 60);
    assert_eq!(g.execute(0, 1000), Err(GovernorError::QuorumNotReached));
}

#[test]
fn execute_on_empty_store() {
    let mut g = Governor::new(account(1), 0);
    assert_eq!(g.execute(16, 1000), Err(GovernorError::ProposalNotFound));
    assert_eq!(g.get_proposal_vote(16), Err(GovernorError::ProposalNotFound));
}

#[test]
fn weight_values() {
    assert_eq!(vote_weight(250, 1000), 25);
    assert_eq!(vote_weight(1, 3), 33);
    assert_eq!(vote_weight(2, 3), 66);
    assert_eq!(vote_weight(0, 7), 0);
    assert_eq!(vote_weight(7, 7), 100);
    assert_eq!(vote_weight(u128::MAX, u128::MAX), 100);
    assert_eq!(vote_weight(u128::MAX - 1, u128::MAX), 99);
    assert_eq!(vote_weight(u128::MAX / 2, u128::MAX), 49);
    assert_eq!(vote_weight(3, 2), 150);
    assert_eq!(vote_weight(u128::MAX, 1), u128::MAX);
    assert_eq!(vote_weight(u128::MAX / 100, 1), u128::MAX / 100 * 100);
}

#[test]
fn tallies_saturate() {
    let mut g = Governor::new(account(1), 0);
    g.propose(account(9), 1, 1, 0, 10).unwrap();
    g.vote(0, VoteType::For, account(2), 0, 1, u128::MAX).unwrap();
    g.vote(0, VoteType::For, account(3), 0, 1, u128::MAX).unwrap();
    assert_eq!(tally(&g, 0).for_votes, u128::MAX);
    assert_eq!(g.execute(0, 10), Ok(()));
}

#[test]
fn account_equality() {
    assert_eq!(account(3), AccountId::from([3u8; 32]));
    let mut b = [3u8; 32];
    b[31] = 4;
    assert_ne!(account(3), AccountId::from(b));
}

#[test]
fn governor_settings() {
    let g = Governor::new(account(7), 42);
    assert_eq!(g.quorum(), 42);
    assert_eq!(g.governance_token(), account(7));
}

#[test]
fn decide_execute_changes_nothing() {
    let mut g = Governor::new(account(1), 0);
    g.propose(account(2), 100, 1, 0, 1000).unwrap();
    assert_eq!(g.decide_execute(0, 100), Err(GovernorError::InsufficientBalance));
    let p = g.decide_execute(0, 1000).unwrap();
    assert_eq!(p.to, account(2));
    assert_eq!(p.amount, 100);
    assert!(!g.get_proposal(0).unwrap().executed);
    assert_eq!(g.decide_execute(7, 1000), Err(GovernorError::ProposalNotFound));
}
