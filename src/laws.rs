//! Properties of the governor's lifecycle, stated over its abstract state.
use vstd::prelude::*;

use crate::governor::{GovernorView, ONE_MINUTE, accepted, quorum_reached};
use crate::types::{AccountId, Balance, GovernorError, Proposal, ProposalId, VoteType};

verus! {

/// A proposal that passes every check is stored under the id that was next
/// before the call, and the next id then grows by exactly one.
pub proof fn lemma_propose_assigns_next_id(
    v: GovernorView,
    to: AccountId,
    amount: Balance,
    duration: u64,
    now: u64,
    balance: Balance,
)
    requires
        amount > 0,
        amount < balance,
        duration > 0,
    ensures
        GovernorView::propose_error(amount, duration, balance) is None,
        v.proposed(GovernorView::new_proposal(to, amount, duration, now)).next_proposal_id()
            == v.next_proposal_id() + 1,
        v.proposed(GovernorView::new_proposal(to, amount, duration, now)).proposals[v.next_proposal_id() as int]
            == GovernorView::new_proposal(to, amount, duration, now),
{
}

/// A zero amount is always refused as such; an amount not below the funds
/// is refused for want of funds; a zero duration is always refused, as a
/// duration error once the amount is acceptable.
pub proof fn lemma_propose_rejections(amount: Balance, duration: u64, balance: Balance)
    ensures
        amount == 0 ==> GovernorView::propose_error(amount, duration, balance) == Some(
            GovernorError::AmountShouldNotBeZero,
        ),
        amount != 0 && amount >= balance ==> GovernorView::propose_error(amount, duration, balance)
            == Some(GovernorError::InsufficientBalance),
        duration == 0 ==> GovernorView::propose_error(amount, duration, balance) is Some,
        amount != 0 && amount < balance && duration == 0 ==> GovernorView::propose_error(
            amount,
            duration,
            balance,
        ) == Some(GovernorError::DurationError),
{
}

/// A successful ballot is recorded in the ledger, and no operation ever
/// removes a ballot from it.
pub proof fn lemma_ballots_persist(
    v: GovernorView,
    id: ProposalId,
    vote: VoteType,
    caller: AccountId,
    w: u128,
    p: Proposal,
)
    ensures
        v.voted(id, vote, caller, w).ballots.contains((id, caller)),
        v.ballots.subset_of(v.voted(id, vote, caller, w).ballots),
        v.proposed(p).ballots == v.ballots,
        v.executed(id).ballots == v.ballots,
{
}

/// An executed proposal stays executed through every later operation.
pub proof fn lemma_executed_persists(
    v: GovernorView,
    id: ProposalId,
    other: ProposalId,
    vote: VoteType,
    caller: AccountId,
    w: u128,
    p: Proposal,
)
    requires
        v.has_proposal(id),
        v.proposals[id as int].executed,
    ensures
        v.proposed(p).proposals[id as int].executed,
        v.voted(other, vote, caller, w).proposals[id as int].executed,
        v.has_proposal(other) ==> v.executed(other).proposals[id as int].executed,
{
}

/// Once a voter has a ballot on a proposal, every further vote of theirs on
/// it fails, so it never adds weight again; while the proposal is open the
/// failure is `AlreadyVoted`.
pub proof fn lemma_second_ballot_rejected(
    v: GovernorView,
    id: ProposalId,
    caller: AccountId,
    now: u64,
    total_supply: Balance,
)
    requires
        v.ballots.contains((id, caller)),
    ensures
        v.vote_error(id, caller, now, total_supply) is Some,
        v.has_proposal(id) && !v.proposals[id as int].executed && now
            <= v.proposals[id as int].vote_end ==> v.vote_error(id, caller, now, total_supply)
            == Some(GovernorError::AlreadyVoted),
{
}

/// Voting on an executed proposal fails as such, before time is looked at;
/// voting on an open proposal after its end fails with `VotePeriodEnded`.
pub proof fn lemma_vote_timing(
    v: GovernorView,
    id: ProposalId,
    caller: AccountId,
    now: u64,
    total_supply: Balance,
)
    requires
        v.has_proposal(id),
    ensures
        v.proposals[id as int].executed ==> v.vote_error(id, caller, now, total_supply) == Some(
            GovernorError::ProposalAlreadyExecuted,
        ),
        !v.proposals[id as int].executed && now > v.proposals[id as int].vote_end
            ==> v.vote_error(id, caller, now, total_supply) == Some(GovernorError::VotePeriodEnded),
{
}

/// On a pending proposal, `execute` succeeds exactly when quorum is reached,
/// the tally favours the proposal and the funds exceed its amount; otherwise
/// it fails with the error of the first condition that does not hold.
pub proof fn lemma_execute_decision(v: GovernorView, id: ProposalId, balance: Balance)
    requires
        v.has_proposal(id),
        !v.proposals[id as int].executed,
    ensures
        v.execute_error(id, balance) is None <==> {
            &&& quorum_reached(v.tallies[id as int], v.quorum)
            &&& accepted(v.tallies[id as int])
            &&& balance > v.proposals[id as int].amount
        },
        !quorum_reached(v.tallies[id as int], v.quorum) ==> v.execute_error(id, balance) == Some(
            GovernorError::QuorumNotReached,
        ),
        quorum_reached(v.tallies[id as int], v.quorum) && !accepted(v.tallies[id as int])
            ==> v.execute_error(id, balance) == Some(GovernorError::ProposalNotAccepted),
        quorum_reached(v.tallies[id as int], v.quorum) && accepted(v.tallies[id as int]) && balance
            <= v.proposals[id as int].amount ==> v.execute_error(id, balance) == Some(
            GovernorError::InsufficientBalance,
        ),
{
}

/// After a successful `execute`, every further `execute` of the same
/// proposal fails with `ProposalAlreadyExecuted`, whatever the funds: the
/// transfer is owed once.
pub proof fn lemma_execute_once(v: GovernorView, id: ProposalId, balance: Balance, later_balance: Balance)
    requires
        v.execute_error(id, balance) is None,
    ensures
        v.executed(id).proposals[id as int].executed,
        v.executed(id).execute_error(id, later_balance) == Some(GovernorError::ProposalAlreadyExecuted),
{
}

/// A proposal's voting window ends `duration` minutes after it opens.
pub proof fn lemma_vote_window(to: AccountId, amount: Balance, duration: u64, now: u64)
    requires
        now + duration * ONE_MINUTE <= u64::MAX,
    ensures
        GovernorView::new_proposal(to, amount, duration, now).vote_start == now,
        GovernorView::new_proposal(to, amount, duration, now).vote_end == now + duration * 60,
{
}

} // verus!
