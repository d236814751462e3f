//! The governor: proposal store, vote tallies and ballot ledger, with the
//! propose / vote / execute lifecycle.
use vstd::prelude::*;

use crate::types::{AccountId, Balance, GovernorError, Proposal, ProposalId, ProposalVote, VoteType};
use crate::weight::{vote_weight, weight_of};

verus! {

/// Length of a voting period unit, in timestamp units.
pub const ONE_MINUTE: u64 = 60;

/// The abstract state of a governor.
pub struct GovernorView {
    /// Proposals by id; the next id is the length.
    pub proposals: Seq<Proposal>,
    /// Tallies by id, zero for a proposal nobody has voted on.
    pub tallies: Seq<ProposalVote>,
    /// The (proposal, voter) pairs that have cast a ballot.
    pub ballots: Set<(ProposalId, AccountId)>,
    pub quorum: u8,
    pub governance_token: AccountId,
}

/// Adds `w` to `a`, saturating at `u128::MAX`.
pub open spec fn saturating_sum(a: u128, w: u128) -> u128 {
    if a + w > u128::MAX {
        u128::MAX
    } else {
        (a + w) as u128
    }
}

/// Whether a tally meets the quorum: the sum of both sides reaches it.
pub open spec fn quorum_reached(t: ProposalVote, quorum: u8) -> bool {
    t.for_votes + t.against_vote >= quorum
}

/// Whether a tally is accepted: ties go to the proposal.
pub open spec fn accepted(t: ProposalVote) -> bool {
    t.for_votes >= t.against_vote
}

/// The result of a call that fails with `e`, or succeeds where `e` is `None`.
pub open spec fn outcome(e: Option<GovernorError>) -> Result<(), GovernorError> {
    match e {
        Some(err) => Err(err),
        None => Ok(()),
    }
}

impl GovernorView {
    pub open spec fn next_proposal_id(self) -> nat {
        self.proposals.len()
    }

    pub open spec fn has_proposal(self, id: ProposalId) -> bool {
        id < self.proposals.len()
    }

    /// The first check of `propose` that fails, if any.
    pub open spec fn propose_error(amount: Balance, duration: u64, balance: Balance) -> Option<
        GovernorError,
    > {
        if amount == 0 {
            Some(GovernorError::AmountShouldNotBeZero)
        } else if amount >= balance {
            Some(GovernorError::InsufficientBalance)
        } else if duration == 0 {
            Some(GovernorError::DurationError)
        } else {
            None
        }
    }

    /// The proposal that `propose` creates at time `now`.
    pub open spec fn new_proposal(to: AccountId, amount: Balance, duration: u64, now: u64) -> Proposal {
        Proposal {
            to,
            vote_start: now,
            vote_end: (now + duration * ONE_MINUTE) as u64,
            executed: false,
            amount,
        }
    }

    /// The state after a successful `propose`.
    pub open spec fn proposed(self, p: Proposal) -> GovernorView {
        GovernorView {
            proposals: self.proposals.push(p),
            tallies: self.tallies.push(ProposalVote::zero()),
            ..self
        }
    }

    /// The first check of `vote` that fails, if any.
    pub open spec fn vote_error(
        self,
        id: ProposalId,
        caller: AccountId,
        now: u64,
        total_supply: Balance,
    ) -> Option<GovernorError> {
        if !self.has_proposal(id) {
            Some(GovernorError::ProposalNotFound)
        } else if self.proposals[id as int].executed {
            Some(GovernorError::ProposalAlreadyExecuted)
        } else if now > self.proposals[id as int].vote_end {
            Some(GovernorError::VotePeriodEnded)
        } else if self.ballots.contains((id, caller)) {
            Some(GovernorError::AlreadyVoted)
        } else if total_supply == 0 {
            Some(GovernorError::DivisionByZero)
        } else {
            None
        }
    }

    /// A tally with weight `w` added to the side `vote`.
    pub open spec fn counted(t: ProposalVote, vote: VoteType, w: u128) -> ProposalVote {
        match vote {
            VoteType::For => ProposalVote { for_votes: saturating_sum(t.for_votes, w), ..t },
            VoteType::Against => ProposalVote {
                against_vote: saturating_sum(t.against_vote, w),
                ..t
            },
        }
    }

    /// The state after a successful `vote` of weight `w`.
    pub open spec fn voted(self, id: ProposalId, vote: VoteType, caller: AccountId, w: u128) -> GovernorView {
        GovernorView {
            tallies: self.tallies.update(id as int, Self::counted(self.tallies[id as int], vote, w)),
            ballots: self.ballots.insert((id, caller)),
            ..self
        }
    }

    /// The first check of `execute` that fails, if any.
    pub open spec fn execute_error(self, id: ProposalId, balance: Balance) -> Option<GovernorError> {
        if !self.has_proposal(id) {
            Some(GovernorError::ProposalNotFound)
        } else if self.proposals[id as int].executed {
            Some(GovernorError::ProposalAlreadyExecuted)
        } else if !quorum_reached(self.tallies[id as int], self.quorum) {
            Some(GovernorError::QuorumNotReached)
        } else if !accepted(self.tallies[id as int]) {
            Some(GovernorError::ProposalNotAccepted)
        } else if balance <= self.proposals[id as int].amount {
            Some(GovernorError::InsufficientBalance)
        } else {
            None
        }
    }

    /// The state after a successful `execute`.
    pub open spec fn executed(self, id: ProposalId) -> GovernorView {
        GovernorView {
            proposals: self.proposals.update(
                id as int,
                Proposal { executed: true, ..self.proposals[id as int] },
            ),
            ..self
        }
    }
}

/// A governor: proposals, their tallies, and the ledger of who has voted.
pub struct Governor {
    proposals: Vec<Proposal>,
    proposal_votes: Vec<ProposalVote>,
    votes: Vec<(ProposalId, AccountId)>,
    next_proposal_id: ProposalId,
    quorum: u8,
    governance_token: AccountId,
}

impl View for Governor {
    type V = GovernorView;

    closed spec fn view(&self) -> GovernorView {
        GovernorView {
            proposals: self.proposals@,
            tallies: self.proposal_votes@,
            ballots: self.votes@.to_set(),
            quorum: self.quorum,
            governance_token: self.governance_token,
        }
    }
}

impl Governor {
    /// The governor's internal consistency: one tally per proposal, the id
    /// counter equal to the number of proposals, and every proposal with a
    /// positive amount and a non-empty voting window.
    pub closed spec fn wf(&self) -> bool {
        &&& self.proposal_votes@.len() == self.proposals@.len()
        &&& self.next_proposal_id as nat == self.proposals@.len()
        &&& forall|i: int| 0 <= i < self.proposals@.len() ==> #[trigger] self.proposals@[i].valid()
    }

    /// A governor with no proposals, weighing votes by `governance_token`
    /// and requiring `quorum` percent of cast weight to execute.
    pub fn new(governance_token: AccountId, quorum: u8) -> (g: Governor)
        ensures
            g.wf(),
            g@.proposals == Seq::<Proposal>::empty(),
            g@.tallies == Seq::<ProposalVote>::empty(),
            g@.ballots == Set::<(ProposalId, AccountId)>::empty(),
            g@.quorum == quorum,
            g@.governance_token == governance_token,
    {
        let g = Governor {
            proposals: Vec::new(),
            proposal_votes: Vec::new(),
            votes: Vec::new(),
            next_proposal_id: 0,
            quorum,
            governance_token,
        };
        proof {
            assert(g.votes@.to_set() =~= Set::<(ProposalId, AccountId)>::empty());
        }
        g
    }

    /// The id the next successful `propose` assigns.
    pub fn next_proposal_id(&self) -> (id: ProposalId)
        requires
            self.wf(),
        ensures
            id as nat == self@.next_proposal_id(),
    {
        self.next_proposal_id
    }

    /// The quorum, in percent of token supply.
    pub fn quorum(&self) -> (q: u8)
        ensures
            q == self@.quorum,
    {
        self.quorum
    }

    /// The token whose holders vote.
    pub fn governance_token(&self) -> (t: AccountId)
        ensures
            t == self@.governance_token,
    {
        self.governance_token
    }

    /// The proposal stored under `proposal_id`.
    pub fn get_proposal(&self, proposal_id: ProposalId) -> (r: Result<Proposal, GovernorError>)
        requires
            self.wf(),
        ensures
            self@.has_proposal(proposal_id) ==> r == Ok::<Proposal, GovernorError>(
                self@.proposals[proposal_id as int],
            ),
            !self@.has_proposal(proposal_id) ==> r == Err::<Proposal, GovernorError>(
                GovernorError::ProposalNotFound,
            ),
    {
        if (proposal_id as usize) < self.proposals.len() {
            Ok(self.proposals[proposal_id as usize])
        } else {
            Err(GovernorError::ProposalNotFound)
        }
    }

    /// The tally of `proposal_id`: zero before its first vote.
    pub fn get_proposal_vote(&self, proposal_id: ProposalId) -> (r: Result<ProposalVote, GovernorError>)
        requires
            self.wf(),
        ensures
            self@.has_proposal(proposal_id) ==> r == Ok::<ProposalVote, GovernorError>(
                self@.tallies[proposal_id as int],
            ),
            !self@.has_proposal(proposal_id) ==> r == Err::<ProposalVote, GovernorError>(
                GovernorError::ProposalNotFound,
            ),
    {
        if (proposal_id as usize) < self.proposal_votes.len() {
            Ok(self.proposal_votes[proposal_id as usize])
        } else {
            Err(GovernorError::ProposalNotFound)
        }
    }

    /// Whether `voter` has cast a ballot on `proposal_id`.
    pub fn has_voted(&self, proposal_id: ProposalId, voter: AccountId) -> (b: bool)
        ensures
            b == self@.ballots.contains((proposal_id, voter)),
    {
        let mut i: usize = 0;
        while i < self.votes.len()
            invariant
                i <= self.votes@.len(),
                forall|j: int| 0 <= j < i ==> self.votes@[j] != (proposal_id, voter),
            decreases self.votes@.len() - i,
        {
            let (id, who) = self.votes[i];
            if id == proposal_id && who == voter {
                proof {
                    assert(self.votes@.contains((proposal_id, voter)));
                }
                return true;
            }
            i = i + 1;
        }
        false
    }

    /// Records a proposal to pay `amount` to `to`, open for votes from `now`
    /// for `duration` minutes, and returns its id. `balance` is the
    /// governor's own funds, which must exceed `amount`.
    pub fn propose(
        &mut self,
        to: AccountId,
        amount: Balance,
        duration: u64,
        now: u64,
        balance: Balance,
    ) -> (r: Result<ProposalId, GovernorError>)
        requires
            old(self).wf(),
            GovernorView::propose_error(amount, duration, balance) is None ==> {
                &&& old(self)@.next_proposal_id() < u32::MAX
                &&& now + duration * ONE_MINUTE <= u64::MAX
            },
        ensures
            final(self).wf(),
            match GovernorView::propose_error(amount, duration, balance) {
                Some(e) => r == Err::<ProposalId, GovernorError>(e) && final(self)@ == old(self)@,
                None => {
                    &&& r == Ok::<ProposalId, GovernorError>(old(self)@.next_proposal_id() as ProposalId)
                    &&& final(self)@ == old(self)@.proposed(
                        GovernorView::new_proposal(to, amount, duration, now),
                    )
                    &&& final(self)@.next_proposal_id() == old(self)@.next_proposal_id() + 1
                    &&& final(self)@.proposals[old(self)@.next_proposal_id() as int]
                        == GovernorView::new_proposal(to, amount, duration, now)
                },
            },
    {
        if amount == 0 {
            return Err(GovernorError::AmountShouldNotBeZero);
        } else if amount >= balance {
            return Err(GovernorError::InsufficientBalance);
        }
        if duration == 0 {
            return Err(GovernorError::DurationError);
        }
        let proposal = Proposal {
            to,
            vote_start: now,
            vote_end: now + duration * ONE_MINUTE,
            executed: false,
            amount,
        };
        let id = self.next_proposal_id;
        self.proposals.push(proposal);
        self.proposal_votes.push(ProposalVote::default());
        self.next_proposal_id = id + 1;
        Ok(id)
    }

    /// Casts `caller`'s ballot on `proposal_id` at time `now`. The weight is
    /// `caller_balance` as a whole percentage of `total_supply`, both read
    /// from the governance token at the time of the vote.
    pub fn vote(
        &mut self,
        proposal_id: ProposalId,
        vote: VoteType,
        caller: AccountId,
        now: u64,
        total_supply: Balance,
        caller_balance: Balance,
    ) -> (r: Result<(), GovernorError>)
        requires
            old(self).wf(),
        ensures
            final(self).wf(),
            r == outcome(old(self)@.vote_error(proposal_id, caller, now, total_supply)),
            r is Ok ==> final(self)@ == old(self)@.voted(
                proposal_id,
                vote,
                caller,
                weight_of(caller_balance as int, total_supply as int) as u128,
            ),
            r is Err ==> final(self)@ == old(self)@,
    {
        let proposal = match self.get_proposal(proposal_id) {
            Ok(p) => p,
            Err(e) => return Err(e),
        };
        if proposal.executed {
            return Err(GovernorError::ProposalAlreadyExecuted);
        }
        if now > proposal.vote_end {
            return Err(GovernorError::VotePeriodEnded);
        }
        if self.has_voted(proposal_id, caller) {
            return Err(GovernorError::AlreadyVoted);
        }
        if total_supply == 0 {
            return Err(GovernorError::DivisionByZero);
        }
        let ghost pre = self@;
        self.votes.push((proposal_id, caller));
        proof {
            old(self).votes@.lemma_push_to_set_commute((proposal_id, caller));
        }
        let weight = vote_weight(caller_balance, total_supply);
        let mut tally = self.proposal_votes[proposal_id as usize];
        match vote {
            VoteType::For => {
                tally.for_votes = tally.for_votes.saturating_add(weight);
            },
            VoteType::Against => {
                tally.against_vote = tally.against_vote.saturating_add(weight);
            },
        }
        self.proposal_votes.set(proposal_id as usize, tally);
        proof {
            assert(self@.tallies =~= pre.voted(proposal_id, vote, caller, weight).tallies);
            assert(self@.ballots =~= pre.voted(proposal_id, vote, caller, weight).ballots);
        }
        Ok(())
    }

    /// Decides whether `proposal_id` may be executed now, with `balance` the
    /// governor's funds, and if so returns the proposal whose transfer is
    /// owed. Nothing changes.
    pub fn decide_execute(&self, proposal_id: ProposalId, balance: Balance) -> (r: Result<
        Proposal,
        GovernorError,
    >)
        requires
            self.wf(),
        ensures
            match self@.execute_error(proposal_id, balance) {
                Some(e) => r == Err::<Proposal, GovernorError>(e),
                None => r == Ok::<Proposal, GovernorError>(self@.proposals[proposal_id as int]),
            },
    {
        let proposal = match self.get_proposal(proposal_id) {
            Ok(p) => p,
            Err(e) => return Err(e),
        };
        if proposal.executed {
            return Err(GovernorError::ProposalAlreadyExecuted);
        }
        let tally = self.proposal_votes[proposal_id as usize];
        if tally.for_votes < self.quorum as u128 && tally.against_vote < self.quorum as u128
            - tally.for_votes {
            return Err(GovernorError::QuorumNotReached);
        }
        if tally.for_votes < tally.against_vote {
            return Err(GovernorError::ProposalNotAccepted);
        }
        if balance <= proposal.amount {
            return Err(GovernorError::InsufficientBalance);
        }
        Ok(proposal)
    }

    /// Executes `proposal_id` once its tally reaches quorum with a majority
    /// in favour and `balance`, the governor's funds, exceeds its amount;
    /// the proposal is then marked executed. The transfer of its amount to
    /// its recipient, which the environment performs, is owed exactly when
    /// this succeeds.
    pub fn execute(&mut self, proposal_id: ProposalId, balance: Balance) -> (r: Result<(), GovernorError>)
        requires
            old(self).wf(),
        ensures
            final(self).wf(),
            r == outcome(old(self)@.execute_error(proposal_id, balance)),
            r is Ok ==> final(self)@ == old(self)@.executed(proposal_id),
            r is Err ==> final(self)@ == old(self)@,
    {
        let mut proposal = match self.decide_execute(proposal_id, balance) {
            Ok(p) => p,
            Err(e) => return Err(e),
        };
        proof {
            assert(self.proposals@[proposal_id as int].valid());
        }
        proposal.executed = true;
        self.proposals.set(proposal_id as usize, proposal);
        proof {
            assert(self@.proposals =~= old(self)@.executed(proposal_id).proposals);
        }
        Ok(())
    }
}

} // verus!
