use vstd::prelude::*;

verus! {

/// Amount of the native currency or of the governance token.
pub type Balance = u128;

/// Identifier of a proposal, assigned sequentially from zero.
pub type ProposalId = u32;

/// A 32-byte account address.
#[derive(Clone, Copy, Debug, Eq)]
pub struct AccountId(pub [u8; 32]);

impl PartialEq for AccountId {
    fn eq(&self, o: &AccountId) -> (r: bool) {
        let mut i: usize = 0;
        while i < 32
            invariant
                i <= 32,
                forall|j: int| 0 <= j < i ==> self.0@[j] == o.0@[j],
            decreases 32 - i,
        {
            if self.0[i] != o.0[i] {
                return false;
            }
            i = i + 1;
        }
        proof {
            assert(self.0@ =~= o.0@);
            assert(self.0 =~= o.0);
        }
        true
    }
}

impl vstd::std_specs::cmp::PartialEqSpecImpl for AccountId {
    open spec fn obeys_eq_spec() -> bool {
        true
    }

    open spec fn eq_spec(&self, o: &AccountId) -> bool {
        self.0 == o.0
    }
}

impl From<[u8; 32]> for AccountId {
    fn from(bytes: [u8; 32]) -> (r: AccountId)
        ensures
            r.0 == bytes,
    {
        AccountId(bytes)
    }
}

impl vstd::std_specs::convert::FromSpecImpl<[u8; 32]> for AccountId {
    open spec fn obeys_from_spec() -> bool {
        true
    }

    open spec fn from_spec(bytes: [u8; 32]) -> AccountId {
        AccountId(bytes)
    }
}

/// The side a ballot is cast on.
#[derive(Clone, Copy, Debug, PartialEq, Eq, Structural)]
pub enum VoteType {
    Against,
    For,
}

/// Every way an operation of the governor can fail. A failed operation
/// leaves the governor unchanged.
#[derive(Clone, Copy, Debug, PartialEq, Eq, Structural)]
pub enum GovernorError {
    AmountShouldNotBeZero,
    DurationError,
    ProposalNotFound,
    ProposalAlreadyExecuted,
    VotePeriodEnded,
    AlreadyVoted,
    QuorumNotReached,
    ProposalNotAccepted,
    InsufficientBalance,
    /// The token ledger reported a total supply of zero, so no weight exists.
    DivisionByZero,
}

/// A request to transfer `amount` to `to`, open for votes from `vote_start`
/// to `vote_end` (inclusive).
#[derive(Clone, Copy, Debug, Eq)]
pub struct Proposal {
    pub to: AccountId,
    pub vote_start: u64,
    pub vote_end: u64,
    pub executed: bool,
    pub amount: Balance,
}

impl Proposal {
    /// A proposal moves a positive amount and is open for a non-empty window.
    pub open spec fn valid(self) -> bool {
        self.amount > 0 && self.vote_start < self.vote_end
    }
}

impl PartialEq for Proposal {
    fn eq(&self, o: &Proposal) -> (r: bool) {
        self.to == o.to && self.vote_start == o.vote_start && self.vote_end == o.vote_end
            && self.executed == o.executed && self.amount == o.amount
    }
}

impl vstd::std_specs::cmp::PartialEqSpecImpl for Proposal {
    open spec fn obeys_eq_spec() -> bool {
        true
    }

    open spec fn eq_spec(&self, o: &Proposal) -> bool {
        *self == *o
    }
}

/// Summed vote weight on each side of a proposal, in percent of the token
/// supply at the time of each vote. Both sums saturate at `u128::MAX`.
#[derive(Clone, Copy, Debug, PartialEq, Eq, Structural)]
pub struct ProposalVote {
    pub for_votes: u128,
    pub against_vote: u128,
}

impl ProposalVote {
    /// The tally of a proposal that nobody has voted on.
    pub open spec fn zero() -> ProposalVote {
        ProposalVote { for_votes: 0, against_vote: 0 }
    }
}

impl Default for ProposalVote {
    fn default() -> (r: ProposalVote)
        ensures
            r == ProposalVote::zero(),
    {
        ProposalVote { for_votes: 0, against_vote: 0 }
    }
}

} // verus!
