//! Laws that relate the escrow's decisions to one another.

use vstd::prelude::*;

use crate::escrow::{
    claim_funds_outcome, claim_refund_outcome, initialize_outcome, metadata_at, state_at,
};
use crate::types::{Campaign, EscrowMetadata, EscrowState, Error};

verus! {

/// A campaign is initialized only once: after a successful initialization,
/// every further initialization is refused with `AlreadyInitialized`.
pub proof fn lemma_initialize_only_once<A>(
    campaign: Option<Campaign<A>>,
    token: A,
    creator: A,
    goal: i128,
    deadline: u64,
    now: int,
    token2: A,
    creator2: A,
    goal2: i128,
    deadline2: u64,
    now2: int,
)
    requires
        initialize_outcome(campaign, token, creator, goal, deadline, now) is Ok,
    ensures
        initialize_outcome(
            Some(initialize_outcome(campaign, token, creator, goal, deadline, now)->Ok_0),
            token2,
            creator2,
            goal2,
            deadline2,
            now2,
        ) == Err::<Campaign<A>, Error>(Error::AlreadyInitialized),
{
}

/// The creator is paid at most once: after a successful claim, every further
/// claim is refused with `AlreadyClaimed`.
pub proof fn lemma_claim_funds_only_once<A>(campaign: Option<Campaign<A>>, now: int, later: int)
    requires
        claim_funds_outcome(campaign, now) is Ok,
    ensures
        claim_funds_outcome(Some(claim_funds_outcome(campaign, now)->Ok_0.0), later) == Err::<
            (Campaign<A>, int),
            Error,
        >(Error::AlreadyClaimed),
{
}

/// A contributor is refunded at most once: a successful refund leaves the
/// contributor's recorded contribution at 0, on which every further refund
/// claim is refused, with `NoContribution` at the same or a later time.
pub proof fn lemma_refund_only_once<A>(
    campaign: Option<Campaign<A>>,
    contribution: int,
    now: int,
    later: int,
)
    requires
        claim_refund_outcome(campaign, contribution, now) is Ok,
    ensures
        claim_refund_outcome(campaign, 0, later) is Err,
        now <= later ==> claim_refund_outcome(campaign, 0, later) == Err::<int, Error>(
            Error::NoContribution,
        ),
{
}

/// Once the creator has claimed the funds, no contributor can claim a refund,
/// at any time and whatever their recorded contribution.
pub proof fn lemma_no_refund_after_claim<A>(
    campaign: Option<Campaign<A>>,
    now: int,
    contribution: int,
    later: int,
)
    requires
        claim_funds_outcome(campaign, now) is Ok,
    ensures
        claim_refund_outcome(
            Some(claim_funds_outcome(campaign, now)->Ok_0.0),
            contribution,
            later,
        ) is Err,
{
}

/// Payouts follow the phase: the creator is paid only from a successful
/// campaign, and a contributor is refunded only from a failed or cancelled
/// one (for a campaign that was only withdrawn with its goal reached).
pub proof fn lemma_payouts_follow_phase<A>(campaign: Option<Campaign<A>>, contribution: int, now: int)
    requires
        campaign matches Some(c) ==> (c.withdrawn ==> c.total_raised >= c.goal),
    ensures
        claim_funds_outcome(campaign, now) is Ok ==> state_at(campaign, now)
            == EscrowState::Successful,
        claim_refund_outcome(campaign, contribution, now) is Ok ==> (state_at(campaign, now)
            == EscrowState::Failed || state_at(campaign, now) == EscrowState::Cancelled),
{
}

/// The phase changes only out of `Active`: a campaign that is not active at
/// one time is in the same phase at every later time.
pub proof fn lemma_state_settles<A>(campaign: Option<Campaign<A>>, now: int, later: int)
    requires
        now <= later,
        state_at(campaign, now) != EscrowState::Active,
    ensures
        state_at(campaign, later) == state_at(campaign, now),
{
}

/// Right after a successful initialization, before the deadline, the
/// metadata shows the accounts, goal and deadline it was given, nothing
/// raised, nothing withdrawn, and the campaign active.
pub proof fn lemma_metadata_after_initialize<A>(
    campaign: Option<Campaign<A>>,
    token: A,
    creator: A,
    goal: i128,
    deadline: u64,
    now: int,
    later: int,
)
    requires
        initialize_outcome(campaign, token, creator, goal, deadline, now) is Ok,
        now <= later < deadline,
    ensures
        metadata_at(initialize_outcome(campaign, token, creator, goal, deadline, now)->Ok_0, later)
            == (EscrowMetadata {
            token,
            creator,
            goal,
            deadline,
            total_raised: 0,
            withdrawn: false,
            state: EscrowState::Active,
        }),
{
}

} // verus!
