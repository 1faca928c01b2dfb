//! The escrow's rules stated directly over the stored campaign's fields: when
//! each operation succeeds, what it then yields, and why it is refused
//! otherwise.

use vstd::prelude::*;

use crate::escrow::{
    cancel_outcome, claim_funds_outcome, claim_refund_outcome, fund_outcome, initialize_outcome,
    metadata_at, state_at,
};
use crate::types::{Campaign, EscrowState, Error};

verus! {

/// The phase of an initialized campaign: cancelled once the creator
/// cancelled; otherwise successful once withdrawn or once the goal is reached;
/// otherwise failed from the deadline on, and active before it.
pub proof fn lemma_phase_rules<A>(c: Campaign<A>, now: int)
    ensures
        c.stored_state == EscrowState::Cancelled ==> state_at(Some(c), now)
            == EscrowState::Cancelled,
        c.stored_state != EscrowState::Cancelled && (c.withdrawn || c.total_raised >= c.goal)
            ==> state_at(Some(c), now) == EscrowState::Successful,
        c.stored_state != EscrowState::Cancelled && !c.withdrawn && c.total_raised < c.goal
            && now >= c.deadline ==> state_at(Some(c), now) == EscrowState::Failed,
        c.stored_state != EscrowState::Cancelled && !c.withdrawn && c.total_raised < c.goal
            && now < c.deadline ==> state_at(Some(c), now) == EscrowState::Active,
{
}

/// The metadata reports the stored campaign as it is, and its phase is the
/// phase that `get_state` reports at the same time.
pub proof fn lemma_metadata_reports_phase<A>(c: Campaign<A>, now: int)
    ensures
        metadata_at(c, now).state == state_at(Some(c), now),
        metadata_at(c, now).token == c.token,
        metadata_at(c, now).creator == c.creator,
        metadata_at(c, now).goal == c.goal,
        metadata_at(c, now).deadline == c.deadline,
        metadata_at(c, now).total_raised == c.total_raised,
        metadata_at(c, now).withdrawn == c.withdrawn,
{
}

/// Initialization succeeds exactly on an uninitialized escrow with a positive
/// goal and a deadline after `now`, and then records those terms with nothing
/// raised, nothing withdrawn and the campaign not cancelled.
pub proof fn lemma_initialize_rules<A>(
    campaign: Option<Campaign<A>>,
    token: A,
    creator: A,
    goal: i128,
    deadline: u64,
    now: int,
)
    ensures
        initialize_outcome(campaign, token, creator, goal, deadline, now) is Ok <==> (campaign is None
            && goal > 0 && deadline > now),
        campaign is Some ==> initialize_outcome(campaign, token, creator, goal, deadline, now)
            == Err::<Campaign<A>, Error>(Error::AlreadyInitialized),
        campaign is None && goal <= 0 ==> initialize_outcome(
            campaign,
            token,
            creator,
            goal,
            deadline,
            now,
        ) == Err::<Campaign<A>, Error>(Error::InvalidGoal),
        campaign is None && goal > 0 && deadline <= now ==> initialize_outcome(
            campaign,
            token,
            creator,
            goal,
            deadline,
            now,
        ) == Err::<Campaign<A>, Error>(Error::InvalidDeadline),
        initialize_outcome(campaign, token, creator, goal, deadline, now) matches Ok(c) ==> {
            &&& c.token == token
            &&& c.creator == creator
            &&& c.goal == goal
            &&& c.deadline == deadline
            &&& c.total_raised == 0
            &&& !c.withdrawn
            &&& c.stored_state == EscrowState::Active
        },
{
}

/// Cancelling succeeds exactly on a campaign that is neither cancelled nor
/// withdrawn, short of its goal and before its deadline, whatever it has
/// raised so far; it then marks the campaign cancelled and changes nothing
/// else. Any other initialized campaign is refused with `NotActive`.
pub proof fn lemma_cancel_rules<A>(c: Campaign<A>, now: int)
    ensures
        cancel_outcome(Some(c), now) is Ok <==> (c.stored_state != EscrowState::Cancelled
            && !c.withdrawn && c.total_raised < c.goal && now < c.deadline),
        cancel_outcome(Some(c), now) is Err ==> cancel_outcome(Some(c), now) == Err::<
            Campaign<A>,
            Error,
        >(Error::NotActive),
        cancel_outcome(Some(c), now) matches Ok(n) ==> {
            &&& n.stored_state == EscrowState::Cancelled
            &&& n.token == c.token
            &&& n.creator == c.creator
            &&& n.goal == c.goal
            &&& n.deadline == c.deadline
            &&& n.total_raised == c.total_raised
            &&& n.withdrawn == c.withdrawn
        },
        cancel_outcome(None::<Campaign<A>>, now) == Err::<Campaign<A>, Error>(Error::NotInitialized),
{
}

/// A contribution is taken exactly when the amount is positive and the
/// campaign is neither cancelled nor withdrawn, short of its goal and before
/// its deadline, at any time before the deadline; it then adds the amount to
/// the total raised and to the contributor's contribution and changes nothing
/// else. Otherwise it is refused: `NotActive` when the campaign does not take
/// contributions, else `InvalidAmount`.
pub proof fn lemma_fund_rules<A>(c: Campaign<A>, contribution: int, amount: int, now: int)
    ensures
        fund_outcome(Some(c), contribution, amount, now) is Ok <==> (c.stored_state
            != EscrowState::Cancelled && !c.withdrawn && c.total_raised < c.goal && now < c.deadline
            && amount > 0),
        !(c.stored_state != EscrowState::Cancelled && !c.withdrawn && c.total_raised < c.goal
            && now < c.deadline) ==> fund_outcome(Some(c), contribution, amount, now) == Err::<
            (Campaign<A>, int),
            Error,
        >(Error::NotActive),
        c.stored_state != EscrowState::Cancelled && !c.withdrawn && c.total_raised < c.goal && now
            < c.deadline && amount <= 0 ==> fund_outcome(Some(c), contribution, amount, now)
            == Err::<(Campaign<A>, int), Error>(Error::InvalidAmount),
        fund_outcome(Some(c), contribution, amount, now) matches Ok((n, k)) ==> {
            &&& c.total_raised + amount <= i128::MAX ==> n.total_raised == c.total_raised + amount
            &&& k == contribution + amount
            &&& n.token == c.token
            &&& n.creator == c.creator
            &&& n.goal == c.goal
            &&& n.deadline == c.deadline
            &&& n.withdrawn == c.withdrawn
            &&& n.stored_state == c.stored_state
        },
        fund_outcome(None::<Campaign<A>>, contribution, amount, now) == Err::<(Campaign<A>, int), Error>(
            Error::NotInitialized,
        ),
{
}

/// The creator's claim is paid exactly when the campaign is neither withdrawn
/// nor cancelled, its goal is reached and its deadline has passed, at any time
/// from the deadline on; it then marks the campaign withdrawn, changes nothing
/// else, and pays the whole total raised. Otherwise it is refused:
/// `AlreadyClaimed` when withdrawn, else `AlreadyCancelled` when cancelled,
/// else `CampaignActive` before the deadline, else `GoalNotReached`.
pub proof fn lemma_claim_funds_rules<A>(c: Campaign<A>, now: int)
    ensures
        claim_funds_outcome(Some(c), now) is Ok <==> (!c.withdrawn && c.stored_state
            != EscrowState::Cancelled && c.total_raised >= c.goal && now >= c.deadline),
        claim_funds_outcome(Some(c), now) matches Ok((n, paid)) ==> {
            &&& paid == c.total_raised
            &&& n.withdrawn
            &&& n.token == c.token
            &&& n.creator == c.creator
            &&& n.goal == c.goal
            &&& n.deadline == c.deadline
            &&& n.total_raised == c.total_raised
            &&& n.stored_state == c.stored_state
        },
        c.withdrawn ==> claim_funds_outcome(Some(c), now) == Err::<(Campaign<A>, int), Error>(
            Error::AlreadyClaimed,
        ),
        !c.withdrawn && c.stored_state == EscrowState::Cancelled ==> claim_funds_outcome(Some(c), now)
            == Err::<(Campaign<A>, int), Error>(Error::AlreadyCancelled),
        !c.withdrawn && c.stored_state != EscrowState::Cancelled && now < c.deadline
            ==> claim_funds_outcome(Some(c), now) == Err::<(Campaign<A>, int), Error>(
            Error::CampaignActive,
        ),
        !c.withdrawn && c.stored_state != EscrowState::Cancelled && now >= c.deadline
            && c.total_raised < c.goal ==> claim_funds_outcome(Some(c), now) == Err::<
            (Campaign<A>, int),
            Error,
        >(Error::GoalNotReached),
        claim_funds_outcome(None::<Campaign<A>>, now) == Err::<(Campaign<A>, int), Error>(
            Error::NotInitialized,
        ),
{
}

/// A refund is paid exactly when the contributor has a positive recorded
/// contribution and the campaign was cancelled (at any time, before or after
/// its deadline) or its deadline has passed short of its goal; the whole
/// contribution is then paid. Otherwise it is refused: for a campaign that is
/// not cancelled, `CampaignActive` before the deadline, else
/// `GoalAlreadyReached` when the goal is reached; else `NoContribution`.
pub proof fn lemma_claim_refund_rules<A>(c: Campaign<A>, contribution: int, now: int)
    ensures
        claim_refund_outcome(Some(c), contribution, now) is Ok <==> (contribution > 0 && (
        c.stored_state == EscrowState::Cancelled || (now >= c.deadline && c.total_raised < c.goal))),
        c.stored_state == EscrowState::Cancelled && contribution > 0 ==> claim_refund_outcome(
            Some(c),
            contribution,
            now,
        ) == Ok::<int, Error>(contribution),
        claim_refund_outcome(Some(c), contribution, now) matches Ok(paid) ==> paid == contribution,
        c.stored_state != EscrowState::Cancelled && now < c.deadline ==> claim_refund_outcome(
            Some(c),
            contribution,
            now,
        ) == Err::<int, Error>(Error::CampaignActive),
        c.stored_state != EscrowState::Cancelled && now >= c.deadline && c.total_raised >= c.goal
            ==> claim_refund_outcome(Some(c), contribution, now) == Err::<int, Error>(
            Error::GoalAlreadyReached,
        ),
        (c.stored_state == EscrowState::Cancelled || (now >= c.deadline && c.total_raised < c.goal))
            && contribution <= 0 ==> claim_refund_outcome(Some(c), contribution, now) == Err::<
            int,
            Error,
        >(Error::NoContribution),
        claim_refund_outcome(None::<Campaign<A>>, contribution, now) == Err::<int, Error>(
            Error::NotInitialized,
        ),
{
}

} // verus!
