use vstd::prelude::*;

use crate::types::{Campaign, EscrowMetadata, EscrowState, Error};

verus! {

/// The escrow contract's stored campaign: `None` until it is initialized.
pub struct FundingEscrowContract<A> {
    pub campaign: Option<Campaign<A>>,
}

/// The phase of a stored campaign at time `now`. Before initialization every
/// stored value reads as its default (no phase, not withdrawn, a total and a
/// goal of 0), so the phase reads as `Successful`.
pub open spec fn state_at<A>(campaign: Option<Campaign<A>>, now: int) -> EscrowState {
    match campaign {
        None => EscrowState::Successful,
        Some(c) => {
            if c.stored_state == EscrowState::Cancelled {
                EscrowState::Cancelled
            } else if c.withdrawn || c.total_raised >= c.goal {
                EscrowState::Successful
            } else if now >= c.deadline {
                EscrowState::Failed
            } else {
                EscrowState::Active
            }
        },
    }
}

/// Whether the campaign takes contributions at time `now`.
pub open spec fn is_active<A>(campaign: Option<Campaign<A>>, now: int) -> bool {
    state_at(campaign, now) == EscrowState::Active
}

/// What initializing yields: the new campaign, or the refusal. A campaign is
/// initialized once, with a positive goal and a deadline after `now`.
pub open spec fn initialize_outcome<A>(
    campaign: Option<Campaign<A>>,
    token: A,
    creator: A,
    goal: i128,
    deadline: u64,
    now: int,
) -> Result<Campaign<A>, Error> {
    if campaign is Some {
        Err(Error::AlreadyInitialized)
    } else if goal <= 0 {
        Err(Error::InvalidGoal)
    } else if deadline <= now {
        Err(Error::InvalidDeadline)
    } else {
        Ok(
            Campaign {
                token,
                creator,
                goal,
                deadline,
                total_raised: 0,
                withdrawn: false,
                stored_state: EscrowState::Active,
            },
        )
    }
}

/// What cancelling yields: the campaign marked cancelled, or the refusal.
/// Only an active campaign can be cancelled.
pub open spec fn cancel_outcome<A>(campaign: Option<Campaign<A>>, now: int) -> Result<
    Campaign<A>,
    Error,
> {
    match campaign {
        None => Err(Error::NotInitialized),
        Some(c) => {
            if !is_active(campaign, now) {
                Err(Error::NotActive)
            } else {
                Ok(Campaign { stored_state: EscrowState::Cancelled, ..c })
            }
        },
    }
}

/// What funding `amount` yields: the campaign with `amount` added to its total
/// and the contributor's new recorded contribution, or the refusal.
pub open spec fn fund_outcome<A>(
    campaign: Option<Campaign<A>>,
    contribution: int,
    amount: int,
    now: int,
) -> Result<(Campaign<A>, int), Error> {
    match campaign {
        None => Err(Error::NotInitialized),
        Some(c) => {
            if !is_active(campaign, now) {
                Err(Error::NotActive)
            } else if now >= c.deadline {
                Err(Error::DeadlinePassed)
            } else if amount <= 0 {
                Err(Error::InvalidAmount)
            } else {
                Ok(
                    (
                        Campaign { total_raised: (c.total_raised + amount) as i128, ..c },
                        contribution + amount,
                    ),
                )
            }
        },
    }
}

/// Whether a successful funding's new total and new contribution fit in an `i128`.
pub open spec fn fund_fits<A>(campaign: Option<Campaign<A>>, contribution: int, amount: int) -> bool {
    campaign matches Some(c) ==> {
        &&& c.total_raised + amount <= i128::MAX
        &&& contribution + amount <= i128::MAX
    }
}

/// What the creator's claim yields: the campaign marked withdrawn and the
/// amount paid to the creator (the whole total raised), or the refusal.
pub open spec fn claim_funds_outcome<A>(campaign: Option<Campaign<A>>, now: int) -> Result<
    (Campaign<A>, int),
    Error,
> {
    match campaign {
        None => Err(Error::NotInitialized),
        Some(c) => {
            if c.withdrawn {
                Err(Error::AlreadyClaimed)
            } else if state_at(campaign, now) == EscrowState::Cancelled {
                Err(Error::AlreadyCancelled)
            } else if now < c.deadline {
                Err(Error::CampaignActive)
            } else if c.total_raised < c.goal {
                Err(Error::GoalNotReached)
            } else {
                Ok((Campaign { withdrawn: true, ..c }, c.total_raised as int))
            }
        },
    }
}

/// What a contributor's refund claim yields: the amount refunded (the whole
/// recorded contribution, which then drops to 0), or the refusal. A cancelled
/// campaign refunds at once; any other only after its deadline and only if its
/// goal was not reached.
pub open spec fn claim_refund_outcome<A>(
    campaign: Option<Campaign<A>>,
    contribution: int,
    now: int,
) -> Result<int, Error> {
    match campaign {
        None => Err(Error::NotInitialized),
        Some(c) => {
            if state_at(campaign, now) != EscrowState::Cancelled && now < c.deadline {
                Err(Error::CampaignActive)
            } else if state_at(campaign, now) != EscrowState::Cancelled && c.total_raised
                >= c.goal {
                Err(Error::GoalAlreadyReached)
            } else if contribution <= 0 {
                Err(Error::NoContribution)
            } else {
                Ok(contribution)
            }
        },
    }
}

impl<A> FundingEscrowContract<A> {
    /// Initializes the campaign once, with a positive goal and a deadline after `now`.
    pub fn initialize(&mut self, token: A, creator: A, goal: i128, deadline: u64, now: u64) -> (r:
        Result<(), Error>)
        ensures
            match initialize_outcome(old(self).campaign, token, creator, goal, deadline, now as int) {
                Ok(c) => r is Ok && final(self).campaign == Some(c),
                Err(e) => r == Err::<(), Error>(e) && final(self).campaign == old(self).campaign,
            },
    {
        if self.campaign.is_some() {
            return Err(Error::AlreadyInitialized);
        }
        if goal <= 0 {
            return Err(Error::InvalidGoal);
        }
        if deadline <= now {
            return Err(Error::InvalidDeadline);
        }
        self.campaign = Some(
            Campaign {
                token,
                creator,
                goal,
                deadline,
                total_raised: 0,
                withdrawn: false,
                stored_state: EscrowState::Active,
            },
        );
        Ok(())
    }

    /// The campaign's creator: the account whose authorization cancelling,
    /// claiming the funds and upgrading the contract require.
    pub fn creator(&self) -> (r: Result<&A, Error>)
        ensures
            match self.campaign {
                Some(c) => r == Ok::<&A, Error>(&c.creator),
                None => r == Err::<&A, Error>(Error::NotInitialized),
            },
    {
        match &self.campaign {
            Some(c) => Ok(&c.creator),
            None => Err(Error::NotInitialized),
        }
    }

    /// Cancels an active campaign (the creator's authorization is checked by the caller first).
    pub fn cancel_campaign(&mut self, now: u64) -> (r: Result<(), Error>)
        ensures
            match cancel_outcome(old(self).campaign, now as int) {
                Ok(c) => r is Ok && final(self).campaign == Some(c),
                Err(e) => r == Err::<(), Error>(e) && final(self).campaign == old(self).campaign,
            },
    {
        let state = self.get_state(now);
        match &mut self.campaign {
            None => Err(Error::NotInitialized),
            Some(c) => {
                if state != EscrowState::Active {
                    return Err(Error::NotActive);
                }
                c.stored_state = EscrowState::Cancelled;
                Ok(())
            },
        }
    }

    /// Takes a contribution of `amount` at time `now` into an active campaign
    /// before its deadline. `contribution` is the contributor's recorded
    /// contribution; on success `amount` is added to it and to the total raised,
    /// and the caller moves `amount` of the token from the contributor to the escrow.
    pub fn fund(&mut self, contribution: &mut i128, amount: i128, now: u64) -> (r: Result<(), Error>)
        requires
            fund_outcome(old(self).campaign, *old(contribution) as int, amount as int, now as int) is Ok
                ==> fund_fits(old(self).campaign, *old(contribution) as int, amount as int),
        ensures
            match fund_outcome(old(self).campaign, *old(contribution) as int, amount as int, now as int) {
                Ok((c, n)) => {
                    &&& r is Ok
                    &&& final(self).campaign == Some(c)
                    &&& *final(contribution) == n
                },
                Err(e) => {
                    &&& r == Err::<(), Error>(e)
                    &&& final(self).campaign == old(self).campaign
                    &&& *final(contribution) == *old(contribution)
                },
            },
    {
        let state = self.get_state(now);
        match &mut self.campaign {
            None => Err(Error::NotInitialized),
            Some(c) => {
                if state != EscrowState::Active {
                    return Err(Error::NotActive);
                }
                if now >= c.deadline {
                    return Err(Error::DeadlinePassed);
                }
                if amount <= 0 {
                    return Err(Error::InvalidAmount);
                }
                *contribution = *contribution + amount;
                c.total_raised = c.total_raised + amount;
                Ok(())
            },
        }
    }

    /// The creator's claim at time `now`: on success the campaign is marked
    /// withdrawn and the result is the payout: the account paid, the creator,
    /// and the amount, the whole total raised, that the caller transfers to it
    /// (after checking the creator's authorization).
    pub fn claim_funds(&mut self, now: u64) -> (r: Result<(&A, i128), Error>)
        ensures
            match claim_funds_outcome(old(self).campaign, now as int) {
                Ok((c, paid)) => {
                    &&& r is Ok
                    &&& *r->Ok_0.0 == old(self).campaign->0.creator
                    &&& r->Ok_0.1 == paid
                    &&& final(self).campaign == Some(c)
                },
                Err(e) => r is Err && r->Err_0 == e && final(self).campaign == old(self).campaign,
            },
    {
        let state = self.get_state(now);
        match &mut self.campaign {
            None => Err(Error::NotInitialized),
            Some(c) => {
                if c.withdrawn {
                    return Err(Error::AlreadyClaimed);
                }
                if state == EscrowState::Cancelled {
                    return Err(Error::AlreadyCancelled);
                }
                if now < c.deadline {
                    return Err(Error::CampaignActive);
                }
                if c.total_raised < c.goal {
                    return Err(Error::GoalNotReached);
                }
                c.withdrawn = true;
                Ok((&c.creator, c.total_raised))
            },
        }
    }

    /// A contributor's refund claim at time `now`. `contribution` is the
    /// contributor's recorded contribution; on success it drops to 0 and the
    /// result is the amount that the caller pays back to the contributor.
    pub fn claim_refund(&self, contribution: &mut i128, now: u64) -> (r: Result<i128, Error>)
        ensures
            match claim_refund_outcome(self.campaign, *old(contribution) as int, now as int) {
                Ok(paid) => r == Ok::<i128, Error>(paid as i128) && *final(contribution) == 0,
                Err(e) => r == Err::<i128, Error>(e) && *final(contribution) == *old(contribution),
            },
    {
        let state = self.get_state(now);
        match &self.campaign {
            None => Err(Error::NotInitialized),
            Some(c) => {
                if state != EscrowState::Cancelled {
                    if now < c.deadline {
                        return Err(Error::CampaignActive);
                    }
                    if c.total_raised >= c.goal {
                        return Err(Error::GoalAlreadyReached);
                    }
                }
                let refund = *contribution;
                if refund <= 0 {
                    return Err(Error::NoContribution);
                }
                *contribution = 0;
                Ok(refund)
            },
        }
    }

    /// The contribution recorded for a contributor, given what the host has
    /// stored for them: nothing stored reads as 0.
    pub fn get_contribution(stored: Option<i128>) -> (amount: i128)
        ensures
            amount == match stored {
                Some(v) => v,
                None => 0,
            },
    {
        match stored {
            Some(v) => v,
            None => 0,
        }
    }

    /// The current phase of the campaign at time `now`.
    pub fn get_state(&self, now: u64) -> (s: EscrowState)
        ensures
            s == state_at(self.campaign, now as int),
    {
        match &self.campaign {
            None => EscrowState::Successful,
            Some(c) => {
                if c.stored_state == EscrowState::Cancelled {
                    return EscrowState::Cancelled;
                }
                if c.withdrawn {
                    return EscrowState::Successful;
                }
                if c.total_raised >= c.goal {
                    EscrowState::Successful
                } else if now >= c.deadline {
                    EscrowState::Failed
                } else {
                    EscrowState::Active
                }
            },
        }
    }
}

/// The metadata of an initialized campaign at time `now`.
pub open spec fn metadata_at<A>(c: Campaign<A>, now: int) -> EscrowMetadata<A> {
    EscrowMetadata {
        token: c.token,
        creator: c.creator,
        goal: c.goal,
        deadline: c.deadline,
        total_raised: c.total_raised,
        withdrawn: c.withdrawn,
        state: state_at(Some(c), now),
    }
}

impl<A> FundingEscrowContract<A> {
    /// The campaign's metadata at time `now`, with the stored accounts lent
    /// out; the campaign must be initialized.
    pub fn get_metadata(&self, now: u64) -> (m: EscrowMetadata<&A>)
        requires
            self.campaign is Some,
        ensures
            *m.token == metadata_at(self.campaign->0, now as int).token,
            *m.creator == metadata_at(self.campaign->0, now as int).creator,
            m.goal == metadata_at(self.campaign->0, now as int).goal,
            m.deadline == metadata_at(self.campaign->0, now as int).deadline,
            m.total_raised == metadata_at(self.campaign->0, now as int).total_raised,
            m.withdrawn == metadata_at(self.campaign->0, now as int).withdrawn,
            m.state == metadata_at(self.campaign->0, now as int).state,
    {
        let state = self.get_state(now);
        let c = self.campaign.as_ref().unwrap();
        EscrowMetadata {
            token: &c.token,
            creator: &c.creator,
            goal: c.goal,
            deadline: c.deadline,
            total_raised: c.total_raised,
            withdrawn: c.withdrawn,
            state,
        }
    }
}

} // verus!
