use funding_escrow::{Campaign, EscrowState, Error, FundingEscrowContract};

fn fresh() -> FundingEscrowContract<u32> {
    FundingEscrowContract { campaign: None }
}

/// A campaign with goal 1000 and deadline 1000, initialized at time 0.
fn started() -> FundingEscrowContract<u32> {
    let mut e = fresh();
    assert_eq!(e.initialize(7, 9, 1000, 1000, 0), Ok(()));
    e
}

#[test]
fn initialize_records_the_campaign() {
    let e = started();
    let c: &Campaign<u32> = e.campaign.as_ref().unwrap();
    assert_eq!(c.token, 7);
    assert_eq!(c.creator, 9);
    assert_eq!(c.goal, 1000);
    assert_eq!(c.deadline, 1000);
    assert_eq!(c.total_raised, 0);
    assert!(!c.withdrawn);
    assert_eq!(c.stored_state, EscrowState::Active);
    assert_eq!(e.creator(), Ok(&9));
}

#[test]
fn initialize_refusals() {
    let mut e = fresh();
    assert_eq!(e.initialize(7, 9, 0, 1000, 0), Err(Error::InvalidGoal));
    assert_eq!(e.initialize(7, 9, -5, 1000, 0), Err(Error::InvalidGoal));
    assert_eq!(e.initialize(7, 9, 1000, 50, 50), Err(Error::InvalidDeadline));
    assert_eq!(e.initialize(7, 9, 1000, 49, 50), Err(Error::InvalidDeadline));
    assert!(e.campaign.is_none());
    assert_eq!(e.initialize(7, 9, 1000, 51, 50), Ok(()));
    assert_eq!(e.initialize(1, 2, 5, 500, 50), Err(Error::AlreadyInitialized));
    assert_eq!(e.campaign.as_ref().unwrap().goal, 1000);
}

#[test]
fn uninitialized_escrow_refuses_everything() {
    let mut e = fresh();
    let mut c: i128 = 10;
    assert_eq!(e.get_state(0), EscrowState::Successful);
    assert_eq!(e.creator(), Err(Error::NotInitialized));
    assert_eq!(e.cancel_campaign(0), Err(Error::NotInitialized));
    assert_eq!(e.fund(&mut c, 5, 0), Err(Error::NotInitialized));
    assert_eq!(e.claim_funds(0), Err(Error::NotInitialized));
    assert_eq!(e.claim_refund(&mut c, 0), Err(Error::NotInitialized));
    assert_eq!(c, 10);
}

#[test]
fn phases_over_time() {
    let mut e = started();
    assert_eq!(e.get_state(0), EscrowState::Active);
    assert_eq!(e.get_state(999), EscrowState::Active);
    assert_eq!(e.get_state(1000), EscrowState::Failed);
    let mut c: i128 = 0;
    assert_eq!(e.fund(&mut c, 1000, 10), Ok(()));
    assert_eq!(e.get_state(10), EscrowState::Successful);
    assert_eq!(e.get_state(5000), EscrowState::Successful);
}

#[test]
fn fund_adds_to_total_and_contribution() {
    let mut e = started();
    let mut c: i128 = 25;
    assert_eq!(e.fund(&mut c, 100, 10), Ok(()));
    assert_eq!(c, 125);
    assert_eq!(e.campaign.as_ref().unwrap().total_raised, 100);
    assert_eq!(e.get_metadata(10).total_raised, 100);
}

#[test]
fn fund_refusals() {
    let mut e = started();
    let mut c: i128 = 0;
    assert_eq!(e.fund(&mut c, 0, 10), Err(Error::InvalidAmount));
    assert_eq!(e.fund(&mut c, -3, 10), Err(Error::InvalidAmount));
    assert_eq!(e.fund(&mut c, 10, 1000), Err(Error::NotActive));
    assert_eq!(c, 0);
    assert_eq!(e.campaign.as_ref().unwrap().total_raised, 0);
    // Once the goal is reached the campaign takes no more funds.
    assert_eq!(e.fund(&mut c, 1000, 10), Ok(()));
    assert_eq!(e.fund(&mut c, 1, 11), Err(Error::NotActive));
    assert_eq!(c, 1000);
}

#[test]
fn cancel_only_while_active() {
    let mut e = started();
    assert_eq!(e.cancel_campaign(1000), Err(Error::NotActive));
    assert_eq!(e.cancel_campaign(10), Ok(()));
    assert_eq!(e.get_state(10), EscrowState::Cancelled);
    assert_eq!(e.cancel_campaign(11), Err(Error::NotActive));
    let mut c: i128 = 0;
    assert_eq!(e.fund(&mut c, 5, 12), Err(Error::NotActive));
    assert_eq!(e.claim_funds(2000), Err(Error::AlreadyCancelled));
    assert_eq!(e.get_state(2000), EscrowState::Cancelled);
}

#[test]
fn claim_funds_rules() {
    let mut e = started();
    let mut c: i128 = 0;
    assert_eq!(e.fund(&mut c, 1200, 10), Ok(()));
    assert_eq!(e.claim_funds(999), Err(Error::CampaignActive));
    assert_eq!(e.claim_funds(1000), Ok((&9, 1200)));
    assert!(e.campaign.as_ref().unwrap().withdrawn);
    assert_eq!(e.claim_funds(1001), Err(Error::AlreadyClaimed));
    assert_eq!(e.get_state(1001), EscrowState::Successful);
    // No refund once the creator has been paid.
    assert_eq!(e.claim_refund(&mut c, 1001), Err(Error::GoalAlreadyReached));
    assert_eq!(e.claim_refund(&mut c, 5), Err(Error::CampaignActive));
    assert_eq!(c, 1200);
}

#[test]
fn claim_funds_goal_not_reached() {
    let mut e = started();
    let mut c: i128 = 0;
    assert_eq!(e.fund(&mut c, 999, 10), Ok(()));
    assert_eq!(e.claim_funds(1000), Err(Error::GoalNotReached));
    assert!(!e.campaign.as_ref().unwrap().withdrawn);
}

#[test]
fn claim_refund_rules() {
    let mut e = started();
    let mut c: i128 = 0;
    assert_eq!(e.fund(&mut c, 300, 10), Ok(()));
    assert_eq!(e.claim_refund(&mut c, 999), Err(Error::CampaignActive));
    assert_eq!(c, 300);
    assert_eq!(e.claim_refund(&mut c, 1000), Ok(300));
    assert_eq!(c, 0);
    assert_eq!(e.claim_refund(&mut c, 1001), Err(Error::NoContribution));
    let mut none: i128 = 0;
    assert_eq!(e.claim_refund(&mut none, 1001), Err(Error::NoContribution));
}

#[test]
fn refund_when_goal_reached_is_refused() {
    let mut e = started();
    let mut c: i128 = 0;
    assert_eq!(e.fund(&mut c, 1000, 10), Ok(()));
    assert_eq!(e.claim_refund(&mut c, 1000), Err(Error::GoalAlreadyReached));
    assert_eq!(c, 1000);
}

#[test]
fn cancelled_campaign_refunds_at_once() {
    let mut e = started();
    let mut c: i128 = 0;
    assert_eq!(e.fund(&mut c, 40, 10), Ok(()));
    assert_eq!(e.cancel_campaign(20), Ok(()));
    assert_eq!(e.claim_refund(&mut c, 21), Ok(40));
    assert_eq!(c, 0);
}

#[test]
fn get_contribution_defaults_to_zero() {
    assert_eq!(FundingEscrowContract::<u32>::get_contribution(None), 0);
    assert_eq!(FundingEscrowContract::<u32>::get_contribution(Some(42)), 42);
}

#[test]
fn metadata_reports_the_campaign() {
    let mut e = started();
    let mut c: i128 = 0;
    assert_eq!(e.fund(&mut c, 250, 10), Ok(()));
    let m = e.get_metadata(10);
    assert_eq!(*m.token, 7);
    assert_eq!(*m.creator, 9);
    assert_eq!(m.goal, 1000);
    assert_eq!(m.deadline, 1000);
    assert_eq!(m.total_raised, 250);
    assert!(!m.withdrawn);
    assert_eq!(m.state, EscrowState::Active);
    assert_eq!(e.get_metadata(1000).state, EscrowState::Failed);
}

#[test]
fn metadata_right_after_initialize() {
    let mut e = fresh();
    assert_eq!(e.initialize(3, 4, 500, 80, 20), Ok(()));
    let m = e.get_metadata(50);
    assert_eq!((*m.token, *m.creator), (3, 4));
    assert_eq!((m.goal, m.deadline, m.total_raised), (500, 80, 0));
    assert!(!m.withdrawn);
    assert_eq!(m.state, EscrowState::Active);
}

#[test]
fn cancelled_campaign_stays_cancelled() {
    let mut e = started();
    let mut c: i128 = 0;
    assert_eq!(e.fund(&mut c, 400, 10), Ok(()));
    assert_eq!(e.cancel_campaign(20), Ok(()));
    for t in [20u64, 999, 1000, 5000] {
        assert_eq!(e.fund(&mut c, 1000, t), Err(Error::NotActive));
        assert_eq!(e.cancel_campaign(t), Err(Error::NotActive));
        assert_eq!(e.claim_funds(t), Err(Error::AlreadyCancelled));
        assert_eq!(e.get_state(t), EscrowState::Cancelled);
    }
    let rec = e.campaign.as_ref().unwrap();
    assert_eq!((rec.token, rec.creator, rec.goal, rec.deadline), (7, 9, 1000, 1000));
    assert_eq!(rec.total_raised, 400);
}
