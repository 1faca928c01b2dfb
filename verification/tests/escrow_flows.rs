use std::collections::HashMap;

use funding_escrow::{EscrowState, Error, FundingEscrowContract};

/// A small host for the escrow: it keeps the token balances and each
/// contributor's recorded contribution, and performs the transfers that the
/// escrow decides, as the deployed contract does.
struct Host {
    escrow: FundingEscrowContract<String>,
    contributions: HashMap<String, i128>,
    balances: HashMap<String, i128>,
    now: u64,
}

const ESCROW: &str = "escrow";

impl Host {
    fn new() -> Host {
        Host {
            escrow: FundingEscrowContract { campaign: None },
            contributions: HashMap::new(),
            balances: HashMap::new(),
            now: 0,
        }
    }

    fn balance(&self, who: &str) -> i128 {
        *self.balances.get(who).unwrap_or(&0)
    }

    fn mint(&mut self, who: &str, amount: i128) {
        let b = self.balance(who);
        self.balances.insert(who.to_string(), b + amount);
    }

    fn transfer(&mut self, from: &str, to: &str, amount: i128) {
        let b = self.balance(from);
        assert!(b >= amount, "insufficient balance");
        self.balances.insert(from.to_string(), b - amount);
        let t = self.balance(to);
        self.balances.insert(to.to_string(), t + amount);
    }

    fn initialize(&mut self, creator: &str, goal: i128, deadline: u64) -> Result<(), Error> {
        self.escrow
            .initialize("token".to_string(), creator.to_string(), goal, deadline, self.now)
    }

    fn contribution(&self, who: &str) -> i128 {
        FundingEscrowContract::<String>::get_contribution(self.contributions.get(who).copied())
    }

    fn fund(&mut self, who: &str, amount: i128) -> Result<(), Error> {
        let mut c = self.contribution(who);
        self.escrow.fund(&mut c, amount, self.now)?;
        self.transfer(who, ESCROW, amount);
        self.contributions.insert(who.to_string(), c);
        Ok(())
    }

    fn claim_funds(&mut self) -> Result<(), Error> {
        self.escrow.creator()?;
        let (payee, paid) = self.escrow.claim_funds(self.now)?;
        let payee = payee.clone();
        self.transfer(ESCROW, &payee, paid);
        Ok(())
    }

    fn claim_refund(&mut self, who: &str) -> Result<(), Error> {
        let mut c = self.contribution(who);
        let paid = self.escrow.claim_refund(&mut c, self.now)?;
        self.contributions.insert(who.to_string(), c);
        self.transfer(ESCROW, who, paid);
        Ok(())
    }

    fn cancel_campaign(&mut self) -> Result<(), Error> {
        self.escrow.creator()?;
        self.escrow.cancel_campaign(self.now)
    }

    fn get_state(&self) -> EscrowState {
        self.escrow.get_state(self.now)
    }
}

/// Fails the way the deployed contract does: a refusal aborts the call.
fn expect_ok(r: Result<(), Error>) {
    if let Err(e) = r {
        panic!("refused: {:?}", e);
    }
}

#[test]
fn test_escrow_funding_success() {
    let mut host = Host::new();
    let goal = 1000i128;
    let deadline = host.now + 1000;
    expect_ok(host.initialize("creator", goal, deadline));

    host.mint("contributor", 2000i128);

    expect_ok(host.fund("contributor", 600i128));
    expect_ok(host.fund("contributor", 400i128));

    let metadata = host.escrow.get_metadata(host.now);
    assert_eq!(metadata.total_raised, 1000);
    assert_eq!(host.contribution("contributor"), 1000);
    assert_eq!(host.balance(ESCROW), 1000);

    host.now = deadline + 10;
    expect_ok(host.claim_funds());

    assert_eq!(host.balance("creator"), 1000);
    assert_eq!(host.balance(ESCROW), 0);
    assert!(host.escrow.get_metadata(host.now).withdrawn);
}

#[test]
fn test_cancel_campaign_and_refund() {
    let mut host = Host::new();
    let deadline = host.now + 1000;
    expect_ok(host.initialize("creator", 1000i128, deadline));

    host.mint("contributor", 1000i128);
    expect_ok(host.fund("contributor", 500i128));

    assert_eq!(host.get_state(), EscrowState::Active);

    // The creator cancels before the deadline.
    expect_ok(host.cancel_campaign());
    assert_eq!(host.get_state(), EscrowState::Cancelled);

    // The contributor is refunded at once, before the deadline.
    expect_ok(host.claim_refund("contributor"));
    assert_eq!(host.balance("contributor"), 1000);
}

#[test]
#[should_panic]
fn test_claim_funds_fails_if_goal_not_reached() {
    let mut host = Host::new();
    let deadline = host.now + 1000;
    expect_ok(host.initialize("creator", 1000i128, deadline));

    host.mint("contributor", 1000i128);
    expect_ok(host.fund("contributor", 500i128));

    host.now = deadline + 10;
    // The claim aborts, refused because the goal was not reached.
    if host.claim_funds() == Err(Error::GoalNotReached) {
        panic!("refused: GoalNotReached");
    }
}

#[test]
fn test_refund_on_campaign_failure() {
    let mut host = Host::new();
    let deadline = host.now + 1000;
    expect_ok(host.initialize("creator", 1000i128, deadline));

    host.mint("contributor", 1000i128);
    expect_ok(host.fund("contributor", 500i128));

    assert_eq!(host.balance("contributor"), 500);

    host.now = deadline + 10;
    assert_eq!(host.get_state(), EscrowState::Failed);
    expect_ok(host.claim_refund("contributor"));

    assert_eq!(host.balance("contributor"), 1000);
    assert_eq!(host.contribution("contributor"), 0);
}

#[test]
#[should_panic]
fn test_escrow_double_initialization() {
    let mut host = Host::new();
    let deadline = host.now + 1000;
    expect_ok(host.initialize("creator", 1000i128, deadline));
    // The second initialization aborts, refused as already initialized.
    if host.initialize("creator", 1000i128, deadline) == Err(Error::AlreadyInitialized) {
        panic!("refused: AlreadyInitialized");
    }
}

#[test]
fn funds_go_to_creator_or_back_never_both() {
    // Goal met: the creator is paid the whole deposit and no refund follows.
    let mut host = Host::new();
    expect_ok(host.initialize("creator", 700, 100));
    host.mint("a", 500);
    host.mint("b", 500);
    expect_ok(host.fund("a", 300));
    expect_ok(host.fund("b", 400));
    host.now = 100;
    expect_ok(host.claim_funds());
    assert_eq!(host.balance("creator"), 700);
    assert_eq!(host.claim_refund("a"), Err(Error::GoalAlreadyReached));
    assert_eq!(host.claim_funds(), Err(Error::AlreadyClaimed));
    assert_eq!(host.balance(ESCROW), 0);

    // Goal missed: each contributor gets back exactly what they paid; the
    // creator gets nothing.
    let mut host = Host::new();
    expect_ok(host.initialize("creator", 1000, 100));
    host.mint("a", 500);
    host.mint("b", 500);
    expect_ok(host.fund("a", 300));
    expect_ok(host.fund("b", 400));
    host.now = 150;
    expect_ok(host.claim_refund("a"));
    assert_eq!(host.claim_refund("a"), Err(Error::NoContribution));
    assert_eq!(host.claim_funds(), Err(Error::GoalNotReached));
    expect_ok(host.claim_refund("b"));
    assert_eq!(host.balance("a"), 500);
    assert_eq!(host.balance("b"), 500);
    assert_eq!(host.balance("creator"), 0);
    assert_eq!(host.balance(ESCROW), 0);
}

#[test]
fn refund_then_later_requests_never_pay_twice() {
    let mut host = Host::new();
    expect_ok(host.initialize("creator", 1000, 100));
    host.mint("a", 800);
    expect_ok(host.fund("a", 300));
    host.now = 120;
    expect_ok(host.claim_refund("a"));
    assert_eq!(host.balance("a"), 800);
    // Requests in between change nothing: the campaign has failed.
    host.now = 130;
    assert_eq!(host.fund("a", 900), Err(Error::NotActive));
    assert_eq!(host.cancel_campaign(), Err(Error::NotActive));
    host.now = 140;
    assert_eq!(host.claim_refund("a"), Err(Error::NoContribution));
    assert_eq!(host.claim_funds(), Err(Error::GoalNotReached));
    assert_eq!(host.balance(ESCROW), 0);
    assert_eq!(host.balance("creator"), 0);
}
