//! A deployment of the escrow as a whole: the campaign record, every
//! contributor's recorded contribution, and the tokens that have moved in and
//! out, driven by a sequence of requests at nondecreasing times. Each request
//! takes effect exactly as the corresponding function of the escrow decides;
//! a refused request changes nothing.

use vstd::prelude::*;

use crate::escrow::{
    cancel_outcome, claim_funds_outcome, claim_refund_outcome, fund_fits, fund_outcome,
    initialize_outcome, state_at,
};
use crate::types::{Campaign, EscrowState, Error};

verus! {

/// A request made to a deployed escrow. Contributors are numbered from 0.
pub enum Request<A> {
    Initialize { token: A, creator: A, goal: i128, deadline: u64 },
    Cancel,
    Fund { account: int, amount: i128 },
    ClaimFunds,
    ClaimRefund { account: int },
}

/// The state of a deployment.
pub struct Deployment<A> {
    pub campaign: Option<Campaign<A>>,
    /// The recorded contribution of each contributor.
    pub contributions: Seq<int>,
    /// What each contributor has paid into the escrow.
    pub deposits: Seq<int>,
    /// What each contributor has been refunded.
    pub refunds: Seq<int>,
    /// All tokens paid into the escrow.
    pub deposited: int,
    /// All tokens paid to the creator.
    pub paid_to_creator: int,
    /// All tokens refunded to contributors.
    pub refunded: int,
    /// The time of the last request.
    pub clock: int,
}

/// The sum of a sequence of integers.
pub open spec fn seq_sum(s: Seq<int>) -> int
    decreases s.len(),
{
    if s.len() == 0 {
        0
    } else {
        seq_sum(s.drop_last()) + s.last()
    }
}

/// A deployment before its first request, with `accounts` contributors.
pub open spec fn fresh<A>(accounts: nat) -> Deployment<A> {
    Deployment {
        campaign: None,
        contributions: Seq::new(accounts, |i: int| 0int),
        deposits: Seq::new(accounts, |i: int| 0int),
        refunds: Seq::new(accounts, |i: int| 0int),
        deposited: 0,
        paid_to_creator: 0,
        refunded: 0,
        clock: 0,
    }
}

/// The tokens that the escrow holds.
pub open spec fn balance<A>(d: Deployment<A>) -> int {
    d.deposited - d.paid_to_creator - d.refunded
}

/// The deployment after `request` made at time `now`.
pub open spec fn step<A>(d: Deployment<A>, request: Request<A>, now: int) -> Deployment<A> {
    let d = Deployment { clock: now, ..d };
    match request {
        Request::Initialize { token, creator, goal, deadline } => {
            match initialize_outcome(d.campaign, token, creator, goal, deadline, now) {
                Ok(c) => Deployment { campaign: Some(c), ..d },
                Err(_) => d,
            }
        },
        Request::Cancel => {
            match cancel_outcome(d.campaign, now) {
                Ok(c) => Deployment { campaign: Some(c), ..d },
                Err(_) => d,
            }
        },
        Request::Fund { account, amount } => {
            if 0 <= account < d.contributions.len() {
                let prev = d.contributions[account];
                match fund_outcome(d.campaign, prev, amount as int, now) {
                    Ok((c, n)) => {
                        if fund_fits(d.campaign, prev, amount as int) {
                            Deployment {
                                campaign: Some(c),
                                contributions: d.contributions.update(account, n),
                                deposits: d.deposits.update(account, d.deposits[account] + amount),
                                deposited: d.deposited + amount,
                                ..d
                            }
                        } else {
                            d
                        }
                    },
                    Err(_) => d,
                }
            } else {
                d
            }
        },
        Request::ClaimFunds => {
            match claim_funds_outcome(d.campaign, now) {
                Ok((c, paid)) => Deployment {
                    campaign: Some(c),
                    paid_to_creator: d.paid_to_creator + paid,
                    ..d
                },
                Err(_) => d,
            }
        },
        Request::ClaimRefund { account } => {
            if 0 <= account < d.contributions.len() {
                match claim_refund_outcome(d.campaign, d.contributions[account], now) {
                    Ok(paid) => Deployment {
                        contributions: d.contributions.update(account, 0),
                        refunds: d.refunds.update(account, d.refunds[account] + paid),
                        refunded: d.refunded + paid,
                        ..d
                    },
                    Err(_) => d,
                }
            } else {
                d
            }
        },
    }
}

/// The deployment after each of `requests`, in order, each made at its time.
pub open spec fn run<A>(d: Deployment<A>, requests: Seq<(Request<A>, u64)>) -> Deployment<A>
    decreases requests.len(),
{
    if requests.len() == 0 {
        d
    } else {
        let last = requests.last();
        step(run(d, requests.drop_last()), last.0, last.1 as int)
    }
}

/// The requests are made at nondecreasing times.
pub open spec fn times_nondecreasing<A>(requests: Seq<(Request<A>, u64)>) -> bool {
    forall|i: int, j: int| 0 <= i <= j < requests.len() ==> requests[i].1 <= requests[j].1
}

/// What the campaign has raised, 0 before initialization.
pub open spec fn total_raised<A>(d: Deployment<A>) -> int {
    match d.campaign {
        Some(c) => c.total_raised as int,
        None => 0,
    }
}

/// The bookkeeping that every reachable deployment keeps: each contributor's
/// deposits are split between the recorded contribution and the refunds; the
/// escrow's deposits are what the campaign raised; the creator has been paid
/// the whole total exactly when the campaign is withdrawn; and withdrawal and
/// refunds exclude each other.
pub open spec fn consistent<A>(d: Deployment<A>) -> bool {
    &&& d.deposits.len() == d.contributions.len()
    &&& d.refunds.len() == d.contributions.len()
    &&& forall|i: int|
        0 <= i < d.contributions.len() ==> {
            &&& #[trigger] d.contributions[i] >= 0
            &&& d.refunds[i] >= 0
            &&& d.contributions[i] + d.refunds[i] == d.deposits[i]
            &&& d.refunds[i] > 0 ==> d.contributions[i] == 0 && d.refunded > 0
        }
    &&& seq_sum(d.contributions) + d.refunded == total_raised(d)
    &&& d.deposited == total_raised(d)
    &&& d.refunded >= 0
    &&& d.clock >= 0
    &&& match d.campaign {
        None => d.paid_to_creator == 0,
        Some(c) => {
            &&& c.goal > 0
            &&& d.paid_to_creator == (if c.withdrawn {
                c.total_raised as int
            } else {
                0
            })
            &&& c.withdrawn ==> {
                &&& d.refunded == 0
                &&& c.stored_state != EscrowState::Cancelled
                &&& c.total_raised >= c.goal
                &&& d.clock >= c.deadline
            }
            &&& d.refunded > 0 ==> (c.stored_state == EscrowState::Cancelled || (!c.withdrawn
                && d.clock >= c.deadline && c.total_raised < c.goal))
        },
    }
}

proof fn lemma_seq_sum_update(s: Seq<int>, i: int, v: int)
    requires
        0 <= i < s.len(),
    ensures
        seq_sum(s.update(i, v)) == seq_sum(s) - s[i] + v,
    decreases s.len(),
{
    let t = s.update(i, v);
    if i == s.len() - 1 {
        assert(t.drop_last() =~= s.drop_last());
    } else {
        assert(t.drop_last() =~= s.drop_last().update(i, v));
        lemma_seq_sum_update(s.drop_last(), i, v);
    }
}

proof fn lemma_seq_sum_nonneg(s: Seq<int>)
    requires
        forall|i: int| 0 <= i < s.len() ==> #[trigger] s[i] >= 0,
    ensures
        seq_sum(s) >= 0,
    decreases s.len(),
{
    if s.len() > 0 {
        lemma_seq_sum_nonneg(s.drop_last());
    }
}

proof fn lemma_seq_sum_zeros(n: nat)
    ensures
        seq_sum(Seq::new(n, |i: int| 0int)) == 0,
    decreases n,
{
    if n > 0 {
        assert(Seq::new(n, |i: int| 0int).drop_last() =~= Seq::new((n - 1) as nat, |i: int| 0int));
        lemma_seq_sum_zeros((n - 1) as nat);
    }
}

proof fn lemma_fresh_consistent<A>(accounts: nat)
    ensures
        consistent(fresh::<A>(accounts)),
{
    lemma_seq_sum_zeros(accounts);
}

proof fn lemma_step_consistent<A>(d: Deployment<A>, request: Request<A>, now: int)
    requires
        consistent(d),
        now >= d.clock,
    ensures
        consistent(step(d, request, now)),
{
    let d0 = Deployment { clock: now, ..d };
    assert(consistent(d0));
    match request {
        Request::Initialize { token, creator, goal, deadline } => {
            if initialize_outcome(d0.campaign, token, creator, goal, deadline, now) is Ok {
                lemma_seq_sum_nonneg(d.contributions);
                let d1 = step(d, request, now);
                assert(total_raised(d1) == 0);
                assert(d1.refunded == 0);
            }
        },
        Request::Cancel => {},
        Request::Fund { account, amount } => {
            if 0 <= account < d.contributions.len() {
                lemma_seq_sum_update(d.contributions, account, d.contributions[account] + amount);
                let d1 = step(d, request, now);
                assert forall|i: int| 0 <= i < d1.contributions.len() implies {
                    &&& #[trigger] d1.contributions[i] >= 0
                    &&& d1.refunds[i] >= 0
                    &&& d1.contributions[i] + d1.refunds[i] == d1.deposits[i]
                    &&& d1.refunds[i] > 0 ==> d1.contributions[i] == 0 && d1.refunded > 0
                } by {
                    assert(d.contributions[i] >= 0);
                }
            }
        },
        Request::ClaimFunds => {},
        Request::ClaimRefund { account } => {
            if 0 <= account < d.contributions.len() {
                lemma_seq_sum_update(d.contributions, account, 0);
                let d1 = step(d, request, now);
                assert forall|i: int| 0 <= i < d1.contributions.len() implies {
                    &&& #[trigger] d1.contributions[i] >= 0
                    &&& d1.refunds[i] >= 0
                    &&& d1.contributions[i] + d1.refunds[i] == d1.deposits[i]
                    &&& d1.refunds[i] > 0 ==> d1.contributions[i] == 0 && d1.refunded > 0
                } by {
                    assert(d.contributions[i] >= 0);
                }
            }
        },
    }
}

proof fn lemma_run_consistent<A>(accounts: nat, requests: Seq<(Request<A>, u64)>)
    requires
        times_nondecreasing(requests),
    ensures
        consistent(run(fresh::<A>(accounts), requests)),
        run(fresh::<A>(accounts), requests).clock == if requests.len() == 0 {
            0
        } else {
            requests.last().1 as int
        },
    decreases requests.len(),
{
    if requests.len() == 0 {
        lemma_fresh_consistent::<A>(accounts);
    } else {
        let prefix = requests.drop_last();
        assert(times_nondecreasing(prefix));
        lemma_run_consistent(accounts, prefix);
        if prefix.len() > 0 {
            assert(prefix.last().1 <= requests.last().1);
        }
        lemma_step_consistent(run(fresh::<A>(accounts), prefix), requests.last().0, requests.last().1 as int);
    }
}

/// The escrow never pays out more than was paid in: from a fresh deployment,
/// after any requests made at nondecreasing times, the tokens paid to the
/// creator and refunded to contributors together are at most the tokens
/// deposited, so the escrow's balance is never negative.
pub proof fn lemma_escrow_never_overdraws<A>(accounts: nat, requests: Seq<(Request<A>, u64)>)
    requires
        times_nondecreasing(requests),
    ensures
        run(fresh::<A>(accounts), requests).paid_to_creator + run(fresh::<A>(accounts), requests).refunded
            <= run(fresh::<A>(accounts), requests).deposited,
        balance(run(fresh::<A>(accounts), requests)) >= 0,
{
    lemma_run_consistent(accounts, requests);
    lemma_seq_sum_nonneg(run(fresh::<A>(accounts), requests).contributions);
}

/// The funds go either to the creator or back to contributors, never both:
/// from a fresh deployment, after any requests made at nondecreasing times,
/// the creator has been paid nothing or the whole deposit, and if the creator
/// has been paid anything no contributor has been refunded.
pub proof fn lemma_creator_or_refunds<A>(accounts: nat, requests: Seq<(Request<A>, u64)>)
    requires
        times_nondecreasing(requests),
    ensures
        run(fresh::<A>(accounts), requests).paid_to_creator == 0 || run(
            fresh::<A>(accounts),
            requests,
        ).paid_to_creator == run(fresh::<A>(accounts), requests).deposited,
        run(fresh::<A>(accounts), requests).paid_to_creator > 0 ==> run(
            fresh::<A>(accounts),
            requests,
        ).refunded == 0,
{
    lemma_run_consistent(accounts, requests);
}

/// Refunds are bounded by contributions: from a fresh deployment, after any
/// requests made at nondecreasing times, no contributor has been refunded more
/// than they paid in, and until the creator is paid the escrow holds exactly
/// the sum of the recorded contributions.
pub proof fn lemma_refunds_bounded_by_deposits<A>(accounts: nat, requests: Seq<(Request<A>, u64)>)
    requires
        times_nondecreasing(requests),
    ensures
        forall|i: int|
            0 <= i < accounts ==> #[trigger] run(fresh::<A>(accounts), requests).refunds[i] <= run(
                fresh::<A>(accounts),
                requests,
            ).deposits[i],
        run(fresh::<A>(accounts), requests).paid_to_creator == 0 ==> balance(
            run(fresh::<A>(accounts), requests),
        ) == seq_sum(run(fresh::<A>(accounts), requests).contributions),
{
    lemma_run_consistent(accounts, requests);
    lemma_run_keeps_accounts(accounts, requests);
    let d = run(fresh::<A>(accounts), requests);
    assert forall|i: int| 0 <= i < accounts implies #[trigger] d.refunds[i] <= d.deposits[i] by {
        assert(d.contributions[i] >= 0);
    }
}

proof fn lemma_run_keeps_accounts<A>(accounts: nat, requests: Seq<(Request<A>, u64)>)
    ensures
        run(fresh::<A>(accounts), requests).contributions.len() == accounts,
    decreases requests.len(),
{
    if requests.len() > 0 {
        lemma_run_keeps_accounts(accounts, requests.drop_last());
    }
}

/// A campaign that has left the active phase stays in the phase it reached:
/// for an initialized campaign that is not active at the time of the last
/// request, any request at the same or a later time leaves it in that phase.
pub proof fn lemma_phase_is_final<A>(d: Deployment<A>, request: Request<A>, now: int)
    requires
        d.campaign is Some,
        now >= d.clock,
        state_at(d.campaign, d.clock) != EscrowState::Active,
    ensures
        state_at(step(d, request, now).campaign, now) == state_at(d.campaign, d.clock),
{
}

proof fn lemma_run_append<A>(d: Deployment<A>, first: Seq<(Request<A>, u64)>, rest: Seq<(Request<A>, u64)>)
    ensures
        run(d, first + rest) == run(run(d, first), rest),
    decreases rest.len(),
{
    if rest.len() == 0 {
        assert(first + rest =~= first);
    } else {
        assert((first + rest).drop_last() =~= first + rest.drop_last());
        lemma_run_append(d, first, rest.drop_last());
    }
}

proof fn lemma_run_clock<A>(d: Deployment<A>, requests: Seq<(Request<A>, u64)>)
    ensures
        run(d, requests).clock == if requests.len() == 0 {
            d.clock
        } else {
            requests.last().1 as int
        },
    decreases requests.len(),
{
}

/// What a run keeps of an initialized campaign: it stays initialized with the
/// same token, creator, goal and deadline; a withdrawn campaign stays
/// withdrawn and a cancelled one stays cancelled; and the refunds only grow.
proof fn lemma_run_keeps_campaign<A>(d: Deployment<A>, requests: Seq<(Request<A>, u64)>)
    requires
        d.campaign is Some,
    ensures
        run(d, requests).campaign is Some,
        run(d, requests).campaign->0.token == d.campaign->0.token,
        run(d, requests).campaign->0.creator == d.campaign->0.creator,
        run(d, requests).campaign->0.goal == d.campaign->0.goal,
        run(d, requests).campaign->0.deadline == d.campaign->0.deadline,
        d.campaign->0.withdrawn ==> run(d, requests).campaign->0.withdrawn,
        d.campaign->0.stored_state == EscrowState::Cancelled ==> run(d, requests).campaign
            == d.campaign,
        d.campaign->0.stored_state == EscrowState::Cancelled ==> run(d, requests).deposited
            == d.deposited && run(d, requests).paid_to_creator == d.paid_to_creator,
    decreases requests.len(),
{
    if requests.len() > 0 {
        lemma_run_keeps_campaign(d, requests.drop_last());
    }
}

/// An initialized campaign's terms are fixed: after an initialization that
/// succeeds at time `now`, whatever requests follow, the campaign stays
/// initialized with the token, creator, goal and deadline it was given, its
/// goal positive and its deadline after `now`.
pub proof fn lemma_campaign_terms_fixed<A>(
    d: Deployment<A>,
    token: A,
    creator: A,
    goal: i128,
    deadline: u64,
    now: u64,
    rest: Seq<(Request<A>, u64)>,
)
    requires
        initialize_outcome(d.campaign, token, creator, goal, deadline, now as int) is Ok,
    ensures
        ({
            let e = run(
                step(d, Request::Initialize { token, creator, goal, deadline }, now as int),
                rest,
            );
            &&& e.campaign is Some
            &&& e.campaign->0.token == token
            &&& e.campaign->0.creator == creator
            &&& e.campaign->0.goal == goal
            &&& e.campaign->0.deadline == deadline
            &&& goal > 0
            &&& deadline > now
        }),
{
    lemma_run_keeps_campaign(
        step(d, Request::Initialize { token, creator, goal, deadline }, now as int),
        rest,
    );
}

/// Cancellation is final: once the campaign is cancelled, whatever requests
/// follow, at whatever times, the campaign record stays exactly as it was
/// (no contribution, cancellation or claim by the creator succeeds, and
/// nothing more is deposited or paid to the creator) and it reads as
/// `Cancelled` at every time.
pub proof fn lemma_cancelled_is_final<A>(d: Deployment<A>, requests: Seq<(Request<A>, u64)>, t: int)
    requires
        d.campaign is Some,
        state_at(d.campaign, d.clock) == EscrowState::Cancelled,
    ensures
        run(d, requests).campaign == d.campaign,
        run(d, requests).deposited == d.deposited,
        run(d, requests).paid_to_creator == d.paid_to_creator,
        state_at(run(d, requests).campaign, t) == EscrowState::Cancelled,
{
    lemma_run_keeps_campaign(d, requests);
}

/// A phase other than `Active` is final over any run: if the campaign is not
/// active at the time of the last request, then after any further requests
/// made at that time or later, in nondecreasing order, it is in the same phase
/// at the time of the last of them.
pub proof fn lemma_phase_is_final_over_run<A>(d: Deployment<A>, requests: Seq<(Request<A>, u64)>)
    requires
        d.campaign is Some,
        state_at(d.campaign, d.clock) != EscrowState::Active,
        times_nondecreasing(requests),
        forall|i: int| 0 <= i < requests.len() ==> #[trigger] requests[i].1 >= d.clock,
    ensures
        state_at(run(d, requests).campaign, run(d, requests).clock) == state_at(d.campaign, d.clock),
    decreases requests.len(),
{
    if requests.len() > 0 {
        let prefix = requests.drop_last();
        assert(times_nondecreasing(prefix));
        assert forall|i: int| 0 <= i < prefix.len() implies #[trigger] prefix[i].1 >= d.clock by {
            assert(prefix[i] == requests[i]);
        }
        lemma_phase_is_final_over_run(d, prefix);
        lemma_run_clock(d, prefix);
        lemma_run_keeps_campaign(d, prefix);
        if prefix.len() > 0 {
            assert(prefix.last().1 <= requests.last().1);
        }
        assert(requests.last().1 >= d.clock);
        lemma_phase_is_final(run(d, prefix), requests.last().0, requests.last().1 as int);
    }
}

/// A run from a fresh deployment split at a request: running the whole is
/// running the part before, the request, then the part after; and the
/// bookkeeping holds before the request and at the end.
proof fn lemma_split_run<A>(
    accounts: nat,
    before: Seq<(Request<A>, u64)>,
    request: Request<A>,
    t: u64,
    after: Seq<(Request<A>, u64)>,
)
    requires
        times_nondecreasing(before.push((request, t)) + after),
    ensures
        run(fresh::<A>(accounts), before.push((request, t)) + after) == run(
            step(run(fresh::<A>(accounts), before), request, t as int),
            after,
        ),
        consistent(run(fresh::<A>(accounts), before)),
        run(fresh::<A>(accounts), before).clock <= t,
        consistent(run(fresh::<A>(accounts), before.push((request, t)) + after)),
{
    let all = before.push((request, t)) + after;
    lemma_run_append(fresh::<A>(accounts), before.push((request, t)), after);
    assert(before.push((request, t)).drop_last() =~= before);
    assert(times_nondecreasing(before)) by {
        assert forall|i: int, j: int| 0 <= i <= j < before.len() implies before[i].1 <= before[j].1 by {
            assert(all[i] == before[i] && all[j] == before[j]);
        }
    }
    lemma_run_consistent(accounts, before);
    if before.len() > 0 {
        assert(all[before.len() - 1] == before.last());
        assert(all[before.len() as int] == (request, t));
    }
    lemma_run_consistent(accounts, all);
}

/// No payout to the creator after a refund: in a run from a fresh deployment
/// at nondecreasing times, once a contributor's refund has been paid, the
/// creator's claim at any later time is refused, because the campaign was
/// cancelled or its goal was not reached.
pub proof fn lemma_no_claim_after_refund<A>(
    accounts: nat,
    before: Seq<(Request<A>, u64)>,
    account: int,
    t: u64,
    after: Seq<(Request<A>, u64)>,
    later: u64,
)
    requires
        times_nondecreasing((before.push((Request::ClaimRefund { account }, t)) + after).push(
            (Request::ClaimFunds, later),
        )),
        0 <= account < accounts,
        claim_refund_outcome(
            run(fresh::<A>(accounts), before).campaign,
            run(fresh::<A>(accounts), before).contributions[account],
            t as int,
        ) is Ok,
    ensures
        ({
            let e = run(fresh::<A>(accounts), before.push((Request::ClaimRefund { account }, t)) + after);
            claim_funds_outcome(e.campaign, later as int) == Err::<(Campaign<A>, int), Error>(
                Error::AlreadyCancelled,
            ) || claim_funds_outcome(e.campaign, later as int) == Err::<(Campaign<A>, int), Error>(
                Error::GoalNotReached,
            )
        }),
{
    let all = before.push((Request::ClaimRefund { account }, t)) + after;
    let full = all.push((Request::ClaimFunds, later));
    assert(full.drop_last() =~= all);
    assert(times_nondecreasing(all));
    lemma_split_run(accounts, before, Request::ClaimRefund { account }, t, after);
    lemma_run_keeps_accounts(accounts, before);
    let d0 = run(fresh::<A>(accounts), before);
    let d1 = step(d0, Request::ClaimRefund { account }, t as int);
    assert(d1.refunds[account] > 0);
    lemma_run_refunds_grow(d1, after, account);
    lemma_run_keeps_campaign(d1, after);
    lemma_run_clock(fresh::<A>(accounts), all);
    assert(full[all.len() - 1] == all.last());
    assert(full[all.len() as int] == full.last());
    let e = run(fresh::<A>(accounts), all);
    assert(e.clock <= later);
    lemma_run_keeps_accounts(accounts, all);
    assert(e.refunds[account] > 0);
    assert(e.contributions[account] >= 0);
    assert(e.refunded > 0);
}

proof fn lemma_run_refunds_grow<A>(d: Deployment<A>, requests: Seq<(Request<A>, u64)>, account: int)
    requires
        0 <= account < d.refunds.len(),
        d.refunds.len() == d.contributions.len(),
        d.refunds[account] > 0,
    ensures
        run(d, requests).refunds.len() == d.refunds.len(),
        run(d, requests).refunds.len() == run(d, requests).contributions.len(),
        run(d, requests).refunds[account] > 0,
    decreases requests.len(),
{
    if requests.len() > 0 {
        lemma_run_refunds_grow(d, requests.drop_last(), account);
        let p = run(d, requests.drop_last());
        match requests.last().0 {
            Request::ClaimRefund { account: a } => {
                if 0 <= a < p.contributions.len() {
                    if claim_refund_outcome(p.campaign, p.contributions[a], requests.last().1 as int) is Ok {
                        assert(p.refunds[a] + p.contributions[a] > p.refunds[a]);
                    }
                }
            },
            _ => {},
        }
    }
}

/// A contributor is refunded once: in a run from a fresh deployment at
/// nondecreasing times, once a contributor's refund has been paid, whatever
/// requests follow, that contributor's refund claim at any later time is
/// refused with `NoContribution`.
pub proof fn lemma_single_refund<A>(
    accounts: nat,
    before: Seq<(Request<A>, u64)>,
    account: int,
    t: u64,
    after: Seq<(Request<A>, u64)>,
    later: u64,
)
    requires
        times_nondecreasing((before.push((Request::ClaimRefund { account }, t)) + after).push(
            (Request::ClaimRefund { account }, later),
        )),
        0 <= account < accounts,
        claim_refund_outcome(
            run(fresh::<A>(accounts), before).campaign,
            run(fresh::<A>(accounts), before).contributions[account],
            t as int,
        ) is Ok,
    ensures
        ({
            let e = run(fresh::<A>(accounts), before.push((Request::ClaimRefund { account }, t)) + after);
            claim_refund_outcome(e.campaign, e.contributions[account], later as int) == Err::<int, Error>(
                Error::NoContribution,
            )
        }),
{
    let all = before.push((Request::ClaimRefund { account }, t)) + after;
    let full = all.push((Request::ClaimRefund { account }, later));
    assert(full.drop_last() =~= all);
    assert(times_nondecreasing(all));
    lemma_split_run(accounts, before, Request::ClaimRefund { account }, t, after);
    lemma_run_keeps_accounts(accounts, before);
    let d0 = run(fresh::<A>(accounts), before);
    let d1 = step(d0, Request::ClaimRefund { account }, t as int);
    assert(d1.refunds[account] > 0);
    lemma_run_refunds_grow(d1, after, account);
    lemma_run_keeps_campaign(d1, after);
    lemma_run_clock(fresh::<A>(accounts), all);
    assert(full[all.len() - 1] == all.last());
    assert(full[all.len() as int] == full.last());
    let e = run(fresh::<A>(accounts), all);
    assert(e.clock <= later);
    lemma_run_keeps_accounts(accounts, all);
    assert(e.refunds[account] > 0);
    assert(e.contributions[account] >= 0);
    assert(e.contributions[account] == 0);
    assert(e.refunded > 0);
}

/// No refund after the creator's payout: in a run from a fresh deployment at
/// nondecreasing times, once the creator's claim has been paid, whatever
/// requests follow, every contributor's refund claim at a later time is
/// refused with `GoalAlreadyReached`, whatever their recorded contribution.
pub proof fn lemma_no_refund_after_payout<A>(
    accounts: nat,
    before: Seq<(Request<A>, u64)>,
    t: u64,
    after: Seq<(Request<A>, u64)>,
    account: int,
    later: u64,
)
    requires
        times_nondecreasing((before.push((Request::ClaimFunds, t)) + after).push(
            (Request::ClaimRefund { account }, later),
        )),
        claim_funds_outcome(run(fresh::<A>(accounts), before).campaign, t as int) is Ok,
    ensures
        ({
            let e = run(fresh::<A>(accounts), before.push((Request::ClaimFunds, t)) + after);
            forall|contribution: int|
                claim_refund_outcome(e.campaign, contribution, later as int) == Err::<int, Error>(
                    Error::GoalAlreadyReached,
                )
        }),
{
    let all = before.push((Request::ClaimFunds, t)) + after;
    let full = all.push((Request::ClaimRefund { account }, later));
    assert(full.drop_last() =~= all);
    assert(times_nondecreasing(all));
    lemma_split_run(accounts, before, Request::ClaimFunds, t, after);
    let d0 = run(fresh::<A>(accounts), before);
    let d1 = step(d0, Request::ClaimFunds, t as int);
    lemma_run_keeps_campaign(d1, after);
    lemma_run_clock(fresh::<A>(accounts), all);
    assert(full[all.len() - 1] == all.last());
    assert(full[all.len() as int] == full.last());
    let e = run(fresh::<A>(accounts), all);
    assert(e.clock <= later);
    assert(e.campaign->0.withdrawn);
}

} // verus!
