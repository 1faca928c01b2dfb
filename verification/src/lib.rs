//! A crowdfunding escrow: contributors fund a campaign before its deadline;
//! the creator claims the funds once the deadline has passed with the goal met,
//! and otherwise (or after a cancellation) each contributor takes a refund.
//!
//! The campaign's decisions are verified functions over the campaign record;
//! the host that stores the record, moves tokens and checks authorizations
//! performs the actions that those functions decide.

mod types;
mod escrow;
mod deployment;
mod laws;
mod rules;

pub use types::{Campaign, EscrowMetadata, EscrowState, Error};
pub use escrow::{
    cancel_outcome, claim_funds_outcome, claim_refund_outcome, fund_fits, fund_outcome,
    initialize_outcome, is_active, metadata_at, state_at, FundingEscrowContract,
};
pub use deployment::{
    balance, consistent, fresh, lemma_campaign_terms_fixed, lemma_cancelled_is_final,
    lemma_creator_or_refunds, lemma_escrow_never_overdraws, lemma_no_claim_after_refund,
    lemma_no_refund_after_payout, lemma_phase_is_final, lemma_phase_is_final_over_run,
    lemma_refunds_bounded_by_deposits, lemma_single_refund, run, seq_sum, step,
    times_nondecreasing, total_raised, Deployment, Request,
};
pub use laws::{
    lemma_claim_funds_only_once, lemma_initialize_only_once, lemma_no_refund_after_claim,
    lemma_metadata_after_initialize, lemma_payouts_follow_phase, lemma_refund_only_once,
    lemma_state_settles,
};
pub use rules::{
    lemma_cancel_rules, lemma_claim_funds_rules, lemma_claim_refund_rules, lemma_fund_rules,
    lemma_initialize_rules, lemma_metadata_reports_phase, lemma_phase_rules,
};
