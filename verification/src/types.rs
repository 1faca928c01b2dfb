use vstd::prelude::*;

verus! {

/// Why a request to the escrow was refused.
#[derive(Clone, Copy, Debug, PartialEq, Eq, Structural)]
pub enum Error {
    AlreadyInitialized,
    NotInitialized,
    InvalidGoal,
    InvalidDeadline,
    InvalidAmount,
    DeadlinePassed,
    CampaignActive,
    GoalNotReached,
    GoalAlreadyReached,
    AlreadyClaimed,
    NoContribution,
    NotActive,
    AlreadyCancelled,
}

/// The phase a campaign is in at a given time.
#[derive(Clone, Copy, Debug, PartialEq, Eq, Structural)]
pub enum EscrowState {
    Active,
    Successful,
    Failed,
    Cancelled,
}

/// The record an initialized campaign keeps. `A` is the type of the
/// accounts that the host identifies (the token and the creator); the
/// escrow's logic only carries them.
#[derive(Debug)]
pub struct Campaign<A> {
    pub token: A,
    pub creator: A,
    pub goal: i128,
    pub deadline: u64,
    pub total_raised: i128,
    pub withdrawn: bool,
    /// The stored phase: `Cancelled` once the creator cancelled, `Active` before.
    pub stored_state: EscrowState,
}

/// What a reader of the campaign is shown.
#[derive(Debug)]
pub struct EscrowMetadata<A> {
    pub token: A,
    pub creator: A,
    pub goal: i128,
    pub deadline: u64,
    pub total_raised: i128,
    pub withdrawn: bool,
    pub state: EscrowState,
}

} // verus!
