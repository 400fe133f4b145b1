//! Events a completed operation emits. The library returns the fully
//! populated event alongside the new record values; the host publishes it.

use vstd::prelude::*;
use crate::state::AccountId;

verus! {

/// Emitted when a user registers a referrer.
#[derive(Clone, Copy, PartialEq, Eq, Structural, Debug)]
pub struct ReferralRegistered {
    /// The registering user.
    pub user: AccountId,
    /// The referrer the user registered.
    pub referrer: AccountId,
    /// Host clock reading at registration time, supplied by the caller.
    pub timestamp: i64,
}

/// Emitted when a swap completes, recording the exact fee split.
#[derive(Clone, Copy, PartialEq, Eq, Structural, Debug)]
pub struct SwapExecuted {
    /// The user who swapped.
    pub user: AccountId,
    /// The amount the user put into the swap.
    pub amount_in: u64,
    /// What the user received after fees.
    pub amount_out: u64,
    /// The platform's share of the fee.
    pub platform_fee: u64,
    /// The referrer's share of the fee; zero when no referrer is registered.
    pub referral_reward: u64,
    /// The user's referrer, or `None` when no referrer is registered.
    pub referrer: Option<AccountId>,
}

} // verus!
