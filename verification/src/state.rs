//! The three persisted record types and their well-formedness invariants.

use vstd::prelude::*;

verus! {

/// An account identity on the hosting platform. The host addresses records
/// and token balances by such identities; the ledger only ever compares them
/// for equality, so a single machine word models them faithfully.
#[derive(Clone, Copy, PartialEq, Eq, Structural, Debug)]
pub struct AccountId(pub u64);

/// Basis-point denominator: rates are expressed in ten-thousandths.
pub const BPS_DENOMINATOR: u64 = 10000;

/// Highest platform fee the configuration accepts, in basis points (1%).
pub const MAX_FEE_BPS: u16 = 100;

/// Referrer share of the platform fee fixed at initialization:
/// 1000 basis points, i.e. 10% of the fee.
pub const DEFAULT_REFERRAL_REWARD_BPS: u16 = 1000;

/// The singleton, deployment-wide configuration. Created exactly once by
/// [`crate::engine::initialize`]; read by every swap; never mutated after.
#[derive(Clone, Copy, PartialEq, Eq, Structural, Debug)]
pub struct Config {
    /// Identity permitted to have created the configuration.
    pub authority: AccountId,
    /// Identity that receives the platform's share of every fee.
    pub fee_recipient: AccountId,
    /// Platform fee rate in basis points; at most [`MAX_FEE_BPS`].
    pub fee_bps: u16,
    /// Share of the platform fee routed to a referrer, in basis points
    /// out of [`BPS_DENOMINATOR`]. The configuration places no upper bound
    /// on it; a value above the denominator makes every referred swap fail
    /// by checked-subtraction underflow rather than go negative.
    pub referral_reward_bps: u16,
}

impl Config {
    /// Invariant established at initialization and preserved thereafter.
    pub open spec fn wf(self) -> bool {
        self.fee_bps <= MAX_FEE_BPS
    }
}

/// The per-user referral record: who referred this user, and how many swaps
/// the user has executed. One exists per user; the referrer is write-once.
#[derive(Clone, Copy, PartialEq, Eq, Structural, Debug)]
pub struct UserAccount {
    /// The owning identity; set once at creation.
    pub user: AccountId,
    /// The referring identity. `None` means no referrer is registered;
    /// once `Some`, it is immutable.
    pub referrer: Option<AccountId>,
    /// Mirrors `referrer is Some`.
    pub is_registered: bool,
    /// Number of swaps this user has executed; never decreases.
    pub swaps_count: u64,
}

impl UserAccount {
    /// Record invariant: the flag mirrors the referrer field, and a user
    /// never refers itself.
    pub open spec fn wf(self) -> bool {
        &&& self.is_registered <==> self.referrer is Some
        &&& self.referrer matches Some(r) ==> r != self.user
    }

    /// The zero-state record the host supplies for a user that has never
    /// registered: no referrer, no swaps.
    pub fn fresh(user: AccountId) -> (r: UserAccount)
        ensures
            r == spec_fresh_user_account(user),
    {
        UserAccount { user, referrer: None, is_registered: false, swaps_count: 0 }
    }
}

/// The zero-state [`UserAccount`] for a given user.
pub open spec fn spec_fresh_user_account(user: AccountId) -> UserAccount {
    UserAccount { user, referrer: None, is_registered: false, swaps_count: 0 }
}

/// The per-referrer ledger: lifetime number of rewarded swaps and the
/// cumulative reward amount. Created lazily by the host on the first swap
/// that credits the referrer; both counters only ever grow.
#[derive(Clone, Copy, PartialEq, Eq, Structural, Debug)]
pub struct ReferrerStats {
    /// The identity this record accumulates for.
    pub referrer: AccountId,
    /// Number of swaps that generated a reward for this referrer.
    pub referral_count: u64,
    /// Cumulative reward amount credited.
    pub total_rewards: u64,
}

impl ReferrerStats {
    /// The zero-state record the host supplies for a referrer that has
    /// never been credited.
    pub fn fresh(referrer: AccountId) -> (r: ReferrerStats)
        ensures
            r == spec_fresh_referrer_stats(referrer),
    {
        ReferrerStats { referrer, referral_count: 0, total_rewards: 0 }
    }
}

/// The zero-state [`ReferrerStats`] for a given referrer.
pub open spec fn spec_fresh_referrer_stats(referrer: AccountId) -> ReferrerStats {
    ReferrerStats { referrer, referral_count: 0, total_rewards: 0 }
}

/// The stats record after one reward of `reward` is credited.
/// Defined only up to the counters' range; callers check for overflow first.
pub open spec fn spec_credited_stats(stats: ReferrerStats, reward: u64) -> ReferrerStats {
    ReferrerStats {
        referrer: stats.referrer,
        referral_count: (stats.referral_count + 1) as u64,
        total_rewards: (stats.total_rewards + reward) as u64,
    }
}

} // verus!
