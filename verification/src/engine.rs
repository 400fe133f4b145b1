//! The four ledger operations as pure, verified state transitions.
//!
//! Each operation takes the records the host currently holds, plus the
//! caller's arguments, and returns either the complete outcome — updated
//! records, the value transfers to perform, and the event to publish — or
//! the reason it was refused. The host applies an outcome atomically:
//! every failure therefore leaves all records exactly as they were.

use vstd::prelude::*;
use vstd::arithmetic::div_mod::{lemma_div_by_multiple, lemma_div_is_ordered, lemma_div_pos_is_pos};
use vstd::arithmetic::mul::{lemma_mul_inequality, lemma_mul_nonnegative};
use crate::errors::ErrorCode;
use crate::events::{ReferralRegistered, SwapExecuted};
use crate::state::{
    AccountId, Config, ReferrerStats, UserAccount, spec_credited_stats, BPS_DENOMINATOR,
    DEFAULT_REFERRAL_REWARD_BPS, MAX_FEE_BPS,
};

verus! {

// ---------------------------------------------------------------------------
// Operation contexts: the records and identities the host hands to each call.
// ---------------------------------------------------------------------------

/// Inputs to [`initialize`]: the identities the new configuration binds.
#[derive(Clone, Copy, PartialEq, Eq, Structural, Debug)]
pub struct Initialize {
    /// The caller creating the configuration.
    pub authority: AccountId,
    /// Identity that will receive the platform's share of fees.
    pub fee_recipient: AccountId,
}

/// Inputs to [`register_referral`]: the caller, the referrer it names, and
/// the caller's current referral record (the zero-state record when the host
/// has just created it).
#[derive(Clone, Copy, PartialEq, Eq, Structural, Debug)]
pub struct RegisterReferral {
    /// The registering user (the signer).
    pub user: AccountId,
    /// The referrer being registered.
    pub referrer: AccountId,
    /// The user's current record.
    pub user_account: UserAccount,
}

impl RegisterReferral {
    /// The host hands the caller its own record.
    pub open spec fn wf(self) -> bool {
        &&& self.user_account.wf()
        &&& self.user_account.user == self.user
    }
}

/// Inputs to [`execute_swap_with_referral`]: the configuration, the caller,
/// the caller's referral record, and the stats record of the caller's
/// referrer (any record at all when no referrer is registered — it is
/// returned unchanged then).
#[derive(Clone, Copy, PartialEq, Eq, Structural, Debug)]
pub struct ExecuteSwapWithReferral {
    /// The deployment-wide configuration.
    pub config: Config,
    /// The swapping user (the signer).
    pub user: AccountId,
    /// The user's referral record.
    pub user_account: UserAccount,
    /// The stats record keyed by the user's referrer; the host creates the
    /// zero-state record lazily when none exists yet.
    pub referrer_stats: ReferrerStats,
}

impl ExecuteSwapWithReferral {
    /// What the host's record addressing guarantees: a valid configuration,
    /// the caller's own well-formed record, and — when a referrer is
    /// registered — the stats record keyed by that referrer.
    pub open spec fn wf(self) -> bool {
        &&& self.config.wf()
        &&& self.user_account.wf()
        &&& self.user_account.user == self.user
        &&& self.user_account.referrer matches Some(r) ==> self.referrer_stats.referrer == r
    }
}

/// Inputs to [`get_referrer_stats`]: a referrer and its stats record (the
/// zero-state record when the referrer has never been credited).
#[derive(Clone, Copy, PartialEq, Eq, Structural, Debug)]
pub struct GetReferrerStats {
    /// The referrer being queried.
    pub referrer: AccountId,
    /// That referrer's stats record.
    pub referrer_stats: ReferrerStats,
}

impl GetReferrerStats {
    /// The host hands the record keyed by the queried referrer.
    pub open spec fn wf(self) -> bool {
        self.referrer_stats.referrer == self.referrer
    }
}

// ---------------------------------------------------------------------------
// Outcomes: what a completed operation tells the host to do.
// ---------------------------------------------------------------------------

/// One value transfer the host must perform, from the swap's output holding
/// account to `to`.
#[derive(Clone, Copy, PartialEq, Eq, Structural, Debug)]
pub struct Payout {
    /// Receiving identity.
    pub to: AccountId,
    /// Amount to move.
    pub amount: u64,
}

/// The exact three-way division of a swap's gross output.
#[derive(Clone, Copy, PartialEq, Eq, Structural, Debug)]
pub struct FeeSplit {
    /// The platform's share of the fee.
    pub platform_fee: u64,
    /// The referrer's share of the fee; zero without a registered referrer.
    pub referral_reward: u64,
    /// What remains for the user.
    pub user_amount: u64,
}

/// Everything a successful registration produces.
#[derive(Clone, Copy, PartialEq, Eq, Structural, Debug)]
pub struct RegistrationOutcome {
    /// The user's filled record, to be persisted.
    pub user_account: UserAccount,
    /// The event to publish.
    pub event: ReferralRegistered,
}

/// Everything a successful swap produces. The host performs the payouts in
/// field order — platform first, then referrer, then user — persists the two
/// records, and publishes the event, all within one atomic transaction.
#[derive(Clone, Copy, PartialEq, Eq, Structural, Debug)]
pub struct SwapOutcome {
    /// The caller's record with its swap counter advanced.
    pub user_account: UserAccount,
    /// The referrer's ledger, credited when a reward was paid and unchanged
    /// otherwise.
    pub referrer_stats: ReferrerStats,
    /// First transfer: the platform fee, present exactly when it is positive.
    pub platform_payout: Option<Payout>,
    /// Second transfer: the referral reward, present exactly when it is
    /// positive.
    pub referrer_payout: Option<Payout>,
    /// Third transfer: the user's amount, always performed, even when zero.
    pub user_payout: Payout,
    /// The event to publish.
    pub event: SwapExecuted,
}

/// The amount an optional payout moves: zero when there is none.
pub open spec fn spec_payout_amount(p: Option<Payout>) -> int {
    match p {
        Some(q) => q.amount as int,
        None => 0,
    }
}

// ---------------------------------------------------------------------------
// Initialization.
// ---------------------------------------------------------------------------

/// What [`initialize`] returns, exactly.
pub open spec fn spec_initialize(ctx: Initialize, fee_bps: u16) -> Result<Config, ErrorCode> {
    if fee_bps > MAX_FEE_BPS {
        Err(ErrorCode::FeeTooHigh)
    } else {
        Ok(Config {
            authority: ctx.authority,
            fee_recipient: ctx.fee_recipient,
            fee_bps,
            referral_reward_bps: DEFAULT_REFERRAL_REWARD_BPS,
        })
    }
}

/// Create the singleton configuration. The host's create-if-absent storage
/// semantics make re-invocation fail; this transition builds the value the
/// one successful invocation persists.
pub fn initialize(ctx: &Initialize, fee_bps: u16) -> (r: Result<Config, ErrorCode>)
    ensures
        r == spec_initialize(*ctx, fee_bps),
        fee_bps <= MAX_FEE_BPS <==> r is Ok,
        r matches Ok(config) ==> {
            &&& config.wf()
            &&& config.authority == ctx.authority
            &&& config.fee_recipient == ctx.fee_recipient
            &&& config.fee_bps == fee_bps
            &&& config.referral_reward_bps == DEFAULT_REFERRAL_REWARD_BPS
        },
        r matches Err(e) ==> e == ErrorCode::FeeTooHigh,
{
    if fee_bps > MAX_FEE_BPS {
        return Err(ErrorCode::FeeTooHigh);
    }
    Ok(Config {
        authority: ctx.authority,
        fee_recipient: ctx.fee_recipient,
        fee_bps,
        referral_reward_bps: DEFAULT_REFERRAL_REWARD_BPS,
    })
}

// ---------------------------------------------------------------------------
// Registration.
// ---------------------------------------------------------------------------

/// What [`register_referral`] returns, exactly.
pub open spec fn spec_register_referral(ctx: RegisterReferral, timestamp: i64) -> Result<
    RegistrationOutcome,
    ErrorCode,
> {
    if ctx.user == ctx.referrer {
        Err(ErrorCode::CannotReferSelf)
    } else if ctx.user_account.referrer is Some {
        Err(ErrorCode::ReferralAlreadySet)
    } else {
        Ok(RegistrationOutcome {
            user_account: UserAccount {
                user: ctx.user,
                referrer: Some(ctx.referrer),
                is_registered: true,
                swaps_count: 0,
            },
            event: ReferralRegistered { user: ctx.user, referrer: ctx.referrer, timestamp },
        })
    }
}

/// Register a referral relationship: a pure, write-once operation — no value
/// moves. `timestamp` is the host's clock reading, recorded in the event.
pub fn register_referral(ctx: &RegisterReferral, timestamp: i64) -> (r: Result<
    RegistrationOutcome,
    ErrorCode,
>)
    requires
        ctx.wf(),
    ensures
        r == spec_register_referral(*ctx, timestamp),
        ctx.user == ctx.referrer <==> r == Err::<RegistrationOutcome, ErrorCode>(
            ErrorCode::CannotReferSelf,
        ),
        ctx.user != ctx.referrer && ctx.user_account.referrer is Some <==> r == Err::<
            RegistrationOutcome,
            ErrorCode,
        >(ErrorCode::ReferralAlreadySet),
        ctx.user != ctx.referrer && ctx.user_account.referrer is None <==> r is Ok,
        r matches Ok(o) ==> {
            &&& o.user_account.wf()
            &&& o.user_account.user == ctx.user
            &&& o.user_account.referrer == Some(ctx.referrer)
            &&& o.user_account.is_registered
            &&& o.user_account.swaps_count == 0
            &&& o.event.user == ctx.user
            &&& o.event.referrer == ctx.referrer
            &&& o.event.timestamp == timestamp
        },
{
    if ctx.user == ctx.referrer {
        return Err(ErrorCode::CannotReferSelf);
    }
    match ctx.user_account.referrer {
        Some(_) => Err(ErrorCode::ReferralAlreadySet),
        None => Ok(RegistrationOutcome {
            user_account: UserAccount {
                user: ctx.user,
                referrer: Some(ctx.referrer),
                is_registered: true,
                swaps_count: 0,
            },
            event: ReferralRegistered { user: ctx.user, referrer: ctx.referrer, timestamp },
        }),
    }
}

// ---------------------------------------------------------------------------
// The fee split.
// ---------------------------------------------------------------------------

/// Whether a swap by the owner of `account` pays a referral reward.
pub open spec fn spec_has_referrer(account: UserAccount) -> bool {
    account.is_registered && account.referrer is Some
}

/// Whether a swap by the owner of `account` pays a referral reward.
pub fn has_registered_referrer(account: &UserAccount) -> (r: bool)
    ensures
        r == spec_has_referrer(*account),
{
    account.is_registered && account.referrer.is_some()
}

/// The platform fee taken from a gross output: `fee_bps` ten-thousandths,
/// rounded down.
pub open spec fn spec_total_fee(total_output: u64, fee_bps: u16) -> int {
    (total_output as int) * (fee_bps as int) / (BPS_DENOMINATOR as int)
}

/// The referrer's share of a fee: `referral_reward_bps` ten-thousandths,
/// rounded down.
pub open spec fn spec_referral_reward(total_fee: int, referral_reward_bps: u16) -> int {
    total_fee * (referral_reward_bps as int) / (BPS_DENOMINATOR as int)
}

/// A rate of at most the denominator never scales an amount up: the scaled
/// value is a well-defined `u64` no larger than the amount itself.
pub proof fn lemma_fee_within_output(total_output: u64, fee_bps: u16)
    requires
        fee_bps <= BPS_DENOMINATOR,
    ensures
        0 <= spec_total_fee(total_output, fee_bps) <= total_output,
{
    let out = total_output as int;
    let bps = fee_bps as int;
    let d = BPS_DENOMINATOR as int;
    lemma_mul_nonnegative(out, bps);
    lemma_div_pos_is_pos(out * bps, d);
    lemma_mul_inequality(bps, d, out);
    lemma_div_is_ordered(out * bps, out * d, d);
    lemma_div_by_multiple(out, d);
}

/// What [`compute_fee_split`] returns, exactly. Every arithmetic step is
/// checked: a product beyond `u64` or a reward beyond the fee aborts the
/// operation instead of wrapping.
pub open spec fn spec_fee_split(config: Config, registered: bool, total_output: u64) -> Result<
    FeeSplit,
    ErrorCode,
> {
    if (total_output as int) * (config.fee_bps as int) > u64::MAX {
        Err(ErrorCode::ArithmeticOverflow)
    } else {
        let total_fee = spec_total_fee(total_output, config.fee_bps);
        if registered {
            if total_fee * (config.referral_reward_bps as int) > u64::MAX {
                Err(ErrorCode::ArithmeticOverflow)
            } else {
                let reward = spec_referral_reward(total_fee, config.referral_reward_bps);
                if reward > total_fee {
                    Err(ErrorCode::ArithmeticOverflow)
                } else {
                    Ok(FeeSplit {
                        platform_fee: (total_fee - reward) as u64,
                        referral_reward: reward as u64,
                        user_amount: (total_output - total_fee) as u64,
                    })
                }
            }
        } else {
            Ok(FeeSplit {
                platform_fee: total_fee as u64,
                referral_reward: 0,
                user_amount: (total_output - total_fee) as u64,
            })
        }
    }
}

/// Divide a swap's gross output three ways: platform fee, referral reward,
/// user amount. `total_output` is whatever the external swap produced — this
/// deployment passes the input amount through, but the rule is stated for
/// any gross output. The split conserves value exactly: the three parts sum
/// to `total_output`.
pub fn compute_fee_split(config: &Config, registered: bool, total_output: u64) -> (r: Result<
    FeeSplit,
    ErrorCode,
>)
    requires
        config.wf(),
    ensures
        r == spec_fee_split(*config, registered, total_output),
        r matches Ok(s) ==> s.platform_fee + s.referral_reward + s.user_amount == total_output,
        r matches Ok(s) ==> s.platform_fee + s.referral_reward == spec_total_fee(
            total_output,
            config.fee_bps,
        ),
        r matches Ok(s) ==> (!registered ==> s.referral_reward == 0),
        r matches Err(e) ==> e == ErrorCode::ArithmeticOverflow,
{
    let total_fee = match total_output.checked_mul(config.fee_bps as u64) {
        Some(scaled) => scaled / BPS_DENOMINATOR,
        None => {
            return Err(ErrorCode::ArithmeticOverflow);
        },
    };
    proof {
        lemma_fee_within_output(total_output, config.fee_bps);
    }
    if registered {
        let referral_reward = match total_fee.checked_mul(config.referral_reward_bps as u64) {
            Some(scaled) => scaled / BPS_DENOMINATOR,
            None => {
                return Err(ErrorCode::ArithmeticOverflow);
            },
        };
        let platform_fee = match total_fee.checked_sub(referral_reward) {
            Some(rest) => rest,
            None => {
                return Err(ErrorCode::ArithmeticOverflow);
            },
        };
        Ok(FeeSplit { platform_fee, referral_reward, user_amount: total_output - total_fee })
    } else {
        Ok(FeeSplit {
            platform_fee: total_fee,
            referral_reward: 0,
            user_amount: total_output - total_fee,
        })
    }
}

// ---------------------------------------------------------------------------
// The swap.
// ---------------------------------------------------------------------------

/// The record-update half of a swap: given the fee split, advance the two
/// records and assemble the outcome, refusing any counter overflow.
pub open spec fn spec_settle_swap(
    ctx: ExecuteSwapWithReferral,
    amount_in: u64,
    split: FeeSplit,
) -> Result<SwapOutcome, ErrorCode> {
    if split.referral_reward > 0 && (ctx.referrer_stats.total_rewards + split.referral_reward
        > u64::MAX || ctx.referrer_stats.referral_count + 1 > u64::MAX) {
        Err(ErrorCode::ArithmeticOverflow)
    } else if ctx.user_account.swaps_count + 1 > u64::MAX {
        Err(ErrorCode::ArithmeticOverflow)
    } else {
        Ok(SwapOutcome {
            user_account: UserAccount {
                user: ctx.user_account.user,
                referrer: ctx.user_account.referrer,
                is_registered: ctx.user_account.is_registered,
                swaps_count: (ctx.user_account.swaps_count + 1) as u64,
            },
            referrer_stats: if split.referral_reward > 0 {
                spec_credited_stats(ctx.referrer_stats, split.referral_reward)
            } else {
                ctx.referrer_stats
            },
            platform_payout: if split.platform_fee > 0 {
                Some(Payout { to: ctx.config.fee_recipient, amount: split.platform_fee })
            } else {
                None
            },
            referrer_payout: match ctx.user_account.referrer {
                Some(referrer) => if split.referral_reward > 0 {
                    Some(Payout { to: referrer, amount: split.referral_reward })
                } else {
                    None
                },
                None => None,
            },
            user_payout: Payout { to: ctx.user, amount: split.user_amount },
            event: SwapExecuted {
                user: ctx.user,
                amount_in,
                amount_out: split.user_amount,
                platform_fee: split.platform_fee,
                referral_reward: split.referral_reward,
                referrer: if ctx.user_account.is_registered {
                    ctx.user_account.referrer
                } else {
                    None
                },
            },
        })
    }
}

/// What [`execute_swap_with_referral`] returns, exactly. The gross output is
/// the input amount: this deployment takes the external swap's result to be
/// what was put in, and the slippage check, the fee split and the settlement
/// all act on that gross output.
pub open spec fn spec_execute_swap(
    ctx: ExecuteSwapWithReferral,
    amount_in: u64,
    minimum_amount_out: u64,
) -> Result<SwapOutcome, ErrorCode> {
    let total_output = amount_in;
    if total_output < minimum_amount_out {
        Err(ErrorCode::SlippageTooHigh)
    } else {
        match spec_fee_split(ctx.config, spec_has_referrer(ctx.user_account), total_output) {
            Ok(split) => spec_settle_swap(ctx, amount_in, split),
            Err(e) => Err(e),
        }
    }
}

/// Execute one swap's fee split and bookkeeping. On success the host must,
/// atomically: perform the up-to-three payouts in order, persist the two
/// returned records, and publish the event. On failure nothing is persisted
/// and nothing moves.
pub fn execute_swap_with_referral(
    ctx: &ExecuteSwapWithReferral,
    amount_in: u64,
    minimum_amount_out: u64,
) -> (r: Result<SwapOutcome, ErrorCode>)
    requires
        ctx.wf(),
    ensures
        r == spec_execute_swap(*ctx, amount_in, minimum_amount_out),
        amount_in < minimum_amount_out <==> r == Err::<SwapOutcome, ErrorCode>(
            ErrorCode::SlippageTooHigh,
        ),
        // No value is created or destroyed: the three parts, and likewise the
        // payouts actually performed, sum exactly to the gross output.
        r matches Ok(o) ==> o.event.platform_fee + o.event.referral_reward + o.event.amount_out
            == amount_in,
        r matches Ok(o) ==> spec_payout_amount(o.platform_payout) + spec_payout_amount(
            o.referrer_payout,
        ) + o.user_payout.amount == amount_in,
        // A reward is paid only to a registered referrer; without one the
        // reward is zero and the event carries no referrer.
        r matches Ok(o) ==> (o.event.referral_reward > 0 ==> spec_has_referrer(ctx.user_account)),
        r matches Ok(o) ==> (!spec_has_referrer(ctx.user_account) ==> o.event.referral_reward == 0
            && o.event.referrer is None),
        // Counters only ever advance, and the referral record itself is
        // untouched: user and referrer stay as they were.
        r matches Ok(o) ==> o.user_account.swaps_count == ctx.user_account.swaps_count + 1,
        r matches Ok(o) ==> o.user_account.user == ctx.user_account.user
            && o.user_account.referrer == ctx.user_account.referrer
            && o.user_account.is_registered == ctx.user_account.is_registered
            && o.user_account.wf(),
        r matches Ok(o) ==> o.referrer_stats.referrer == ctx.referrer_stats.referrer
            && o.referrer_stats.total_rewards >= ctx.referrer_stats.total_rewards
            && o.referrer_stats.referral_count >= ctx.referrer_stats.referral_count,
{
    let total_output = amount_in;
    if total_output < minimum_amount_out {
        return Err(ErrorCode::SlippageTooHigh);
    }
    let registered = has_registered_referrer(&ctx.user_account);
    let split = match compute_fee_split(&ctx.config, registered, total_output) {
        Ok(split) => split,
        Err(e) => {
            return Err(e);
        },
    };
    let referrer_stats = if split.referral_reward > 0 {
        let total_rewards = match ctx.referrer_stats.total_rewards.checked_add(
            split.referral_reward,
        ) {
            Some(sum) => sum,
            None => {
                return Err(ErrorCode::ArithmeticOverflow);
            },
        };
        let referral_count = match ctx.referrer_stats.referral_count.checked_add(1) {
            Some(count) => count,
            None => {
                return Err(ErrorCode::ArithmeticOverflow);
            },
        };
        ReferrerStats { referrer: ctx.referrer_stats.referrer, referral_count, total_rewards }
    } else {
        ctx.referrer_stats
    };
    let swaps_count = match ctx.user_account.swaps_count.checked_add(1) {
        Some(count) => count,
        None => {
            return Err(ErrorCode::ArithmeticOverflow);
        },
    };
    let user_account = UserAccount {
        user: ctx.user_account.user,
        referrer: ctx.user_account.referrer,
        is_registered: ctx.user_account.is_registered,
        swaps_count,
    };
    let platform_payout = if split.platform_fee > 0 {
        Some(Payout { to: ctx.config.fee_recipient, amount: split.platform_fee })
    } else {
        None
    };
    let referrer_payout = match ctx.user_account.referrer {
        Some(referrer) => if split.referral_reward > 0 {
            Some(Payout { to: referrer, amount: split.referral_reward })
        } else {
            None
        },
        None => None,
    };
    let user_payout = Payout { to: ctx.user, amount: split.user_amount };
    let event = SwapExecuted {
        user: ctx.user,
        amount_in,
        amount_out: split.user_amount,
        platform_fee: split.platform_fee,
        referral_reward: split.referral_reward,
        referrer: if ctx.user_account.is_registered {
            ctx.user_account.referrer
        } else {
            None
        },
    };
    Ok(SwapOutcome { user_account, referrer_stats, platform_payout, referrer_payout, user_payout, event })
}

// ---------------------------------------------------------------------------
// The stats query.
// ---------------------------------------------------------------------------

/// Read a referrer's lifetime referral count and cumulative rewards. A
/// referrer never credited reads as the zero-state record the host supplies.
pub fn get_referrer_stats(ctx: &GetReferrerStats) -> (r: (u64, u64))
    ensures
        r.0 == ctx.referrer_stats.referral_count,
        r.1 == ctx.referrer_stats.total_rewards,
{
    (ctx.referrer_stats.referral_count, ctx.referrer_stats.total_rewards)
}

} // verus!
