//! System-wide guarantees, stated and proved over the operations' exact
//! transition functions.
//!
//! Failed operations change nothing by construction: every transition
//! returns either a complete outcome or a bare error, and the host persists
//! records only from an outcome, so there is no partial state to speak of.

use vstd::prelude::*;
use vstd::arithmetic::mul::lemma_mul_inequality;
use crate::errors::ErrorCode;
use crate::engine::{
    spec_execute_swap, spec_fee_split, spec_register_referral, spec_total_fee,
    ExecuteSwapWithReferral, RegisterReferral, RegistrationOutcome, SwapOutcome,
    lemma_fee_within_output,
};
use crate::state::{Config, BPS_DENOMINATOR};

verus! {

/// A fee split never creates or destroys value: whenever it succeeds, the
/// platform fee, the referral reward and the user amount sum exactly to the
/// gross output — for any gross output, not only the one a swap passes in.
pub proof fn lemma_split_conserves_value(config: Config, registered: bool, total_output: u64)
    requires
        config.wf(),
    ensures
        spec_fee_split(config, registered, total_output) matches Ok(s) ==> s.platform_fee
            + s.referral_reward + s.user_amount == total_output,
{
    lemma_fee_within_output(total_output, config.fee_bps);
}

/// Registration is write-once, hence not idempotent: once a user has
/// registered any referrer, every further registration attempt by that user
/// fails with `ReferralAlreadySet`, whatever referrer or timestamp the second
/// call carries — except a second call naming the user itself, which the
/// self-referral check refuses first.
pub proof fn lemma_registration_write_once(
    first: RegisterReferral,
    t1: i64,
    outcome: RegistrationOutcome,
    second: RegisterReferral,
    t2: i64,
)
    requires
        spec_register_referral(first, t1) == Ok::<RegistrationOutcome, ErrorCode>(outcome),
        second.user == first.user,
        second.user_account == outcome.user_account,
        second.user != second.referrer,
    ensures
        spec_register_referral(second, t2) == Err::<RegistrationOutcome, ErrorCode>(
            ErrorCode::ReferralAlreadySet,
        ),
{
}

/// No update to a referrer's ledger is ever lost: two swaps settled one
/// after the other on the same stats record — however the host interleaved
/// their arrival — leave `total_rewards` at exactly the starting value plus
/// both individual rewards, and `referral_count` advanced once per swap that
/// paid a reward.
pub proof fn lemma_sequential_swaps_accumulate(
    ctx1: ExecuteSwapWithReferral,
    amount_in1: u64,
    minimum_amount_out1: u64,
    o1: SwapOutcome,
    ctx2: ExecuteSwapWithReferral,
    amount_in2: u64,
    minimum_amount_out2: u64,
    o2: SwapOutcome,
)
    requires
        spec_execute_swap(ctx1, amount_in1, minimum_amount_out1) == Ok::<SwapOutcome, ErrorCode>(
            o1,
        ),
        ctx2.referrer_stats == o1.referrer_stats,
        spec_execute_swap(ctx2, amount_in2, minimum_amount_out2) == Ok::<SwapOutcome, ErrorCode>(
            o2,
        ),
    ensures
        o2.referrer_stats.total_rewards == ctx1.referrer_stats.total_rewards
            + o1.event.referral_reward + o2.event.referral_reward,
        o2.referrer_stats.referral_count == ctx1.referrer_stats.referral_count + (
        if o1.event.referral_reward > 0 {
            1int
        } else {
            0int
        }) + (
        if o2.event.referral_reward > 0 {
            1int
        } else {
            0int
        }),
{
}

/// When success is owed: a well-formed context refuses a swap only for
/// slippage or for arithmetic beyond `u64`. With the gross output meeting
/// the caller's minimum, the output small enough that basis-point scaling
/// stays within `u64`, the referral share capped at the whole fee, and every
/// counter short of its ceiling, the swap succeeds.
pub proof fn lemma_swap_succeeds(
    ctx: ExecuteSwapWithReferral,
    amount_in: u64,
    minimum_amount_out: u64,
)
    requires
        ctx.wf(),
        amount_in >= minimum_amount_out,
        (amount_in as int) * (BPS_DENOMINATOR as int) <= u64::MAX,
        ctx.config.referral_reward_bps <= BPS_DENOMINATOR,
        ctx.user_account.swaps_count < u64::MAX,
        ctx.referrer_stats.referral_count < u64::MAX,
        ctx.referrer_stats.total_rewards + amount_in <= u64::MAX,
    ensures
        spec_execute_swap(ctx, amount_in, minimum_amount_out) is Ok,
{
    let out = amount_in as int;
    let d = BPS_DENOMINATOR as int;
    let fee_bps = ctx.config.fee_bps as int;
    let reward_bps = ctx.config.referral_reward_bps as int;
    lemma_mul_inequality(fee_bps, d, out);
    lemma_fee_within_output(amount_in, ctx.config.fee_bps);
    let total_fee = spec_total_fee(amount_in, ctx.config.fee_bps);
    lemma_mul_inequality(total_fee, out, reward_bps);
    lemma_mul_inequality(reward_bps, d, out);
    lemma_fee_within_output(total_fee as u64, ctx.config.referral_reward_bps);
}

} // verus!
