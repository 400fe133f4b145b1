//! End-to-end behaviour of the referral ledger: initialization bounds, the
//! write-once registration, the fee split's exact arithmetic, and the
//! referrer ledger's accumulation.

use swaplaunch_referral::engine::{
    compute_fee_split, execute_swap_with_referral, get_referrer_stats, has_registered_referrer,
    initialize, register_referral, ExecuteSwapWithReferral, GetReferrerStats, Initialize, Payout,
    RegisterReferral,
};
use swaplaunch_referral::errors::ErrorCode;
use swaplaunch_referral::state::{AccountId, Config, ReferrerStats, UserAccount};

fn authority() -> AccountId {
    AccountId(900)
}

fn fee_recipient() -> AccountId {
    AccountId(901)
}

fn test_config(fee_bps: u16) -> Config {
    let ctx = Initialize { authority: authority(), fee_recipient: fee_recipient() };
    initialize(&ctx, fee_bps).expect("fee rate within bounds")
}

fn registered_account(user: AccountId, referrer: AccountId) -> UserAccount {
    let ctx = RegisterReferral { user, referrer, user_account: UserAccount::fresh(user) };
    register_referral(&ctx, 0).expect("fresh registration succeeds").user_account
}

#[test]
fn initialize_sets_every_config_field() {
    let config = test_config(20);
    assert_eq!(config.authority, authority());
    assert_eq!(config.fee_recipient, fee_recipient());
    assert_eq!(config.fee_bps, 20);
    assert_eq!(config.referral_reward_bps, 1000);
}

#[test]
fn initialize_accepts_the_maximum_fee() {
    let config = test_config(100);
    assert_eq!(config.fee_bps, 100);
}

#[test]
fn initialize_rejects_a_fee_above_the_maximum() {
    let ctx = Initialize { authority: authority(), fee_recipient: fee_recipient() };
    assert_eq!(initialize(&ctx, 101), Err(ErrorCode::FeeTooHigh));
}

#[test]
fn registration_fills_the_record_and_the_event() {
    let user = AccountId(1);
    let referrer = AccountId(2);
    let ctx = RegisterReferral { user, referrer, user_account: UserAccount::fresh(user) };
    let outcome = register_referral(&ctx, 1_700_000_000).expect("fresh registration succeeds");
    assert_eq!(outcome.user_account.user, user);
    assert_eq!(outcome.user_account.referrer, Some(referrer));
    assert!(outcome.user_account.is_registered);
    assert_eq!(outcome.user_account.swaps_count, 0);
    assert_eq!(outcome.event.user, user);
    assert_eq!(outcome.event.referrer, referrer);
    assert_eq!(outcome.event.timestamp, 1_700_000_000);
}

#[test]
fn registration_rejects_self_referral() {
    let user = AccountId(1);
    let ctx = RegisterReferral { user, referrer: user, user_account: UserAccount::fresh(user) };
    assert_eq!(register_referral(&ctx, 0), Err(ErrorCode::CannotReferSelf));
}

#[test]
fn second_registration_always_fails() {
    let user = AccountId(1);
    let account = registered_account(user, AccountId(2));
    // Same referrer again, different referrer, different timestamp: all refused.
    for referrer in [AccountId(2), AccountId(3), AccountId(4)] {
        let ctx = RegisterReferral { user, referrer, user_account: account };
        assert_eq!(register_referral(&ctx, 99), Err(ErrorCode::ReferralAlreadySet));
    }
}

#[test]
fn referred_swap_splits_the_fee_exactly() {
    // fee 20 bps on 1_000_000 gives a 2000 fee; the referrer takes 10% of it.
    let user = AccountId(1);
    let referrer = AccountId(2);
    let ctx = ExecuteSwapWithReferral {
        config: test_config(20),
        user,
        user_account: registered_account(user, referrer),
        referrer_stats: ReferrerStats::fresh(referrer),
    };
    let outcome = execute_swap_with_referral(&ctx, 1_000_000, 0).expect("swap succeeds");
    assert_eq!(outcome.event.platform_fee, 1800);
    assert_eq!(outcome.event.referral_reward, 200);
    assert_eq!(outcome.event.amount_out, 998_000);
    assert_eq!(outcome.event.amount_in, 1_000_000);
    assert_eq!(outcome.event.user, user);
    assert_eq!(outcome.event.referrer, Some(referrer));
    assert_eq!(outcome.referrer_stats.referrer, referrer);
    assert_eq!(outcome.referrer_stats.referral_count, 1);
    assert_eq!(outcome.referrer_stats.total_rewards, 200);
    assert_eq!(outcome.user_account.swaps_count, 1);
    assert_eq!(
        outcome.platform_payout,
        Some(Payout { to: fee_recipient(), amount: 1800 })
    );
    assert_eq!(outcome.referrer_payout, Some(Payout { to: referrer, amount: 200 }));
    assert_eq!(outcome.user_payout, Payout { to: user, amount: 998_000 });
}

#[test]
fn unreferred_swap_sends_the_whole_fee_to_the_platform() {
    let user = AccountId(7);
    let ctx = ExecuteSwapWithReferral {
        config: test_config(20),
        user,
        user_account: UserAccount::fresh(user),
        referrer_stats: ReferrerStats::fresh(user),
    };
    let outcome = execute_swap_with_referral(&ctx, 1_000_000, 0).expect("swap succeeds");
    assert_eq!(outcome.event.platform_fee, 2000);
    assert_eq!(outcome.event.referral_reward, 0);
    assert_eq!(outcome.event.referrer, None);
    assert_eq!(outcome.event.amount_out, 998_000);
    assert_eq!(outcome.referrer_payout, None);
    assert_eq!(outcome.referrer_stats, ReferrerStats::fresh(user));
    assert_eq!(outcome.user_account.swaps_count, 1);
}

#[test]
fn gross_output_meeting_the_minimum_succeeds() {
    let user = AccountId(1);
    let ctx = ExecuteSwapWithReferral {
        config: test_config(20),
        user,
        user_account: UserAccount::fresh(user),
        referrer_stats: ReferrerStats::fresh(user),
    };
    // The gross output equals the input amount; the bound is non-strict.
    assert!(execute_swap_with_referral(&ctx, 5000, 5000).is_ok());
}

#[test]
fn gross_output_below_the_minimum_is_slippage() {
    let user = AccountId(1);
    let ctx = ExecuteSwapWithReferral {
        config: test_config(20),
        user,
        user_account: UserAccount::fresh(user),
        referrer_stats: ReferrerStats::fresh(user),
    };
    assert_eq!(
        execute_swap_with_referral(&ctx, 4999, 5000),
        Err(ErrorCode::SlippageTooHigh)
    );
}

#[test]
fn two_referred_users_accumulate_on_one_ledger() {
    // Two users, both referred by B, swap back to back; B's ledger holds the
    // exact sum of both rewards and one count per rewarded swap.
    let referrer = AccountId(2);
    let config = test_config(20);
    let first = ExecuteSwapWithReferral {
        config,
        user: AccountId(1),
        user_account: registered_account(AccountId(1), referrer),
        referrer_stats: ReferrerStats::fresh(referrer),
    };
    let after_first = execute_swap_with_referral(&first, 1_000_000, 0).expect("swap succeeds");
    let second = ExecuteSwapWithReferral {
        config,
        user: AccountId(3),
        user_account: registered_account(AccountId(3), referrer),
        referrer_stats: after_first.referrer_stats,
    };
    let after_second = execute_swap_with_referral(&second, 500_000, 0).expect("swap succeeds");
    assert_eq!(after_first.event.referral_reward, 200);
    assert_eq!(after_second.event.referral_reward, 100);
    assert_eq!(after_second.referrer_stats.total_rewards, 300);
    assert_eq!(after_second.referrer_stats.referral_count, 2);
}

#[test]
fn reward_that_truncates_to_zero_credits_nothing() {
    // 4000 * 20 / 10000 == 8 of fee; 8 * 1000 / 10000 truncates to 0: the
    // referrer is registered but earns nothing, and its ledger is untouched.
    let user = AccountId(1);
    let referrer = AccountId(2);
    let ctx = ExecuteSwapWithReferral {
        config: test_config(20),
        user,
        user_account: registered_account(user, referrer),
        referrer_stats: ReferrerStats::fresh(referrer),
    };
    let outcome = execute_swap_with_referral(&ctx, 4000, 0).expect("swap succeeds");
    assert_eq!(outcome.event.platform_fee, 8);
    assert_eq!(outcome.event.referral_reward, 0);
    assert_eq!(outcome.event.referrer, Some(referrer));
    assert_eq!(outcome.referrer_payout, None);
    assert_eq!(outcome.referrer_stats, ReferrerStats::fresh(referrer));
    assert_eq!(outcome.user_account.swaps_count, 1);
}

#[test]
fn fee_product_beyond_u64_aborts() {
    let user = AccountId(1);
    let ctx = ExecuteSwapWithReferral {
        config: test_config(100),
        user,
        user_account: UserAccount::fresh(user),
        referrer_stats: ReferrerStats::fresh(user),
    };
    assert_eq!(
        execute_swap_with_referral(&ctx, u64::MAX, 0),
        Err(ErrorCode::ArithmeticOverflow)
    );
}

#[test]
fn reward_share_beyond_the_fee_aborts() {
    // An uncapped referral share above the whole fee underflows the checked
    // subtraction rather than going negative.
    let config = Config {
        authority: authority(),
        fee_recipient: fee_recipient(),
        fee_bps: 100,
        referral_reward_bps: 20_000,
    };
    let user = AccountId(1);
    let referrer = AccountId(2);
    let ctx = ExecuteSwapWithReferral {
        config,
        user,
        user_account: registered_account(user, referrer),
        referrer_stats: ReferrerStats::fresh(referrer),
    };
    assert_eq!(
        execute_swap_with_referral(&ctx, 10_000, 0),
        Err(ErrorCode::ArithmeticOverflow)
    );
}

#[test]
fn swap_counter_at_the_ceiling_aborts() {
    let user = AccountId(1);
    let mut account = UserAccount::fresh(user);
    account.swaps_count = u64::MAX;
    let ctx = ExecuteSwapWithReferral {
        config: test_config(20),
        user,
        user_account: account,
        referrer_stats: ReferrerStats::fresh(user),
    };
    assert_eq!(
        execute_swap_with_referral(&ctx, 1_000_000, 0),
        Err(ErrorCode::ArithmeticOverflow)
    );
}

#[test]
fn reward_ledger_at_the_ceiling_aborts() {
    let user = AccountId(1);
    let referrer = AccountId(2);
    let stats = ReferrerStats { referrer, referral_count: 5, total_rewards: u64::MAX - 100 };
    let ctx = ExecuteSwapWithReferral {
        config: test_config(20),
        user,
        user_account: registered_account(user, referrer),
        referrer_stats: stats,
    };
    // The swap would credit 200 more; the ledger cannot hold it.
    assert_eq!(
        execute_swap_with_referral(&ctx, 1_000_000, 0),
        Err(ErrorCode::ArithmeticOverflow)
    );
}

#[test]
fn zero_input_still_pays_the_user_transfer() {
    let user = AccountId(1);
    let ctx = ExecuteSwapWithReferral {
        config: test_config(20),
        user,
        user_account: UserAccount::fresh(user),
        referrer_stats: ReferrerStats::fresh(user),
    };
    let outcome = execute_swap_with_referral(&ctx, 0, 0).expect("swap succeeds");
    assert_eq!(outcome.platform_payout, None);
    assert_eq!(outcome.referrer_payout, None);
    assert_eq!(outcome.user_payout, Payout { to: user, amount: 0 });
    assert_eq!(outcome.user_account.swaps_count, 1);
}

#[test]
fn fee_split_stands_alone_for_a_real_dex_output() {
    // The split works on whatever gross output the external swap reports,
    // not only on the input amount.
    let config = test_config(20);
    let split = compute_fee_split(&config, true, 12_345).expect("split succeeds");
    assert_eq!(split.platform_fee, 22);
    assert_eq!(split.referral_reward, 2);
    assert_eq!(split.user_amount, 12_321);
    assert_eq!(
        split.platform_fee + split.referral_reward + split.user_amount,
        12_345
    );
}

#[test]
fn fee_split_truncates_towards_zero() {
    let config = test_config(20);
    // 4999 * 20 / 10000 == 9 (rounded down); no referrer, so the platform
    // keeps all of it.
    let split = compute_fee_split(&config, false, 4_999).expect("split succeeds");
    assert_eq!(split.platform_fee, 9);
    assert_eq!(split.referral_reward, 0);
    assert_eq!(split.user_amount, 4_990);
}

#[test]
fn stats_query_reads_the_ledger() {
    let referrer = AccountId(2);
    let ctx = GetReferrerStats {
        referrer,
        referrer_stats: ReferrerStats { referrer, referral_count: 3, total_rewards: 777 },
    };
    assert_eq!(get_referrer_stats(&ctx), (3, 777));
}

#[test]
fn stats_query_reads_zero_for_an_uncredited_referrer() {
    let referrer = AccountId(2);
    let ctx = GetReferrerStats { referrer, referrer_stats: ReferrerStats::fresh(referrer) };
    assert_eq!(get_referrer_stats(&ctx), (0, 0));
}

#[test]
fn referrer_detection_follows_the_record() {
    let user = AccountId(1);
    assert!(!has_registered_referrer(&UserAccount::fresh(user)));
    assert!(has_registered_referrer(&registered_account(user, AccountId(2))));
}

#[test]
fn every_error_has_a_message() {
    assert_eq!(ErrorCode::FeeTooHigh.message(), "Fee cannot exceed 1% (100 bps)");
    assert_eq!(ErrorCode::CannotReferSelf.message(), "Cannot refer yourself");
    assert_eq!(
        ErrorCode::ReferralAlreadySet.message(),
        "Referral already set for this user"
    );
    assert_eq!(ErrorCode::SlippageTooHigh.message(), "Slippage tolerance exceeded");
    assert_eq!(ErrorCode::ArithmeticOverflow.message(), "Arithmetic overflow");
}
