use velo::decoy::{decoy_deposit, decoy_withdraw, init_decoy_system, shuffle};
use velo::errors::VeloError;
use velo::hashes::PoseidonPair;
use velo::pool::MixerPool;
use velo::subscription::{
    check_subscription, get_tier_features, initialize, set_active, subscribe, update_prices,
    upgrade_tier, SubscriptionConfig, SubscriptionTier, UserSubscription,
};

fn funded_pool() -> MixerPool {
    let h = PoseidonPair;
    let mut pool = MixerPool::initialize_pool(&h, [9u8; 32], 1_000_000);
    pool.deposit(&h, [1u8; 32]).unwrap();
    pool.deposit(&h, [2u8; 32]).unwrap();
    pool
}

fn decoy_total(balances: &[u64]) -> u64 {
    balances.iter().sum()
}

#[test]
fn shuffle_moves_and_conserves() {
    let mut pool = funded_pool();
    let mut config = init_decoy_system([9u8; 32], [9u8; 32], 3);
    assert_eq!(config.num_decoy_vaults, 3);
    let before = pool.vault_balance + decoy_total(&config.decoy_balances);

    shuffle(&mut config, &mut pool, 1, 700_000, true, 10).unwrap();
    assert_eq!(pool.vault_balance, 1_300_000);
    assert_eq!(config.decoy_balances[1], 700_000);
    assert_eq!(config.total_shuffles, 1);
    assert_eq!(config.last_shuffle_slot, 10);
    assert_eq!(pool.vault_balance + decoy_total(&config.decoy_balances), before);

    shuffle(&mut config, &mut pool, 1, 200_000, false, 20).unwrap();
    assert_eq!(pool.vault_balance, 1_500_000);
    assert_eq!(config.decoy_balances[1], 500_000);
    assert_eq!(pool.vault_balance + decoy_total(&config.decoy_balances), before);
}

#[test]
fn shuffle_rate_limited() {
    let mut pool = funded_pool();
    let mut config = init_decoy_system([9u8; 32], [9u8; 32], 2);
    shuffle(&mut config, &mut pool, 0, 100_000, true, 10).unwrap();
    // Heights 11 and 12 are within the minimum spacing of two.
    let r = shuffle(&mut config, &mut pool, 0, 100_000, true, 11);
    assert_eq!(r, Err(VeloError::ShuffleRateLimited));
    let r = shuffle(&mut config, &mut pool, 0, 100_000, true, 12);
    assert_eq!(r, Err(VeloError::ShuffleRateLimited));
    assert_eq!(config.total_shuffles, 1);
    // Height 13 is past the spacing.
    shuffle(&mut config, &mut pool, 0, 100_000, true, 13).unwrap();
    assert_eq!(config.total_shuffles, 2);
}

#[test]
fn shuffle_rejections() {
    let mut pool = funded_pool();
    let mut config = init_decoy_system([9u8; 32], [9u8; 32], 2);

    let r = shuffle(&mut config, &mut pool, 2, 1, true, 10);
    assert_eq!(r, Err(VeloError::InvalidDecoyVaultIndex));

    // An empty decoy vault cannot fund a move back to the pool.
    let r = shuffle(&mut config, &mut pool, 0, 1, false, 10);
    assert_eq!(r, Err(VeloError::InsufficientFunds));

    config.enabled = false;
    let r = shuffle(&mut config, &mut pool, 0, 1, true, 10);
    assert_eq!(r, Err(VeloError::DecoySystemDisabled));
}

#[test]
fn decoy_traffic_leaves_counters_untouched() {
    let mut pool = funded_pool();
    let mut config = init_decoy_system([9u8; 32], [9u8; 32], 1);
    let deposits = pool.total_deposits;
    let withdrawals = pool.total_withdrawals;
    let leaves = pool.merkle_tree.next_index;
    let before = pool.vault_balance + decoy_total(&config.decoy_balances);

    decoy_withdraw(&mut config, &mut pool).unwrap();
    assert_eq!(pool.vault_balance, 1_000_000);
    assert_eq!(config.decoy_balances[0], 1_000_000);

    decoy_deposit(&mut config, &mut pool, [0x77u8; 32]).unwrap();
    assert_eq!(pool.vault_balance, 2_000_000);
    assert_eq!(config.decoy_balances[0], 0);

    // The observable shape changed; the pool's real state did not.
    assert_eq!(pool.total_deposits, deposits);
    assert_eq!(pool.total_withdrawals, withdrawals);
    assert_eq!(pool.merkle_tree.next_index, leaves);
    assert_eq!(pool.vault_balance + decoy_total(&config.decoy_balances), before);

    // A decoy deposit needs a funded decoy vault.
    let r = decoy_deposit(&mut config, &mut pool, [0x77u8; 32]);
    assert_eq!(r, Err(VeloError::InsufficientFunds));
}

fn fresh_subscription() -> UserSubscription {
    UserSubscription {
        subscriber: [0u8; 32],
        tier: SubscriptionTier::Basic,
        expiry: 0,
        total_paid: 0,
        subscribed_at: 0,
    }
}

fn fresh_config() -> SubscriptionConfig {
    initialize([1u8; 32], [2u8; 32], [3u8; 32])
}

const MONTH: i64 = 30 * 24 * 60 * 60;

#[test]
fn subscribe_standard_two_months() {
    let mut config = fresh_config();
    let mut sub = fresh_subscription();
    let split = subscribe(&mut config, &mut sub, [7u8; 32], SubscriptionTier::Standard, 2, 1000)
        .unwrap();
    assert_eq!(split.treasury_amount, 9_000_000_000);
    assert_eq!(split.dev_amount, 1_000_000_000);
    assert_eq!(sub.expiry, 1000 + 2 * MONTH);
    assert_eq!(sub.subscribed_at, 1000);
    assert_eq!(sub.total_paid, 10_000_000_000);
    assert_eq!(config.total_subscribers, 1);
    assert_eq!(config.total_revenue, 10_000_000_000);

    // A renewal while still active extends from the current expiry and does
    // not count a new subscriber.
    let split =
        subscribe(&mut config, &mut sub, [7u8; 32], SubscriptionTier::Standard, 1, 6000).unwrap();
    assert_eq!(split.treasury_amount, 4_500_000_000);
    assert_eq!(sub.expiry, 1000 + 3 * MONTH);
    assert_eq!(sub.subscribed_at, 1000);
    assert_eq!(config.total_subscribers, 1);
}

#[test]
fn subscribe_rejections() {
    let mut config = fresh_config();
    let mut sub = fresh_subscription();
    let r = subscribe(&mut config, &mut sub, [7u8; 32], SubscriptionTier::Standard, 0, 1000);
    assert_eq!(r, Err(VeloError::InvalidDuration));
    let r = subscribe(&mut config, &mut sub, [7u8; 32], SubscriptionTier::Standard, 13, 1000);
    assert_eq!(r, Err(VeloError::InvalidDuration));

    set_active(&mut config, false);
    let r = subscribe(&mut config, &mut sub, [7u8; 32], SubscriptionTier::Standard, 1, 1000);
    assert_eq!(r, Err(VeloError::ProtocolInactive));
    set_active(&mut config, true);

    update_prices(&mut config, [u64::MAX; 4]);
    let r = subscribe(&mut config, &mut sub, [7u8; 32], SubscriptionTier::Standard, 2, 1000);
    assert_eq!(r, Err(VeloError::Overflow));
}

#[test]
fn upgrade_prorated_cost() {
    let config = fresh_config();
    let mut sub = fresh_subscription();
    sub.tier = SubscriptionTier::Standard;
    sub.subscribed_at = 1000;
    // One second into the second remaining month: charged for two months.
    sub.expiry = 1000 + MONTH + 1;
    let split = upgrade_tier(&config, &mut sub, SubscriptionTier::Premium, 1000).unwrap();
    // Two months of the ten-SOL-per-month difference.
    assert_eq!(split.treasury_amount, 18_000_000_000);
    assert_eq!(split.dev_amount, 2_000_000_000);
    assert_eq!(sub.tier, SubscriptionTier::Premium);
    assert_eq!(sub.total_paid, 20_000_000_000);
}

#[test]
fn upgrade_rejections() {
    let config = fresh_config();
    let mut sub = fresh_subscription();
    sub.tier = SubscriptionTier::Premium;
    sub.expiry = 500;
    let r = upgrade_tier(&config, &mut sub, SubscriptionTier::Maximum, 1000);
    assert_eq!(r, Err(VeloError::SubscriptionExpired));

    sub.expiry = 10_000;
    let r = upgrade_tier(&config, &mut sub, SubscriptionTier::Standard, 1000);
    assert_eq!(r, Err(VeloError::CannotDowngrade));
    let r = upgrade_tier(&config, &mut sub, SubscriptionTier::Premium, 1000);
    assert_eq!(r, Err(VeloError::CannotDowngrade));
}

#[test]
fn tier_features_table() {
    let basic = get_tier_features(SubscriptionTier::Basic);
    assert_eq!(basic.mixing_rounds, 1);
    assert!(!basic.stealth_addresses);
    assert!(!basic.zk_proofs);
    assert_eq!(basic.max_tx_per_day, 5);
    assert_eq!(basic.privacy_score, 40);

    let standard = get_tier_features(SubscriptionTier::Standard);
    assert!(standard.stealth_addresses);
    assert!(!standard.zk_proofs);
    assert_eq!(standard.mixing_rounds, 3);
    assert_eq!(standard.privacy_score, 60);

    let premium = get_tier_features(SubscriptionTier::Premium);
    assert!(premium.zk_proofs);
    assert!(!premium.full_obfuscation);
    assert_eq!(premium.max_tx_per_day, 100);

    let maximum = get_tier_features(SubscriptionTier::Maximum);
    assert!(maximum.full_obfuscation);
    assert_eq!(maximum.mixing_rounds, 8);
    assert_eq!(maximum.max_tx_per_day, u32::MAX);
    assert_eq!(maximum.privacy_score, 100);
}

#[test]
fn check_subscription_lapses_to_basic() {
    let mut sub = fresh_subscription();
    sub.tier = SubscriptionTier::Premium;
    sub.expiry = 2000;
    let features = check_subscription(&sub, 1000);
    assert_eq!(features.tier, SubscriptionTier::Premium);
    let features = check_subscription(&sub, 3000);
    assert_eq!(features.tier, SubscriptionTier::Basic);
}
