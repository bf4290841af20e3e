//! Subscription tiers: paid access levels to the privacy features, with a
//! fixed revenue split between the treasury and the development wallet.
//!
//! A subscription buys whole months of a tier; an active subscription can
//! be upgraded — never downgraded — at a prorated cost over the months it
//! has left.

use vstd::prelude::*;

use crate::errors::VeloError;
use crate::sat_add64;

verus! {

/// One subscription month, in seconds.
pub const MONTH_SECONDS: i64 = 30 * 24 * 60 * 60;

/// One year, in seconds.
pub const YEAR_SECONDS: i64 = 365 * 24 * 60 * 60;

/// The free tier's price.
pub const BASIC_PRICE: u64 = 0;

/// The standard tier's monthly price, in lamports.
pub const STANDARD_PRICE: u64 = 5_000_000_000;

/// The premium tier's monthly price, in lamports.
pub const PREMIUM_PRICE: u64 = 15_000_000_000;

/// The maximum tier's monthly price, in lamports.
pub const MAXIMUM_PRICE: u64 = 50_000_000_000;

/// The treasury's share of every payment, in basis points.
pub const TREASURY_SHARE_BPS: u64 = 9000;

/// The development wallet's share of every payment, in basis points.
pub const DEV_SHARE_BPS: u64 = 1000;

/// The subscription tiers, lowest to highest.
#[derive(Clone, Copy, Debug, PartialEq, Eq, Structural)]
pub enum SubscriptionTier {
    /// Free.
    Basic,
    /// Paid: stealth addresses.
    Standard,
    /// Paid: stealth addresses and proofs.
    Premium,
    /// Paid: everything.
    Maximum,
}

/// A tier's position in the ordering, and its index into the price table.
pub open spec fn tier_rank(tier: SubscriptionTier) -> int {
    match tier {
        SubscriptionTier::Basic => 0,
        SubscriptionTier::Standard => 1,
        SubscriptionTier::Premium => 2,
        SubscriptionTier::Maximum => 3,
    }
}

/// The price-table index of a tier.
pub fn tier_index(tier: SubscriptionTier) -> (i: usize)
    ensures
        i == tier_rank(tier),
{
    match tier {
        SubscriptionTier::Basic => 0,
        SubscriptionTier::Standard => 1,
        SubscriptionTier::Premium => 2,
        SubscriptionTier::Maximum => 3,
    }
}

/// What a tier grants.
#[derive(Clone, Copy, Debug, PartialEq, Eq, Structural)]
pub struct TierFeatures {
    /// The tier these features belong to.
    pub tier: SubscriptionTier,
    /// How many mixing rounds a transfer passes through.
    pub mixing_rounds: u8,
    /// Whether stealth addresses are available.
    pub stealth_addresses: bool,
    /// Whether proof-gated withdrawals are available.
    pub zk_proofs: bool,
    /// Whether full traffic obfuscation is active.
    pub full_obfuscation: bool,
    /// The daily transaction cap.
    pub max_tx_per_day: u32,
    /// A rough privacy score out of one hundred.
    pub privacy_score: u8,
}

/// The feature set of each tier.
pub open spec fn spec_tier_features(tier: SubscriptionTier) -> TierFeatures {
    match tier {
        SubscriptionTier::Basic => TierFeatures {
            tier,
            mixing_rounds: 1,
            stealth_addresses: false,
            zk_proofs: false,
            full_obfuscation: false,
            max_tx_per_day: 5,
            privacy_score: 40,
        },
        SubscriptionTier::Standard => TierFeatures {
            tier,
            mixing_rounds: 3,
            stealth_addresses: true,
            zk_proofs: false,
            full_obfuscation: false,
            max_tx_per_day: 20,
            privacy_score: 60,
        },
        SubscriptionTier::Premium => TierFeatures {
            tier,
            mixing_rounds: 5,
            stealth_addresses: true,
            zk_proofs: true,
            full_obfuscation: false,
            max_tx_per_day: 100,
            privacy_score: 80,
        },
        SubscriptionTier::Maximum => TierFeatures {
            tier,
            mixing_rounds: 8,
            stealth_addresses: true,
            zk_proofs: true,
            full_obfuscation: true,
            max_tx_per_day: 4294967295,
            privacy_score: 100,
        },
    }
}

/// The features a tier grants.
pub fn get_tier_features(tier: SubscriptionTier) -> (f: TierFeatures)
    ensures
        f == spec_tier_features(tier),
{
    match tier {
        SubscriptionTier::Basic => TierFeatures {
            tier,
            mixing_rounds: 1,
            stealth_addresses: false,
            zk_proofs: false,
            full_obfuscation: false,
            max_tx_per_day: 5,
            privacy_score: 40,
        },
        SubscriptionTier::Standard => TierFeatures {
            tier,
            mixing_rounds: 3,
            stealth_addresses: true,
            zk_proofs: false,
            full_obfuscation: false,
            max_tx_per_day: 20,
            privacy_score: 60,
        },
        SubscriptionTier::Premium => TierFeatures {
            tier,
            mixing_rounds: 5,
            stealth_addresses: true,
            zk_proofs: true,
            full_obfuscation: false,
            max_tx_per_day: 100,
            privacy_score: 80,
        },
        SubscriptionTier::Maximum => TierFeatures {
            tier,
            mixing_rounds: 8,
            stealth_addresses: true,
            zk_proofs: true,
            full_obfuscation: true,
            max_tx_per_day: 4294967295,
            privacy_score: 100,
        },
    }
}

/// The subscription protocol's configuration.
pub struct SubscriptionConfig {
    /// The creating authority's identity.
    pub authority: [u8; 32],
    /// Where the treasury share of payments goes.
    pub treasury: [u8; 32],
    /// Where the development share of payments goes.
    pub dev_wallet: [u8; 32],
    /// Monthly prices, indexed by tier rank.
    pub tier_prices: [u64; 4],
    /// How many distinct subscribers ever subscribed.
    pub total_subscribers: u64,
    /// The total revenue collected.
    pub total_revenue: u64,
    /// Whether new subscriptions are accepted.
    pub is_active: bool,
}

/// One wallet's subscription.
pub struct UserSubscription {
    /// The subscribing wallet.
    pub subscriber: [u8; 32],
    /// The current tier.
    pub tier: SubscriptionTier,
    /// When the subscription lapses.
    pub expiry: i64,
    /// The total this wallet ever paid.
    pub total_paid: u64,
    /// When the wallet first subscribed; zero before that.
    pub subscribed_at: i64,
}

/// How a payment is split: ninety percent to the treasury, the rest to the
/// development wallet.
#[derive(Clone, Copy, Debug, PartialEq, Eq, Structural)]
pub struct PaymentSplit {
    /// The treasury's share.
    pub treasury_amount: u64,
    /// The development wallet's share.
    pub dev_amount: u64,
}

/// The treasury's share of a payment.
pub open spec fn treasury_share(total: u64) -> u64 {
    (total * TREASURY_SHARE_BPS / 10000) as u64
}

/// Splits a payment between the treasury and the development wallet.
pub fn split_payment(total: u64) -> (s: PaymentSplit)
    ensures
        s.treasury_amount == treasury_share(total),
        s.dev_amount == total - treasury_share(total),
        s.treasury_amount + s.dev_amount == total,
{
    let share: u128 = TREASURY_SHARE_BPS as u128;
    proof {
        assert((total as u128) * share <= 9000 * 0xffff_ffff_ffff_ffff) by (nonlinear_arith)
            requires
                total <= 0xffff_ffff_ffff_ffffu64,
                share == 9000,
        ;
    }
    let t128: u128 = (total as u128) * share / 10000;
    proof {
        assert(t128 <= total) by (nonlinear_arith)
            requires
                t128 == (total as u128) * share / 10000,
                share <= 10000,
        ;
    }
    let treasury_amount: u64 = t128 as u64;
    PaymentSplit { treasury_amount, dev_amount: total - treasury_amount }
}

/// Initializes the subscription protocol with the default price table.
pub fn initialize(authority: [u8; 32], treasury: [u8; 32], dev_wallet: [u8; 32]) -> (c:
    SubscriptionConfig)
    ensures
        c.authority == authority,
        c.treasury == treasury,
        c.dev_wallet == dev_wallet,
        c.tier_prices@ =~= seq![BASIC_PRICE, STANDARD_PRICE, PREMIUM_PRICE, MAXIMUM_PRICE],
        c.total_subscribers == 0,
        c.total_revenue == 0,
        c.is_active,
{
    SubscriptionConfig {
        authority,
        treasury,
        dev_wallet,
        tier_prices: [BASIC_PRICE, STANDARD_PRICE, PREMIUM_PRICE, MAXIMUM_PRICE],
        total_subscribers: 0,
        total_revenue: 0,
        is_active: true,
    }
}

/// The subscribe transition, in rejection order: an inactive protocol; a
/// duration outside one to twelve months; a total price or a new expiry
/// that would overflow. On acceptance the expiry extends from the later of
/// now and the current expiry, the payment is split ninety/ten, and a
/// first-time subscriber is counted.
pub open spec fn subscribe_spec(
    cfg: SubscriptionConfig,
    sub: UserSubscription,
    subscriber: Seq<u8>,
    tier: SubscriptionTier,
    duration_months: u8,
    now: i64,
) -> (SubscriptionConfig, UserSubscription, Result<PaymentSplit, VeloError>) {
    if !cfg.is_active {
        (cfg, sub, Err(VeloError::ProtocolInactive))
    } else if duration_months == 0 || duration_months > 12 {
        (cfg, sub, Err(VeloError::InvalidDuration))
    } else if cfg.tier_prices@[tier_rank(tier)] * duration_months > u64::MAX {
        (cfg, sub, Err(VeloError::Overflow))
    } else {
        let total_price = (cfg.tier_prices@[tier_rank(tier)] * duration_months) as u64;
        let base = if sub.expiry > now {
            sub.expiry as int
        } else {
            now as int
        };
        if base + duration_months * MONTH_SECONDS > i64::MAX {
            (cfg, sub, Err(VeloError::Overflow))
        } else {
            let new_subscribed_at = if sub.subscribed_at == 0 {
                now
            } else {
                sub.subscribed_at
            };
            let first_time = new_subscribed_at == now;
            (
                SubscriptionConfig {
                    total_subscribers: if first_time {
                        sat_add64(cfg.total_subscribers as int, 1)
                    } else {
                        cfg.total_subscribers
                    },
                    total_revenue: sat_add64(cfg.total_revenue as int, total_price as int),
                    ..cfg
                },
                UserSubscription {
                    subscriber: sub.subscriber,
                    tier: tier,
                    expiry: (base + duration_months * MONTH_SECONDS) as i64,
                    total_paid: sat_add64(sub.total_paid as int, total_price as int),
                    subscribed_at: new_subscribed_at,
                },
                Ok(
                    PaymentSplit {
                        treasury_amount: treasury_share(total_price),
                        dev_amount: (total_price - treasury_share(total_price)) as u64,
                    },
                ),
            )
        }
    }
}

/// Subscribes `duration_months` months of `tier`, extending any still
/// active subscription. Returns the payment split the ledger must perform.
/// Refines `subscribe_spec`; no state is mutated on any error.
pub fn subscribe(
    config: &mut SubscriptionConfig,
    subscription: &mut UserSubscription,
    subscriber: [u8; 32],
    tier: SubscriptionTier,
    duration_months: u8,
    now: i64,
) -> (result: Result<PaymentSplit, VeloError>)
    ensures
        ({
            let spec_result = subscribe_spec(
                *old(config),
                *old(subscription),
                subscriber@,
                tier,
                duration_months,
                now,
            );
            &&& *final(config) == spec_result.0
            &&& *final(subscription) == spec_result.1
            &&& result == spec_result.2
        }),
{
    if !config.is_active {
        return Err(VeloError::ProtocolInactive);
    }
    if duration_months == 0 || duration_months > 12 {
        return Err(VeloError::InvalidDuration);
    }
    let tier_price = config.tier_prices[tier_index(tier)];
    let total_price = match tier_price.checked_mul(duration_months as u64) {
        Some(p) => p,
        None => {
            return Err(VeloError::Overflow);
        },
    };
    proof {
        assert(MONTH_SECONDS == 2592000);
    }
    let duration_seconds: i64 = (duration_months as i64) * MONTH_SECONDS;
    let base: i64 = if subscription.expiry > now {
        subscription.expiry
    } else {
        now
    };
    let new_expiry = match base.checked_add(duration_seconds) {
        Some(e) => e,
        None => {
            return Err(VeloError::Overflow);
        },
    };
    let split = split_payment(total_price);

    subscription.subscriber = subscription.subscriber;
    subscription.tier = tier;
    subscription.expiry = new_expiry;
    subscription.total_paid = subscription.total_paid.saturating_add(total_price);
    if subscription.subscribed_at == 0 {
        subscription.subscribed_at = now;
    }
    if subscription.subscribed_at == now {
        config.total_subscribers = config.total_subscribers.saturating_add(1);
    }
    config.total_revenue = config.total_revenue.saturating_add(total_price);
    Ok(split)
}

/// The months a subscription still has, rounded up.
pub open spec fn remaining_months(expiry: i64, now: i64) -> int {
    (expiry - now + MONTH_SECONDS - 1) / (MONTH_SECONDS as int)
}

/// The prorated cost of moving from `old_price` to `new_price` a month for
/// the remaining months, saturating.
pub open spec fn upgrade_cost_spec(old_price: u64, new_price: u64, months: int) -> u64 {
    let diff = if new_price >= old_price {
        new_price - old_price
    } else {
        0
    };
    if diff * months <= u64::MAX {
        (diff * months) as u64
    } else {
        u64::MAX
    }
}

/// The upgrade transition, in rejection order: a lapsed subscription, then
/// a tier no higher than the current one. On acceptance the tier changes at
/// a prorated cost over the months left, split ninety/ten.
pub open spec fn upgrade_tier_spec(
    cfg: SubscriptionConfig,
    sub: UserSubscription,
    new_tier: SubscriptionTier,
    now: i64,
) -> (UserSubscription, Result<PaymentSplit, VeloError>) {
    if sub.expiry <= now {
        (sub, Err(VeloError::SubscriptionExpired))
    } else if tier_rank(new_tier) <= tier_rank(sub.tier) {
        (sub, Err(VeloError::CannotDowngrade))
    } else {
        let cost = upgrade_cost_spec(
            cfg.tier_prices@[tier_rank(sub.tier)],
            cfg.tier_prices@[tier_rank(new_tier)],
            remaining_months(sub.expiry, now),
        );
        (
            UserSubscription {
                tier: new_tier,
                total_paid: sat_add64(sub.total_paid as int, cost as int),
                ..sub
            },
            Ok(
                PaymentSplit {
                    treasury_amount: treasury_share(cost),
                    dev_amount: (cost - treasury_share(cost)) as u64,
                },
            ),
        )
    }
}

/// Upgrades an active subscription to a higher tier at a prorated cost.
/// Returns the payment split the ledger must perform. Refines
/// `upgrade_tier_spec`; no state is mutated on any error.
pub fn upgrade_tier(
    config: &SubscriptionConfig,
    subscription: &mut UserSubscription,
    new_tier: SubscriptionTier,
    now: i64,
) -> (result: Result<PaymentSplit, VeloError>)
    ensures
        *final(subscription) == upgrade_tier_spec(*config, *old(subscription), new_tier, now).0,
        result == upgrade_tier_spec(*config, *old(subscription), new_tier, now).1,
{
    if subscription.expiry <= now {
        return Err(VeloError::SubscriptionExpired);
    }
    let old_rank = tier_index(subscription.tier);
    let new_rank = tier_index(new_tier);
    if new_rank <= old_rank {
        return Err(VeloError::CannotDowngrade);
    }

    let remaining: u128 = ((subscription.expiry as i128) - (now as i128)) as u128;
    let numerator: u128 = remaining + 2592000 - 1;
    let months_wide: u128 = numerator / 2592000;
    proof {
        assert(MONTH_SECONDS == 2592000);
        vstd::arithmetic::div_mod::lemma_fundamental_div_mod(numerator as int, 2592000);
        assert(1 <= months_wide <= 0xffff_ffff_ffff_ffff);
        assert(months_wide as int == remaining_months(subscription.expiry, now));
    }
    let months: u64 = months_wide as u64;

    let old_price = config.tier_prices[old_rank];
    let new_price = config.tier_prices[new_rank];
    let price_diff: u64 = if new_price >= old_price {
        new_price - old_price
    } else {
        0
    };
    let upgrade_cost: u64 = match price_diff.checked_mul(months) {
        Some(c) => c,
        None => u64::MAX,
    };
    let split = split_payment(upgrade_cost);

    subscription.tier = new_tier;
    subscription.total_paid = subscription.total_paid.saturating_add(upgrade_cost);
    Ok(split)
}

/// The tier whose features currently apply: the subscribed tier while the
/// subscription is active, the free tier after it lapses.
pub open spec fn effective_tier(sub: UserSubscription, now: i64) -> SubscriptionTier {
    if sub.expiry > now {
        sub.tier
    } else {
        SubscriptionTier::Basic
    }
}

/// The features a wallet currently enjoys.
pub fn check_subscription(subscription: &UserSubscription, now: i64) -> (f: TierFeatures)
    ensures
        f == spec_tier_features(effective_tier(*subscription, now)),
{
    let is_active = subscription.expiry > now;
    let tier = if is_active {
        subscription.tier
    } else {
        SubscriptionTier::Basic
    };
    get_tier_features(tier)
}

/// Replaces the price table; nothing else changes.
pub fn update_prices(config: &mut SubscriptionConfig, new_prices: [u64; 4])
    ensures
        *final(config) == (SubscriptionConfig { tier_prices: new_prices, ..*old(config) }),
{
    config.tier_prices = new_prices;
}

/// Pauses or resumes new subscriptions; nothing else changes.
pub fn set_active(config: &mut SubscriptionConfig, is_active: bool)
    ensures
        *final(config) == (SubscriptionConfig { is_active: is_active, ..*old(config) }),
{
    config.is_active = is_active;
}

} // verus!
