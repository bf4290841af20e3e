//! The decoy/noise generator: periodically moves funds between the pool
//! vault and a handful of auxiliary decoy vaults to defeat balance- and
//! timing-correlation analysis.
//!
//! Shuffles are rate limited to a minimum spacing of ledger heights, and no
//! decoy operation mints or burns value: the net amount across the main
//! vault and all decoy vaults is invariant. Decoy deposits and withdrawals
//! mimic the observable shape of real ones but deliberately leave the
//! pool's real counters untouched — a documented policy, not an oversight.

use vstd::prelude::*;

use crate::errors::VeloError;
use crate::pool::{MixerPool, PoolModel};

verus! {

/// The most decoy vaults a pool may configure.
pub const MAX_DECOY_VAULTS: u8 = 8;

/// The sum of a sequence of vault balances.
pub open spec fn total_balance(s: Seq<nat>) -> nat
    decreases s.len(),
{
    if s.len() == 0 {
        0
    } else {
        total_balance(s.drop_last()) + s.last()
    }
}

/// Updating one balance changes the sum by exactly the difference.
pub proof fn lemma_total_balance_update(s: Seq<nat>, i: int, v: nat)
    requires
        0 <= i < s.len(),
    ensures
        total_balance(s.update(i, v)) == total_balance(s) - s[i] + v,
    decreases s.len(),
{
    if i == s.len() - 1 {
        assert(s.update(i, v).drop_last() =~= s.drop_last());
    } else {
        assert(s.update(i, v).drop_last() =~= s.drop_last().update(i, v));
        lemma_total_balance_update(s.drop_last(), i, v);
    }
}

/// Every balance is at most the sum.
pub proof fn lemma_total_balance_bound(s: Seq<nat>, i: int)
    requires
        0 <= i < s.len(),
    ensures
        s[i] <= total_balance(s),
    decreases s.len(),
{
    if i < s.len() - 1 {
        lemma_total_balance_bound(s.drop_last(), i);
    }
}

/// The mathematical state of a decoy configuration.
#[verifier::ext_equal]
pub ghost struct DecoyModel {
    /// The pool this configuration belongs to.
    pub pool: Seq<u8>,
    /// Who may manage the configuration.
    pub authority: Seq<u8>,
    /// How many decoy vaults exist.
    pub num_decoy_vaults: nat,
    /// How many shuffles were performed.
    pub total_shuffles: nat,
    /// The ledger height of the last shuffle, for rate limiting.
    pub last_shuffle_slot: nat,
    /// Whether the decoy system is active.
    pub enabled: bool,
    /// The decoy vaults' balances, mirroring the ledger.
    pub decoy_balances: Seq<nat>,
}

/// A pool's decoy configuration and vault balances.
pub struct DecoyConfig {
    /// The pool this configuration belongs to.
    pub pool: [u8; 32],
    /// Who may manage the configuration.
    pub authority: [u8; 32],
    /// How many decoy vaults exist; at most `MAX_DECOY_VAULTS`.
    pub num_decoy_vaults: u8,
    /// How many shuffles were performed.
    pub total_shuffles: u64,
    /// The ledger height of the last shuffle, for rate limiting.
    pub last_shuffle_slot: u64,
    /// Whether the decoy system is active.
    pub enabled: bool,
    /// The decoy vaults' balances, mirroring the ledger.
    pub decoy_balances: Vec<u64>,
}

impl View for DecoyConfig {
    type V = DecoyModel;

    open spec fn view(&self) -> DecoyModel {
        DecoyModel {
            pool: self.pool@,
            authority: self.authority@,
            num_decoy_vaults: self.num_decoy_vaults as nat,
            total_shuffles: self.total_shuffles as nat,
            last_shuffle_slot: self.last_shuffle_slot as nat,
            enabled: self.enabled,
            decoy_balances: self.decoy_balances@.map_values(|b: u64| b as nat),
        }
    }
}

impl DecoyConfig {
    /// One balance per configured vault, and not more vaults than the cap.
    pub open spec fn wf(&self) -> bool {
        &&& self.decoy_balances@.len() == self.num_decoy_vaults as nat
        &&& self.num_decoy_vaults <= MAX_DECOY_VAULTS
    }
}

/// Creates the decoy system for a pool: the requested number of vaults,
/// capped at `MAX_DECOY_VAULTS`, all empty; enabled, with no shuffle yet.
pub fn init_decoy_system(pool: [u8; 32], authority: [u8; 32], num_vaults: u8) -> (c: DecoyConfig)
    ensures
        c.wf(),
        c@.pool == pool@,
        c@.authority == authority@,
        c@.num_decoy_vaults == (if num_vaults <= MAX_DECOY_VAULTS {
            num_vaults as nat
        } else {
            MAX_DECOY_VAULTS as nat
        }),
        c@.total_shuffles == 0,
        c@.last_shuffle_slot == 0,
        c@.enabled,
        forall|i: int| 0 <= i < c@.decoy_balances.len() ==> c@.decoy_balances[i] == 0,
        total_balance(c@.decoy_balances) == 0,
{
    let num: u8 = if num_vaults <= MAX_DECOY_VAULTS {
        num_vaults
    } else {
        MAX_DECOY_VAULTS
    };
    let mut decoy_balances: Vec<u64> = Vec::new();
    let mut i: u8 = 0;
    while i < num
        invariant
            i <= num,
            decoy_balances@.len() == i as nat,
            forall|j: int| 0 <= j < i ==> decoy_balances@[j] == 0u64,
        decreases num - i,
    {
        decoy_balances.push(0);
        i += 1;
    }
    let c = DecoyConfig {
        pool,
        authority,
        num_decoy_vaults: num,
        total_shuffles: 0,
        last_shuffle_slot: 0,
        enabled: true,
        decoy_balances,
    };
    proof {
        lemma_all_zero_total(c@.decoy_balances);
    }
    c
}

/// A sequence of all-zero balances sums to zero.
proof fn lemma_all_zero_total(s: Seq<nat>)
    requires
        forall|i: int| 0 <= i < s.len() ==> s[i] == 0,
    ensures
        total_balance(s) == 0,
    decreases s.len(),
{
    if s.len() > 0 {
        lemma_all_zero_total(s.drop_last());
    }
}

/// The shuffle transition, in rejection order: a disabled system; a vault
/// index out of range; a second shuffle within the minimum spacing of two
/// ledger heights; a source vault short of the amount. On acceptance the
/// amount moves between the main vault and the chosen decoy vault —
/// `direction` true moves main-to-decoy — the shuffle is counted, and the
/// rate-limit height advances.
pub open spec fn shuffle_spec(
    c: DecoyModel,
    p: PoolModel,
    decoy_index: u8,
    amount: u64,
    direction: bool,
    current_slot: u64,
) -> (DecoyModel, PoolModel, Result<(), VeloError>) {
    if !c.enabled {
        (c, p, Err(VeloError::DecoySystemDisabled))
    } else if decoy_index as nat >= c.num_decoy_vaults {
        (c, p, Err(VeloError::InvalidDecoyVaultIndex))
    } else if current_slot as nat <= c.last_shuffle_slot + 2 {
        (c, p, Err(VeloError::ShuffleRateLimited))
    } else if (if direction {
        p.vault_balance < amount
    } else {
        c.decoy_balances[decoy_index as int] < amount
    }) {
        (c, p, Err(VeloError::InsufficientFunds))
    } else {
        let moved_decoys = if direction {
            c.decoy_balances.update(
                decoy_index as int,
                (c.decoy_balances[decoy_index as int] + amount) as nat,
            )
        } else {
            c.decoy_balances.update(
                decoy_index as int,
                (c.decoy_balances[decoy_index as int] - amount) as nat,
            )
        };
        let new_vault = if direction {
            (p.vault_balance - amount) as nat
        } else {
            (p.vault_balance + amount) as nat
        };
        (
            DecoyModel {
                total_shuffles: c.total_shuffles + 1,
                last_shuffle_slot: current_slot as nat,
                decoy_balances: moved_decoys,
                ..c
            },
            PoolModel { vault_balance: new_vault, ..p },
            Ok(()),
        )
    }
}

/// Moves `amount` between the pool vault and a decoy vault, rate limited to
/// one shuffle per two ledger heights. Anyone may call it: the movements
/// are noise, not financial operations. Refines `shuffle_spec`; conserves
/// the net value across the main vault and all decoy vaults; no state is
/// mutated on any error.
pub fn shuffle(
    config: &mut DecoyConfig,
    pool: &mut MixerPool,
    decoy_index: u8,
    amount: u64,
    direction: bool,
    current_slot: u64,
) -> (result: Result<(), VeloError>)
    requires
        old(config).wf(),
        old(pool).wf(),
        old(config)@.total_shuffles < u64::MAX,
        old(pool)@.vault_balance + total_balance(old(config)@.decoy_balances) <= u64::MAX,
    ensures
        final(config).wf(),
        final(pool).wf(),
        final(config)@ == shuffle_spec(
            old(config)@,
            old(pool)@,
            decoy_index,
            amount,
            direction,
            current_slot,
        ).0,
        final(pool)@ == shuffle_spec(
            old(config)@,
            old(pool)@,
            decoy_index,
            amount,
            direction,
            current_slot,
        ).1,
        result == shuffle_spec(
            old(config)@,
            old(pool)@,
            decoy_index,
            amount,
            direction,
            current_slot,
        ).2,
        final(pool)@.vault_balance + total_balance(final(config)@.decoy_balances) == old(
            pool,
        )@.vault_balance + total_balance(old(config)@.decoy_balances),
{
    if !config.enabled {
        return Err(VeloError::DecoySystemDisabled);
    }
    if decoy_index >= config.num_decoy_vaults {
        return Err(VeloError::InvalidDecoyVaultIndex);
    }
    if current_slot <= config.last_shuffle_slot || current_slot - config.last_shuffle_slot <= 2 {
        return Err(VeloError::ShuffleRateLimited);
    }
    let idx = decoy_index as usize;
    let ghost c0 = config@;
    let ghost p0 = pool@;
    proof {
        lemma_total_balance_bound(c0.decoy_balances, idx as int);
    }
    if direction {
        if pool.vault_balance < amount {
            return Err(VeloError::InsufficientFunds);
        }
        let updated = config.decoy_balances[idx] + amount;
        config.decoy_balances[idx] = updated;
        pool.vault_balance = pool.vault_balance - amount;
    } else {
        if config.decoy_balances[idx] < amount {
            return Err(VeloError::InsufficientFunds);
        }
        let updated = config.decoy_balances[idx] - amount;
        config.decoy_balances[idx] = updated;
        pool.vault_balance = pool.vault_balance + amount;
    }
    config.total_shuffles = config.total_shuffles + 1;
    config.last_shuffle_slot = current_slot;
    proof {
        let spec_result = shuffle_spec(c0, p0, decoy_index, amount, direction, current_slot);
        assert(config@.decoy_balances =~= spec_result.0.decoy_balances);
        assert(config@ =~= spec_result.0);
        assert(pool@ =~= spec_result.1);
        lemma_total_balance_update(
            c0.decoy_balances,
            idx as int,
            spec_result.0.decoy_balances[idx as int],
        );
    }
    Ok(())
}

/// A decoy "deposit": moves one denomination from the first decoy vault
/// into the main vault, so observers see the shape of a genuine deposit.
/// The pool's real state — counters, accumulator, registry — is untouched.
pub fn decoy_deposit(
    config: &mut DecoyConfig,
    pool: &mut MixerPool,
    fake_commitment: [u8; 32],
) -> (result: Result<(), VeloError>)
    requires
        old(config).wf(),
        old(pool).wf(),
        old(pool)@.vault_balance + total_balance(old(config)@.decoy_balances) <= u64::MAX,
    ensures
        final(config).wf(),
        final(pool).wf(),
        !old(config)@.enabled ==> {
            &&& result == Err::<(), VeloError>(VeloError::DecoySystemDisabled)
            &&& final(config)@ == old(config)@
            &&& final(pool)@ == old(pool)@
        },
        old(config)@.enabled && old(config)@.num_decoy_vaults == 0 ==> {
            &&& result == Err::<(), VeloError>(VeloError::InvalidDecoyVaultIndex)
            &&& final(config)@ == old(config)@
            &&& final(pool)@ == old(pool)@
        },
        old(config)@.enabled && old(config)@.num_decoy_vaults > 0 && old(
            config,
        )@.decoy_balances[0] < old(pool)@.denomination ==> {
            &&& result == Err::<(), VeloError>(VeloError::InsufficientFunds)
            &&& final(config)@ == old(config)@
            &&& final(pool)@ == old(pool)@
        },
        old(config)@.enabled && old(config)@.num_decoy_vaults > 0 && old(
            config,
        )@.decoy_balances[0] >= old(pool)@.denomination ==> {
            &&& result == Ok::<(), VeloError>(())
            &&& final(pool)@ == (PoolModel {
                vault_balance: (old(pool)@.vault_balance + old(pool)@.denomination) as nat,
                ..old(pool)@
            })
            &&& final(config)@ == (DecoyModel {
                decoy_balances: old(config)@.decoy_balances.update(
                    0,
                    (old(config)@.decoy_balances[0] - old(pool)@.denomination) as nat,
                ),
                ..old(config)@
            })
        },
        final(pool)@.vault_balance + total_balance(final(config)@.decoy_balances) == old(
            pool,
        )@.vault_balance + total_balance(old(config)@.decoy_balances),
{
    if !config.enabled {
        return Err(VeloError::DecoySystemDisabled);
    }
    if config.num_decoy_vaults == 0 {
        return Err(VeloError::InvalidDecoyVaultIndex);
    }
    let ghost c0 = config@;
    proof {
        lemma_total_balance_bound(c0.decoy_balances, 0);
    }
    let denomination = pool.denomination;
    if config.decoy_balances[0] < denomination {
        return Err(VeloError::InsufficientFunds);
    }
    let updated = config.decoy_balances[0] - denomination;
    config.decoy_balances[0] = updated;
    pool.vault_balance = pool.vault_balance + denomination;
    proof {
        assert(config@.decoy_balances =~= c0.decoy_balances.update(
            0,
            (c0.decoy_balances[0] - denomination) as nat,
        ));
        assert(config@ =~= (DecoyModel {
            decoy_balances: c0.decoy_balances.update(
                0,
                (c0.decoy_balances[0] - denomination) as nat,
            ),
            ..c0
        }));
        assert(pool@ =~= (PoolModel {
            vault_balance: (old(pool)@.vault_balance + denomination) as nat,
            ..old(pool)@
        }));
        lemma_total_balance_update(
            c0.decoy_balances,
            0,
            (c0.decoy_balances[0] - denomination) as nat,
        );
    }
    Ok(())
}

/// A decoy "withdrawal": moves one denomination from the main vault into
/// the first decoy vault, so observers see the shape of a genuine
/// withdrawal. The pool's real state is untouched.
pub fn decoy_withdraw(config: &mut DecoyConfig, pool: &mut MixerPool) -> (result: Result<
    (),
    VeloError,
>)
    requires
        old(config).wf(),
        old(pool).wf(),
        old(pool)@.vault_balance + total_balance(old(config)@.decoy_balances) <= u64::MAX,
    ensures
        final(config).wf(),
        final(pool).wf(),
        !old(config)@.enabled ==> {
            &&& result == Err::<(), VeloError>(VeloError::DecoySystemDisabled)
            &&& final(config)@ == old(config)@
            &&& final(pool)@ == old(pool)@
        },
        old(config)@.enabled && old(config)@.num_decoy_vaults == 0 ==> {
            &&& result == Err::<(), VeloError>(VeloError::InvalidDecoyVaultIndex)
            &&& final(config)@ == old(config)@
            &&& final(pool)@ == old(pool)@
        },
        old(config)@.enabled && old(config)@.num_decoy_vaults > 0 && old(pool)@.vault_balance
            < old(pool)@.denomination ==> {
            &&& result == Err::<(), VeloError>(VeloError::InsufficientFunds)
            &&& final(config)@ == old(config)@
            &&& final(pool)@ == old(pool)@
        },
        old(config)@.enabled && old(config)@.num_decoy_vaults > 0 && old(pool)@.vault_balance
            >= old(pool)@.denomination ==> {
            &&& result == Ok::<(), VeloError>(())
            &&& final(pool)@ == (PoolModel {
                vault_balance: (old(pool)@.vault_balance - old(pool)@.denomination) as nat,
                ..old(pool)@
            })
            &&& final(config)@ == (DecoyModel {
                decoy_balances: old(config)@.decoy_balances.update(
                    0,
                    (old(config)@.decoy_balances[0] + old(pool)@.denomination) as nat,
                ),
                ..old(config)@
            })
        },
        final(pool)@.vault_balance + total_balance(final(config)@.decoy_balances) == old(
            pool,
        )@.vault_balance + total_balance(old(config)@.decoy_balances),
{
    if !config.enabled {
        return Err(VeloError::DecoySystemDisabled);
    }
    if config.num_decoy_vaults == 0 {
        return Err(VeloError::InvalidDecoyVaultIndex);
    }
    let ghost c0 = config@;
    proof {
        lemma_total_balance_bound(c0.decoy_balances, 0);
    }
    let denomination = pool.denomination;
    if pool.vault_balance < denomination {
        return Err(VeloError::InsufficientFunds);
    }
    let updated = config.decoy_balances[0] + denomination;
    config.decoy_balances[0] = updated;
    pool.vault_balance = pool.vault_balance - denomination;
    proof {
        assert(config@.decoy_balances =~= c0.decoy_balances.update(
            0,
            (c0.decoy_balances[0] + denomination) as nat,
        ));
        assert(config@ =~= (DecoyModel {
            decoy_balances: c0.decoy_balances.update(
                0,
                (c0.decoy_balances[0] + denomination) as nat,
            ),
            ..c0
        }));
        assert(pool@ =~= (PoolModel {
            vault_balance: (old(pool)@.vault_balance - denomination) as nat,
            ..old(pool)@
        }));
        lemma_total_balance_update(
            c0.decoy_balances,
            0,
            (c0.decoy_balances[0] + denomination) as nat,
        );
    }
    Ok(())
}

} // verus!
