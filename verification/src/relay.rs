//! The relay extension: a registered third party submits the withdrawal, so
//! the transaction's signer is never the recipient and the recipient's
//! address carries no link to any depositor.
//!
//! A relayed withdrawal passes the same gate as a direct one, with the
//! relayer's identity bound into the proof's public inputs, and is subject
//! to a hard fee cap of one percent of the denomination.

use vstd::prelude::*;

use crate::errors::VeloError;
use crate::gate::{ProofVerifier, ZKProof};
use crate::pool::{MixerPool, PoolModel, WithdrawReceipt, withdraw_spec};

verus! {

/// The mathematical state of a relayer record.
#[verifier::ext_equal]
pub ghost struct RelayerModel {
    /// The relayer's identity.
    pub relayer: Seq<u8>,
    /// How many withdrawals this relayer has submitted.
    pub total_relayed: nat,
    /// The fees this relayer has earned.
    pub total_fees: nat,
    /// Whether this relayer may operate.
    pub is_active: bool,
    /// When the relayer was registered.
    pub registered_at: i64,
}

/// A registered relayer.
pub struct RelayerState {
    /// The relayer's identity.
    pub relayer: [u8; 32],
    /// How many withdrawals this relayer has submitted.
    pub total_relayed: u64,
    /// The fees this relayer has earned.
    pub total_fees: u64,
    /// Whether this relayer may operate.
    pub is_active: bool,
    /// When the relayer was registered.
    pub registered_at: i64,
}

impl View for RelayerState {
    type V = RelayerModel;

    open spec fn view(&self) -> RelayerModel {
        RelayerModel {
            relayer: self.relayer@,
            total_relayed: self.total_relayed as nat,
            total_fees: self.total_fees as nat,
            is_active: self.is_active,
            registered_at: self.registered_at,
        }
    }
}

/// Registers a relayer: a fresh, active record with zeroed statistics.
pub fn register_relayer(relayer: [u8; 32], now: i64) -> (r: RelayerState)
    ensures
        r@.relayer == relayer@,
        r@.total_relayed == 0,
        r@.total_fees == 0,
        r@.is_active,
        r@.registered_at == now,
{
    RelayerState { relayer, total_relayed: 0, total_fees: 0, is_active: true, registered_at: now }
}

/// The relayed-withdrawal transition, in rejection order: a missing or
/// deactivated relayer record; a caller other than the registered relayer;
/// a fee above one percent of the denomination; then the plain withdrawal
/// gate, with the relayer's identity as the bound relayer input.
pub open spec fn relayer_withdraw_spec<V: ProofVerifier>(
    v: V,
    p: PoolModel,
    r: RelayerModel,
    caller: Seq<u8>,
    proof: ZKProof,
    root: Seq<u8>,
    nullifier_hash: Seq<u8>,
    recipient: Seq<u8>,
    fee: u64,
) -> (PoolModel, Result<WithdrawReceipt, VeloError>) {
    if !r.is_active {
        (p, Err(VeloError::RelayerNotActive))
    } else if r.relayer != caller {
        (p, Err(VeloError::UnauthorizedRelayer))
    } else if fee > p.denomination / 100 {
        (p, Err(VeloError::FeeTooHigh))
    } else {
        withdraw_spec(v, p, proof, root, nullifier_hash, recipient, r.relayer, fee)
    }
}

/// A withdrawal submitted by a registered relayer for a fee. Requires the
/// relayer record to be active and to match the caller, caps the fee at one
/// percent of the denomination, and then passes the plain withdrawal gate
/// with the relayer bound into the public inputs. Refines
/// `relayer_withdraw_spec`; no state is mutated on any error.
pub fn relayer_withdraw<V: ProofVerifier>(
    pool: &mut MixerPool,
    relayer_state: &RelayerState,
    v: &V,
    caller: &[u8; 32],
    proof: &ZKProof,
    root: &[u8; 32],
    nullifier_hash: &[u8; 32],
    recipient: &[u8; 32],
    fee: u64,
) -> (result: Result<WithdrawReceipt, VeloError>)
    requires
        old(pool).wf(),
    ensures
        final(pool).wf(),
        final(pool)@ == relayer_withdraw_spec(
            *v,
            old(pool)@,
            relayer_state@,
            caller@,
            *proof,
            root@,
            nullifier_hash@,
            recipient@,
            fee,
        ).0,
        result == relayer_withdraw_spec(
            *v,
            old(pool)@,
            relayer_state@,
            caller@,
            *proof,
            root@,
            nullifier_hash@,
            recipient@,
            fee,
        ).1,
{
    if !relayer_state.is_active {
        return Err(VeloError::RelayerNotActive);
    }
    if !crate::bytes32_eq(&relayer_state.relayer, caller) {
        return Err(VeloError::UnauthorizedRelayer);
    }
    let max_fee = pool.denomination / 100;
    if fee > max_fee {
        return Err(VeloError::FeeTooHigh);
    }
    pool.withdraw(v, proof, root, nullifier_hash, recipient, &relayer_state.relayer, fee)
}

} // verus!
