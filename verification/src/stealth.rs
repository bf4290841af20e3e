//! The stealth extension: one-time-address payments, layered on top of, or
//! used instead of, a pool withdrawal.
//!
//! A sender derives a one-time stealth address from the recipient's
//! registered meta-address and a fresh ephemeral key, publishes the
//! ephemeral key in an announcement record, and moves the funds into a
//! vault only the true recipient can claim. An announcement is claimed at
//! most once: the second and every later attempt fails with
//! `AlreadyClaimed`, regardless of proof validity.

use vstd::prelude::*;

use crate::all_zero;
use crate::bytes32_is_zero;
use crate::errors::VeloError;
use crate::pool::MixerPool;
use crate::slice_all_zero;
use crate::zeros32;

verus! {

/// The stealth-address registry: global statistics and the active flag.
pub struct StealthRegistry {
    /// The creating authority's identity.
    pub authority: [u8; 32],
    /// How many meta-addresses were registered.
    pub total_registrations: u64,
    /// How many stealth payments were announced.
    pub total_transactions: u64,
    /// Whether the registry accepts operations.
    pub is_active: bool,
}

/// A user's registered stealth meta-address: the public spend and view keys
/// from which senders derive one-time addresses.
pub struct UserStealthMeta {
    /// The registering wallet.
    pub owner: [u8; 32],
    /// The public spend key.
    pub spend_public_key: [u8; 32],
    /// The public view key.
    pub view_public_key: [u8; 32],
    /// When the meta-address was registered.
    pub registered_at: i64,
    /// The total amount announced to this meta-address.
    pub total_received: u64,
    /// Whether the meta-address is active.
    pub is_active: bool,
}

/// An announced stealth payment: created at announce time, mutated exactly
/// once (`claimed` set) at claim time, never deleted.
pub struct StealthAnnouncement {
    /// The announcing sender.
    pub sender: [u8; 32],
    /// The recipient's meta-address record.
    pub recipient_meta: [u8; 32],
    /// The derived one-time address holding the funds.
    pub stealth_address: [u8; 32],
    /// The sender's one-time public key, published for scanning.
    pub ephemeral_public_key: [u8; 32],
    /// An encrypted tag that speeds up the recipient's scanning.
    pub encrypted_view_tag: [u8; 32],
    /// The announced amount.
    pub amount: u64,
    /// When the payment was announced.
    pub timestamp: i64,
    /// Whether the payment was claimed.
    pub claimed: bool,
    /// The stealth vault's balance, mirroring the ledger.
    pub vault_balance: u64,
}

/// Initializes the stealth registry: zero statistics, active.
pub fn initialize(authority: [u8; 32]) -> (r: StealthRegistry)
    ensures
        r.authority == authority,
        r.total_registrations == 0,
        r.total_transactions == 0,
        r.is_active,
{
    StealthRegistry { authority, total_registrations: 0, total_transactions: 0, is_active: true }
}

/// Registers a user's stealth meta-address. Fails with `RegistryInactive`,
/// mutating nothing, iff the registry is inactive; otherwise returns the
/// fresh record and counts the registration.
pub fn register_meta_address(
    registry: &mut StealthRegistry,
    owner: [u8; 32],
    spend_public_key: [u8; 32],
    view_public_key: [u8; 32],
    now: i64,
) -> (result: Result<UserStealthMeta, VeloError>)
    ensures
        !old(registry).is_active ==> {
            &&& result == Err::<UserStealthMeta, VeloError>(VeloError::RegistryInactive)
            &&& *final(registry) == *old(registry)
        },
        old(registry).is_active ==> {
            &&& final(registry).total_registrations == (if old(registry).total_registrations
                < u64::MAX {
                old(registry).total_registrations + 1
            } else {
                u64::MAX as int
            })
            &&& final(registry).total_transactions == old(registry).total_transactions
            &&& final(registry).authority == old(registry).authority
            &&& final(registry).is_active
            &&& match result {
                Ok(meta) => {
                    &&& meta.owner == owner
                    &&& meta.spend_public_key == spend_public_key
                    &&& meta.view_public_key == view_public_key
                    &&& meta.registered_at == now
                    &&& meta.total_received == 0
                    &&& meta.is_active
                },
                Err(_) => false,
            }
        },
{
    if !registry.is_active {
        return Err(VeloError::RegistryInactive);
    }
    registry.total_registrations = registry.total_registrations.saturating_add(1);
    Ok(
        UserStealthMeta {
            owner,
            spend_public_key,
            view_public_key,
            registered_at: now,
            total_received: 0,
            is_active: true,
        },
    )
}

/// Announces a stealth payment: records the one-time address and ephemeral
/// key for the recipient to scan, and moves `amount` into the stealth
/// vault. Fails with `RegistryInactive`, mutating nothing, iff the registry
/// is inactive.
pub fn announce_payment(
    registry: &mut StealthRegistry,
    recipient_meta: &mut UserStealthMeta,
    sender: [u8; 32],
    recipient_meta_id: [u8; 32],
    stealth_address: [u8; 32],
    ephemeral_public_key: [u8; 32],
    encrypted_view_tag: [u8; 32],
    amount: u64,
    now: i64,
) -> (result: Result<StealthAnnouncement, VeloError>)
    ensures
        !old(registry).is_active ==> {
            &&& result == Err::<StealthAnnouncement, VeloError>(VeloError::RegistryInactive)
            &&& *final(registry) == *old(registry)
            &&& *final(recipient_meta) == *old(recipient_meta)
        },
        old(registry).is_active ==> {
            &&& final(registry).total_transactions == (if old(registry).total_transactions
                < u64::MAX {
                old(registry).total_transactions + 1
            } else {
                u64::MAX as int
            })
            &&& final(registry).total_registrations == old(registry).total_registrations
            &&& final(registry).authority == old(registry).authority
            &&& final(registry).is_active
            &&& final(recipient_meta).total_received == (if old(recipient_meta).total_received
                + amount <= u64::MAX {
                old(recipient_meta).total_received + amount
            } else {
                u64::MAX as int
            })
            &&& final(recipient_meta).owner == old(recipient_meta).owner
            &&& final(recipient_meta).spend_public_key == old(recipient_meta).spend_public_key
            &&& final(recipient_meta).view_public_key == old(recipient_meta).view_public_key
            &&& final(recipient_meta).registered_at == old(recipient_meta).registered_at
            &&& final(recipient_meta).is_active == old(recipient_meta).is_active
            &&& match result {
                Ok(a) => {
                    &&& a.sender == sender
                    &&& a.recipient_meta == recipient_meta_id
                    &&& a.stealth_address == stealth_address
                    &&& a.ephemeral_public_key == ephemeral_public_key
                    &&& a.encrypted_view_tag == encrypted_view_tag
                    &&& a.amount == amount
                    &&& a.timestamp == now
                    &&& !a.claimed
                    &&& a.vault_balance == amount
                },
                Err(_) => false,
            }
        },
{
    if !registry.is_active {
        return Err(VeloError::RegistryInactive);
    }
    registry.total_transactions = registry.total_transactions.saturating_add(1);
    recipient_meta.total_received = recipient_meta.total_received.saturating_add(amount);
    Ok(
        StealthAnnouncement {
            sender,
            recipient_meta: recipient_meta_id,
            stealth_address,
            ephemeral_public_key,
            encrypted_view_tag,
            amount,
            timestamp: now,
            claimed: false,
            vault_balance: amount,
        },
    )
}

/// Whether a claimer's ownership proof is accepted: a signature over the
/// stealth address with the derived one-time private key. The check here
/// is a development placeholder accepting any non-zero proof.
pub open spec fn stealth_ownership_ok(
    stealth_address: Seq<u8>,
    claimer: Seq<u8>,
    proof: Seq<u8>,
) -> bool {
    !all_zero(proof)
}

/// Decides a claimer's ownership proof.
pub fn verify_stealth_ownership(
    stealth_address: &[u8; 32],
    claimer: &[u8; 32],
    proof: &[u8; 64],
) -> (r: bool)
    ensures
        r == stealth_ownership_ok(stealth_address@, claimer@, proof@),
{
    !slice_all_zero(proof.as_slice())
}

/// Whether a stealth address derives from the registered keys and the
/// ephemeral key: `stealthAddress = SpendKey + Hash(ephemeral · ViewKey)·G`
/// in elliptic-curve terms. The check here is a development placeholder
/// accepting any non-zero keys and address.
pub open spec fn stealth_derivation_ok(
    spend_public_key: Seq<u8>,
    view_public_key: Seq<u8>,
    ephemeral_public_key: Seq<u8>,
    stealth_address: Seq<u8>,
) -> bool {
    &&& !all_zero(spend_public_key)
    &&& !all_zero(view_public_key)
    &&& stealth_address != zeros32()
}

/// Decides a stealth-address derivation.
pub fn verify_stealth_derivation(
    spend_public_key: &[u8; 32],
    view_public_key: &[u8; 32],
    ephemeral_public_key: &[u8; 32],
    stealth_address: &[u8; 32],
) -> (r: bool)
    ensures
        r == stealth_derivation_ok(
            spend_public_key@,
            view_public_key@,
            ephemeral_public_key@,
            stealth_address@,
        ),
{
    let spend_nonzero = !slice_all_zero(spend_public_key.as_slice());
    let view_nonzero = !slice_all_zero(view_public_key.as_slice());
    let address_nonzero = !bytes32_is_zero(stealth_address);
    spend_nonzero && view_nonzero && address_nonzero
}

/// Validates a pre-computed stealth address against a recipient's
/// registered meta-address.
pub fn validate_stealth_address(
    recipient_meta: &UserStealthMeta,
    stealth_address: &[u8; 32],
    ephemeral_public_key: &[u8; 32],
) -> (r: bool)
    ensures
        r == stealth_derivation_ok(
            recipient_meta.spend_public_key@,
            recipient_meta.view_public_key@,
            ephemeral_public_key@,
            stealth_address@,
        ),
{
    verify_stealth_derivation(
        &recipient_meta.spend_public_key,
        &recipient_meta.view_public_key,
        ephemeral_public_key,
        stealth_address,
    )
}

/// The claim transition, in rejection order: an already-claimed
/// announcement (whatever the proof), then a rejected ownership proof. On
/// acceptance the announcement is marked claimed and the full vault balance
/// is released to the claimer.
pub open spec fn claim_stealth_funds_spec(
    a: StealthAnnouncement,
    claimer: Seq<u8>,
    proof: Seq<u8>,
) -> (StealthAnnouncement, Result<u64, VeloError>) {
    if a.claimed {
        (a, Err(VeloError::AlreadyClaimed))
    } else if !stealth_ownership_ok(a.stealth_address@, claimer, proof) {
        (a, Err(VeloError::InvalidOwnershipProof))
    } else {
        (
            StealthAnnouncement { claimed: true, vault_balance: 0, ..a },
            Ok(a.vault_balance),
        )
    }
}

/// Claims an announced stealth payment. Succeeds at most once per
/// announcement: a second attempt fails with `AlreadyClaimed` regardless of
/// proof validity. On success releases the full vault balance to the
/// claimer. Refines `claim_stealth_funds_spec`; no state is mutated on any
/// error.
pub fn claim_stealth_funds(
    announcement: &mut StealthAnnouncement,
    claimer: &[u8; 32],
    stealth_private_key_proof: &[u8; 64],
) -> (result: Result<u64, VeloError>)
    ensures
        *final(announcement) == claim_stealth_funds_spec(
            *old(announcement),
            claimer@,
            stealth_private_key_proof@,
        ).0,
        result == claim_stealth_funds_spec(
            *old(announcement),
            claimer@,
            stealth_private_key_proof@,
        ).1,
{
    if announcement.claimed {
        return Err(VeloError::AlreadyClaimed);
    }
    if !verify_stealth_ownership(
        &announcement.stealth_address,
        claimer,
        stealth_private_key_proof,
    ) {
        return Err(VeloError::InvalidOwnershipProof);
    }
    let amount = announcement.vault_balance;
    announcement.claimed = true;
    announcement.vault_balance = 0;
    Ok(amount)
}

/// A stealth payment made directly from a pool vault: the pool withdrawal
/// variant of an announcement, scanned and claimed by the recipient.
pub struct StealthPayment {
    /// The hash identifying this stealth address.
    pub stealth_hash: [u8; 32],
    /// The sender's one-time public key, published for scanning.
    pub ephemeral_pubkey: [u8; 32],
    /// The payment amount.
    pub amount: u64,
    /// The denomination of the paying pool.
    pub pool_denomination: u64,
    /// Whether the payment was claimed.
    pub claimed: bool,
    /// The stealth vault's balance, mirroring the ledger.
    pub vault_balance: u64,
}

/// Pays one pool denomination to a stealth address instead of a visible
/// recipient: the funds move from the pool vault into a vault addressed by
/// `stealth_hash`, and the ephemeral key is recorded for scanning. Fails
/// with `InsufficientFunds`, mutating nothing, iff the pool vault is short.
pub fn withdraw_to_stealth(
    pool: &mut MixerPool,
    stealth_hash: [u8; 32],
    ephemeral_pubkey: [u8; 32],
) -> (result: Result<StealthPayment, VeloError>)
    requires
        old(pool).wf(),
    ensures
        final(pool).wf(),
        old(pool)@.vault_balance < old(pool)@.denomination ==> {
            &&& result == Err::<StealthPayment, VeloError>(VeloError::InsufficientFunds)
            &&& final(pool)@ == old(pool)@
        },
        old(pool)@.vault_balance >= old(pool)@.denomination ==> {
            &&& final(pool)@ == (crate::pool::PoolModel {
                vault_balance: (old(pool)@.vault_balance - old(pool)@.denomination) as nat,
                ..old(pool)@
            })
            &&& match result {
                Ok(payment) => {
                    &&& payment.stealth_hash == stealth_hash
                    &&& payment.ephemeral_pubkey == ephemeral_pubkey
                    &&& payment.amount == old(pool)@.denomination
                    &&& payment.pool_denomination == old(pool)@.denomination
                    &&& !payment.claimed
                    &&& payment.vault_balance == old(pool)@.denomination
                },
                Err(_) => false,
            }
        },
{
    if pool.vault_balance < pool.denomination {
        return Err(VeloError::InsufficientFunds);
    }
    let denomination = pool.denomination;
    pool.vault_balance = pool.vault_balance - denomination;
    proof {
        assert(pool@ =~= (crate::pool::PoolModel {
            vault_balance: (old(pool)@.vault_balance - old(pool)@.denomination) as nat,
            ..old(pool)@
        }));
    }
    Ok(
        StealthPayment {
            stealth_hash,
            ephemeral_pubkey,
            amount: denomination,
            pool_denomination: denomination,
            claimed: false,
            vault_balance: denomination,
        },
    )
}

/// The pool-variant claim transition: rejected iff already claimed;
/// otherwise marked claimed and the vault balance released.
pub open spec fn claim_stealth_spec(p: StealthPayment) -> (StealthPayment, Result<
    u64,
    VeloError,
>) {
    if p.claimed {
        (p, Err(VeloError::AlreadyClaimed))
    } else {
        ((StealthPayment { claimed: true, vault_balance: 0, ..p }), Ok(p.vault_balance))
    }
}

/// Claims a pool stealth payment: only the recipient able to derive
/// `stealth_hash` reaches this vault. Succeeds at most once; a second
/// attempt fails with `AlreadyClaimed`. Refines `claim_stealth_spec`.
pub fn claim_stealth(payment: &mut StealthPayment) -> (result: Result<u64, VeloError>)
    ensures
        *final(payment) == claim_stealth_spec(*old(payment)).0,
        result == claim_stealth_spec(*old(payment)).1,
{
    if payment.claimed {
        return Err(VeloError::AlreadyClaimed);
    }
    let amount = payment.vault_balance;
    payment.claimed = true;
    payment.vault_balance = 0;
    Ok(amount)
}

/// Deactivates a meta-address; new payments should no longer be announced
/// to it. Nothing else changes.
pub fn deactivate(meta: &mut UserStealthMeta)
    ensures
        *final(meta) == (UserStealthMeta { is_active: false, ..*old(meta) }),
{
    meta.is_active = false;
}

/// Replaces whichever of the spend and view keys are supplied; the other
/// fields are unchanged.
pub fn update_meta_address(
    meta: &mut UserStealthMeta,
    new_spend_key: Option<[u8; 32]>,
    new_view_key: Option<[u8; 32]>,
)
    ensures
        final(meta).spend_public_key == (match new_spend_key {
            Some(k) => k,
            None => old(meta).spend_public_key,
        }),
        final(meta).view_public_key == (match new_view_key {
            Some(k) => k,
            None => old(meta).view_public_key,
        }),
        final(meta).owner == old(meta).owner,
        final(meta).registered_at == old(meta).registered_at,
        final(meta).total_received == old(meta).total_received,
        final(meta).is_active == old(meta).is_active,
{
    match new_spend_key {
        Some(spend_key) => {
            meta.spend_public_key = spend_key;
        },
        None => (),
    }
    match new_view_key {
        Some(view_key) => {
            meta.view_public_key = view_key;
        },
        None => (),
    }
}

} // verus!
