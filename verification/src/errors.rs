//! The error taxonomy of the protocol. Every operation is all-or-nothing:
//! on any of these errors no state mutation is observable.

use vstd::prelude::*;

verus! {

/// Why an operation was rejected.
#[derive(Clone, Copy, Debug, PartialEq, Eq, Structural)]
pub enum VeloError {
    /// The pool has been deactivated by its authority.
    PoolInactive,
    /// The accumulator has no free leaf slot left; fatal for the pool.
    TreeFull,
    /// The root is not in the bounded history window.
    InvalidMerkleRoot,
    /// The nullifier hash was already registered by an earlier withdrawal.
    NullifierAlreadyUsed,
    /// The zero-knowledge proof was rejected.
    InvalidProof,
    /// The fee exceeds the denomination.
    FeeExceedsDenomination,
    /// The relayer record is missing or deactivated.
    RelayerNotActive,
    /// The submitting identity is not the registered relayer.
    UnauthorizedRelayer,
    /// The relay fee exceeds the hard cap of one percent.
    FeeTooHigh,
    /// The stealth payment was already claimed.
    AlreadyClaimed,
    /// The stealth ownership proof was rejected.
    InvalidOwnershipProof,
    /// The stealth registry has been deactivated.
    RegistryInactive,
    /// The decoy system is not enabled.
    DecoySystemDisabled,
    /// Two shuffles were attempted within the minimum height spacing.
    ShuffleRateLimited,
    /// The decoy vault index is out of range.
    InvalidDecoyVaultIndex,
    /// A vault does not hold the amount to be moved.
    InsufficientFunds,
    /// The shielded-transfer protocol has been deactivated.
    ProtocolInactive,
    /// The shielded note was already spent.
    NoteAlreadySpent,
    /// The subscription duration is out of range.
    InvalidDuration,
    /// The subscription has expired.
    SubscriptionExpired,
    /// A subscription tier can only be upgraded, never downgraded.
    CannotDowngrade,
    /// An amount computation would not fit its integer type.
    Overflow,
}

impl VeloError {
    /// A short description, for callers that print errors.
    pub fn message(&self) -> &'static str {
        match self {
            VeloError::PoolInactive => "pool is not active",
            VeloError::TreeFull => "merkle tree is full",
            VeloError::InvalidMerkleRoot => "invalid merkle root",
            VeloError::NullifierAlreadyUsed => "nullifier has already been used",
            VeloError::InvalidProof => "invalid proof",
            VeloError::FeeExceedsDenomination => "fee exceeds denomination",
            VeloError::RelayerNotActive => "relayer is not active",
            VeloError::UnauthorizedRelayer => "unauthorized relayer",
            VeloError::FeeTooHigh => "fee too high",
            VeloError::AlreadyClaimed => "stealth payment already claimed",
            VeloError::InvalidOwnershipProof => "invalid ownership proof",
            VeloError::RegistryInactive => "registry is not active",
            VeloError::DecoySystemDisabled => "decoy system is not enabled",
            VeloError::ShuffleRateLimited => "shuffle rate limited",
            VeloError::InvalidDecoyVaultIndex => "invalid decoy vault index",
            VeloError::InsufficientFunds => "insufficient funds",
            VeloError::ProtocolInactive => "protocol is not active",
            VeloError::NoteAlreadySpent => "note has already been spent",
            VeloError::InvalidDuration => "invalid subscription duration",
            VeloError::SubscriptionExpired => "subscription has expired",
            VeloError::CannotDowngrade => "cannot downgrade tier",
            VeloError::Overflow => "arithmetic overflow",
        }
    }
}

} // verus!
