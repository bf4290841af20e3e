//! The hash functions of the protocol, behind trusted wrappers.
//!
//! The accumulator is hash-agnostic: it combines sibling nodes through the
//! [`PairHash`] trait, so a different arity-2 compression function can be
//! substituted without touching the tree logic. The production instance is
//! the ZK-circuit-friendly Poseidon hash over the BN254 scalar field.

use vstd::prelude::*;
use ark_bn254::Fr;
use ark_ff::{BigInteger, PrimeField};
use light_poseidon::{Poseidon, PoseidonHasher};

verus! {

/// What the arity-2 Poseidon compression over BN254 returns for a pair of
/// 32-byte words. A function of the two inputs alone.
pub uninterp spec fn poseidon2(left: Seq<u8>, right: Seq<u8>) -> Seq<u8>;

/// What the arity-1 Poseidon hash over BN254 returns for one 32-byte word.
/// A function of the input alone.
pub uninterp spec fn poseidon1(input: Seq<u8>) -> Seq<u8>;

/// What the Keccak-256 hash returns for a byte string. A function of the
/// input alone.
pub uninterp spec fn keccak256(data: Seq<u8>) -> Seq<u8>;

/// Relies on light_poseidon's `Poseidon::<Fr>::new_circom(2)` and
/// `PoseidonHasher::hash`: a deterministic compression of the two inputs,
/// each reduced into the BN254 scalar field big-endian, the result written
/// back as the 32 little-endian bytes of the canonical representative.
/// `new_circom(2)` and a two-element `hash` cannot fail (width 3 is within
/// the x5 parameter set and the input count matches), so the `expect`s
/// never fire.
#[verifier::external_body]
pub(crate) fn hash_pair(left: &[u8; 32], right: &[u8; 32]) -> (r: [u8; 32])
    ensures
        r@ == poseidon2(left@, right@),
{
    let mut hasher = Poseidon::<Fr>::new_circom(2).expect("poseidon width 3 is supported");
    let left_fr = Fr::from_be_bytes_mod_order(left);
    let right_fr = Fr::from_be_bytes_mod_order(right);
    let hash = hasher.hash(&[left_fr, right_fr]).expect("input count matches width");
    let bytes = hash.into_bigint().to_bytes_le();
    let mut result = [0u8; 32];
    result.copy_from_slice(&bytes);
    result
}

/// Poseidon hash of a nullifier alone: `nullifierHash = Poseidon(nullifier)`,
/// the public, one-way form revealed at withdrawal time.
///
/// Relies on light_poseidon's `Poseidon::<Fr>::new_circom(1)` and
/// `PoseidonHasher::hash`, as in `hash_pair`: deterministic in the input
/// alone, and infallible for a one-element input.
#[verifier::external_body]
pub fn poseidon_nullifier_hash(nullifier: &[u8; 32]) -> (r: [u8; 32])
    ensures
        r@ == poseidon1(nullifier@),
{
    let mut hasher = Poseidon::<Fr>::new_circom(1).expect("poseidon width 2 is supported");
    let nullifier_fr = Fr::from_be_bytes_mod_order(nullifier);
    let hash = hasher.hash(&[nullifier_fr]).expect("input count matches width");
    let bytes = hash.into_bigint().to_bytes_le();
    let mut result = [0u8; 32];
    result.copy_from_slice(&bytes);
    result
}

/// Relies on solana_program's `keccak::hash` (Keccak-256): a deterministic
/// 32-byte digest of the input bytes alone.
#[verifier::external_body]
pub(crate) fn keccak_hash(data: &[u8]) -> (r: [u8; 32])
    ensures
        r@ == keccak256(data@),
{
    solana_program::keccak::hash(data).to_bytes()
}

/// Poseidon hash binding a deposit: `commitment = Poseidon(nullifier, secret)`.
/// Computed off-protocol by the depositor; stored only as a tree leaf.
pub fn poseidon_commitment(nullifier: &[u8; 32], secret: &[u8; 32]) -> (r: [u8; 32])
    ensures
        r@ == poseidon2(nullifier@, secret@),
{
    hash_pair(nullifier, secret)
}

/// An arity-2 compression function for the accumulator. The tree logic is
/// proved against `spec_hash` alone, so any fixed, 32-byte, arity-2 hash can
/// stand here.
pub trait PairHash {
    /// The mathematical function this hasher computes.
    spec fn spec_hash(&self, left: Seq<u8>, right: Seq<u8>) -> Seq<u8>;

    /// Combines two sibling nodes into their parent.
    fn hash(&self, left: &[u8; 32], right: &[u8; 32]) -> (r: [u8; 32])
        ensures
            r@ == self.spec_hash(left@, right@),
    ;
}

/// The production hasher: Poseidon over BN254, matching the withdrawal
/// circuit's native field.
pub struct PoseidonPair;

impl PairHash for PoseidonPair {
    open spec fn spec_hash(&self, left: Seq<u8>, right: Seq<u8>) -> Seq<u8> {
        poseidon2(left, right)
    }

    fn hash(&self, left: &[u8; 32], right: &[u8; 32]) -> (r: [u8; 32]) {
        hash_pair(left, right)
    }
}

} // verus!
