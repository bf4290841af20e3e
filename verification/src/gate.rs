//! The withdrawal gate's proof contract.
//!
//! Whoever asks the pool to pay out presents a proof together with five
//! public values: root, nullifier hash, recipient, relayer and fee. The
//! [`ProofVerifier`] trait is the seam where a sound verifier belongs; the
//! pool consults it on exactly the five values the caller handed over.
//! [`StubVerifier`] is a development stand-in that looks only at the
//! proof's structure and a digest of those values — it provides neither
//! privacy nor soundness.

use vstd::prelude::*;

use crate::all_zero;
use crate::bytes32_is_zero;
use crate::extend_bytes;
use crate::hashes::keccak256;
use crate::hashes::keccak_hash;
use crate::slice_all_zero;
use crate::zeros32;

verus! {

/// A Groth16-shaped zero-knowledge proof: two G1 points and one G2 point.
#[derive(Clone, Copy)]
pub struct ZKProof {
    /// G1 point.
    pub a: [u8; 64],
    /// G2 point.
    pub b: [u8; 128],
    /// G1 point.
    pub c: [u8; 64],
}

/// The little-endian bytes of a 64-bit fee, as bound into the public inputs.
pub open spec fn u64_le_bytes(x: u64) -> Seq<u8> {
    seq![
        (x % 256) as u8,
        ((x / 256) % 256) as u8,
        ((x / 65536) % 256) as u8,
        ((x / 16777216) % 256) as u8,
        ((x / 4294967296) % 256) as u8,
        ((x / 1099511627776) % 256) as u8,
        ((x / 281474976710656) % 256) as u8,
        ((x / 72057594037927936) % 256) as u8,
    ]
}

/// The byte string of public inputs a proof is bound to:
/// `root || nullifierHash || recipient || relayer || fee_le`.
pub open spec fn public_inputs_bytes(
    root: Seq<u8>,
    nullifier_hash: Seq<u8>,
    recipient: Seq<u8>,
    relayer: Seq<u8>,
    fee: u64,
) -> Seq<u8> {
    root + nullifier_hash + recipient + relayer + u64_le_bytes(fee)
}

/// What the test double accepts: a structurally non-degenerate proof (no
/// component all zero) whose public-input digest is non-zero.
pub open spec fn spec_verify_proof(
    proof: ZKProof,
    root: Seq<u8>,
    nullifier_hash: Seq<u8>,
    recipient: Seq<u8>,
    relayer: Seq<u8>,
    fee: u64,
) -> bool {
    &&& !all_zero(proof.a@)
    &&& !all_zero(proof.b@)
    &&& !all_zero(proof.c@)
    &&& keccak256(public_inputs_bytes(root, nullifier_hash, recipient, relayer, fee))
        != zeros32()
}

/// Serializes the public inputs a proof must bind.
pub fn public_inputs(
    root: &[u8; 32],
    nullifier_hash: &[u8; 32],
    recipient: &[u8; 32],
    relayer: &[u8; 32],
    fee: u64,
) -> (r: Vec<u8>)
    ensures
        r@ == public_inputs_bytes(root@, nullifier_hash@, recipient@, relayer@, fee),
{
    let mut data: Vec<u8> = Vec::new();
    extend_bytes(&mut data, root.as_slice());
    extend_bytes(&mut data, nullifier_hash.as_slice());
    extend_bytes(&mut data, recipient.as_slice());
    extend_bytes(&mut data, relayer.as_slice());
    data.push((fee % 256) as u8);
    data.push(((fee / 256) % 256) as u8);
    data.push(((fee / 65536) % 256) as u8);
    data.push(((fee / 16777216) % 256) as u8);
    data.push(((fee / 4294967296) % 256) as u8);
    data.push(((fee / 1099511627776) % 256) as u8);
    data.push(((fee / 281474976710656) % 256) as u8);
    data.push(((fee / 72057594037927936) % 256) as u8);
    proof {
        assert(data@ =~= public_inputs_bytes(root@, nullifier_hash@, recipient@, relayer@, fee));
    }
    data
}

/// The test double's check: proof structure, then a Keccak digest of the
/// public inputs. A real implementation must replace this with a pairing
/// check binding the same inputs.
pub fn verify_proof(
    proof: &ZKProof,
    root: &[u8; 32],
    nullifier_hash: &[u8; 32],
    recipient: &[u8; 32],
    relayer: &[u8; 32],
    fee: u64,
) -> (r: bool)
    ensures
        r == spec_verify_proof(*proof, root@, nullifier_hash@, recipient@, relayer@, fee),
{
    if slice_all_zero(proof.a.as_slice()) {
        return false;
    }
    if slice_all_zero(proof.b.as_slice()) {
        return false;
    }
    if slice_all_zero(proof.c.as_slice()) {
        return false;
    }
    let inputs = public_inputs(root, nullifier_hash, recipient, relayer, fee);
    let input_hash = keccak_hash(inputs.as_slice());
    let degenerate = bytes32_is_zero(&input_hash);
    !degenerate
}

/// The capability the withdrawal gate consumes. `verify_spec` is the
/// mathematical acceptance relation a given verifier computes; the pool's
/// contracts are stated over it, so substituting a real verifier changes
/// nothing around it.
pub trait ProofVerifier {
    /// Which (proof, public inputs) pairs this verifier accepts.
    spec fn verify_spec(
        &self,
        proof: ZKProof,
        root: Seq<u8>,
        nullifier_hash: Seq<u8>,
        recipient: Seq<u8>,
        relayer: Seq<u8>,
        fee: u64,
    ) -> bool;

    /// Decides acceptance of a proof against the supplied public inputs.
    fn verify(
        &self,
        proof: &ZKProof,
        root: &[u8; 32],
        nullifier_hash: &[u8; 32],
        recipient: &[u8; 32],
        relayer: &[u8; 32],
        fee: u64,
    ) -> (r: bool)
        ensures
            r == self.verify_spec(*proof, root@, nullifier_hash@, recipient@, relayer@, fee),
    ;
}

/// A placeholder verifier for development. Never sound: it accepts any
/// structurally non-degenerate proof.
pub struct StubVerifier;

impl ProofVerifier for StubVerifier {
    open spec fn verify_spec(
        &self,
        proof: ZKProof,
        root: Seq<u8>,
        nullifier_hash: Seq<u8>,
        recipient: Seq<u8>,
        relayer: Seq<u8>,
        fee: u64,
    ) -> bool {
        spec_verify_proof(proof, root, nullifier_hash, recipient, relayer, fee)
    }

    fn verify(
        &self,
        proof: &ZKProof,
        root: &[u8; 32],
        nullifier_hash: &[u8; 32],
        recipient: &[u8; 32],
        relayer: &[u8; 32],
        fee: u64,
    ) -> (r: bool) {
        verify_proof(proof, root, nullifier_hash, recipient, relayer, fee)
    }
}

} // verus!
