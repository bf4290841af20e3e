use velo::gate::{verify_proof, ZKProof};
use velo::hashes::{poseidon_commitment, poseidon_nullifier_hash, PairHash, PoseidonPair};

#[test]
fn poseidon_commitment_is_a_real_hash() {
    let nullifier = [1u8; 32];
    let secret = [2u8; 32];
    let c = poseidon_commitment(&nullifier, &secret);
    // Deterministic, and not any of its inputs handed back.
    assert_eq!(c, poseidon_commitment(&nullifier, &secret));
    assert_ne!(c, nullifier);
    assert_ne!(c, secret);
    assert_ne!(c, [0u8; 32]);
    // Sensitive to each input.
    assert_ne!(c, poseidon_commitment(&secret, &nullifier));
    assert_ne!(c, poseidon_commitment(&nullifier, &[3u8; 32]));
    assert_ne!(c, poseidon_commitment(&[3u8; 32], &secret));
}

#[test]
fn poseidon_nullifier_hash_is_one_way_shaped() {
    let n1 = [1u8; 32];
    let n2 = [2u8; 32];
    let h1 = poseidon_nullifier_hash(&n1);
    let h2 = poseidon_nullifier_hash(&n2);
    assert_eq!(h1, poseidon_nullifier_hash(&n1));
    assert_ne!(h1, n1);
    assert_ne!(h1, [0u8; 32]);
    assert_ne!(h1, h2);
    // Distinct from the pairwise hash on overlapping input.
    assert_ne!(h1, poseidon_commitment(&n1, &n1));
}

#[test]
fn pair_hash_trait_matches_free_function() {
    let hasher = PoseidonPair;
    let left = [5u8; 32];
    let right = [6u8; 32];
    let via_trait = hasher.hash(&left, &right);
    let via_commitment = poseidon_commitment(&left, &right);
    assert_eq!(via_trait, via_commitment);
}

#[test]
fn gate_accepts_structured_proof_and_rejects_degenerate() {
    let root = [1u8; 32];
    let nullifier_hash = [2u8; 32];
    let recipient = [3u8; 32];
    let relayer = [4u8; 32];

    let good = ZKProof { a: [1u8; 64], b: [2u8; 128], c: [3u8; 64] };
    assert!(verify_proof(&good, &root, &nullifier_hash, &recipient, &relayer, 42));

    let zero_a = ZKProof { a: [0u8; 64], b: [2u8; 128], c: [3u8; 64] };
    assert!(!verify_proof(&zero_a, &root, &nullifier_hash, &recipient, &relayer, 42));
    let zero_b = ZKProof { a: [1u8; 64], b: [0u8; 128], c: [3u8; 64] };
    assert!(!verify_proof(&zero_b, &root, &nullifier_hash, &recipient, &relayer, 42));
    let zero_c = ZKProof { a: [1u8; 64], b: [2u8; 128], c: [0u8; 64] };
    assert!(!verify_proof(&zero_c, &root, &nullifier_hash, &recipient, &relayer, 42));
}
