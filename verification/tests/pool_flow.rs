use velo::errors::VeloError;
use velo::gate::{ProofVerifier, StubVerifier, ZKProof};
use velo::hashes::PoseidonPair;
use velo::pool::MixerPool;

fn sample_proof() -> ZKProof {
    ZKProof { a: [1u8; 64], b: [2u8; 128], c: [3u8; 64] }
}

fn new_pool(denomination: u64) -> MixerPool {
    MixerPool::initialize_pool(&PoseidonPair, [9u8; 32], denomination)
}

#[test]
fn pool_scenario_deposit_withdraw() {
    let h = PoseidonPair;
    let v = StubVerifier;
    let mut pool = new_pool(1_000_000);
    assert_eq!(pool.denomination, 1_000_000);
    assert_eq!(pool.merkle_tree.next_index, 0);

    let c1 = [1u8; 32];
    let idx1 = pool.deposit(&h, c1).unwrap();
    assert_eq!(idx1, 0);
    assert_eq!(pool.merkle_tree.next_index, 1);
    let r1 = pool.merkle_tree.get_current_root();
    assert_ne!(r1, [0u8; 32]);
    assert!(pool.merkle_tree.is_known_root(&r1));

    let c2 = [2u8; 32];
    let idx2 = pool.deposit(&h, c2).unwrap();
    assert_eq!(idx2, 1);
    let r2 = pool.merkle_tree.get_current_root();
    assert_ne!(r2, r1);
    assert!(pool.merkle_tree.is_known_root(&r1));
    assert!(pool.merkle_tree.is_known_root(&r2));
    assert_eq!(pool.vault_balance, 2_000_000);

    let n1 = [7u8; 32];
    let recipient = [3u8; 32];
    let receipt = pool.withdraw(&v, &sample_proof(), &r1, &n1, &recipient, &[0u8; 32], 0).unwrap();
    assert_eq!(receipt.recipient_amount, 1_000_000);
    assert_eq!(receipt.relayer_amount, 0);
    assert!(pool.nullifier_hashes.contains(&n1));
    assert_eq!(pool.total_withdrawals, 1);

    let again = pool.withdraw(&v, &sample_proof(), &r1, &n1, &recipient, &[0u8; 32], 0);
    assert_eq!(again, Err(VeloError::NullifierAlreadyUsed));
}

#[test]
fn root_history_window() {
    let h = PoseidonPair;
    let mut pool = new_pool(1_000_000);
    let mut roots: Vec<[u8; 32]> = Vec::new();
    for i in 0..31u8 {
        pool.deposit(&h, [i + 1; 32]).unwrap();
        roots.push(pool.merkle_tree.get_current_root());
    }
    // The first root was displaced by thirty later deposits.
    assert!(!pool.merkle_tree.is_known_root(&roots[0]));
    for root in roots.iter().skip(1) {
        assert!(pool.merkle_tree.is_known_root(root));
    }
    // A root never produced, and the all-zero root, are unknown.
    assert!(!pool.merkle_tree.is_known_root(&[0xAAu8; 32]));
    assert!(!pool.merkle_tree.is_known_root(&[0u8; 32]));
}

#[test]
fn deposit_inactive_pool_rejected() {
    let h = PoseidonPair;
    let mut pool = new_pool(1_000_000);
    pool.set_pool_status(false);
    assert_eq!(pool.deposit(&h, [1u8; 32]), Err(VeloError::PoolInactive));
    pool.set_pool_status(true);
    assert!(pool.deposit(&h, [1u8; 32]).is_ok());
}

#[test]
fn deposit_full_tree_rejected() {
    let h = PoseidonPair;
    let mut pool = new_pool(1_000_000);
    pool.merkle_tree.next_index = 1 << 20;
    assert_eq!(pool.deposit(&h, [1u8; 32]), Err(VeloError::TreeFull));
}

#[test]
fn withdraw_unknown_root_rejected() {
    let h = PoseidonPair;
    let v = StubVerifier;
    let mut pool = new_pool(1_000_000);
    pool.deposit(&h, [1u8; 32]).unwrap();
    let bogus = [0x55u8; 32];
    let r = pool.withdraw(&v, &sample_proof(), &bogus, &[7u8; 32], &[3u8; 32], &[0u8; 32], 0);
    assert_eq!(r, Err(VeloError::InvalidMerkleRoot));
    let zero = [0u8; 32];
    let r = pool.withdraw(&v, &sample_proof(), &zero, &[7u8; 32], &[3u8; 32], &[0u8; 32], 0);
    assert_eq!(r, Err(VeloError::InvalidMerkleRoot));
}

#[test]
fn withdraw_degenerate_proof_rejected() {
    let h = PoseidonPair;
    let v = StubVerifier;
    let mut pool = new_pool(1_000_000);
    pool.deposit(&h, [1u8; 32]).unwrap();
    let root = pool.merkle_tree.get_current_root();
    let zero_proof = ZKProof { a: [0u8; 64], b: [2u8; 128], c: [3u8; 64] };
    let r = pool.withdraw(&v, &zero_proof, &root, &[7u8; 32], &[3u8; 32], &[0u8; 32], 0);
    assert_eq!(r, Err(VeloError::InvalidProof));
}

#[test]
fn withdraw_fee_above_denomination_rejected() {
    let h = PoseidonPair;
    let v = StubVerifier;
    let mut pool = new_pool(1_000_000);
    pool.deposit(&h, [1u8; 32]).unwrap();
    let root = pool.merkle_tree.get_current_root();
    let r = pool.withdraw(&v, &sample_proof(), &root, &[7u8; 32], &[3u8; 32], &[4u8; 32], 1_000_001);
    assert_eq!(r, Err(VeloError::FeeExceedsDenomination));
}

#[test]
fn withdraw_pays_relayer_fee() {
    let h = PoseidonPair;
    let v = StubVerifier;
    let mut pool = new_pool(1_000_000);
    pool.deposit(&h, [1u8; 32]).unwrap();
    let root = pool.merkle_tree.get_current_root();
    let receipt = pool
        .withdraw(&v, &sample_proof(), &root, &[7u8; 32], &[3u8; 32], &[4u8; 32], 2_500)
        .unwrap();
    assert_eq!(receipt.recipient_amount, 997_500);
    assert_eq!(receipt.relayer_amount, 2_500);
    assert_eq!(pool.vault_balance, 0);
}

// A verifier that accepts only the recipient and fee the proof was bound to.
struct BindingVerifier {
    recipient: [u8; 32],
    fee: u64,
}

impl ProofVerifier for BindingVerifier {
    // The ghost half of the trait; never reachable at run time.
    fn verify_spec(
        &self,
        _proof: ZKProof,
        _root: vstd::seq::Seq<u8>,
        _nullifier_hash: vstd::seq::Seq<u8>,
        _recipient: vstd::seq::Seq<u8>,
        _relayer: vstd::seq::Seq<u8>,
        _fee: u64,
    ) -> bool {
        unreachable!()
    }

    fn verify(
        &self,
        _proof: &ZKProof,
        _root: &[u8; 32],
        _nullifier_hash: &[u8; 32],
        recipient: &[u8; 32],
        _relayer: &[u8; 32],
        fee: u64,
    ) -> bool {
        *recipient == self.recipient && fee == self.fee
    }
}

#[test]
fn proof_bound_to_recipient_and_fee() {
    let h = PoseidonPair;
    let bound_recipient = [3u8; 32];
    let v = BindingVerifier { recipient: bound_recipient, fee: 100 };
    let mut pool = new_pool(1_000_000);
    pool.deposit(&h, [1u8; 32]).unwrap();
    pool.deposit(&h, [2u8; 32]).unwrap();
    let root = pool.merkle_tree.get_current_root();

    // Another recipient with the bound fee: rejected.
    let r = pool.withdraw(&v, &sample_proof(), &root, &[7u8; 32], &[8u8; 32], &[4u8; 32], 100);
    assert_eq!(r, Err(VeloError::InvalidProof));
    // The bound recipient with another fee: rejected.
    let r = pool.withdraw(&v, &sample_proof(), &root, &[7u8; 32], &bound_recipient, &[4u8; 32], 99);
    assert_eq!(r, Err(VeloError::InvalidProof));
    // The pair the proof was bound to: accepted.
    let r = pool.withdraw(&v, &sample_proof(), &root, &[7u8; 32], &bound_recipient, &[4u8; 32], 100);
    assert!(r.is_ok());
}

#[test]
fn withdraw_insufficient_vault_rejected() {
    let h = PoseidonPair;
    let v = StubVerifier;
    let mut pool = new_pool(1_000_000);
    pool.deposit(&h, [1u8; 32]).unwrap();
    let root = pool.merkle_tree.get_current_root();
    pool.vault_balance = 0;
    let r = pool.withdraw(&v, &sample_proof(), &root, &[7u8; 32], &[3u8; 32], &[0u8; 32], 0);
    assert_eq!(r, Err(VeloError::InsufficientFunds));
}

#[test]
fn withdraw_test_releases_denomination() {
    let h = PoseidonPair;
    let mut pool = new_pool(1_000_000);
    assert_eq!(pool.withdraw_test(), Err(VeloError::InsufficientFunds));
    pool.deposit(&h, [1u8; 32]).unwrap();
    assert_eq!(pool.withdraw_test(), Ok(1_000_000));
    assert_eq!(pool.vault_balance, 0);
}

#[test]
fn confidential_deposit_records_note() {
    let h = PoseidonPair;
    let mut pool = new_pool(1_000_000);
    let note = pool.confidential_deposit(&h, [1u8; 32], [0x42u8; 128], 777).unwrap();
    assert_eq!(note.commitment, [1u8; 32]);
    assert_eq!(note.encrypted_amount, [0x42u8; 128]);
    assert_eq!(note.timestamp, 777);
    assert_eq!(note.pool_denomination, 1_000_000);
    assert!(!note.spent);
    assert_eq!(pool.merkle_tree.next_index, 1);
    assert_eq!(pool.total_deposits, 1);
}
