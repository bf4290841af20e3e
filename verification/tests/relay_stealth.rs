use velo::errors::VeloError;
use velo::gate::{StubVerifier, ZKProof};
use velo::hashes::PoseidonPair;
use velo::pool::MixerPool;
use velo::relay::{register_relayer, relayer_withdraw};
use velo::stealth;

fn sample_proof() -> ZKProof {
    ZKProof { a: [1u8; 64], b: [2u8; 128], c: [3u8; 64] }
}

fn funded_pool() -> MixerPool {
    let h = PoseidonPair;
    let mut pool = MixerPool::initialize_pool(&h, [9u8; 32], 1_000_000);
    pool.deposit(&h, [1u8; 32]).unwrap();
    pool
}

#[test]
fn relayer_withdraw_success() {
    let v = StubVerifier;
    let mut pool = funded_pool();
    let root = pool.merkle_tree.get_current_root();
    let relayer_id = [5u8; 32];
    let state = register_relayer(relayer_id, 1000);
    assert!(state.is_active);
    assert_eq!(state.total_relayed, 0);
    assert_eq!(state.registered_at, 1000);

    let receipt = relayer_withdraw(
        &mut pool,
        &state,
        &v,
        &relayer_id,
        &sample_proof(),
        &root,
        &[7u8; 32],
        &[3u8; 32],
        10_000,
    )
    .unwrap();
    assert_eq!(receipt.recipient_amount, 990_000);
    assert_eq!(receipt.relayer_amount, 10_000);
    assert!(pool.nullifier_hashes.contains(&[7u8; 32]));
}

#[test]
fn relayer_fee_too_high() {
    let v = StubVerifier;
    let mut pool = funded_pool();
    let root = pool.merkle_tree.get_current_root();
    let relayer_id = [5u8; 32];
    let state = register_relayer(relayer_id, 1000);
    // The cap is one percent of the denomination: 10_000.
    let r = relayer_withdraw(
        &mut pool,
        &state,
        &v,
        &relayer_id,
        &sample_proof(),
        &root,
        &[7u8; 32],
        &[3u8; 32],
        10_001,
    );
    assert_eq!(r, Err(VeloError::FeeTooHigh));
    assert!(!pool.nullifier_hashes.contains(&[7u8; 32]));
}

#[test]
fn relayer_not_active() {
    let v = StubVerifier;
    let mut pool = funded_pool();
    let root = pool.merkle_tree.get_current_root();
    let relayer_id = [5u8; 32];
    let mut state = register_relayer(relayer_id, 1000);
    state.is_active = false;
    let r = relayer_withdraw(
        &mut pool,
        &state,
        &v,
        &relayer_id,
        &sample_proof(),
        &root,
        &[7u8; 32],
        &[3u8; 32],
        0,
    );
    assert_eq!(r, Err(VeloError::RelayerNotActive));
}

#[test]
fn relayer_unauthorized() {
    let v = StubVerifier;
    let mut pool = funded_pool();
    let root = pool.merkle_tree.get_current_root();
    let state = register_relayer([5u8; 32], 1000);
    let imposter = [6u8; 32];
    let r = relayer_withdraw(
        &mut pool,
        &state,
        &v,
        &imposter,
        &sample_proof(),
        &root,
        &[7u8; 32],
        &[3u8; 32],
        0,
    );
    assert_eq!(r, Err(VeloError::UnauthorizedRelayer));
}

#[test]
fn relayer_rejects_spent_nullifier() {
    let v = StubVerifier;
    let h = PoseidonPair;
    let mut pool = funded_pool();
    pool.deposit(&h, [2u8; 32]).unwrap();
    let root = pool.merkle_tree.get_current_root();
    let n1 = [7u8; 32];
    pool.withdraw(&v, &sample_proof(), &root, &n1, &[3u8; 32], &[0u8; 32], 0).unwrap();

    let relayer_id = [5u8; 32];
    let state = register_relayer(relayer_id, 1000);
    let r = relayer_withdraw(
        &mut pool,
        &state,
        &v,
        &relayer_id,
        &sample_proof(),
        &root,
        &n1,
        &[8u8; 32],
        0,
    );
    assert_eq!(r, Err(VeloError::NullifierAlreadyUsed));
}

#[test]
fn stealth_announce_and_claim_once() {
    let mut registry = stealth::initialize([9u8; 32]);
    let mut meta = stealth::register_meta_address(
        &mut registry,
        [1u8; 32],
        [2u8; 32],
        [3u8; 32],
        500,
    )
    .unwrap();
    assert_eq!(registry.total_registrations, 1);

    let mut announcement = stealth::announce_payment(
        &mut registry,
        &mut meta,
        [4u8; 32],
        [1u8; 32],
        [5u8; 32],
        [6u8; 32],
        [7u8; 32],
        250_000,
        600,
    )
    .unwrap();
    assert_eq!(registry.total_transactions, 1);
    assert_eq!(meta.total_received, 250_000);
    assert!(!announcement.claimed);
    assert_eq!(announcement.vault_balance, 250_000);

    let claimer = [8u8; 32];
    let proof = [1u8; 64];
    let amount = stealth::claim_stealth_funds(&mut announcement, &claimer, &proof).unwrap();
    assert_eq!(amount, 250_000);
    assert!(announcement.claimed);
    assert_eq!(announcement.vault_balance, 0);

    // Duplicate claims always fail, whatever the proof.
    let r = stealth::claim_stealth_funds(&mut announcement, &claimer, &proof);
    assert_eq!(r, Err(VeloError::AlreadyClaimed));
    let r = stealth::claim_stealth_funds(&mut announcement, &[9u8; 32], &[2u8; 64]);
    assert_eq!(r, Err(VeloError::AlreadyClaimed));
}

#[test]
fn stealth_claim_zero_proof_rejected() {
    let mut registry = stealth::initialize([9u8; 32]);
    let mut meta =
        stealth::register_meta_address(&mut registry, [1u8; 32], [2u8; 32], [3u8; 32], 500)
            .unwrap();
    let mut announcement = stealth::announce_payment(
        &mut registry,
        &mut meta,
        [4u8; 32],
        [1u8; 32],
        [5u8; 32],
        [6u8; 32],
        [7u8; 32],
        1_000,
        600,
    )
    .unwrap();
    let r = stealth::claim_stealth_funds(&mut announcement, &[8u8; 32], &[0u8; 64]);
    assert_eq!(r, Err(VeloError::InvalidOwnershipProof));
    assert!(!announcement.claimed);
}

#[test]
fn stealth_registry_inactive() {
    let mut registry = stealth::initialize([9u8; 32]);
    registry.is_active = false;
    let r = stealth::register_meta_address(&mut registry, [1u8; 32], [2u8; 32], [3u8; 32], 500);
    assert_eq!(r.err(), Some(VeloError::RegistryInactive));
}

#[test]
fn stealth_derivation_checks() {
    assert!(stealth::verify_stealth_derivation(
        &[2u8; 32],
        &[3u8; 32],
        &[4u8; 32],
        &[5u8; 32],
    ));
    assert!(!stealth::verify_stealth_derivation(
        &[0u8; 32],
        &[3u8; 32],
        &[4u8; 32],
        &[5u8; 32],
    ));
    assert!(!stealth::verify_stealth_derivation(
        &[2u8; 32],
        &[0u8; 32],
        &[4u8; 32],
        &[5u8; 32],
    ));
    assert!(!stealth::verify_stealth_derivation(
        &[2u8; 32],
        &[3u8; 32],
        &[4u8; 32],
        &[0u8; 32],
    ));
}

#[test]
fn stealth_meta_update_and_deactivate() {
    let mut registry = stealth::initialize([9u8; 32]);
    let mut meta =
        stealth::register_meta_address(&mut registry, [1u8; 32], [2u8; 32], [3u8; 32], 500)
            .unwrap();
    stealth::update_meta_address(&mut meta, Some([10u8; 32]), None);
    assert_eq!(meta.spend_public_key, [10u8; 32]);
    assert_eq!(meta.view_public_key, [3u8; 32]);
    assert!(stealth::validate_stealth_address(&meta, &[5u8; 32], &[4u8; 32]));
    stealth::deactivate(&mut meta);
    assert!(!meta.is_active);
}

#[test]
fn pool_stealth_payment_claim_once() {
    let mut pool = funded_pool();
    let payment = stealth::withdraw_to_stealth(&mut pool, [11u8; 32], [12u8; 32]);
    let mut payment = payment.unwrap();
    assert_eq!(payment.amount, 1_000_000);
    assert_eq!(pool.vault_balance, 0);
    assert!(!payment.claimed);

    assert_eq!(stealth::claim_stealth(&mut payment), Ok(1_000_000));
    assert!(payment.claimed);
    assert_eq!(stealth::claim_stealth(&mut payment), Err(VeloError::AlreadyClaimed));

    // An empty vault cannot fund another stealth payment.
    let r = stealth::withdraw_to_stealth(&mut pool, [13u8; 32], [14u8; 32]);
    assert_eq!(r.err(), Some(VeloError::InsufficientFunds));
}
