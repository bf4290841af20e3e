use velo::errors::VeloError;
use velo::private_tx::{
    create_note, initialize, private_transfer, spend_note, update_fee, SpendProof, TransferProof,
};
use velo::registry::NullifierSet;

fn sample_transfer_proof() -> TransferProof {
    TransferProof { proof_data: vec![1, 2, 3], merkle_root: [4u8; 32] }
}

#[test]
fn private_deposit_then_withdraw() {
    let mut protocol = initialize([1u8; 32], [2u8; 32]);
    let mut set = NullifierSet::new();

    let outcome = private_transfer(
        &mut protocol,
        &mut set,
        &sample_transfer_proof(),
        &vec![[10u8; 32]],
        &vec![[20u8; 32]],
        &vec![vec![0u8; 8]],
        2_000_000,
    )
    .unwrap();
    assert_eq!(outcome.deposit_amount, 2_000_000);
    assert_eq!(outcome.net_to_user, 0);
    assert_eq!(outcome.fee_to_treasury, 0);
    assert_eq!(protocol.vault_balance, 2_000_000);
    assert!(set.contains(&[10u8; 32]));
    assert_eq!(protocol.total_private_transfers, 1);
    assert_eq!(protocol.total_volume, 2_000_000);

    // Withdrawing one million charges the default fifty-basis-point fee.
    let outcome = private_transfer(
        &mut protocol,
        &mut set,
        &sample_transfer_proof(),
        &vec![[11u8; 32]],
        &vec![[21u8; 32]],
        &vec![],
        -1_000_000,
    )
    .unwrap();
    assert_eq!(outcome.deposit_amount, 0);
    assert_eq!(outcome.fee_to_treasury, 5_000);
    assert_eq!(outcome.net_to_user, 995_000);
    assert_eq!(protocol.vault_balance, 1_000_000);
    assert_eq!(protocol.total_volume, 3_000_000);
}

#[test]
fn private_transfer_double_spend_rejected() {
    let mut protocol = initialize([1u8; 32], [2u8; 32]);
    let mut set = NullifierSet::new();
    private_transfer(
        &mut protocol,
        &mut set,
        &sample_transfer_proof(),
        &vec![[10u8; 32]],
        &vec![],
        &vec![],
        0,
    )
    .unwrap();
    let r = private_transfer(
        &mut protocol,
        &mut set,
        &sample_transfer_proof(),
        &vec![[10u8; 32]],
        &vec![],
        &vec![],
        0,
    );
    assert_eq!(r, Err(VeloError::NullifierAlreadyUsed));
}

#[test]
fn private_transfer_duplicate_inputs_rejected() {
    let mut protocol = initialize([1u8; 32], [2u8; 32]);
    let mut set = NullifierSet::new();
    let r = private_transfer(
        &mut protocol,
        &mut set,
        &sample_transfer_proof(),
        &vec![[10u8; 32], [11u8; 32], [10u8; 32]],
        &vec![],
        &vec![],
        0,
    );
    assert_eq!(r, Err(VeloError::NullifierAlreadyUsed));
    // Atomicity: the rejection registered nothing.
    assert!(!set.contains(&[10u8; 32]));
    assert!(!set.contains(&[11u8; 32]));
}

#[test]
fn private_transfer_bad_proof_rejected() {
    let mut protocol = initialize([1u8; 32], [2u8; 32]);
    let mut set = NullifierSet::new();
    let empty = TransferProof { proof_data: vec![], merkle_root: [4u8; 32] };
    let r = private_transfer(&mut protocol, &mut set, &empty, &vec![[1u8; 32]], &vec![], &vec![], 0);
    assert_eq!(r, Err(VeloError::InvalidProof));

    let zero_root = TransferProof { proof_data: vec![1], merkle_root: [0u8; 32] };
    let r = private_transfer(
        &mut protocol,
        &mut set,
        &zero_root,
        &vec![[1u8; 32]],
        &vec![],
        &vec![],
        0,
    );
    assert_eq!(r, Err(VeloError::InvalidProof));
}

#[test]
fn private_withdraw_needs_funds() {
    let mut protocol = initialize([1u8; 32], [2u8; 32]);
    let mut set = NullifierSet::new();
    let r = private_transfer(
        &mut protocol,
        &mut set,
        &sample_transfer_proof(),
        &vec![[1u8; 32]],
        &vec![],
        &vec![],
        -1,
    );
    assert_eq!(r, Err(VeloError::InsufficientFunds));
}

#[test]
fn inactive_protocol_rejected() {
    let mut protocol = initialize([1u8; 32], [2u8; 32]);
    protocol.is_active = false;
    let mut set = NullifierSet::new();
    let r = private_transfer(
        &mut protocol,
        &mut set,
        &sample_transfer_proof(),
        &vec![],
        &vec![],
        &vec![],
        0,
    );
    assert_eq!(r, Err(VeloError::ProtocolInactive));
    let r = create_note(&protocol, [1u8; 32], [2u8; 32], vec![1, 2], 100, 50);
    assert_eq!(r.err(), Some(VeloError::ProtocolInactive));
}

#[test]
fn note_spent_once() {
    let protocol = initialize([1u8; 32], [2u8; 32]);
    let mut note = create_note(&protocol, [1u8; 32], [2u8; 32], vec![9, 9], 100, 50).unwrap();
    assert_eq!(note.owner, [1u8; 32]);
    assert_eq!(note.amount, 100);
    assert!(!note.spent);

    let proof = SpendProof { proof_data: vec![1] };
    // A zero nullifier is rejected.
    let r = spend_note(&mut note, &[0u8; 32], &proof);
    assert_eq!(r, Err(VeloError::InvalidProof));
    // An empty proof is rejected.
    let r = spend_note(&mut note, &[3u8; 32], &SpendProof { proof_data: vec![] });
    assert_eq!(r, Err(VeloError::InvalidProof));

    spend_note(&mut note, &[3u8; 32], &proof).unwrap();
    assert!(note.spent);
    let r = spend_note(&mut note, &[3u8; 32], &proof);
    assert_eq!(r, Err(VeloError::NoteAlreadySpent));
}

#[test]
fn fee_update_capped() {
    let mut protocol = initialize([1u8; 32], [2u8; 32]);
    assert_eq!(protocol.fee_bps, 50);
    assert_eq!(update_fee(&mut protocol, 1001), Err(VeloError::FeeTooHigh));
    assert_eq!(protocol.fee_bps, 50);
    update_fee(&mut protocol, 1000).unwrap();
    assert_eq!(protocol.fee_bps, 1000);
}
