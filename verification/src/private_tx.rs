//! The shielded-note protocol: encrypted UTXO-style notes spent through the
//! same nullifier discipline as the pool, with a variable public amount
//! entering or leaving the shielded set.
//!
//! A private transfer consumes input nullifiers — each usable exactly once,
//! across the whole history — and publishes output commitments. A positive
//! public amount is a deposit into the protocol vault; a negative one is a
//! withdrawal, charged a basis-point fee paid to the treasury.

use vstd::prelude::*;

use crate::all_zero;
use crate::bytes32_eq;
use crate::bytes32_is_zero;
use crate::errors::VeloError;
use crate::registry::NullifierSet;
use crate::sat_add64;
use crate::slice_all_zero;
use crate::zeros32;

verus! {

/// The protocol fee on shielded withdrawals, in basis points.
pub const PROTOCOL_FEE_BPS: u64 = 50;

/// The most basis points the fee may ever be set to (ten percent).
pub const MAX_FEE_BPS: u64 = 1000;

/// The shielded-transfer protocol's state.
pub struct PrivateProtocol {
    /// The creating authority's identity.
    pub authority: [u8; 32],
    /// Where withdrawal fees go.
    pub treasury: [u8; 32],
    /// How many private transfers were executed.
    pub total_private_transfers: u64,
    /// The total public volume moved, in or out.
    pub total_volume: u64,
    /// The withdrawal fee, in basis points; at most `MAX_FEE_BPS`.
    pub fee_bps: u64,
    /// Whether the protocol accepts operations.
    pub is_active: bool,
    /// The protocol vault's balance, mirroring the ledger.
    pub vault_balance: u64,
}

impl PrivateProtocol {
    /// The fee never exceeds the hard cap.
    pub open spec fn wf(&self) -> bool {
        self.fee_bps <= MAX_FEE_BPS
    }
}

/// A shielded note: an escrowed amount bound to a commitment, with the
/// recipient data encrypted.
pub struct ShieldedNote {
    /// The creating wallet.
    pub owner: [u8; 32],
    /// The commitment binding the note's secret.
    pub commitment: [u8; 32],
    /// The encrypted amount and recipient information.
    pub encrypted_data: Vec<u8>,
    /// The escrowed amount.
    pub amount: u64,
    /// Whether the note was spent.
    pub spent: bool,
    /// When the note was created.
    pub created_at: i64,
}

/// A proof accompanying a private transfer.
pub struct TransferProof {
    /// The opaque proof bytes.
    pub proof_data: Vec<u8>,
    /// The Merkle root the input notes are proved under.
    pub merkle_root: [u8; 32],
}

/// A proof that a nullifier is correctly derived from a note's commitment.
pub struct SpendProof {
    /// The opaque proof bytes.
    pub proof_data: Vec<u8>,
}

/// The amounts a successful private transfer moves through the ledger:
/// `deposit_amount` from the user into the vault for a positive public
/// amount; `net_to_user` and `fee_to_treasury` out of the vault for a
/// negative one.
#[derive(Clone, Copy, Debug, PartialEq, Eq, Structural)]
pub struct TransferOutcome {
    /// What the user pays in (positive public amount).
    pub deposit_amount: u64,
    /// What the user receives (negative public amount), net of the fee.
    pub net_to_user: u64,
    /// The fee the treasury receives (negative public amount).
    pub fee_to_treasury: u64,
}

/// Initializes the protocol: zero statistics, the default fee, active.
pub fn initialize(authority: [u8; 32], treasury: [u8; 32]) -> (p: PrivateProtocol)
    ensures
        p.wf(),
        p.authority == authority,
        p.treasury == treasury,
        p.total_private_transfers == 0,
        p.total_volume == 0,
        p.fee_bps == PROTOCOL_FEE_BPS,
        p.is_active,
        p.vault_balance == 0,
{
    PrivateProtocol {
        authority,
        treasury,
        total_private_transfers: 0,
        total_volume: 0,
        fee_bps: PROTOCOL_FEE_BPS,
        is_active: true,
        vault_balance: 0,
    }
}

/// Creates a shielded note escrowing `amount`. Fails with
/// `ProtocolInactive` iff the protocol is inactive.
pub fn create_note(
    protocol: &PrivateProtocol,
    owner: [u8; 32],
    commitment: [u8; 32],
    encrypted_data: Vec<u8>,
    amount: u64,
    now: i64,
) -> (result: Result<ShieldedNote, VeloError>)
    ensures
        !protocol.is_active ==> result == Err::<ShieldedNote, VeloError>(
            VeloError::ProtocolInactive,
        ),
        protocol.is_active ==> match result {
            Ok(note) => {
                &&& note.owner == owner
                &&& note.commitment == commitment
                &&& note.encrypted_data@ == encrypted_data@
                &&& note.amount == amount
                &&& !note.spent
                &&& note.created_at == now
            },
            Err(_) => false,
        },
{
    if !protocol.is_active {
        return Err(VeloError::ProtocolInactive);
    }
    Ok(ShieldedNote { owner, commitment, encrypted_data, amount, spent: false, created_at: now })
}

/// What the transfer check accepts: non-empty proof bytes under a non-zero
/// root. A placeholder for a real circuit verification of input inclusion,
/// balance and nullifier derivation.
pub open spec fn spec_verify_transfer_proof(proof: TransferProof) -> bool {
    &&& proof.proof_data@.len() > 0
    &&& proof.merkle_root@ != zeros32()
}

/// Decides a transfer proof.
pub fn verify_transfer_proof(proof: &TransferProof) -> (r: bool)
    ensures
        r == spec_verify_transfer_proof(*proof),
{
    if proof.proof_data.len() == 0 {
        return false;
    }
    !bytes32_is_zero(&proof.merkle_root)
}

/// What the spend check accepts: non-empty proof bytes and a non-zero
/// nullifier. A placeholder for a real derivation check.
pub open spec fn spec_verify_spend_proof(proof: SpendProof, nullifier: Seq<u8>) -> bool {
    &&& proof.proof_data@.len() > 0
    &&& !all_zero(nullifier)
}

/// Decides a spend proof against a note's nullifier.
pub fn verify_spend_proof(proof: &SpendProof, commitment: &[u8; 32], nullifier: &[u8; 32]) -> (r:
    bool)
    ensures
        r == spec_verify_spend_proof(*proof, nullifier@),
{
    if proof.proof_data.len() == 0 {
        return false;
    }
    !slice_all_zero(nullifier.as_slice())
}

/// Whether some input nullifier was already spent.
pub open spec fn any_spent(ns: Seq<Seq<u8>>, inputs: Seq<Seq<u8>>) -> bool {
    exists|i: int| 0 <= i < inputs.len() && ns.contains(inputs[i])
}

/// Whether two input positions carry the same nullifier.
pub open spec fn has_duplicate(inputs: Seq<Seq<u8>>) -> bool {
    exists|i: int, j: int| 0 <= i < j < inputs.len() && inputs[i] == inputs[j]
}

/// The magnitude of a public amount.
pub open spec fn i64_magnitude(x: i64) -> nat {
    if x >= 0 {
        x as nat
    } else {
        (-(x as int)) as nat
    }
}

/// The basis-point fee on a withdrawn amount.
pub open spec fn bps_fee(amount: nat, fee_bps: u64) -> nat {
    (amount * fee_bps / 10000) as nat
}

/// The private-transfer transition, in rejection order: an inactive
/// protocol; an input nullifier already spent, or listed twice (the
/// double-spend defense); a rejected proof; a vault short of a withdrawal.
/// On acceptance every input nullifier is registered, the public amount
/// moves — in for positive, out net of the basis-point fee for negative —
/// and the statistics grow, saturating.
pub open spec fn private_transfer_spec(
    pro: PrivateProtocol,
    ns: Seq<Seq<u8>>,
    proof: TransferProof,
    inputs: Seq<Seq<u8>>,
    public_amount: i64,
) -> (PrivateProtocol, Seq<Seq<u8>>, Result<TransferOutcome, VeloError>) {
    if !pro.is_active {
        (pro, ns, Err(VeloError::ProtocolInactive))
    } else if any_spent(ns, inputs) || has_duplicate(inputs) {
        (pro, ns, Err(VeloError::NullifierAlreadyUsed))
    } else if !spec_verify_transfer_proof(proof) {
        (pro, ns, Err(VeloError::InvalidProof))
    } else if public_amount < 0 && pro.vault_balance < i64_magnitude(public_amount) {
        (pro, ns, Err(VeloError::InsufficientFunds))
    } else {
        let magnitude = i64_magnitude(public_amount);
        let fee = bps_fee(magnitude, pro.fee_bps);
        (
            PrivateProtocol {
                total_private_transfers: sat_add64(pro.total_private_transfers as int, 1),
                total_volume: sat_add64(pro.total_volume as int, magnitude as int),
                vault_balance: if public_amount > 0 {
                    (pro.vault_balance + magnitude) as u64
                } else {
                    (pro.vault_balance - magnitude) as u64
                },
                ..pro
            },
            ns + inputs,
            Ok(
                TransferOutcome {
                    deposit_amount: if public_amount > 0 {
                        magnitude as u64
                    } else {
                        0
                    },
                    net_to_user: if public_amount < 0 {
                        (magnitude - fee) as u64
                    } else {
                        0
                    },
                    fee_to_treasury: if public_amount < 0 {
                        fee as u64
                    } else {
                        0
                    },
                },
            ),
        )
    }
}

/// Executes a private transfer: spends the input notes' nullifiers,
/// publishes the output commitments, and settles the public amount.
/// Refines `private_transfer_spec`; no state is mutated on any error.
pub fn private_transfer(
    protocol: &mut PrivateProtocol,
    nullifier_set: &mut NullifierSet,
    proof: &TransferProof,
    input_nullifiers: &Vec<[u8; 32]>,
    output_commitments: &Vec<[u8; 32]>,
    encrypted_outputs: &Vec<Vec<u8>>,
    public_amount: i64,
) -> (result: Result<TransferOutcome, VeloError>)
    requires
        old(protocol).wf(),
        old(nullifier_set).wf(),
        public_amount > 0 ==> old(protocol).vault_balance + public_amount <= u64::MAX,
    ensures
        final(protocol).wf(),
        final(nullifier_set).wf(),
        ({
            let spec_result = private_transfer_spec(
                *old(protocol),
                old(nullifier_set)@,
                *proof,
                input_nullifiers@.map_values(|w: [u8; 32]| w@),
                public_amount,
            );
            &&& *final(protocol) == spec_result.0
            &&& final(nullifier_set)@ == spec_result.1
            &&& result == spec_result.2
        }),
{
    let ghost inputs = input_nullifiers@.map_values(|w: [u8; 32]| w@);
    let ghost ns0 = nullifier_set@;

    if !protocol.is_active {
        return Err(VeloError::ProtocolInactive);
    }

    let n = input_nullifiers.len();
    let mut i: usize = 0;
    while i < n
        invariant
            n == input_nullifiers@.len(),
            inputs == input_nullifiers@.map_values(|w: [u8; 32]| w@),
            ns0 == nullifier_set@,
            *protocol == *old(protocol),
            *nullifier_set == *old(nullifier_set),
            old(protocol).wf(),
            old(nullifier_set).wf(),
            protocol.is_active,
            i <= n,
            forall|k: int| 0 <= k < i ==> !ns0.contains(inputs[k]),
            forall|j: int, k: int| 0 <= j < k < i ==> inputs[j] != inputs[k],
        decreases n - i,
    {
        if nullifier_set.contains(&input_nullifiers[i]) {
            proof {
                assert(ns0.contains(inputs[i as int]));
            }
            return Err(VeloError::NullifierAlreadyUsed);
        }
        let mut j: usize = 0;
        while j < i
            invariant
                n == input_nullifiers@.len(),
                inputs == input_nullifiers@.map_values(|w: [u8; 32]| w@),
                ns0 == nullifier_set@,
                *protocol == *old(protocol),
                *nullifier_set == *old(nullifier_set),
                old(protocol).wf(),
                old(nullifier_set).wf(),
                protocol.is_active,
                j <= i < n,
                forall|k: int| 0 <= k < j ==> inputs[k] != inputs[i as int],
            decreases i - j,
        {
            if bytes32_eq(&input_nullifiers[j], &input_nullifiers[i]) {
                proof {
                    assert(inputs[j as int] == inputs[i as int]);
                }
                return Err(VeloError::NullifierAlreadyUsed);
            }
            j += 1;
        }
        i += 1;
    }
    proof {
        assert(!any_spent(ns0, inputs));
        assert(!has_duplicate(inputs));
    }

    if !verify_transfer_proof(proof) {
        return Err(VeloError::InvalidProof);
    }

    let magnitude: u64 = if public_amount == i64::MIN {
        9223372036854775808u64
    } else if public_amount < 0 {
        (-public_amount) as u64
    } else {
        public_amount as u64
    };
    proof {
        assert(magnitude as nat == i64_magnitude(public_amount));
    }

    if public_amount < 0 && protocol.vault_balance < magnitude {
        return Err(VeloError::InsufficientFunds);
    }

    let fee: u64 = if public_amount < 0 {
        let m128: u128 = magnitude as u128;
        let b128: u128 = protocol.fee_bps as u128;
        proof {
            assert(m128 * b128 <= 1000 * 0xffff_ffff_ffff_ffff) by (nonlinear_arith)
                requires
                    m128 <= 0xffff_ffff_ffff_ffffu128,
                    b128 <= 1000,
            ;
        }
        let wide: u128 = m128 * b128 / 10000;
        proof {
            assert(wide <= m128) by (nonlinear_arith)
                requires
                    wide == m128 * b128 / 10000,
                    b128 <= 10000,
            ;
        }
        wide as u64
    } else {
        0
    };

    let mut k: usize = 0;
    while k < n
        invariant
            n == input_nullifiers@.len(),
            inputs == input_nullifiers@.map_values(|w: [u8; 32]| w@),
            k <= n,
            nullifier_set.wf(),
            nullifier_set@ == ns0 + inputs.take(k as int),
            forall|a: int| 0 <= a < n ==> !ns0.contains(inputs[a]),
            forall|a: int, b: int| 0 <= a < b < n ==> inputs[a] != inputs[b],
        decreases n - k,
    {
        proof {
            assert forall|idx: int| 0 <= idx < nullifier_set@.len() implies nullifier_set@[idx]
                != inputs[k as int] by {
                if idx < ns0.len() {
                    assert(ns0[idx] == nullifier_set@[idx]);
                    assert(ns0.contains(ns0[idx]));
                } else {
                    assert(nullifier_set@[idx] == inputs[idx - ns0.len()]);
                }
            }
            assert(!nullifier_set@.contains(inputs[k as int]));
        }
        let added = nullifier_set.add(input_nullifiers[k]);
        proof {
            assert(added == Ok::<(), VeloError>(()));
            assert(nullifier_set@ =~= ns0 + inputs.take(k + 1));
        }
        k += 1;
    }
    proof {
        assert(inputs.take(n as int) =~= inputs);
    }

    if public_amount > 0 {
        protocol.vault_balance = protocol.vault_balance + magnitude;
    } else if public_amount < 0 {
        protocol.vault_balance = protocol.vault_balance - magnitude;
    }
    protocol.total_private_transfers = protocol.total_private_transfers.saturating_add(1);
    protocol.total_volume = protocol.total_volume.saturating_add(magnitude);

    let outcome = TransferOutcome {
        deposit_amount: if public_amount > 0 {
            magnitude
        } else {
            0
        },
        net_to_user: if public_amount < 0 {
            magnitude - fee
        } else {
            0
        },
        fee_to_treasury: fee,
    };
    Ok(outcome)
}

/// Marks a note as spent. Fails with `NoteAlreadySpent` iff the note was
/// already spent — at most one spend ever succeeds — and with
/// `InvalidProof` iff the spend proof is rejected; nothing is mutated on
/// either error.
pub fn spend_note(note: &mut ShieldedNote, nullifier: &[u8; 32], proof: &SpendProof) -> (result:
    Result<(), VeloError>)
    ensures
        old(note).spent ==> {
            &&& result == Err::<(), VeloError>(VeloError::NoteAlreadySpent)
            &&& final(note).spent == old(note).spent
        },
        !old(note).spent && !spec_verify_spend_proof(*proof, nullifier@) ==> {
            &&& result == Err::<(), VeloError>(VeloError::InvalidProof)
            &&& final(note).spent == old(note).spent
        },
        !old(note).spent && spec_verify_spend_proof(*proof, nullifier@) ==> {
            &&& result == Ok::<(), VeloError>(())
            &&& final(note).spent
        },
        final(note).owner == old(note).owner,
        final(note).commitment == old(note).commitment,
        final(note).encrypted_data@ == old(note).encrypted_data@,
        final(note).amount == old(note).amount,
        final(note).created_at == old(note).created_at,
{
    if note.spent {
        return Err(VeloError::NoteAlreadySpent);
    }
    if !verify_spend_proof(proof, &note.commitment, nullifier) {
        return Err(VeloError::InvalidProof);
    }
    note.spent = true;
    Ok(())
}

/// Sets the withdrawal fee. Fails with `FeeTooHigh`, mutating nothing, iff
/// the new fee exceeds the ten-percent cap.
pub fn update_fee(protocol: &mut PrivateProtocol, new_fee_bps: u64) -> (result: Result<
    (),
    VeloError,
>)
    requires
        old(protocol).wf(),
    ensures
        final(protocol).wf(),
        new_fee_bps > MAX_FEE_BPS ==> {
            &&& result == Err::<(), VeloError>(VeloError::FeeTooHigh)
            &&& *final(protocol) == *old(protocol)
        },
        new_fee_bps <= MAX_FEE_BPS ==> {
            &&& result == Ok::<(), VeloError>(())
            &&& *final(protocol) == (PrivateProtocol { fee_bps: new_fee_bps, ..*old(protocol) })
        },
{
    if new_fee_bps > MAX_FEE_BPS {
        return Err(VeloError::FeeTooHigh);
    }
    protocol.fee_bps = new_fee_bps;
    Ok(())
}

/// Pauses or resumes the protocol; nothing else changes.
pub fn set_active(protocol: &mut PrivateProtocol, is_active: bool)
    ensures
        *final(protocol) == (PrivateProtocol { is_active: is_active, ..*old(protocol) }),
{
    protocol.is_active = is_active;
}

} // verus!
