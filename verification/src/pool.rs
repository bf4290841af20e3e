//! The pool: fixed denomination, active flag and counters, composing the
//! commitment accumulator and the nullifier registry.
//!
//! Every operation is an atomic state transition, specified by a spec-level
//! transition function over [`PoolModel`]; the executable methods refine
//! those transitions exactly, so the protocol laws can be stated and proved
//! purely over the model. Vault balances are mirrored here as plain values;
//! the surrounding ledger performs the actual transfers with the amounts the
//! operations return.

use vstd::prelude::*;
use vstd::arithmetic::power2::pow2;

use crate::errors::VeloError;
use crate::gate::{ProofVerifier, ZKProof};
use crate::hashes::PairHash;
use crate::merkle::{
    MerkleTree, TreeModel, MERKLE_TREE_DEPTH, tree_insert, tree_known_root, tree_new_model,
};
use crate::registry::NullifierSet;

verus! {

/// 0.1 SOL, in lamports.
pub const POOL_0_1_SOL: u64 = 100_000_000;

/// 1 SOL, in lamports.
pub const POOL_1_SOL: u64 = 1_000_000_000;

/// 10 SOL, in lamports.
pub const POOL_10_SOL: u64 = 10_000_000_000;

/// The mathematical state of a pool.
#[verifier::ext_equal]
pub ghost struct PoolModel {
    /// The creating authority's identity.
    pub authority: Seq<u8>,
    /// The fixed amount of every deposit and withdrawal; immutable.
    pub denomination: u64,
    /// The commitment accumulator.
    pub tree: TreeModel,
    /// The nullifier hashes of past withdrawals, in order.
    pub nullifier_hashes: Seq<Seq<u8>>,
    /// How many deposits were accepted; only grows.
    pub total_deposits: nat,
    /// How many withdrawals were accepted; only grows.
    pub total_withdrawals: nat,
    /// Whether the pool accepts operations.
    pub is_active: bool,
    /// The pool vault's balance, mirroring the ledger.
    pub vault_balance: nat,
}

/// The amounts a successful withdrawal releases: `recipient_amount` to the
/// recipient and `relayer_amount` to the relayer.
#[derive(Clone, Copy, Debug, PartialEq, Eq, Structural)]
pub struct WithdrawReceipt {
    /// What the recipient receives: the denomination less the fee.
    pub recipient_amount: u64,
    /// What the relayer receives: the fee, or nothing if no relayer is named.
    pub relayer_amount: u64,
}

/// The state of a freshly created pool: empty accumulator, empty registry,
/// zero counters, active.
pub open spec fn pool_new_model<H: PairHash>(
    h: H,
    authority: Seq<u8>,
    denomination: u64,
) -> PoolModel {
    PoolModel {
        authority: authority,
        denomination: denomination,
        tree: tree_new_model(h),
        nullifier_hashes: Seq::empty(),
        total_deposits: 0,
        total_withdrawals: 0,
        is_active: true,
        vault_balance: 0,
    }
}

/// The deposit transition: rejected while the pool is inactive or the
/// accumulator is full; otherwise the commitment becomes the next leaf, the
/// new root is recorded, and the denomination moves into the vault. Returns
/// the leaf index on success.
pub open spec fn deposit_spec<H: PairHash>(h: H, p: PoolModel, commitment: Seq<u8>) -> (
    PoolModel,
    Result<u64, VeloError>,
) {
    if !p.is_active {
        (p, Err(VeloError::PoolInactive))
    } else if p.tree.next_index >= pow2(MERKLE_TREE_DEPTH as nat) {
        (p, Err(VeloError::TreeFull))
    } else {
        (
            PoolModel {
                tree: tree_insert(h, p.tree, commitment),
                total_deposits: p.total_deposits + 1,
                vault_balance: (p.vault_balance + p.denomination) as nat,
                ..p
            },
            Ok(p.tree.next_index as u64),
        )
    }
}

/// What a successful withdrawal pays the relayer: the fee, unless no fee is
/// due or no relayer is named (the all-zero identity).
pub open spec fn relayer_payout(relayer: Seq<u8>, fee: u64) -> u64 {
    if fee > 0 && relayer != crate::zeros32() {
        fee
    } else {
        0
    }
}

/// The withdrawal transition, in rejection order: an inactive pool; a
/// nullifier hash already registered (the double-spend defense, regardless
/// of proof validity); a root outside the history window; a proof the
/// verifier rejects against exactly the supplied public inputs; a fee above
/// the denomination; a vault short of the payout. On acceptance the
/// nullifier is registered and `denomination - fee` leaves for the
/// recipient, the fee for the relayer.
pub open spec fn withdraw_spec<V: ProofVerifier>(
    v: V,
    p: PoolModel,
    proof: ZKProof,
    root: Seq<u8>,
    nullifier_hash: Seq<u8>,
    recipient: Seq<u8>,
    relayer: Seq<u8>,
    fee: u64,
) -> (PoolModel, Result<WithdrawReceipt, VeloError>) {
    if !p.is_active {
        (p, Err(VeloError::PoolInactive))
    } else if p.nullifier_hashes.contains(nullifier_hash) {
        (p, Err(VeloError::NullifierAlreadyUsed))
    } else if !tree_known_root(p.tree, root) {
        (p, Err(VeloError::InvalidMerkleRoot))
    } else if !v.verify_spec(proof, root, nullifier_hash, recipient, relayer, fee) {
        (p, Err(VeloError::InvalidProof))
    } else if fee > p.denomination {
        (p, Err(VeloError::FeeExceedsDenomination))
    } else if p.vault_balance < p.denomination - fee + relayer_payout(relayer, fee) {
        (p, Err(VeloError::InsufficientFunds))
    } else {
        (
            PoolModel {
                nullifier_hashes: p.nullifier_hashes.push(nullifier_hash),
                total_withdrawals: p.total_withdrawals + 1,
                vault_balance: (p.vault_balance - (p.denomination - fee)
                    - relayer_payout(relayer, fee)) as nat,
                ..p
            },
            Ok(
                WithdrawReceipt {
                    recipient_amount: (p.denomination - fee) as u64,
                    relayer_amount: relayer_payout(relayer, fee),
                },
            ),
        )
    }
}

/// A deposit's encrypted-amount record: only the holder of the deposit
/// secret can decrypt the amount; observers see an opaque blob.
pub struct ConfidentialNote {
    /// The commitment this note belongs to.
    pub commitment: [u8; 32],
    /// The encrypted amount.
    pub encrypted_amount: [u8; 128],
    /// When the note was created.
    pub timestamp: i64,
    /// The denomination of the pool deposited into.
    pub pool_denomination: u64,
    /// Whether the note was withdrawn.
    pub spent: bool,
}

/// A pool of one fixed denomination.
pub struct MixerPool {
    /// The creating authority's identity.
    pub authority: [u8; 32],
    /// The fixed amount of every deposit and withdrawal.
    pub denomination: u64,
    /// The commitment accumulator.
    pub merkle_tree: MerkleTree,
    /// The nullifier registry.
    pub nullifier_hashes: NullifierSet,
    /// How many deposits were accepted.
    pub total_deposits: u64,
    /// How many withdrawals were accepted.
    pub total_withdrawals: u64,
    /// Whether the pool accepts operations.
    pub is_active: bool,
    /// The pool vault's balance, mirroring the ledger.
    pub vault_balance: u64,
}

impl View for MixerPool {
    type V = PoolModel;

    open spec fn view(&self) -> PoolModel {
        PoolModel {
            authority: self.authority@,
            denomination: self.denomination,
            tree: self.merkle_tree@,
            nullifier_hashes: self.nullifier_hashes@,
            total_deposits: self.total_deposits as nat,
            total_withdrawals: self.total_withdrawals as nat,
            is_active: self.is_active,
            vault_balance: self.vault_balance as nat,
        }
    }
}

impl MixerPool {
    /// Structural well-formedness: the accumulator and registry are well
    /// formed and the counters mirror them — deposits equal the leaf count,
    /// withdrawals the registered-nullifier count.
    pub open spec fn wf(&self) -> bool {
        &&& self.merkle_tree.wf()
        &&& self.nullifier_hashes.wf()
        &&& self.total_deposits as nat == self.merkle_tree@.next_index
        &&& self.total_withdrawals as nat == self.nullifier_hashes@.len()
    }

    /// The precomputed empty-subtree hashes agree with hasher `h`.
    pub open spec fn zeros_ok<H: PairHash>(&self, h: H) -> bool {
        self.merkle_tree.zeros_ok(h)
    }

    /// Creates a pool of the given denomination: an empty accumulator, an
    /// empty registry, zeroed counters, active. One pool exists per
    /// denomination; the denomination is immutable afterwards.
    pub fn initialize_pool<H: PairHash>(h: &H, authority: [u8; 32], denomination: u64) -> (p:
        MixerPool)
        ensures
            p.wf(),
            p.zeros_ok(*h),
            p@ == pool_new_model(*h, authority@, denomination),
    {
        let pool = MixerPool {
            authority,
            denomination,
            merkle_tree: MerkleTree::new(h),
            nullifier_hashes: NullifierSet::new(),
            total_deposits: 0,
            total_withdrawals: 0,
            is_active: true,
            vault_balance: 0,
        };
        proof {
            assert(pool@ =~= pool_new_model(*h, authority@, denomination));
        }
        pool
    }

    /// Accepts a commitment into the anonymity set: the denomination moves
    /// into the vault and the commitment becomes the next leaf. Refines
    /// `deposit_spec`.
    pub fn deposit<H: PairHash>(&mut self, h: &H, commitment: [u8; 32]) -> (result: Result<
        u64,
        VeloError,
    >)
        requires
            old(self).wf(),
            old(self)@.vault_balance + old(self)@.denomination <= u64::MAX,
        ensures
            final(self).wf(),
            old(self).zeros_ok(*h) ==> final(self).zeros_ok(*h),
            final(self)@ == deposit_spec(*h, old(self)@, commitment@).0,
            result == deposit_spec(*h, old(self)@, commitment@).1,
    {
        proof {
            vstd::arithmetic::power2::lemma2_to64();
        }
        if !self.is_active {
            return Err(VeloError::PoolInactive);
        }
        if self.merkle_tree.next_index >= 1048576 {
            return Err(VeloError::TreeFull);
        }
        let ghost p0 = self@;
        let index = match self.merkle_tree.insert(h, commitment) {
            Ok(index) => index,
            Err(e) => {
                return Err(e);
            },
        };
        self.total_deposits = self.total_deposits + 1;
        self.vault_balance = self.vault_balance + self.denomination;
        proof {
            assert(self@ =~= deposit_spec(*h, p0, commitment@).0);
            if old(self).zeros_ok(*h) {
                assert forall|i: int| 0 <= i <= MERKLE_TREE_DEPTH implies self.merkle_tree@.zeros[i]
                    == crate::merkle::zero_at(*h, i as nat) by {
                    assert(old(self).merkle_tree@.zeros[i] == crate::merkle::zero_at(*h, i as nat));
                }
            }
        }
        Ok(index)
    }

    /// The withdrawal gate. Verifies the root against the history window,
    /// the nullifier against the registry, and the proof against exactly the
    /// supplied public inputs; on acceptance registers the nullifier and
    /// releases `denomination - fee` to the recipient and the fee to the
    /// relayer. Refines `withdraw_spec`; no state is mutated on any error.
    pub fn withdraw<V: ProofVerifier>(
        &mut self,
        v: &V,
        proof: &ZKProof,
        root: &[u8; 32],
        nullifier_hash: &[u8; 32],
        recipient: &[u8; 32],
        relayer: &[u8; 32],
        fee: u64,
    ) -> (result: Result<WithdrawReceipt, VeloError>)
        requires
            old(self).wf(),
        ensures
            final(self).wf(),
            final(self)@ == withdraw_spec(
                *v,
                old(self)@,
                *proof,
                root@,
                nullifier_hash@,
                recipient@,
                relayer@,
                fee,
            ).0,
            result == withdraw_spec(
                *v,
                old(self)@,
                *proof,
                root@,
                nullifier_hash@,
                recipient@,
                relayer@,
                fee,
            ).1,
    {
        if !self.is_active {
            return Err(VeloError::PoolInactive);
        }
        if self.nullifier_hashes.contains(nullifier_hash) {
            return Err(VeloError::NullifierAlreadyUsed);
        }
        if !self.merkle_tree.is_known_root(root) {
            return Err(VeloError::InvalidMerkleRoot);
        }
        if !v.verify(proof, root, nullifier_hash, recipient, relayer, fee) {
            return Err(VeloError::InvalidProof);
        }
        if fee > self.denomination {
            return Err(VeloError::FeeExceedsDenomination);
        }
        let recipient_amount = self.denomination - fee;
        let pays_relayer = fee > 0 && !crate::bytes32_is_zero(relayer);
        let relayer_amount: u64 = if pays_relayer {
            fee
        } else {
            0
        };
        proof {
            assert(relayer_amount == relayer_payout(relayer@, fee));
        }
        if self.vault_balance < recipient_amount || self.vault_balance - recipient_amount
            < relayer_amount {
            return Err(VeloError::InsufficientFunds);
        }
        let ghost p0 = self@;
        match self.nullifier_hashes.add(*nullifier_hash) {
            Ok(()) => (),
            Err(e) => {
                return Err(e);
            },
        }
        self.total_withdrawals = self.nullifier_hashes.len() as u64;
        self.vault_balance = self.vault_balance - recipient_amount - relayer_amount;
        let receipt = WithdrawReceipt { recipient_amount, relayer_amount };
        proof {
            assert(self@ =~= withdraw_spec(
                *v,
                p0,
                *proof,
                root@,
                nullifier_hash@,
                recipient@,
                relayer@,
                fee,
            ).0);
        }
        Ok(receipt)
    }

    /// A deposit that additionally stores the amount encrypted on-chain:
    /// the commitment enters the accumulator exactly as in `deposit`, and a
    /// note records the encrypted amount for the depositor alone to read.
    pub fn confidential_deposit<H: PairHash>(
        &mut self,
        h: &H,
        commitment: [u8; 32],
        encrypted_amount: [u8; 128],
        now: i64,
    ) -> (result: Result<ConfidentialNote, VeloError>)
        requires
            old(self).wf(),
            old(self)@.vault_balance + old(self)@.denomination <= u64::MAX,
        ensures
            final(self).wf(),
            final(self)@ == deposit_spec(*h, old(self)@, commitment@).0,
            match result {
                Ok(note) => {
                    &&& (deposit_spec(*h, old(self)@, commitment@).1 is Ok)
                    &&& note.commitment == commitment
                    &&& note.encrypted_amount == encrypted_amount
                    &&& note.timestamp == now
                    &&& note.pool_denomination == old(self)@.denomination
                    &&& !note.spent
                },
                Err(e) => deposit_spec(*h, old(self)@, commitment@).1 == Err::<u64, VeloError>(e),
            },
    {
        let denomination = self.denomination;
        match self.deposit(h, commitment) {
            Ok(_) => Ok(
                ConfidentialNote {
                    commitment,
                    encrypted_amount,
                    timestamp: now,
                    pool_denomination: denomination,
                    spent: false,
                },
            ),
            Err(e) => Err(e),
        }
    }

    /// A test-mode withdrawal: releases one denomination from the vault
    /// with no proof and no nullifier. It grants no privacy and exists only
    /// to exercise the payout path; never expose it in a deployment.
    pub fn withdraw_test(&mut self) -> (result: Result<u64, VeloError>)
        requires
            old(self).wf(),
        ensures
            final(self).wf(),
            old(self)@.vault_balance < old(self)@.denomination ==> {
                &&& result == Err::<u64, VeloError>(VeloError::InsufficientFunds)
                &&& final(self)@ == old(self)@
            },
            old(self)@.vault_balance >= old(self)@.denomination ==> {
                &&& result == Ok::<u64, VeloError>(old(self).denomination)
                &&& final(self)@ == (PoolModel {
                    vault_balance: (old(self)@.vault_balance - old(self)@.denomination) as nat,
                    ..old(self)@
                })
            },
    {
        if self.vault_balance < self.denomination {
            return Err(VeloError::InsufficientFunds);
        }
        self.vault_balance = self.vault_balance - self.denomination;
        proof {
            assert(self@ =~= (PoolModel {
                vault_balance: (old(self)@.vault_balance - old(self)@.denomination) as nat,
                ..old(self)@
            }));
        }
        Ok(self.denomination)
    }

    /// Activates or deactivates the pool; nothing else changes.
    pub fn set_pool_status(&mut self, is_active: bool)
        requires
            old(self).wf(),
        ensures
            final(self).wf(),
            final(self)@ == (PoolModel { is_active: is_active, ..old(self)@ }),
    {
        self.is_active = is_active;
        proof {
            assert(self@ =~= PoolModel { is_active: is_active, ..old(self)@ });
        }
    }
}

} // verus!
