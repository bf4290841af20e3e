//! The protocol laws: properties that hold across sequences of operations,
//! stated over the spec-level transition functions that every executable
//! operation refines.

use vstd::prelude::*;
use vstd::arithmetic::power2::pow2;
use vstd::arithmetic::div_mod::{
    lemma_add_mod_noop, lemma_mod_bound, lemma_mod_equivalence, lemma_small_mod,
    lemma_sub_mod_noop, lemma_sub_mod_noop_right,
};

use crate::decoy::{shuffle_spec, total_balance, lemma_total_balance_update, DecoyModel};
use crate::errors::VeloError;
use crate::gate::{ProofVerifier, ZKProof};
use crate::hashes::PairHash;
use crate::merkle::{
    tree_insert, tree_insert_root, tree_known_root, tree_new_model, TreeModel,
    ROOT_HISTORY_SIZE,
};
use crate::pool::{deposit_spec, withdraw_spec, PoolModel, WithdrawReceipt};
use crate::relay::{relayer_withdraw_spec, RelayerModel};
use crate::stealth::{claim_stealth_funds_spec, claim_stealth_spec, StealthAnnouncement, StealthPayment};
use crate::zeros32;

verus! {

/// The accumulator after inserting `leaves`, in order, into an empty tree.
pub open spec fn tree_after<H: PairHash>(h: H, leaves: Seq<Seq<u8>>) -> TreeModel
    decreases leaves.len(),
{
    if leaves.len() == 0 {
        tree_new_model(h)
    } else {
        tree_insert(h, tree_after(h, leaves.drop_last()), leaves.last())
    }
}

/// The root produced by the insert of `leaves[j]`.
pub open spec fn root_at<H: PairHash>(h: H, leaves: Seq<Seq<u8>>, j: int) -> Seq<u8> {
    tree_insert_root(h, tree_after(h, leaves.take(j)), leaves[j])
}

/// What ring-buffer slot `s` holds after all of `leaves` are inserted: the
/// root of the insert `k` steps back, where `k` is the slot's age behind
/// the cursor; a slot older than every insert still holds its initial
/// all-zero word.
pub open spec fn slot_value<H: PairHash>(h: H, leaves: Seq<Seq<u8>>, s: int) -> Seq<u8> {
    let n = leaves.len() as int;
    let k = ((n % 30) - s) % 30;
    if k < n {
        root_at(h, leaves, n - 1 - k)
    } else {
        zeros32()
    }
}

/// After `n` inserts the cursor stands at `n % K`, and every slot holds
/// exactly the root its age dictates.
pub proof fn lemma_history_slots<H: PairHash>(h: H, leaves: Seq<Seq<u8>>)
    ensures
        tree_after(h, leaves).next_index == leaves.len(),
        tree_after(h, leaves).current_root_index == (leaves.len() as int) % 30,
        tree_after(h, leaves).root_history.len() == 30,
        forall|s: int|
            0 <= s < 30 ==> tree_after(h, leaves).root_history[s] == slot_value(h, leaves, s),
    decreases leaves.len(),
{
    let n = leaves.len() as int;
    let t = tree_after(h, leaves);
    if n == 0 {
        assert forall|s: int| 0 <= s < 30 implies t.root_history[s] == slot_value(h, leaves, s) by {
            lemma_mod_bound(0 - s, 30);
            let k = ((0int % 30) - s) % 30;
            assert(k >= 0);
            assert(t.root_history[s] == zeros32());
        }
    } else {
        let prev = leaves.drop_last();
        lemma_history_slots(h, prev);
        let t0 = tree_after(h, prev);
        assert(t == tree_insert(h, t0, leaves.last()));
        let cri = n % 30;
        assert(t0.current_root_index == (n - 1) % 30);
        assert(t.current_root_index == ((n - 1) % 30 + 1) % 30);
        assert(((n - 1) % 30 + 1) % 30 == n % 30) by {
            lemma_small_mod(1, 30);
            lemma_add_mod_noop(n - 1, 1, 30);
        }
        lemma_mod_bound(n, 30);

        assert(leaves.take(n - 1) =~= prev);
        assert(leaves[n - 1] == leaves.last());
        assert(root_at(h, leaves, n - 1) == tree_insert_root(h, t0, leaves.last()));
        assert forall|j: int| 0 <= j < n - 1 implies root_at(h, prev, j) == root_at(
            h,
            leaves,
            j,
        ) by {
            assert(prev.take(j) =~= leaves.take(j));
        }

        assert forall|s: int| 0 <= s < 30 implies t.root_history[s] == slot_value(h, leaves, s) by {
            let k = ((n % 30) - s) % 30;
            assert(((n % 30) - s) % 30 == (n - s) % 30) by {
                lemma_small_mod(s as nat, 30);
                lemma_sub_mod_noop(n, s, 30);
            }
            if s == cri {
                assert(k == 0) by {
                    lemma_sub_mod_noop_right(n, n, 30);
                }
                assert(t.root_history[s] == root_at(h, leaves, n - 1));
            } else {
                assert(t.root_history[s] == t0.root_history[s]);
                let k0 = (((n - 1) % 30) - s) % 30;
                assert((((n - 1) % 30) - s) % 30 == ((n - 1) - s) % 30) by {
                    lemma_small_mod(s as nat, 30);
                    lemma_sub_mod_noop(n - 1, s, 30);
                }
                assert(k == ((n - 1 - s) + 1) % 30);
                assert(k == (k0 + 1) % 30) by {
                    lemma_small_mod(1, 30);
                    lemma_add_mod_noop(n - 1 - s, 1, 30);
                }
                lemma_mod_bound(n - 1 - s, 30);
                if k0 == 29 {
                    assert(k == 0) by {
                        lemma_small_mod(0, 30);
                        lemma_mod_equivalence(30, 0, 30);
                    }
                    assert((n - s) % 30 == 0);
                    assert(s % 30 == n % 30) by {
                        lemma_mod_equivalence(n, s, 30);
                    }
                    assert(s == cri) by {
                        lemma_small_mod(s as nat, 30);
                    }
                } else {
                    assert(k == k0 + 1) by {
                        lemma_small_mod((k0 + 1) as nat, 30);
                    }
                    assert(t0.root_history[s] == slot_value(h, prev, s));
                    if k0 < n - 1 {
                        assert(slot_value(h, prev, s) == root_at(h, prev, (n - 1) - 1 - k0));
                        assert(root_at(h, prev, n - 2 - k0) == root_at(h, leaves, n - 1 - k));
                        assert(slot_value(h, leaves, s) == root_at(h, leaves, n - 1 - k));
                    } else {
                        assert(slot_value(h, prev, s) == zeros32());
                        assert(k >= n);
                        assert(slot_value(h, leaves, s) == zeros32());
                    }
                }
            }
        }
    }
}

/// How many of the most recent roots stay verifiable: all of them while
/// fewer than `ROOT_HISTORY_SIZE` inserts have happened, the last
/// `ROOT_HISTORY_SIZE` afterwards.
pub open spec fn window_size(n: int) -> int {
    if n < ROOT_HISTORY_SIZE {
        n
    } else {
        ROOT_HISTORY_SIZE as int
    }
}

/// After any sequence of deposits into an empty accumulator, a root is
/// known exactly when it is not the all-zero word and equals one of the
/// last `min(N, K)` roots produced. In particular the all-zero root is
/// never known, and a root displaced by more than `K` further deposits is
/// permanently unverifiable.
pub proof fn lemma_root_history_window<H: PairHash>(h: H, leaves: Seq<Seq<u8>>, root: Seq<u8>)
    ensures
        tree_known_root(tree_after(h, leaves), root) <==> (root != zeros32() && exists|j: int|
            (leaves.len() - window_size(leaves.len() as int) <= j < leaves.len()
                && #[trigger] root_at(h, leaves, j) == root)),
{
    lemma_history_slots(h, leaves);
    let n = leaves.len() as int;
    let t = tree_after(h, leaves);

    if tree_known_root(t, root) {
        let s = choose|s: int| 0 <= s < t.root_history.len() && t.root_history[s] == root;
        let k = ((n % 30) - s) % 30;
        lemma_mod_bound((n % 30) - s, 30);
        assert(t.root_history[s] == slot_value(h, leaves, s));
        assert(0 <= k < 30);
        assert(k < n);
        let j = n - 1 - k;
        assert(root_at(h, leaves, j) == root);
        assert(n - window_size(n) <= j < n);
    }
    if root != zeros32() && exists|j: int|
        (n - window_size(n) <= j < n && #[trigger] root_at(h, leaves, j) == root) {
        let j = choose|j: int| n - window_size(n) <= j < n && #[trigger] root_at(h, leaves, j)
            == root;
        let k = n - 1 - j;
        assert(0 <= k < 30);
        assert(k < n);
        let s = ((n % 30) - k) % 30;
        assert(s == (n - k) % 30) by {
            lemma_small_mod(k as nat, 30);
            lemma_sub_mod_noop(n, k, 30);
        }
        lemma_mod_bound((n % 30) - k, 30);
        assert(0 <= s < 30);
        assert(((n % 30) - s) % 30 == (n - s) % 30) by {
            lemma_small_mod(s as nat, 30);
            lemma_sub_mod_noop(n, s, 30);
        }
        assert((n - s) % 30 == k % 30) by {
            lemma_sub_mod_noop_right(n, n - k, 30);
        }
        assert(k % 30 == k) by {
            lemma_small_mod(k as nat, 30);
        }
        assert(slot_value(h, leaves, s) == root_at(h, leaves, j));
        assert(t.root_history[s] == root);
        assert(tree_known_root(t, root));
    }
}

/// An initially empty pool after a run of deposits, each of which was
/// accepted.
pub open spec fn pool_after_deposits<H: PairHash>(
    h: H,
    p: PoolModel,
    commitments: Seq<Seq<u8>>,
) -> PoolModel
    decreases commitments.len(),
{
    if commitments.len() == 0 {
        p
    } else {
        deposit_spec(h, pool_after_deposits(h, p, commitments.drop_last()), commitments.last()).0
    }
}

/// While a pool stays active and has leaf slots left, depositing builds
/// exactly the accumulator that inserting the same commitments into an
/// empty tree builds.
pub proof fn lemma_deposits_build_tree<H: PairHash>(
    h: H,
    p: PoolModel,
    prefix: Seq<Seq<u8>>,
    commitments: Seq<Seq<u8>>,
)
    requires
        p.is_active,
        p.tree == tree_after(h, prefix),
        prefix.len() + commitments.len() <= pow2(crate::merkle::MERKLE_TREE_DEPTH as nat),
    ensures
        pool_after_deposits(h, p, commitments).is_active,
        pool_after_deposits(h, p, commitments).tree == tree_after(h, prefix + commitments),
    decreases commitments.len(),
{
    if commitments.len() == 0 {
        assert(prefix + commitments =~= prefix);
    } else {
        let front = commitments.drop_last();
        lemma_deposits_build_tree(h, p, prefix, front);
        let q = pool_after_deposits(h, p, front);
        lemma_history_slots(h, prefix + front);
        assert(q.tree.next_index < pow2(crate::merkle::MERKLE_TREE_DEPTH as nat));
        assert((prefix + front).push(commitments.last()) =~= prefix + commitments);
        assert((prefix + commitments).drop_last() =~= prefix + front);
        assert((prefix + commitments).last() == commitments.last());
        assert(tree_after(h, prefix + commitments) == tree_insert(
            h,
            tree_after(h, prefix + front),
            commitments.last(),
        ));
    }
}

/// The root-history window, at the pool level: after any run of accepted
/// deposits into a freshly created pool, a root passes `isKnownRoot`
/// exactly when it is non-zero and among the last `min(N, K)` roots
/// produced.
pub proof fn lemma_pool_root_window<H: PairHash>(
    h: H,
    authority: Seq<u8>,
    denomination: u64,
    commitments: Seq<Seq<u8>>,
    root: Seq<u8>,
)
    requires
        commitments.len() <= pow2(crate::merkle::MERKLE_TREE_DEPTH as nat),
    ensures
        ({
            let p = pool_after_deposits(
                h,
                crate::pool::pool_new_model(h, authority, denomination),
                commitments,
            );
            tree_known_root(p.tree, root) <==> (root != zeros32() && exists|j: int|
                (commitments.len() - window_size(commitments.len() as int) <= j
                    < commitments.len() && #[trigger] root_at(h, commitments, j) == root))
        }),
{
    let p0 = crate::pool::pool_new_model(h, authority, denomination);
    assert(p0.tree == tree_after(h, Seq::<Seq<u8>>::empty()));
    lemma_deposits_build_tree(h, p0, Seq::empty(), commitments);
    assert(Seq::<Seq<u8>>::empty() + commitments =~= commitments);
    lemma_root_history_window(h, commitments, root);
}

/// A root the accumulator never produced — and the all-zero root — is not
/// known, so a withdrawal presenting it fails with `InvalidMerkleRoot` and
/// mutates nothing, whatever the proof.
pub proof fn lemma_unknown_root_rejected<H: PairHash, V: ProofVerifier>(
    h: H,
    v: V,
    leaves: Seq<Seq<u8>>,
    p: PoolModel,
    proof: ZKProof,
    root: Seq<u8>,
    nullifier_hash: Seq<u8>,
    recipient: Seq<u8>,
    relayer: Seq<u8>,
    fee: u64,
)
    requires
        p.tree == tree_after(h, leaves),
        forall|j: int| 0 <= j < leaves.len() ==> #[trigger] root_at(h, leaves, j) != root,
        p.is_active,
        !p.nullifier_hashes.contains(nullifier_hash),
    ensures
        withdraw_spec(v, p, proof, root, nullifier_hash, recipient, relayer, fee).1 == Err::<
            WithdrawReceipt,
            VeloError,
        >(VeloError::InvalidMerkleRoot),
        withdraw_spec(v, p, proof, root, nullifier_hash, recipient, relayer, fee).0 == p,
{
    lemma_root_history_window(h, leaves, root);
}

/// A nullifier hash already registered makes any further withdrawal with
/// that hash fail with `NullifierAlreadyUsed` and mutate nothing —
/// regardless of proof validity, root, recipient or fee.
pub proof fn lemma_spent_nullifier_rejected<V: ProofVerifier>(
    v: V,
    p: PoolModel,
    proof: ZKProof,
    root: Seq<u8>,
    nullifier_hash: Seq<u8>,
    recipient: Seq<u8>,
    relayer: Seq<u8>,
    fee: u64,
)
    requires
        p.is_active,
        p.nullifier_hashes.contains(nullifier_hash),
    ensures
        withdraw_spec(v, p, proof, root, nullifier_hash, recipient, relayer, fee).1 == Err::<
            WithdrawReceipt,
            VeloError,
        >(VeloError::NullifierAlreadyUsed),
        withdraw_spec(v, p, proof, root, nullifier_hash, recipient, relayer, fee).0 == p,
{
}

/// The same holds on the relayed path: past its relayer checks, a relayed
/// withdrawal with a registered nullifier hash fails with
/// `NullifierAlreadyUsed` and mutates nothing, regardless of proof
/// validity.
pub proof fn lemma_spent_nullifier_rejected_relayed<V: ProofVerifier>(
    v: V,
    p: PoolModel,
    r: RelayerModel,
    caller: Seq<u8>,
    proof: ZKProof,
    root: Seq<u8>,
    nullifier_hash: Seq<u8>,
    recipient: Seq<u8>,
    fee: u64,
)
    requires
        r.is_active,
        r.relayer == caller,
        fee <= p.denomination / 100,
        p.is_active,
        p.nullifier_hashes.contains(nullifier_hash),
    ensures
        relayer_withdraw_spec(v, p, r, caller, proof, root, nullifier_hash, recipient, fee).1
            == Err::<WithdrawReceipt, VeloError>(VeloError::NullifierAlreadyUsed),
        relayer_withdraw_spec(v, p, r, caller, proof, root, nullifier_hash, recipient, fee).0 == p,
{
}

/// A successful withdrawal registers its nullifier hash.
pub proof fn lemma_withdraw_registers_nullifier<V: ProofVerifier>(
    v: V,
    p: PoolModel,
    proof: ZKProof,
    root: Seq<u8>,
    nullifier_hash: Seq<u8>,
    recipient: Seq<u8>,
    relayer: Seq<u8>,
    fee: u64,
)
    requires
        (withdraw_spec(v, p, proof, root, nullifier_hash, recipient, relayer, fee).1 is Ok),
    ensures
        withdraw_spec(
            v,
            p,
            proof,
            root,
            nullifier_hash,
            recipient,
            relayer,
            fee,
        ).0.nullifier_hashes.contains(nullifier_hash),
{
    let p1 = withdraw_spec(v, p, proof, root, nullifier_hash, recipient, relayer, fee).0;
    assert(p1.nullifier_hashes == p.nullifier_hashes.push(nullifier_hash));
    assert(p1.nullifier_hashes[p.nullifier_hashes.len() as int] == nullifier_hash);
}

/// One pool operation, for stating laws over arbitrary operation sequences.
pub ghost enum PoolOp {
    /// A deposit of a commitment.
    Deposit { commitment: Seq<u8> },
    /// A direct withdrawal.
    Withdraw {
        proof: ZKProof,
        root: Seq<u8>,
        nullifier_hash: Seq<u8>,
        recipient: Seq<u8>,
        relayer: Seq<u8>,
        fee: u64,
    },
    /// A relayed withdrawal.
    RelayerWithdraw {
        relayer: RelayerModel,
        caller: Seq<u8>,
        proof: ZKProof,
        root: Seq<u8>,
        nullifier_hash: Seq<u8>,
        recipient: Seq<u8>,
        fee: u64,
    },
    /// The authority toggling the active flag.
    SetPoolStatus { is_active: bool },
}

/// The pool state one operation later.
pub open spec fn pool_step<H: PairHash, V: ProofVerifier>(
    h: H,
    v: V,
    p: PoolModel,
    op: PoolOp,
) -> PoolModel {
    match op {
        PoolOp::Deposit { commitment } => deposit_spec(h, p, commitment).0,
        PoolOp::Withdraw { proof, root, nullifier_hash, recipient, relayer, fee } => withdraw_spec(
            v,
            p,
            proof,
            root,
            nullifier_hash,
            recipient,
            relayer,
            fee,
        ).0,
        PoolOp::RelayerWithdraw {
            relayer,
            caller,
            proof,
            root,
            nullifier_hash,
            recipient,
            fee,
        } => relayer_withdraw_spec(
            v,
            p,
            relayer,
            caller,
            proof,
            root,
            nullifier_hash,
            recipient,
            fee,
        ).0,
        PoolOp::SetPoolStatus { is_active } => PoolModel { is_active, ..p },
    }
}

/// The pool state after a whole sequence of operations.
pub open spec fn pool_after_ops<H: PairHash, V: ProofVerifier>(
    h: H,
    v: V,
    p: PoolModel,
    ops: Seq<PoolOp>,
) -> PoolModel
    decreases ops.len(),
{
    if ops.len() == 0 {
        p
    } else {
        pool_step(h, v, pool_after_ops(h, v, p, ops.drop_last()), ops.last())
    }
}

/// No pool operation ever removes a nullifier: once registered, a hash is
/// registered in every later state.
pub proof fn lemma_nullifier_persists<H: PairHash, V: ProofVerifier>(
    h: H,
    v: V,
    p: PoolModel,
    ops: Seq<PoolOp>,
    nullifier_hash: Seq<u8>,
)
    requires
        p.nullifier_hashes.contains(nullifier_hash),
    ensures
        pool_after_ops(h, v, p, ops).nullifier_hashes.contains(nullifier_hash),
    decreases ops.len(),
{
    if ops.len() > 0 {
        lemma_nullifier_persists(h, v, p, ops.drop_last(), nullifier_hash);
        let q = pool_after_ops(h, v, p, ops.drop_last());
        let q1 = pool_step(h, v, q, ops.last());
        let i = choose|i: int| 0 <= i < q.nullifier_hashes.len() && q.nullifier_hashes[i]
            == nullifier_hash;
        assert(q1.nullifier_hashes.len() >= q.nullifier_hashes.len());
        assert(q1.nullifier_hashes[i] == nullifier_hash);
    }
}

/// A nullifier hash accepted once is spent forever: after any further
/// sequence of operations, a withdrawal — direct, or relayed past its
/// relayer checks — using the same hash fails with `NullifierAlreadyUsed`
/// while the pool is active, and in no case succeeds; all regardless of
/// proof validity.
pub proof fn lemma_nullifier_single_spend<H: PairHash, V: ProofVerifier>(
    h: H,
    v: V,
    p: PoolModel,
    first_proof: ZKProof,
    first_root: Seq<u8>,
    nullifier_hash: Seq<u8>,
    first_recipient: Seq<u8>,
    first_relayer: Seq<u8>,
    first_fee: u64,
    ops: Seq<PoolOp>,
    proof: ZKProof,
    root: Seq<u8>,
    recipient: Seq<u8>,
    relayer: Seq<u8>,
    fee: u64,
)
    requires
        (withdraw_spec(
            v,
            p,
            first_proof,
            first_root,
            nullifier_hash,
            first_recipient,
            first_relayer,
            first_fee,
        ).1 is Ok),
    ensures
        ({
            let later = pool_after_ops(
                h,
                v,
                withdraw_spec(
                    v,
                    p,
                    first_proof,
                    first_root,
                    nullifier_hash,
                    first_recipient,
                    first_relayer,
                    first_fee,
                ).0,
                ops,
            );
            &&& !(withdraw_spec(v, later, proof, root, nullifier_hash, recipient, relayer, fee).1
                is Ok)
            &&& later.is_active ==> withdraw_spec(
                v,
                later,
                proof,
                root,
                nullifier_hash,
                recipient,
                relayer,
                fee,
            ).1 == Err::<WithdrawReceipt, VeloError>(VeloError::NullifierAlreadyUsed)
        }),
{
    lemma_withdraw_registers_nullifier(
        v,
        p,
        first_proof,
        first_root,
        nullifier_hash,
        first_recipient,
        first_relayer,
        first_fee,
    );
    let p1 = withdraw_spec(
        v,
        p,
        first_proof,
        first_root,
        nullifier_hash,
        first_recipient,
        first_relayer,
        first_fee,
    ).0;
    lemma_nullifier_persists(h, v, p1, ops, nullifier_hash);
}

/// Malleability defense: whenever the verifier's acceptance relation does
/// not hold of the public inputs as supplied — say the payout address or
/// the fee differs from what the prover committed to — the withdrawal ends
/// in `InvalidProof` with no state change, even though the root is known
/// and the nullifier fresh.
pub proof fn lemma_proof_binding<V: ProofVerifier>(
    v: V,
    p: PoolModel,
    proof: ZKProof,
    root: Seq<u8>,
    nullifier_hash: Seq<u8>,
    recipient: Seq<u8>,
    relayer: Seq<u8>,
    fee: u64,
)
    requires
        !v.verify_spec(proof, root, nullifier_hash, recipient, relayer, fee),
        p.is_active,
        !p.nullifier_hashes.contains(nullifier_hash),
        tree_known_root(p.tree, root),
    ensures
        withdraw_spec(v, p, proof, root, nullifier_hash, recipient, relayer, fee).1 == Err::<
            WithdrawReceipt,
            VeloError,
        >(VeloError::InvalidProof),
        withdraw_spec(v, p, proof, root, nullifier_hash, recipient, relayer, fee).0 == p,
{
}

/// A relayed withdrawal whose fee exceeds one percent of the denomination
/// fails with `FeeTooHigh` and mutates nothing, whenever it gets past the
/// relayer identity checks.
pub proof fn lemma_relay_fee_cap<V: ProofVerifier>(
    v: V,
    p: PoolModel,
    r: RelayerModel,
    caller: Seq<u8>,
    proof: ZKProof,
    root: Seq<u8>,
    nullifier_hash: Seq<u8>,
    recipient: Seq<u8>,
    fee: u64,
)
    requires
        r.is_active,
        r.relayer == caller,
        fee > p.denomination / 100,
    ensures
        relayer_withdraw_spec(v, p, r, caller, proof, root, nullifier_hash, recipient, fee).1
            == Err::<WithdrawReceipt, VeloError>(VeloError::FeeTooHigh),
        relayer_withdraw_spec(v, p, r, caller, proof, root, nullifier_hash, recipient, fee).0 == p,
{
}

/// A relayed withdrawal through an unregistered or deactivated relayer
/// fails with `RelayerNotActive` and mutates nothing, whatever the rest of
/// the request.
pub proof fn lemma_relay_requires_active_relayer<V: ProofVerifier>(
    v: V,
    p: PoolModel,
    r: RelayerModel,
    caller: Seq<u8>,
    proof: ZKProof,
    root: Seq<u8>,
    nullifier_hash: Seq<u8>,
    recipient: Seq<u8>,
    fee: u64,
)
    requires
        !r.is_active,
    ensures
        relayer_withdraw_spec(v, p, r, caller, proof, root, nullifier_hash, recipient, fee).1
            == Err::<WithdrawReceipt, VeloError>(VeloError::RelayerNotActive),
        relayer_withdraw_spec(v, p, r, caller, proof, root, nullifier_hash, recipient, fee).0 == p,
{
}

/// A stealth announcement is claimed at most once: after one claim
/// succeeds, every further attempt fails with `AlreadyClaimed` and mutates
/// nothing, regardless of proof validity.
pub proof fn lemma_claim_at_most_once(
    a: StealthAnnouncement,
    first_claimer: Seq<u8>,
    first_proof: Seq<u8>,
    claimer: Seq<u8>,
    proof: Seq<u8>,
)
    requires
        (claim_stealth_funds_spec(a, first_claimer, first_proof).1 is Ok),
    ensures
        claim_stealth_funds_spec(
            claim_stealth_funds_spec(a, first_claimer, first_proof).0,
            claimer,
            proof,
        ).1 == Err::<u64, VeloError>(VeloError::AlreadyClaimed),
        claim_stealth_funds_spec(
            claim_stealth_funds_spec(a, first_claimer, first_proof).0,
            claimer,
            proof,
        ).0 == claim_stealth_funds_spec(a, first_claimer, first_proof).0,
{
}

/// The pool-variant stealth payment is likewise claimed at most once.
pub proof fn lemma_pool_claim_at_most_once(payment: StealthPayment)
    requires
        (claim_stealth_spec(payment).1 is Ok),
    ensures
        claim_stealth_spec(claim_stealth_spec(payment).0).1 == Err::<u64, VeloError>(
            VeloError::AlreadyClaimed,
        ),
        claim_stealth_spec(claim_stealth_spec(payment).0).0 == claim_stealth_spec(payment).0,
{
}

/// A shuffle never mints or burns: across accept and reject alike, the net
/// value over the main vault and all decoy vaults is unchanged.
pub proof fn lemma_shuffle_conserves_value(
    c: DecoyModel,
    p: PoolModel,
    decoy_index: u8,
    amount: u64,
    direction: bool,
    current_slot: u64,
)
    requires
        c.decoy_balances.len() == c.num_decoy_vaults,
    ensures
        ({
            let after = shuffle_spec(c, p, decoy_index, amount, direction, current_slot);
            after.1.vault_balance + total_balance(after.0.decoy_balances) == p.vault_balance
                + total_balance(c.decoy_balances)
        }),
{
    let after = shuffle_spec(c, p, decoy_index, amount, direction, current_slot);
    if after.2 is Ok {
        let i = decoy_index as int;
        if direction {
            lemma_total_balance_update(
                c.decoy_balances,
                i,
                (c.decoy_balances[i] + amount) as nat,
            );
        } else {
            lemma_total_balance_update(
                c.decoy_balances,
                i,
                (c.decoy_balances[i] - amount) as nat,
            );
        }
    }
}

/// Shuffles are rate limited: after one succeeds at some height, a second
/// attempt within two heights fails with `ShuffleRateLimited` and mutates
/// nothing, even though the system is enabled and the index valid.
pub proof fn lemma_shuffle_rate_limited(
    c: DecoyModel,
    p: PoolModel,
    first_index: u8,
    first_amount: u64,
    first_direction: bool,
    first_slot: u64,
    decoy_index: u8,
    amount: u64,
    direction: bool,
    current_slot: u64,
)
    requires
        (shuffle_spec(c, p, first_index, first_amount, first_direction, first_slot).2 is Ok),
        current_slot <= first_slot + 2,
    ensures
        ({
            let after = shuffle_spec(c, p, first_index, first_amount, first_direction, first_slot);
            let again = shuffle_spec(
                after.0,
                after.1,
                decoy_index,
                amount,
                direction,
                current_slot,
            );
            ((decoy_index as nat) < after.0.num_decoy_vaults) ==> {
                &&& again.2 == Err::<(), VeloError>(VeloError::ShuffleRateLimited)
                &&& again.0 == after.0
                &&& again.1 == after.1
            }
        }),
{
}

} // verus!
