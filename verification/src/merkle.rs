//! The commitment accumulator: a fixed-depth incremental Merkle tree plus a
//! bounded ring buffer of historical roots.
//!
//! Only one authenticated path of per-level state is kept (`filled_subtrees`),
//! so an insert costs one stored node and one hash per level; the price is
//! that the tree cannot produce Merkle proofs itself — those are supplied
//! externally by depositors and withdrawers. Roots older than the last
//! `ROOT_HISTORY_SIZE` inserts become permanently unverifiable, so
//! withdrawals must be submitted promptly relative to deposit velocity.

use vstd::prelude::*;
use vstd::arithmetic::power2::{pow2, lemma_pow2_adds, lemma_pow2_pos, lemma2_to64};
use vstd::arithmetic::div_mod::lemma_div_denominator;

use crate::bytes32_eq;
use crate::bytes32_is_zero;
use crate::errors::VeloError;
use crate::hashes::PairHash;
use crate::zeros32;

verus! {

/// Tree depth: the accumulator holds up to `2^MERKLE_TREE_DEPTH` leaves.
pub const MERKLE_TREE_DEPTH: usize = 20;

/// How many historical roots stay verifiable.
pub const ROOT_HISTORY_SIZE: usize = 30;

/// The mathematical state of the accumulator.
#[verifier::ext_equal]
pub ghost struct TreeModel {
    /// The next free leaf slot; grows by one per insert.
    pub next_index: nat,
    /// The ring-buffer cursor of the most recent root.
    pub current_root_index: nat,
    /// The ring buffer of the last `ROOT_HISTORY_SIZE` roots.
    pub root_history: Seq<Seq<u8>>,
    /// The most recently finalized left sibling at each level.
    pub filled_subtrees: Seq<Seq<u8>>,
    /// The hash of an all-empty subtree at each level.
    pub zeros: Seq<Seq<u8>>,
}

/// The hash of an empty subtree of the given height, under hasher `h`:
/// an empty leaf is all zero, and an empty node is the hash of two empty
/// children.
pub open spec fn zero_at<H: PairHash>(h: H, level: nat) -> Seq<u8>
    decreases level,
{
    if level == 0 {
        zeros32()
    } else {
        h.spec_hash(zero_at(h, (level - 1) as nat), zero_at(h, (level - 1) as nat))
    }
}

/// The node on the authenticated path of leaf `index`, `level` levels above
/// the leaf, after inserting `leaf` into a tree with the given per-level
/// state. At each level the current node is combined with the empty subtree
/// on its right if its position is even, or with the stored left sibling if
/// odd.
pub open spec fn path_node<H: PairHash>(
    h: H,
    leaf: Seq<u8>,
    index: nat,
    filled: Seq<Seq<u8>>,
    zeros: Seq<Seq<u8>>,
    level: nat,
) -> Seq<u8>
    decreases level,
{
    if level == 0 {
        leaf
    } else {
        let below = path_node(h, leaf, index, filled, zeros, (level - 1) as nat);
        if (index / pow2((level - 1) as nat)) % 2 == 0 {
            h.spec_hash(below, zeros[level - 1])
        } else {
            h.spec_hash(filled[level - 1], below)
        }
    }
}

/// The root produced by inserting `leaf` at `t.next_index`.
pub open spec fn tree_insert_root<H: PairHash>(h: H, t: TreeModel, leaf: Seq<u8>) -> Seq<u8> {
    path_node(h, leaf, t.next_index, t.filled_subtrees, t.zeros, MERKLE_TREE_DEPTH as nat)
}

/// The per-level state after inserting `leaf` at `index`: wherever the path
/// node's position at a level is even, it becomes the stored left sibling of
/// that level.
pub open spec fn filled_after<H: PairHash>(
    h: H,
    leaf: Seq<u8>,
    index: nat,
    filled: Seq<Seq<u8>>,
    zeros: Seq<Seq<u8>>,
) -> Seq<Seq<u8>> {
    Seq::new(
        filled.len(),
        |i: int|
            if 0 <= i < MERKLE_TREE_DEPTH && (index / pow2(i as nat)) % 2 == 0 {
                path_node(h, leaf, index, filled, zeros, i as nat)
            } else {
                filled[i]
            },
    )
}

/// The accumulator state after inserting `leaf`: the new root overwrites the
/// oldest slot of the ring buffer and the cursor advances to it.
pub open spec fn tree_insert<H: PairHash>(h: H, t: TreeModel, leaf: Seq<u8>) -> TreeModel {
    let cri = (t.current_root_index + 1) % (ROOT_HISTORY_SIZE as nat);
    TreeModel {
        next_index: t.next_index + 1,
        current_root_index: cri,
        root_history: t.root_history.update(cri as int, tree_insert_root(h, t, leaf)),
        filled_subtrees: filled_after(h, leaf, t.next_index, t.filled_subtrees, t.zeros),
        zeros: t.zeros,
    }
}

/// The state of a freshly created accumulator.
pub open spec fn tree_new_model<H: PairHash>(h: H) -> TreeModel {
    TreeModel {
        next_index: 0,
        current_root_index: 0,
        root_history: Seq::new(ROOT_HISTORY_SIZE as nat, |i: int| zeros32()),
        filled_subtrees: Seq::new((MERKLE_TREE_DEPTH + 1) as nat, |i: int| zero_at(h, i as nat)),
        zeros: Seq::new((MERKLE_TREE_DEPTH + 1) as nat, |i: int| zero_at(h, i as nat)),
    }
}

/// Whether `root` is accepted as known: the all-zero root is never known,
/// even while uninitialized buffer slots still hold it; any other value is
/// known iff it appears somewhere in the ring buffer.
pub open spec fn tree_known_root(t: TreeModel, root: Seq<u8>) -> bool {
    &&& root != zeros32()
    &&& exists|i: int| 0 <= i < t.root_history.len() && t.root_history[i] == root
}

/// The incremental Merkle tree held by a pool.
pub struct MerkleTree {
    /// Tree depth; always `MERKLE_TREE_DEPTH`.
    pub levels: u8,
    /// The next free leaf slot.
    pub next_index: u64,
    /// Ring buffer of the last `ROOT_HISTORY_SIZE` roots.
    pub root_history: Vec<[u8; 32]>,
    /// Cursor of the most recent root in `root_history`.
    pub current_root_index: u8,
    /// The most recently finalized left sibling at each level.
    pub filled_subtrees: Vec<[u8; 32]>,
    /// The empty-subtree hash at each level, precomputed at creation.
    pub zeros: Vec<[u8; 32]>,
}

impl View for MerkleTree {
    type V = TreeModel;

    open spec fn view(&self) -> TreeModel {
        TreeModel {
            next_index: self.next_index as nat,
            current_root_index: self.current_root_index as nat,
            root_history: self.root_history@.map_values(|w: [u8; 32]| w@),
            filled_subtrees: self.filled_subtrees@.map_values(|w: [u8; 32]| w@),
            zeros: self.zeros@.map_values(|w: [u8; 32]| w@),
        }
    }
}

impl MerkleTree {
    /// Structural well-formedness: field lengths, cursor range, and the
    /// leaf-count cap.
    pub open spec fn wf(&self) -> bool {
        &&& self.levels == MERKLE_TREE_DEPTH
        &&& self.root_history@.len() == ROOT_HISTORY_SIZE
        &&& self.filled_subtrees@.len() == MERKLE_TREE_DEPTH + 1
        &&& self.zeros@.len() == MERKLE_TREE_DEPTH + 1
        &&& (self.current_root_index as int) < ROOT_HISTORY_SIZE
        &&& self.next_index as nat <= pow2(MERKLE_TREE_DEPTH as nat)
    }

    /// The precomputed empty-subtree hashes agree with hasher `h`.
    pub open spec fn zeros_ok<H: PairHash>(&self, h: H) -> bool {
        forall|i: int|
            0 <= i <= MERKLE_TREE_DEPTH ==> self@.zeros[i] == zero_at(h, i as nat)
    }

    /// Creates an empty accumulator under hasher `h`, precomputing the
    /// empty-subtree hash of every level.
    pub fn new<H: PairHash>(h: &H) -> (t: MerkleTree)
        ensures
            t.wf(),
            t.zeros_ok(*h),
            t@ == tree_new_model(*h),
    {
        let mut zeros: Vec<[u8; 32]> = Vec::new();
        let mut current_zero: [u8; 32] = [0u8; 32];
        proof {
            assert(current_zero@ =~= zeros32());
        }
        let mut i: usize = 0;
        while i < MERKLE_TREE_DEPTH + 1
            invariant
                i <= MERKLE_TREE_DEPTH + 1,
                zeros@.len() == i,
                current_zero@ == zero_at(*h, i as nat),
                forall|j: int| 0 <= j < i ==> zeros@[j]@ == zero_at(*h, j as nat),
            decreases MERKLE_TREE_DEPTH + 1 - i,
        {
            zeros.push(current_zero);
            current_zero = h.hash(&current_zero, &current_zero);
            i += 1;
        }

        let mut root_history: Vec<[u8; 32]> = Vec::new();
        let mut k: usize = 0;
        while k < ROOT_HISTORY_SIZE
            invariant
                k <= ROOT_HISTORY_SIZE,
                root_history@.len() == k,
                forall|j: int| 0 <= j < k ==> root_history@[j]@ == zeros32(),
            decreases ROOT_HISTORY_SIZE - k,
        {
            let zero_root: [u8; 32] = [0u8; 32];
            proof {
                assert(zero_root@ =~= zeros32());
            }
            root_history.push(zero_root);
            k += 1;
        }

        let mut filled_subtrees: Vec<[u8; 32]> = Vec::new();
        let mut f: usize = 0;
        while f < MERKLE_TREE_DEPTH + 1
            invariant
                f <= MERKLE_TREE_DEPTH + 1,
                filled_subtrees@.len() == f,
                zeros@.len() == MERKLE_TREE_DEPTH + 1,
                forall|j: int| 0 <= j < MERKLE_TREE_DEPTH + 1 ==> zeros@[j]@ == zero_at(*h, j as nat),
                forall|j: int| 0 <= j < f ==> filled_subtrees@[j]@ == zero_at(*h, j as nat),
            decreases MERKLE_TREE_DEPTH + 1 - f,
        {
            filled_subtrees.push(zeros[f]);
            f += 1;
        }

        let t = MerkleTree {
            levels: MERKLE_TREE_DEPTH as u8,
            next_index: 0,
            root_history,
            current_root_index: 0,
            filled_subtrees,
            zeros,
        };
        proof {
            assert(t@.root_history =~= tree_new_model(*h).root_history);
            assert(t@.filled_subtrees =~= tree_new_model(*h).filled_subtrees);
            assert(t@.zeros =~= tree_new_model(*h).zeros);
            assert(t@ =~= tree_new_model(*h));
        }
        t
    }

    /// Inserts a commitment as the next leaf and records the new root in the
    /// ring buffer. Fails with `TreeFull`, mutating nothing, exactly when all
    /// `2^MERKLE_TREE_DEPTH` leaf slots are taken.
    pub fn insert<H: PairHash>(&mut self, h: &H, leaf: [u8; 32]) -> (result: Result<
        u64,
        VeloError,
    >)
        requires
            old(self).wf(),
        ensures
            final(self).wf(),
            old(self)@.next_index < pow2(MERKLE_TREE_DEPTH as nat) ==> {
                &&& result == Ok::<u64, VeloError>(old(self).next_index)
                &&& final(self)@ == tree_insert(*h, old(self)@, leaf@)
            },
            old(self)@.next_index >= pow2(MERKLE_TREE_DEPTH as nat) ==> {
                &&& result == Err::<u64, VeloError>(VeloError::TreeFull)
                &&& *final(self) == *old(self)
            },
    {
        proof {
            lemma2_to64();
        }
        if self.next_index >= 1048576 {
            return Err(VeloError::TreeFull);
        }

        let index = self.next_index;
        let mut current_index: u64 = index;
        let mut current_hash: [u8; 32] = leaf;
        let ghost t0 = self@;

        proof {
            assert(current_index as nat == t0.next_index / pow2(0)) by {
                lemma2_to64();
            }
        }

        let mut i: usize = 0;
        while i < MERKLE_TREE_DEPTH
            invariant
                i <= MERKLE_TREE_DEPTH,
                self.levels == old(self).levels,
                self.next_index == old(self).next_index,
                self.current_root_index == old(self).current_root_index,
                self.root_history@ == old(self).root_history@,
                self.zeros@ == old(self).zeros@,
                self.filled_subtrees@.len() == MERKLE_TREE_DEPTH + 1,
                self.zeros@.len() == MERKLE_TREE_DEPTH + 1,
                t0 == old(self)@,
                current_index as nat == t0.next_index / pow2(i as nat),
                current_hash@ == path_node(*h, leaf@, t0.next_index, t0.filled_subtrees, t0.zeros, i as nat),
                forall|j: int|
                    0 <= j < MERKLE_TREE_DEPTH + 1 ==> self@.filled_subtrees[j] == (
                    if j < i && (t0.next_index / pow2(j as nat)) % 2 == 0 {
                        path_node(*h, leaf@, t0.next_index, t0.filled_subtrees, t0.zeros, j as nat)
                    } else {
                        t0.filled_subtrees[j]
                    }),
            decreases MERKLE_TREE_DEPTH - i,
        {
            let ghost i0 = i as nat;
            let ghost prev_hash = current_hash@;
            let ghost prev_filled = self@.filled_subtrees;
            let even = current_index % 2 == 0;
            if even {
                self.filled_subtrees[i] = current_hash;
                current_hash = h.hash(&current_hash, &self.zeros[i]);
            } else {
                let sibling: [u8; 32] = self.filled_subtrees[i];
                current_hash = h.hash(&sibling, &current_hash);
            }
            current_index = current_index / 2;
            i += 1;
            proof {
                lemma_pow2_pos(i0);
                lemma_div_denominator(t0.next_index as int, pow2(i0) as int, 2);
                lemma_pow2_adds(i0, 1);
                lemma2_to64();
                assert(pow2(i0) * 2 == pow2(i as nat));
                assert(current_index as nat == t0.next_index / pow2(i as nat));
                assert(even == ((t0.next_index / pow2(i0)) % 2 == 0));
                assert(prev_hash == path_node(*h, leaf@, t0.next_index, t0.filled_subtrees, t0.zeros, i0));
                assert(path_node(*h, leaf@, t0.next_index, t0.filled_subtrees, t0.zeros, i as nat)
                    == if (t0.next_index / pow2(i0)) % 2 == 0 {
                        h.spec_hash(prev_hash, t0.zeros[i0 as int])
                    } else {
                        h.spec_hash(t0.filled_subtrees[i0 as int], prev_hash)
                    });
                if even {
                    assert(self@.zeros[i0 as int] == t0.zeros[i0 as int]);
                    assert(current_hash@ == h.spec_hash(prev_hash, t0.zeros[i0 as int]));
                } else {
                    assert(prev_filled[i0 as int] == t0.filled_subtrees[i0 as int]);
                    assert(current_hash@ == h.spec_hash(t0.filled_subtrees[i0 as int], prev_hash));
                }
                assert(current_hash@ == path_node(*h, leaf@, t0.next_index, t0.filled_subtrees, t0.zeros, i as nat));
                assert forall|j: int| 0 <= j < MERKLE_TREE_DEPTH + 1 implies self@.filled_subtrees[j]
                    == (if j < i && (t0.next_index / pow2(j as nat)) % 2 == 0 {
                        path_node(*h, leaf@, t0.next_index, t0.filled_subtrees, t0.zeros, j as nat)
                    } else {
                        t0.filled_subtrees[j]
                    }) by {
                    if j == i0 as int {
                        if even {
                            assert(self@.filled_subtrees[j] == prev_hash);
                        } else {
                            assert(self@.filled_subtrees[j] == prev_filled[j]);
                        }
                    } else {
                        assert(self@.filled_subtrees[j] == prev_filled[j]);
                    }
                }
            }
        }

        let ghost new_filled = filled_after(*h, leaf@, t0.next_index, t0.filled_subtrees, t0.zeros);
        proof {
            assert(current_hash@ == tree_insert_root(*h, t0, leaf@));
            assert forall|j: int| 0 <= j < MERKLE_TREE_DEPTH + 1 implies self@.filled_subtrees[j]
                == new_filled[j] by {}
            assert(self@.filled_subtrees =~= new_filled);
            assert(self@.zeros == t0.zeros);
        }

        let new_root_index: usize = (self.current_root_index as usize + 1) % ROOT_HISTORY_SIZE;
        self.current_root_index = new_root_index as u8;
        self.root_history[new_root_index] = current_hash;
        self.next_index = self.next_index + 1;

        proof {
            let t1 = tree_insert(*h, t0, leaf@);
            assert(self@.filled_subtrees == new_filled);
            assert(new_root_index as nat == t1.current_root_index);
            assert forall|j: int| 0 <= j < ROOT_HISTORY_SIZE implies self@.root_history[j]
                == t1.root_history[j] by {}
            assert(self@.root_history =~= t1.root_history);
            assert(self@ =~= t1);
        }
        Ok(index)
    }

    /// Whether `root` may gate a withdrawal: true iff it is not the all-zero
    /// root and appears somewhere in the ring buffer of recent roots.
    pub fn is_known_root(&self, root: &[u8; 32]) -> (r: bool)
        requires
            self.wf(),
        ensures
            r == tree_known_root(self@, root@),
    {
        if bytes32_is_zero(root) {
            return false;
        }
        let mut i: usize = 0;
        while i < ROOT_HISTORY_SIZE
            invariant
                i <= ROOT_HISTORY_SIZE,
                self.root_history@.len() == ROOT_HISTORY_SIZE,
                root@ != zeros32(),
                forall|j: int| 0 <= j < i ==> self@.root_history[j] != root@,
            decreases ROOT_HISTORY_SIZE - i,
        {
            if bytes32_eq(&self.root_history[i], root) {
                proof {
                    assert(self@.root_history[i as int] == root@);
                    assert(self@.root_history.len() == ROOT_HISTORY_SIZE);
                    assert(tree_known_root(self@, root@));
                }
                return true;
            }
            i += 1;
        }
        false
    }

    /// The most recently recorded root.
    pub fn get_current_root(&self) -> (r: [u8; 32])
        requires
            self.wf(),
        ensures
            r@ == self@.root_history[self@.current_root_index as int],
    {
        self.root_history[self.current_root_index as usize]
    }
}

} // verus!
