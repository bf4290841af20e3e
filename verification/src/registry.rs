//! The nullifier registry: the set of nullifier hashes revealed by past
//! withdrawals, insertion-ordered and unique.
//!
//! This is the sole double-spend defense: once a hash is added, every later
//! attempt to add it fails, whatever proof accompanies it. A nullifier hash
//! is opaque to the accumulator — the registry has no relation to the tree.

use vstd::prelude::*;

use crate::bytes32_eq;
use crate::errors::VeloError;

verus! {

/// The growable set of previously used nullifier hashes.
pub struct NullifierSet {
    /// The hashes, in insertion order.
    pub nullifiers: Vec<[u8; 32]>,
}

impl View for NullifierSet {
    type V = Seq<Seq<u8>>;

    open spec fn view(&self) -> Seq<Seq<u8>> {
        self.nullifiers@.map_values(|w: [u8; 32]| w@)
    }
}

impl NullifierSet {
    /// No hash appears twice.
    pub open spec fn wf(&self) -> bool {
        forall|i: int, j: int| 0 <= i < j < self@.len() ==> self@[i] != self@[j]
    }

    /// An empty registry.
    pub fn new() -> (s: NullifierSet)
        ensures
            s.wf(),
            s@ == Seq::<Seq<u8>>::empty(),
    {
        let s = NullifierSet { nullifiers: Vec::new() };
        proof {
            assert(s@ =~= Seq::<Seq<u8>>::empty());
        }
        s
    }

    /// How many nullifiers have been registered.
    pub fn len(&self) -> (n: usize)
        ensures
            n == self@.len(),
    {
        self.nullifiers.len()
    }

    /// Whether `nullifier` has been registered before.
    pub fn contains(&self, nullifier: &[u8; 32]) -> (r: bool)
        ensures
            r == self@.contains(nullifier@),
    {
        let mut i: usize = 0;
        while i < self.nullifiers.len()
            invariant
                i <= self.nullifiers@.len(),
                forall|j: int| 0 <= j < i ==> self@[j] != nullifier@,
            decreases self.nullifiers@.len() - i,
        {
            if bytes32_eq(&self.nullifiers[i], nullifier) {
                proof {
                    assert(self@[i as int] == nullifier@);
                }
                return true;
            }
            i += 1;
        }
        false
    }

    /// Registers `nullifier` if it was never registered before; fails with
    /// `NullifierAlreadyUsed`, mutating nothing, iff it was.
    pub fn add(&mut self, nullifier: [u8; 32]) -> (result: Result<(), VeloError>)
        requires
            old(self).wf(),
        ensures
            final(self).wf(),
            old(self)@.contains(nullifier@) ==> {
                &&& result == Err::<(), VeloError>(VeloError::NullifierAlreadyUsed)
                &&& *final(self) == *old(self)
            },
            !old(self)@.contains(nullifier@) ==> {
                &&& result == Ok::<(), VeloError>(())
                &&& final(self)@ == old(self)@.push(nullifier@)
            },
    {
        if self.contains(&nullifier) {
            return Err(VeloError::NullifierAlreadyUsed);
        }
        self.nullifiers.push(nullifier);
        proof {
            assert(self@ =~= old(self)@.push(nullifier@));
        }
        Ok(())
    }
}

} // verus!
