//! The commitment accumulator: an append-only, order-preserving log of
//! 32-byte deposit commitments together with a succinct root that summarizes
//! the whole history. The root is a deterministic, order-dependent function
//! of the commitment sequence, recomputed incrementally in constant work per
//! admission; proofs reference it through the withdrawal public inputs.
//! Commitments are never deleted: the full history stays queryable so that
//! depositors can build membership proofs.

use vstd::prelude::*;
use crate::errors::PrivaxError;

verus! {

/// Root of the empty accumulator.
pub const ROOT_SEED: u64 = 0xcbf2_9ce4_8422_2325;

/// Multiplier of the byte-folding step that absorbs a commitment into the
/// root.
pub const ROOT_PRIME: u64 = 0x100_0000_01b3;

/// One folding step: absorb one byte into the running root.
pub open spec fn mix_byte(acc: u64, b: u8) -> u64 {
    vstd::wrapping::u64_specs::wrapping_add(
        vstd::wrapping::u64_specs::wrapping_mul(acc, ROOT_PRIME),
        b as u64,
    )
}

/// Absorb a whole commitment, byte by byte, left to right.
pub open spec fn mix_bytes(acc: u64, c: Seq<u8>) -> u64
    decreases c.len(),
{
    if c.len() == 0 {
        acc
    } else {
        mix_byte(mix_bytes(acc, c.drop_last()), c.last())
    }
}

/// The root summarizing an ordered history of commitments: the seed with
/// every commitment absorbed in admission order.
pub open spec fn root_after(cs: Seq<Seq<u8>>) -> u64
    decreases cs.len(),
{
    if cs.len() == 0 {
        ROOT_SEED
    } else {
        mix_bytes(root_after(cs.drop_last()), cs.last())
    }
}

/// Append-only commitment log with its incrementally maintained root.
pub struct CommitmentAccumulator {
    log: Vec<[u8; 32]>,
    root: u64,
}

impl CommitmentAccumulator {
    /// The admitted commitments, in admission order.
    pub closed spec fn commitments(&self) -> Seq<Seq<u8>> {
        self.log@.map_values(|c: [u8; 32]| c@)
    }

    pub closed spec fn spec_root(&self) -> u64 {
        self.root
    }

    /// The stored root always summarizes the stored log.
    pub open spec fn wf(&self) -> bool {
        self.spec_root() == root_after(self.commitments())
    }

    pub fn new() -> (r: Self)
        ensures
            r.wf(),
            r.commitments() == Seq::<Seq<u8>>::empty(),
            r.spec_root() == ROOT_SEED,
    {
        let r = CommitmentAccumulator { log: Vec::new(), root: ROOT_SEED };
        proof {
            assert(r.commitments() =~= Seq::<Seq<u8>>::empty());
        }
        r
    }

    /// The current summary root, as referenced by withdrawal proofs.
    pub fn current_root(&self) -> (r: u64)
        ensures
            r == self.spec_root(),
    {
        self.root
    }

    pub fn len(&self) -> (n: usize)
        ensures
            n == self.commitments().len(),
    {
        self.log.len()
    }

    /// The history stays queryable: the commitment admitted at position `i`.
    pub fn commitment_at(&self, i: usize) -> (r: [u8; 32])
        requires
            i < self.commitments().len(),
        ensures
            r@ == self.commitments()[i as int],
    {
        self.log[i]
    }

    /// Append a commitment to the log and fold it into the root. Any 32-byte
    /// value is accepted; the only failure is storage exhaustion, on which
    /// nothing changes.
    pub fn append(&mut self, commitment: [u8; 32]) -> (r: Result<u64, PrivaxError>)
        requires
            old(self).wf(),
        ensures
            final(self).wf(),
            old(self).commitments().len() < usize::MAX ==> {
                &&& final(self).commitments() == old(self).commitments().push(commitment@)
                &&& final(self).spec_root() == mix_bytes(old(self).spec_root(), commitment@)
                &&& r == Ok::<u64, PrivaxError>(final(self).spec_root())
            },
            old(self).commitments().len() >= usize::MAX ==> {
                &&& r == Err::<u64, PrivaxError>(PrivaxError::StorageFull)
                &&& *final(self) == *old(self)
            },
    {
        if self.log.len() == usize::MAX {
            return Err(PrivaxError::StorageFull);
        }
        let new_root = fold_commitment(self.root, &commitment);
        self.log.push(commitment);
        self.root = new_root;
        proof {
            assert(self.commitments() =~= old(self).commitments().push(commitment@));
            assert(self.commitments().drop_last() =~= old(self).commitments());
        }
        Ok(new_root)
    }
}

/// Fold all 32 bytes of a commitment into a running root.
fn fold_commitment(root: u64, c: &[u8; 32]) -> (r: u64)
    ensures
        r == mix_bytes(root, c@),
{
    let mut acc: u64 = root;
    let mut i: usize = 0;
    while i < 32
        invariant
            0 <= i <= 32,
            acc == mix_bytes(root, c@.take(i as int)),
        decreases 32 - i,
    {
        acc = acc.wrapping_mul(ROOT_PRIME).wrapping_add(c[i] as u64);
        proof {
            assert(c@.take(i + 1).drop_last() =~= c@.take(i as int));
            assert(c@.take(i + 1).last() == c@[i as int]);
        }
        i += 1;
    }
    proof {
        assert(c@.take(32) =~= c@);
    }
    acc
}

} // verus!
