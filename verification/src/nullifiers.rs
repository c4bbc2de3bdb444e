//! The nullifier ledger: the set of spent-proof markers. Each successful
//! withdrawal records the 64-bit nullifier hash from its public inputs, and a
//! nullifier can be recorded at most once, ever — this check-and-insert is
//! the sole replay-prevention mechanism of the protocol.

use vstd::prelude::*;
use crate::errors::PrivaxError;

verus! {

pub struct NullifierLedger {
    spent: Vec<u64>,
}

impl NullifierLedger {
    /// The spent nullifiers, in the order they were recorded.
    pub closed spec fn spent_seq(&self) -> Seq<u64> {
        self.spent@
    }

    pub open spec fn is_spent_spec(&self, n: u64) -> bool {
        self.spent_seq().contains(n)
    }

    /// A nullifier appears in the ledger at most once.
    pub open spec fn wf(&self) -> bool {
        forall|i: int, j: int|
            0 <= i < j < self.spent_seq().len() ==> self.spent_seq()[i] != self.spent_seq()[j]
    }

    pub fn new() -> (r: Self)
        ensures
            r.wf(),
            r.spent_seq() == Seq::<u64>::empty(),
    {
        let r = NullifierLedger { spent: Vec::new() };
        proof {
            assert(r.spent_seq() =~= Seq::<u64>::empty());
        }
        r
    }

    pub fn len(&self) -> (n: usize)
        ensures
            n == self.spent_seq().len(),
    {
        self.spent.len()
    }

    pub fn is_spent(&self, n: u64) -> (r: bool)
        ensures
            r == self.is_spent_spec(n),
    {
        let mut i: usize = 0;
        while i < self.spent.len()
            invariant
                0 <= i <= self.spent_seq().len(),
                forall|j: int| 0 <= j < i ==> self.spent_seq()[j] != n,
            decreases self.spent_seq().len() - i,
        {
            if self.spent[i] == n {
                return true;
            }
            i += 1;
        }
        false
    }

    /// Atomically check and record: succeeds exactly when `n` was not yet
    /// spent, and on failure nothing changes.
    pub fn mark_spent(&mut self, n: u64) -> (r: Result<(), PrivaxError>)
        requires
            old(self).wf(),
            old(self).spent_seq().len() < usize::MAX,
        ensures
            final(self).wf(),
            old(self).is_spent_spec(n) ==> {
                &&& r == Err::<(), PrivaxError>(PrivaxError::NullifierAlreadySpent)
                &&& *final(self) == *old(self)
            },
            !old(self).is_spent_spec(n) ==> {
                &&& r == Ok::<(), PrivaxError>(())
                &&& final(self).spent_seq() == old(self).spent_seq().push(n)
            },
    {
        if self.is_spent(n) {
            return Err(PrivaxError::NullifierAlreadySpent);
        }
        self.spent.push(n);
        proof {
            assert forall|i: int, j: int|
                0 <= i < j < self.spent_seq().len() implies self.spent_seq()[i]
                != self.spent_seq()[j] by {
                if j == self.spent_seq().len() - 1 {
                    assert(old(self).spent_seq().contains(old(self).spent_seq()[i]));
                }
            }
        }
        Ok(())
    }

    /// Take a recorded nullifier back out. This exists only as the
    /// compensation step of a withdrawal whose payout the host ledger
    /// refused: the protocol is fail-closed, so a failed withdrawal must not
    /// leave its nullifier observable as spent.
    pub(crate) fn unmark(&mut self, n: u64) -> (removed: bool)
        requires
            old(self).wf(),
        ensures
            final(self).wf(),
            removed == old(self).is_spent_spec(n),
            !final(self).is_spent_spec(n),
            forall|m: u64| m != n ==> final(self).is_spent_spec(m) == old(self).is_spent_spec(m),
            old(self).is_spent_spec(n) ==> final(self).spent_seq().len() == old(
                self,
            ).spent_seq().len() - 1,
            !old(self).is_spent_spec(n) ==> *final(self) == *old(self),
    {
        let mut i: usize = 0;
        while i < self.spent.len()
            invariant
                0 <= i <= self.spent_seq().len(),
                *self == *old(self),
                old(self).wf(),
                forall|j: int| 0 <= j < i ==> self.spent_seq()[j] != n,
            decreases self.spent_seq().len() - i,
        {
            if self.spent[i] == n {
                proof {
                    assert(old(self).spent_seq()[i as int] == n);
                }
                self.spent.remove(i);
                proof {
                    lemma_remove_distinct(old(self).spent_seq(), i as int, n);
                }
                return true;
            }
            i += 1;
        }
        proof {
            assert(!old(self).spent_seq().contains(n)) by {
                assert(forall|j: int|
                    0 <= j < old(self).spent_seq().len() ==> old(self).spent_seq()[j] != n);
            }
        }
        false
    }
}

/// Removing the one position holding `n` from a duplicate-free sequence
/// keeps it duplicate-free, drops `n` from its contents, and keeps every
/// other value.
proof fn lemma_remove_distinct(s: Seq<u64>, i: int, n: u64)
    requires
        0 <= i < s.len(),
        s[i] == n,
        forall|p: int, q: int| 0 <= p < q < s.len() ==> s[p] != s[q],
    ensures
        forall|p: int, q: int| 0 <= p < q < s.remove(i).len() ==> s.remove(i)[p] != s.remove(i)[q],
        !s.remove(i).contains(n),
        forall|m: u64| m != n ==> s.remove(i).contains(m) == s.contains(m),
        s.contains(n),
{
    s.remove_ensures(i);
    assert forall|m: u64| m != n implies s.remove(i).contains(m) == s.contains(m) by {
        if s.contains(m) {
            let k = choose|k: int| 0 <= k < s.len() && s[k] == m;
            if k < i {
                assert(s.remove(i)[k] == m);
            } else {
                assert(s.remove(i)[k - 1] == m);
            }
        }
        if s.remove(i).contains(m) {
            let k = choose|k: int| 0 <= k < s.remove(i).len() && s.remove(i)[k] == m;
            if k < i {
                assert(s[k] == m);
            } else {
                assert(s[k + 1] == m);
            }
        }
    }
    assert forall|k: int| 0 <= k < s.remove(i).len() implies s.remove(i)[k] != n by {
        if k < i {
            assert(s.remove(i)[k] == s[k]);
        } else {
            assert(s.remove(i)[k] == s[k + 1]);
        }
    }
}

} // verus!
