//! Account identities: 32-byte public keys of the host ledger, modelled as
//! plain byte arrays so the protocol logic can reason about them directly.

use vstd::prelude::*;

verus! {

/// The all-zero key, which the protocol treats as the null identity.
pub open spec fn zero_key() -> Seq<u8> {
    Seq::new(32, |i: int| 0u8)
}

/// The 64-bit value a key is reduced to when it appears among a proof's
/// public inputs: its first eight bytes read as a little-endian integer.
pub open spec fn encode_key(s: Seq<u8>) -> u64
    recommends
        s.len() >= 8,
{
    (s[0] + s[1] * 0x100 + s[2] * 0x1_0000 + s[3] * 0x100_0000 + s[4] * 0x1_0000_0000
        + s[5] * 0x100_0000_0000 + s[6] * 0x1_0000_0000_0000 + s[7]
        * 0x100_0000_0000_0000) as u64
}

/// A 32-byte account identity on the host ledger.
#[derive(Clone, Copy, Debug)]
pub struct Pubkey {
    bytes: [u8; 32],
}

impl View for Pubkey {
    type V = Seq<u8>;

    closed spec fn view(&self) -> Seq<u8> {
        self.bytes@
    }
}

impl Pubkey {
    pub fn new(bytes: [u8; 32]) -> (r: Pubkey)
        ensures
            r@ == bytes@,
    {
        Pubkey { bytes }
    }

    /// The null identity.
    pub fn zero() -> (r: Pubkey)
        ensures
            r@ == zero_key(),
    {
        let bytes: [u8; 32] = [0u8; 32];
        proof {
            assert(bytes@ =~= zero_key());
        }
        Pubkey { bytes }
    }

    pub fn is_zero(&self) -> (r: bool)
        ensures
            r == (self@ == zero_key()),
    {
        let mut i: usize = 0;
        while i < 32
            invariant
                0 <= i <= 32,
                forall|j: int| 0 <= j < i ==> self@[j] == 0u8,
            decreases 32 - i,
        {
            if self.bytes[i] != 0 {
                proof {
                    assert(self@[i as int] != zero_key()[i as int]);
                }
                return false;
            }
            i += 1;
        }
        proof {
            assert(self@ =~= zero_key());
        }
        true
    }

    pub fn to_bytes(&self) -> (r: [u8; 32])
        ensures
            r@ == self@,
    {
        self.bytes
    }

    /// The key as it appears among a proof's public inputs: the first eight
    /// bytes read as a little-endian 64-bit integer.
    pub fn encode(&self) -> (r: u64)
        ensures
            r == encode_key(self@),
    {
        let b = &self.bytes;
        (b[0] as u64) + (b[1] as u64) * 0x100 + (b[2] as u64) * 0x1_0000 + (b[3] as u64)
            * 0x100_0000 + (b[4] as u64) * 0x1_0000_0000 + (b[5] as u64) * 0x100_0000_0000 + (
        b[6] as u64) * 0x1_0000_0000_0000 + (b[7] as u64) * 0x100_0000_0000_0000
    }
}

impl PartialEq for Pubkey {
    fn eq(&self, other: &Pubkey) -> (r: bool) {
        let mut i: usize = 0;
        while i < 32
            invariant
                0 <= i <= 32,
                forall|j: int| 0 <= j < i ==> self@[j] == other@[j],
            decreases 32 - i,
        {
            if self.bytes[i] != other.bytes[i] {
                proof {
                    assert(self@[i as int] != other@[i as int]);
                }
                return false;
            }
            i += 1;
        }
        proof {
            assert(self@ =~= other@);
        }
        true
    }
}

impl Eq for Pubkey {

}

impl vstd::std_specs::cmp::PartialEqSpecImpl for Pubkey {
    open spec fn obeys_eq_spec() -> bool {
        true
    }

    open spec fn eq_spec(&self, other: &Pubkey) -> bool {
        self@ == other@
    }
}

} // verus!
