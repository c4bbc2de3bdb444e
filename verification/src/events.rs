//! Notifications the vault hands back to the host for emission to external
//! indexers. They are fire-and-forget data: the protocol's own state never
//! depends on them.

use vstd::prelude::*;
use crate::keys::Pubkey;

verus! {

/// Governance handed the admin role from `old_admin` to `new_admin`.
#[derive(Clone, Copy, Debug)]
pub struct AdminChanged {
    pub old_admin: Pubkey,
    pub new_admin: Pubkey,
}

/// A relayer joined the allow-list.
#[derive(Clone, Copy, Debug)]
pub struct RelayerAdded {
    pub relayer_address: Pubkey,
}

/// A relayer left the allow-list.
#[derive(Clone, Copy, Debug)]
pub struct RelayerRemoved {
    pub relayer_address: Pubkey,
}

/// A deposit pulled `amount` tokens into custody and admitted `commitment`.
#[derive(Clone, Copy, Debug)]
pub struct DepositOccurred {
    pub user: Pubkey,
    pub token_address: Pubkey,
    pub amount: u64,
    pub commitment: [u8; 32],
}

/// A withdrawal paid `amount` tokens out of custody to `recipient`.
#[derive(Clone, Copy, Debug)]
pub struct WithdrawalOccurred {
    pub nullifier_hash: [u8; 32],
    pub recipient: Pubkey,
    pub token_address: Pubkey,
    pub amount: u64,
}

/// The 32-byte form a 64-bit nullifier hash takes in a withdrawal event:
/// its little-endian bytes, zero-padded on the right.
#[verifier::opaque]
pub open spec fn nullifier_bytes(n: u64) -> Seq<u8> {
    Seq::new(
        32,
        |i: int|
            if i == 0 {
                (n % 0x100) as u8
            } else if i == 1 {
                ((n / 0x100) % 0x100) as u8
            } else if i == 2 {
                ((n / 0x1_0000) % 0x100) as u8
            } else if i == 3 {
                ((n / 0x100_0000) % 0x100) as u8
            } else if i == 4 {
                ((n / 0x1_0000_0000) % 0x100) as u8
            } else if i == 5 {
                ((n / 0x100_0000_0000) % 0x100) as u8
            } else if i == 6 {
                ((n / 0x1_0000_0000_0000) % 0x100) as u8
            } else if i == 7 {
                ((n / 0x100_0000_0000_0000) % 0x100) as u8
            } else {
                0u8
            },
    )
}

/// Build the event form of a nullifier hash.
pub fn nullifier_hash_bytes(n: u64) -> (r: [u8; 32])
    ensures
        r@ == nullifier_bytes(n),
{
    let mut out: [u8; 32] = [0u8; 32];
    out[0] = (n % 0x100) as u8;
    out[1] = ((n / 0x100) % 0x100) as u8;
    out[2] = ((n / 0x1_0000) % 0x100) as u8;
    out[3] = ((n / 0x100_0000) % 0x100) as u8;
    out[4] = ((n / 0x1_0000_0000) % 0x100) as u8;
    out[5] = ((n / 0x100_0000_0000) % 0x100) as u8;
    out[6] = ((n / 0x1_0000_0000_0000) % 0x100) as u8;
    out[7] = ((n / 0x100_0000_0000_0000) % 0x100) as u8;
    proof {
        reveal(nullifier_bytes);
        assert(out@ =~= nullifier_bytes(n));
    }
    out
}

} // verus!
