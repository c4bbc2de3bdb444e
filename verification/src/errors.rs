//! Error taxonomy of the vault protocol. Every operation fails closed: when
//! an error is returned, no state mutation is observable.

use vstd::prelude::*;

verus! {

/// Why the host ledger refused a custody transfer. The vault never inspects
/// the code; it carries it back to the caller unchanged.
#[derive(Clone, Copy, Debug, PartialEq, Eq, Structural)]
pub struct TransferError {
    pub code: u64,
}

#[derive(Clone, Copy, Debug, PartialEq, Eq, Structural)]
pub enum PrivaxError {
    /// A deposit or withdrawal of zero tokens.
    AmountTooSmall,
    /// The proof's public inputs are not the required five-tuple.
    InvalidPublicInputCount,
    /// The recipient among the public inputs differs from the declared payout
    /// recipient.
    RecipientMismatch,
    /// The amount among the public inputs differs from the declared payout
    /// amount.
    AmountMismatch,
    /// The zero-knowledge verifier rejected the proof.
    InvalidZkProof,
    /// The relayer is already on the allow-list.
    RelayerAlreadyWhitelisted,
    /// The relayer is not on the allow-list.
    RelayerNotWhitelisted,
    /// The null identity cannot be a relayer.
    InvalidRelayerAddress,
    /// The null identity cannot become admin.
    NewAdminIsZero,
    /// A governance operation from a caller other than the current admin.
    NotAdmin,
    /// The relayer allow-list is full.
    CapacityExceeded,
    /// The nullifier behind this withdrawal has already been spent.
    NullifierAlreadySpent,
    /// The proof's root is not the accumulator's current root.
    StaleRoot,
    /// The commitment log cannot grow any further.
    StorageFull,
    /// The host ledger refused the custody transfer; the cause is passed
    /// through verbatim.
    Transfer(TransferError),
}

} // verus!
