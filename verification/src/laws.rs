//! The protocol's guarantees, stated and proved over the same spec functions
//! the operations' contracts use.

use vstd::prelude::*;
use crate::accumulator::CommitmentAccumulator;
use crate::accumulator::ROOT_SEED;
use crate::accumulator::mix_bytes;
use crate::accumulator::root_after;
use crate::errors::PrivaxError;
use crate::keys::Pubkey;
use crate::keys::encode_key;
use crate::state::ProgramState;
use crate::state::relayer_listed;
use crate::state::withdraw_gate;
use crate::REQUIRED_PUBLIC_INPUTS_COUNT;

verus! {

/// Double-spend prevention. A successful withdrawal leaves the protocol in a
/// state whose nullifier record includes the nullifier it spent — that is
/// what `withdraw_commit` ensures, echoed here as the hypothesis on `post`.
/// In that state, every withdrawal request reusing the nullifier is refused
/// at validation, before the verifier is ever consulted — hence regardless of
/// how valid the second proof is; and when it is refused for no other,
/// earlier reason, it is refused as `NullifierAlreadySpent`.
pub proof fn lemma_no_double_spend(
    pre: ProgramState,
    post: ProgramState,
    n: u64,
    inputs: Seq<u64>,
    recipient: Seq<u8>,
    amount: u64,
    is_relayed: bool,
    caller: Seq<u8>,
)
    requires
        post.spent_nullifiers() == pre.spent_nullifiers().push(n),
        inputs.len() == REQUIRED_PUBLIC_INPUTS_COUNT,
        inputs[1] == n,
    ensures
        post.spent(n),
        withdraw_gate(post, inputs, recipient, amount, is_relayed, caller) matches Err(_),
        (amount > 0 && (is_relayed ==> relayer_listed(post.relayers(), caller)) && inputs[2]
            == encode_key(recipient) && inputs[3] == amount && inputs[0] == post.root())
            ==> withdraw_gate(post, inputs, recipient, amount, is_relayed, caller) == Err::<
            u64,
            PrivaxError,
        >(PrivaxError::NullifierAlreadySpent),
{
    assert(post.spent_nullifiers()[pre.spent_nullifiers().len() as int] == n);
    assert(post.spent(n));
}

/// Binding of a proof to its payout. A request whose public inputs disagree
/// with the recipient or the amount the caller declares never passes the
/// checks, so the verifier is invoked zero times for it; and when no earlier
/// check refuses it first, it fails precisely as `RecipientMismatch`
/// respectively `AmountMismatch`.
pub proof fn lemma_binding_rejected(
    s: ProgramState,
    inputs: Seq<u64>,
    recipient: Seq<u8>,
    amount: u64,
    is_relayed: bool,
    caller: Seq<u8>,
)
    requires
        inputs[2] != encode_key(recipient) || inputs[3] != amount,
    ensures
        withdraw_gate(s, inputs, recipient, amount, is_relayed, caller) matches Err(_),
        (amount > 0 && inputs.len() == REQUIRED_PUBLIC_INPUTS_COUNT && (is_relayed
            ==> relayer_listed(s.relayers(), caller)) && inputs[2] != encode_key(recipient))
            ==> withdraw_gate(s, inputs, recipient, amount, is_relayed, caller) == Err::<
            u64,
            PrivaxError,
        >(PrivaxError::RecipientMismatch),
        (amount > 0 && inputs.len() == REQUIRED_PUBLIC_INPUTS_COUNT && (is_relayed
            ==> relayer_listed(s.relayers(), caller)) && inputs[2] == encode_key(recipient)
            && inputs[3] != amount) ==> withdraw_gate(
            s,
            inputs,
            recipient,
            amount,
            is_relayed,
            caller,
        ) == Err::<u64, PrivaxError>(PrivaxError::AmountMismatch),
{
}

/// The relayer allow-list check. A relayed withdrawal from a caller not on
/// the allow-list never passes validation — the verifier is not consulted, so
/// a valid proof does not help — and when the amount and input count are in
/// shape it fails precisely as `RelayerNotWhitelisted`.
pub proof fn lemma_relayer_gate(
    s: ProgramState,
    inputs: Seq<u64>,
    recipient: Seq<u8>,
    amount: u64,
    caller: Seq<u8>,
)
    requires
        !relayer_listed(s.relayers(), caller),
    ensures
        withdraw_gate(s, inputs, recipient, amount, true, caller) matches Err(_),
        (amount > 0 && inputs.len() == REQUIRED_PUBLIC_INPUTS_COUNT) ==> withdraw_gate(
            s,
            inputs,
            recipient,
            amount,
            true,
            caller,
        ) == Err::<u64, PrivaxError>(PrivaxError::RelayerNotWhitelisted),
{
}

/// The registry round-trips on a fresh address: `add_relayer` appends it,
/// and `remove_relayer` of the same address afterwards restores the relayer
/// list exactly, order included. The hypotheses are precisely what the two
/// operations' contracts ensure: the add pushed the address onto a list that
/// did not hold it, and the remove took out one position holding it.
pub proof fn lemma_add_remove_round_trip(
    before: Seq<Pubkey>,
    added: Seq<Pubkey>,
    after: Seq<Pubkey>,
    a: Pubkey,
    i: int,
)
    requires
        !relayer_listed(before, a@),
        added == before.push(a),
        0 <= i < added.len(),
        added[i]@ == a@,
        after == added.remove(i),
    ensures
        after == before,
{
    if i < before.len() {
        assert(added[i] == before[i]);
        assert(relayer_listed(before, a@));
    }
    assert(i == before.len());
    added.remove_ensures(i);
    assert(after =~= before);
}

/// The accumulator root is a deterministic function of the ordered
/// commitment history: two well-formed accumulators holding the same
/// history summarize it with the same root.
pub proof fn lemma_root_deterministic(a: CommitmentAccumulator, b: CommitmentAccumulator)
    requires
        a.wf(),
        b.wf(),
        a.commitments() == b.commitments(),
    ensures
        a.spec_root() == b.spec_root(),
{
}

/// Admission is append-only: appending a commitment extends the history by
/// exactly that commitment, leaves every earlier commitment in place, and
/// moves the root to the old root with the new commitment folded in — so the
/// root after a run of deposits depends on nothing but the ordered
/// commitment sequence, starting from the seed of the empty history.
pub proof fn lemma_append_only(cs: Seq<Seq<u8>>, c: Seq<u8>)
    ensures
        cs.push(c).len() == cs.len() + 1,
        cs.push(c).last() == c,
        forall|i: int| 0 <= i < cs.len() ==> cs.push(c)[i] == cs[i],
        root_after(cs.push(c)) == mix_bytes(root_after(cs), c),
        root_after(Seq::<Seq<u8>>::empty()) == ROOT_SEED,
{
    assert(cs.push(c).drop_last() =~= cs);
}

} // verus!
