//! The protocol state machine: one `ProgramState` per deployed vault
//! instance, owning the relayer allow-list and the commitment and nullifier
//! ledgers.
//!
//! Custody transfers and zero-knowledge verification belong to external
//! collaborators, so the two flows that need them are split into decision
//! steps. A deposit is `deposit_validate` (fail fast, before the host pulls
//! funds), then `deposit` with the custody-pull outcome. A withdrawal is
//! `withdraw_validate`, which either refuses the request or hands back a
//! `VerifyRequest` telling the host to consult the verifier; then
//! `withdraw_commit` with the verifier's verdict, which records the nullifier
//! and instructs the payout; then `withdraw_finish` with the payout outcome,
//! which compensates the nullifier record if the host ledger refused to pay.
//! The host serializes these steps per instance, so no other operation
//! interleaves with a flow in progress.

use vstd::prelude::*;
use crate::accumulator::CommitmentAccumulator;
use crate::errors::PrivaxError;
use crate::errors::TransferError;
use crate::events::AdminChanged;
use crate::events::DepositOccurred;
use crate::events::RelayerAdded;
use crate::events::RelayerRemoved;
use crate::events::WithdrawalOccurred;
use crate::events::nullifier_bytes;
use crate::events::nullifier_hash_bytes;
use crate::keys::Pubkey;
use crate::keys::encode_key;
use crate::keys::zero_key;
use crate::nullifiers::NullifierLedger;
use crate::MAX_RELAYERS;
use crate::REQUIRED_PUBLIC_INPUTS_COUNT;

verus! {

/// Whether `key` identifies one of the listed relayers.
pub open spec fn relayer_listed(relayers: Seq<Pubkey>, key: Seq<u8>) -> bool {
    exists|i: int| 0 <= i < relayers.len() && relayers[i]@ == key
}

/// Approval handed back by `withdraw_validate`: the host may now consult the
/// verifier with the proof and public inputs, and commit with its verdict.
#[derive(Clone, Copy, Debug)]
pub struct VerifyRequest {
    pub nullifier_hash: u64,
    pub recipient: Pubkey,
    pub amount: u64,
}

/// Instruction handed back by `withdraw_commit`: the host must now pay
/// `amount` out of vault custody to `recipient` and report the outcome to
/// `withdraw_finish`.
#[derive(Clone, Copy, Debug)]
pub struct PayoutInstruction {
    pub nullifier_hash: u64,
    pub recipient: Pubkey,
    pub amount: u64,
}

/// The checks every withdrawal request must clear before the verifier is
/// consulted, in order, each with the error it fails with, ending in the
/// nullifier hash the withdrawal will spend.
pub open spec fn withdraw_gate(
    s: ProgramState,
    inputs: Seq<u64>,
    recipient: Seq<u8>,
    amount: u64,
    is_relayed: bool,
    caller: Seq<u8>,
) -> Result<u64, PrivaxError> {
    if amount == 0 {
        Err(PrivaxError::AmountTooSmall)
    } else if inputs.len() != REQUIRED_PUBLIC_INPUTS_COUNT {
        Err(PrivaxError::InvalidPublicInputCount)
    } else if is_relayed && !relayer_listed(s.relayers(), caller) {
        Err(PrivaxError::RelayerNotWhitelisted)
    } else if inputs[2] != encode_key(recipient) {
        Err(PrivaxError::RecipientMismatch)
    } else if inputs[3] != amount {
        Err(PrivaxError::AmountMismatch)
    } else if inputs[0] != s.root() {
        Err(PrivaxError::StaleRoot)
    } else if s.spent(inputs[1]) {
        Err(PrivaxError::NullifierAlreadySpent)
    } else {
        Ok(inputs[1])
    }
}

/// One vault instance: governance configuration plus the two append-only
/// ledgers.
pub struct ProgramState {
    admin: Pubkey,
    token_mint: Pubkey,
    verifier_program_id: Pubkey,
    whitelisted_relayers: Vec<Pubkey>,
    accumulator: CommitmentAccumulator,
    nullifiers: NullifierLedger,
}

impl ProgramState {
    pub closed spec fn admin_key(&self) -> Seq<u8> {
        self.admin@
    }

    pub closed spec fn mint_key(&self) -> Seq<u8> {
        self.token_mint@
    }

    pub closed spec fn verifier_key(&self) -> Seq<u8> {
        self.verifier_program_id@
    }

    /// The allow-listed relayers, in insertion order.
    pub closed spec fn relayers(&self) -> Seq<Pubkey> {
        self.whitelisted_relayers@
    }

    /// The admitted commitments, in admission order.
    pub closed spec fn commitments(&self) -> Seq<Seq<u8>> {
        self.accumulator.commitments()
    }

    /// The accumulator's current summary root.
    pub closed spec fn root(&self) -> u64 {
        self.accumulator.spec_root()
    }

    /// The spent nullifiers, in the order they were recorded.
    pub closed spec fn spent_nullifiers(&self) -> Seq<u64> {
        self.nullifiers.spent_seq()
    }

    pub open spec fn spent(&self, n: u64) -> bool {
        self.spent_nullifiers().contains(n)
    }

    /// Invariants of a live instance: the ledgers are well formed, and the
    /// allow-list is bounded, duplicate-free, and holds no null identity.
    pub closed spec fn wf(&self) -> bool {
        &&& self.accumulator.wf()
        &&& self.nullifiers.wf()
        &&& self.relayers().len() <= MAX_RELAYERS
        &&& forall|i: int, j: int|
            0 <= i < j < self.relayers().len() ==> self.relayers()[i]@ != self.relayers()[j]@
        &&& forall|i: int| 0 <= i < self.relayers().len() ==> self.relayers()[i]@ != zero_key()
    }

    /// Create the instance: empty ledgers, empty allow-list, the caller as
    /// admin. The returned notification reports the admin handover from the
    /// null identity.
    pub fn initialize(admin: Pubkey, token_mint_address: Pubkey, verifier_program_id: Pubkey) -> (r:
        (ProgramState, AdminChanged))
        ensures
            r.0.wf(),
            r.0.admin_key() == admin@,
            r.0.mint_key() == token_mint_address@,
            r.0.verifier_key() == verifier_program_id@,
            r.0.relayers() == Seq::<Pubkey>::empty(),
            r.0.commitments() == Seq::<Seq<u8>>::empty(),
            r.0.root() == crate::accumulator::ROOT_SEED,
            r.0.spent_nullifiers() == Seq::<u64>::empty(),
            r.1.old_admin@ == zero_key(),
            r.1.new_admin == admin,
    {
        let state = ProgramState {
            admin,
            token_mint: token_mint_address,
            verifier_program_id,
            whitelisted_relayers: Vec::new(),
            accumulator: CommitmentAccumulator::new(),
            nullifiers: NullifierLedger::new(),
        };
        proof {
            assert(state.relayers() =~= Seq::<Pubkey>::empty());
        }
        let event = AdminChanged { old_admin: Pubkey::zero(), new_admin: admin };
        (state, event)
    }

    /// Admin-only: put `relayer_address` on the allow-list, keeping insertion
    /// order. Refuses the null identity, a duplicate, and a full list; on any
    /// error nothing changes.
    pub fn add_relayer(&mut self, caller: &Pubkey, relayer_address: Pubkey) -> (r: Result<
        RelayerAdded,
        PrivaxError,
    >)
        requires
            old(self).wf(),
        ensures
            final(self).wf(),
            caller@ != old(self).admin_key() ==> {
                &&& r == Err::<RelayerAdded, PrivaxError>(PrivaxError::NotAdmin)
                &&& *final(self) == *old(self)
            },
            caller@ == old(self).admin_key() && relayer_address@ == zero_key() ==> {
                &&& r == Err::<RelayerAdded, PrivaxError>(PrivaxError::InvalidRelayerAddress)
                &&& *final(self) == *old(self)
            },
            caller@ == old(self).admin_key() && relayer_address@ != zero_key() && relayer_listed(
                old(self).relayers(),
                relayer_address@,
            ) ==> {
                &&& r == Err::<RelayerAdded, PrivaxError>(PrivaxError::RelayerAlreadyWhitelisted)
                &&& *final(self) == *old(self)
            },
            caller@ == old(self).admin_key() && relayer_address@ != zero_key() && !relayer_listed(
                old(self).relayers(),
                relayer_address@,
            ) && old(self).relayers().len() >= MAX_RELAYERS ==> {
                &&& r == Err::<RelayerAdded, PrivaxError>(PrivaxError::CapacityExceeded)
                &&& *final(self) == *old(self)
            },
            caller@ == old(self).admin_key() && relayer_address@ != zero_key() && !relayer_listed(
                old(self).relayers(),
                relayer_address@,
            ) && old(self).relayers().len() < MAX_RELAYERS ==> {
                &&& r matches Ok(ev) && ev.relayer_address == relayer_address
                &&& final(self).relayers() == old(self).relayers().push(relayer_address)
                &&& final(self).admin_key() == old(self).admin_key()
                &&& final(self).mint_key() == old(self).mint_key()
                &&& final(self).verifier_key() == old(self).verifier_key()
                &&& final(self).commitments() == old(self).commitments()
                &&& final(self).root() == old(self).root()
                &&& final(self).spent_nullifiers() == old(self).spent_nullifiers()
            },
    {
        if !(*caller == self.admin) {
            return Err(PrivaxError::NotAdmin);
        }
        if relayer_address.is_zero() {
            return Err(PrivaxError::InvalidRelayerAddress);
        }
        if self.is_whitelisted(&relayer_address) {
            return Err(PrivaxError::RelayerAlreadyWhitelisted);
        }
        if self.whitelisted_relayers.len() >= MAX_RELAYERS {
            return Err(PrivaxError::CapacityExceeded);
        }
        self.whitelisted_relayers.push(relayer_address);
        proof {
            assert forall|i: int, j: int|
                0 <= i < j < self.relayers().len() implies self.relayers()[i]@
                != self.relayers()[j]@ by {
                if j == self.relayers().len() - 1 {
                    assert(relayer_listed(old(self).relayers(), old(self).relayers()[i]@));
                }
            }
        }
        Ok(RelayerAdded { relayer_address })
    }

    /// Admin-only: take `relayer_address` off the allow-list, keeping the
    /// order of the others. Refuses an identity that is not listed; on any
    /// error nothing changes.
    #[verifier::rlimit(50)]
    pub fn remove_relayer(&mut self, caller: &Pubkey, relayer_address: Pubkey) -> (r: Result<
        RelayerRemoved,
        PrivaxError,
    >)
        requires
            old(self).wf(),
        ensures
            final(self).wf(),
            caller@ != old(self).admin_key() ==> {
                &&& r == Err::<RelayerRemoved, PrivaxError>(PrivaxError::NotAdmin)
                &&& *final(self) == *old(self)
            },
            caller@ == old(self).admin_key() && !relayer_listed(
                old(self).relayers(),
                relayer_address@,
            ) ==> {
                &&& r == Err::<RelayerRemoved, PrivaxError>(PrivaxError::RelayerNotWhitelisted)
                &&& *final(self) == *old(self)
            },
            caller@ == old(self).admin_key() && relayer_listed(
                old(self).relayers(),
                relayer_address@,
            ) ==> {
                &&& r matches Ok(ev) && ev.relayer_address == relayer_address
                &&& exists|i: int|
                    0 <= i < old(self).relayers().len() && old(self).relayers()[i]@
                        == relayer_address@ && final(self).relayers() == old(
                        self,
                    ).relayers().remove(i)
                &&& !relayer_listed(final(self).relayers(), relayer_address@)
                &&& forall|k: Seq<u8>|
                    k != relayer_address@ ==> relayer_listed(final(self).relayers(), k)
                        == relayer_listed(old(self).relayers(), k)
                &&& final(self).relayers().len() == old(self).relayers().len() - 1
                &&& final(self).admin_key() == old(self).admin_key()
                &&& final(self).mint_key() == old(self).mint_key()
                &&& final(self).verifier_key() == old(self).verifier_key()
                &&& final(self).commitments() == old(self).commitments()
                &&& final(self).root() == old(self).root()
                &&& final(self).spent_nullifiers() == old(self).spent_nullifiers()
            },
    {
        if !(*caller == self.admin) {
            return Err(PrivaxError::NotAdmin);
        }
        let found = self.find_relayer(&relayer_address);
        let i = match found {
            None => {
                return Err(PrivaxError::RelayerNotWhitelisted);
            },
            Some(i) => i,
        };
        proof {
            lemma_remove_listed(old(self).relayers(), i as int, relayer_address@);
        }
        self.whitelisted_relayers.remove(i);
        proof {
            let pre = old(self).relayers();
            assert(self.relayers() == pre.remove(i as int));
            assert(exists|j: int|
                0 <= j < pre.len() && pre[j]@ == relayer_address@ && self.relayers() == pre.remove(
                    j,
                ));
            assert forall|p: int|
                0 <= p < self.relayers().len() implies self.relayers()[p]@ != zero_key() by {
                assert(pre.contains(self.relayers()[p]));
                let q = choose|q: int| 0 <= q < pre.len() && pre[q] == self.relayers()[p];
                assert(pre[q]@ != zero_key());
            }
        }
        Ok(RelayerRemoved { relayer_address })
    }

    /// Admin-only: hand the admin role to `new_admin`. Refuses the null
    /// identity; on any error nothing changes.
    pub fn transfer_ownership(&mut self, caller: &Pubkey, new_admin: Pubkey) -> (r: Result<
        AdminChanged,
        PrivaxError,
    >)
        requires
            old(self).wf(),
        ensures
            final(self).wf(),
            caller@ != old(self).admin_key() ==> {
                &&& r == Err::<AdminChanged, PrivaxError>(PrivaxError::NotAdmin)
                &&& *final(self) == *old(self)
            },
            caller@ == old(self).admin_key() && new_admin@ == zero_key() ==> {
                &&& r == Err::<AdminChanged, PrivaxError>(PrivaxError::NewAdminIsZero)
                &&& *final(self) == *old(self)
            },
            caller@ == old(self).admin_key() && new_admin@ != zero_key() ==> {
                &&& r matches Ok(ev) && ev.old_admin@ == old(self).admin_key() && ev.new_admin
                    == new_admin
                &&& final(self).admin_key() == new_admin@
                &&& final(self).relayers() == old(self).relayers()
                &&& final(self).mint_key() == old(self).mint_key()
                &&& final(self).verifier_key() == old(self).verifier_key()
                &&& final(self).commitments() == old(self).commitments()
                &&& final(self).root() == old(self).root()
                &&& final(self).spent_nullifiers() == old(self).spent_nullifiers()
            },
    {
        if !(*caller == self.admin) {
            return Err(PrivaxError::NotAdmin);
        }
        if new_admin.is_zero() {
            return Err(PrivaxError::NewAdminIsZero);
        }
        let old_admin = self.admin;
        self.admin = new_admin;
        Ok(AdminChanged { old_admin, new_admin })
    }

    /// Fail-fast check a deposit must pass before the host pulls any funds.
    pub fn deposit_validate(&self, amount: u64) -> (r: Result<(), PrivaxError>)
        ensures
            r == if amount == 0 {
                Err::<(), PrivaxError>(PrivaxError::AmountTooSmall)
            } else {
                Ok::<(), PrivaxError>(())
            },
    {
        if amount == 0 {
            return Err(PrivaxError::AmountTooSmall);
        }
        Ok(())
    }

    /// Complete a deposit, given the outcome the host ledger reported for
    /// pulling `amount` from the depositor into vault custody. Only when the
    /// pull succeeded is the commitment admitted; a refused transfer is
    /// passed through verbatim and admits nothing, so custody movement and
    /// commitment admission happen together or not at all.
    pub fn deposit(
        &mut self,
        user: Pubkey,
        amount: u64,
        commitment: [u8; 32],
        transfer_result: Result<(), TransferError>,
    ) -> (r: Result<DepositOccurred, PrivaxError>)
        requires
            old(self).wf(),
        ensures
            final(self).wf(),
            amount == 0 ==> {
                &&& r == Err::<DepositOccurred, PrivaxError>(PrivaxError::AmountTooSmall)
                &&& *final(self) == *old(self)
            },
            transfer_result matches Err(e) ==> {
                amount > 0 ==> {
                    &&& r == Err::<DepositOccurred, PrivaxError>(PrivaxError::Transfer(e))
                    &&& *final(self) == *old(self)
                }
            },
            amount > 0 && (transfer_result matches Ok(_)) && old(self).commitments().len()
                >= usize::MAX ==> {
                &&& r == Err::<DepositOccurred, PrivaxError>(PrivaxError::StorageFull)
                &&& *final(self) == *old(self)
            },
            amount > 0 && (transfer_result matches Ok(_)) && old(self).commitments().len()
                < usize::MAX ==> {
                &&& r matches Ok(ev) && ev.user == user && ev.token_address@ == old(
                    self,
                ).mint_key() && ev.amount == amount && ev.commitment == commitment
                &&& final(self).commitments() == old(self).commitments().push(commitment@)
                &&& final(self).root() == crate::accumulator::mix_bytes(
                    old(self).root(),
                    commitment@,
                )
                &&& final(self).admin_key() == old(self).admin_key()
                &&& final(self).mint_key() == old(self).mint_key()
                &&& final(self).verifier_key() == old(self).verifier_key()
                &&& final(self).relayers() == old(self).relayers()
                &&& final(self).spent_nullifiers() == old(self).spent_nullifiers()
            },
    {
        if amount == 0 {
            return Err(PrivaxError::AmountTooSmall);
        }
        match transfer_result {
            Err(e) => {
                return Err(PrivaxError::Transfer(e));
            },
            Ok(_) => {},
        }
        match self.accumulator.append(commitment) {
            Err(e) => {
                return Err(e);
            },
            Ok(_) => {},
        }
        Ok(
            DepositOccurred {
                user,
                token_address: self.token_mint,
                amount,
                commitment,
            },
        )
    }

    /// Run the withdrawal checks. On success the request is approved for
    /// verification: the host must now consult the verifier and report its
    /// verdict to `withdraw_commit`. No state changes here, and a refused
    /// request never reaches the verifier.
    pub fn withdraw_validate(
        &self,
        public_inputs: &Vec<u64>,
        recipient_address: &Pubkey,
        amount_to_withdraw: u64,
        is_relayed: bool,
        caller: &Pubkey,
    ) -> (r: Result<VerifyRequest, PrivaxError>)
        ensures
            r matches Ok(req) ==> {
                &&& withdraw_gate(
                    *self,
                    public_inputs@,
                    recipient_address@,
                    amount_to_withdraw,
                    is_relayed,
                    caller@,
                ) == Ok::<u64, PrivaxError>(req.nullifier_hash)
                &&& req.nullifier_hash == public_inputs@[1]
                &&& req.recipient == *recipient_address
                &&& req.amount == amount_to_withdraw
            },
            r matches Err(e) ==> withdraw_gate(
                *self,
                public_inputs@,
                recipient_address@,
                amount_to_withdraw,
                is_relayed,
                caller@,
            ) == Err::<u64, PrivaxError>(e),
    {
        if amount_to_withdraw == 0 {
            return Err(PrivaxError::AmountTooSmall);
        }
        if public_inputs.len() != REQUIRED_PUBLIC_INPUTS_COUNT {
            return Err(PrivaxError::InvalidPublicInputCount);
        }
        if is_relayed && !self.is_whitelisted(caller) {
            return Err(PrivaxError::RelayerNotWhitelisted);
        }
        let recipient_encoded = recipient_address.encode();
        if public_inputs[2] != recipient_encoded {
            return Err(PrivaxError::RecipientMismatch);
        }
        if public_inputs[3] != amount_to_withdraw {
            return Err(PrivaxError::AmountMismatch);
        }
        if public_inputs[0] != self.accumulator.current_root() {
            return Err(PrivaxError::StaleRoot);
        }
        let nullifier_hash = public_inputs[1];
        if self.nullifiers.is_spent(nullifier_hash) {
            return Err(PrivaxError::NullifierAlreadySpent);
        }
        Ok(
            VerifyRequest {
                nullifier_hash,
                recipient: *recipient_address,
                amount: amount_to_withdraw,
            },
        )
    }

    /// Commit an approved withdrawal with the verifier's verdict. A rejected
    /// proof changes nothing. On acceptance the nullifier is atomically
    /// checked and recorded — the replay that raced past validation fails
    /// here — and the host receives the payout instruction it must execute
    /// before anything else touches this instance.
    pub fn withdraw_commit(&mut self, req: &VerifyRequest, proof_accepted: bool) -> (r: Result<
        PayoutInstruction,
        PrivaxError,
    >)
        requires
            old(self).wf(),
            old(self).spent_nullifiers().len() < usize::MAX,
        ensures
            final(self).wf(),
            !proof_accepted ==> {
                &&& r == Err::<PayoutInstruction, PrivaxError>(PrivaxError::InvalidZkProof)
                &&& *final(self) == *old(self)
            },
            proof_accepted && old(self).spent(req.nullifier_hash) ==> {
                &&& r == Err::<PayoutInstruction, PrivaxError>(PrivaxError::NullifierAlreadySpent)
                &&& *final(self) == *old(self)
            },
            proof_accepted && !old(self).spent(req.nullifier_hash) ==> {
                &&& r matches Ok(instr) && instr.nullifier_hash == req.nullifier_hash
                    && instr.recipient == req.recipient && instr.amount == req.amount
                &&& final(self).spent_nullifiers() == old(self).spent_nullifiers().push(
                    req.nullifier_hash,
                )
                &&& final(self).admin_key() == old(self).admin_key()
                &&& final(self).mint_key() == old(self).mint_key()
                &&& final(self).verifier_key() == old(self).verifier_key()
                &&& final(self).relayers() == old(self).relayers()
                &&& final(self).commitments() == old(self).commitments()
                &&& final(self).root() == old(self).root()
            },
    {
        if !proof_accepted {
            return Err(PrivaxError::InvalidZkProof);
        }
        match self.nullifiers.mark_spent(req.nullifier_hash) {
            Err(e) => {
                return Err(e);
            },
            Ok(_) => {},
        }
        Ok(
            PayoutInstruction {
                nullifier_hash: req.nullifier_hash,
                recipient: req.recipient,
                amount: req.amount,
            },
        )
    }

    /// Close a withdrawal with the outcome the host ledger reported for the
    /// payout. A successful payout yields the notification to emit. A
    /// refused payout is passed through verbatim, and the nullifier recorded
    /// by `withdraw_commit` is taken back out: the protocol is fail-closed,
    /// so the two must land together or not at all.
    pub fn withdraw_finish(
        &mut self,
        instr: &PayoutInstruction,
        transfer_result: Result<(), TransferError>,
    ) -> (r: Result<WithdrawalOccurred, PrivaxError>)
        requires
            old(self).wf(),
        ensures
            final(self).wf(),
            transfer_result matches Ok(_) ==> {
                &&& r matches Ok(ev) && ev.nullifier_hash@ == nullifier_bytes(instr.nullifier_hash)
                    && ev.recipient == instr.recipient && ev.token_address@ == old(
                    self,
                ).mint_key() && ev.amount == instr.amount
                &&& *final(self) == *old(self)
            },
            transfer_result matches Err(e) ==> {
                &&& r == Err::<WithdrawalOccurred, PrivaxError>(PrivaxError::Transfer(e))
                &&& !final(self).spent(instr.nullifier_hash)
                &&& forall|m: u64|
                    m != instr.nullifier_hash ==> #[trigger] final(self).spent(m) == old(
                        self,
                    ).spent(m)
                &&& final(self).admin_key() == old(self).admin_key()
                &&& final(self).mint_key() == old(self).mint_key()
                &&& final(self).verifier_key() == old(self).verifier_key()
                &&& final(self).relayers() == old(self).relayers()
                &&& final(self).commitments() == old(self).commitments()
                &&& final(self).root() == old(self).root()
            },
    {
        match transfer_result {
            Err(e) => {
                self.nullifiers.unmark(instr.nullifier_hash);
                proof {
                    assert forall|m: u64| m != instr.nullifier_hash implies self.spent(m) == old(
                        self,
                    ).spent(m) by {
                        assert(self.nullifiers.is_spent_spec(m) == old(
                            self,
                        ).nullifiers.is_spent_spec(m));
                    }
                }
                return Err(PrivaxError::Transfer(e));
            },
            Ok(_) => {},
        }
        Ok(
            WithdrawalOccurred {
                nullifier_hash: nullifier_hash_bytes(instr.nullifier_hash),
                recipient: instr.recipient,
                token_address: self.token_mint,
                amount: instr.amount,
            },
        )
    }

    /// Position of `key` on the relayer allow-list, if it is listed.
    fn find_relayer(&self, key: &Pubkey) -> (r: Option<usize>)
        ensures
            match r {
                Some(i) => i < self.relayers().len() && self.relayers()[i as int]@ == key@,
                None => !relayer_listed(self.relayers(), key@),
            },
    {
        let mut i: usize = 0;
        while i < self.whitelisted_relayers.len()
            invariant
                0 <= i <= self.relayers().len(),
                forall|j: int| 0 <= j < i ==> self.relayers()[j]@ != key@,
            decreases self.relayers().len() - i,
        {
            if self.whitelisted_relayers[i] == *key {
                return Some(i);
            }
            i += 1;
        }
        None
    }

    /// Whether `key` is on the relayer allow-list.
    pub fn is_whitelisted(&self, key: &Pubkey) -> (r: bool)
        ensures
            r == relayer_listed(self.relayers(), key@),
    {
        let mut i: usize = 0;
        while i < self.whitelisted_relayers.len()
            invariant
                0 <= i <= self.relayers().len(),
                forall|j: int| 0 <= j < i ==> self.relayers()[j]@ != key@,
            decreases self.relayers().len() - i,
        {
            if self.whitelisted_relayers[i] == *key {
                proof {
                    assert(self.relayers()[i as int]@ == key@);
                }
                return true;
            }
            i += 1;
        }
        false
    }

    pub fn admin(&self) -> (r: Pubkey)
        ensures
            r@ == self.admin_key(),
    {
        self.admin
    }

    pub fn token_mint(&self) -> (r: Pubkey)
        ensures
            r@ == self.mint_key(),
    {
        self.token_mint
    }

    pub fn verifier_program_id(&self) -> (r: Pubkey)
        ensures
            r@ == self.verifier_key(),
    {
        self.verifier_program_id
    }

    pub fn relayer_count(&self) -> (n: usize)
        ensures
            n == self.relayers().len(),
    {
        self.whitelisted_relayers.len()
    }

    /// The registry keeps insertion order: the relayer at position `i`.
    pub fn relayer_at(&self, i: usize) -> (r: Pubkey)
        requires
            i < self.relayers().len(),
        ensures
            r == self.relayers()[i as int],
    {
        self.whitelisted_relayers[i]
    }

    /// The accumulator's current summary root, as proofs must reference it.
    pub fn current_root(&self) -> (r: u64)
        ensures
            r == self.root(),
    {
        self.accumulator.current_root()
    }

    pub fn commitment_count(&self) -> (n: usize)
        ensures
            n == self.commitments().len(),
    {
        self.accumulator.len()
    }

    /// The history stays queryable: the commitment admitted at position `i`.
    pub fn commitment_at(&self, i: usize) -> (r: [u8; 32])
        requires
            i < self.commitments().len(),
        ensures
            r@ == self.commitments()[i as int],
    {
        self.accumulator.commitment_at(i)
    }

    pub fn is_spent(&self, n: u64) -> (r: bool)
        ensures
            r == self.spent(n),
    {
        self.nullifiers.is_spent(n)
    }

    pub fn nullifier_count(&self) -> (n: usize)
        ensures
            n == self.spent_nullifiers().len(),
    {
        self.nullifiers.len()
    }
}

/// Removing the one listed position holding `key` from a duplicate-free
/// relayer list keeps it duplicate-free, delists `key`, and keeps every
/// other identity listed as before.
proof fn lemma_remove_listed(s: Seq<Pubkey>, i: int, key: Seq<u8>)
    requires
        0 <= i < s.len(),
        s[i]@ == key,
        forall|p: int, q: int| 0 <= p < q < s.len() ==> s[p]@ != s[q]@,
    ensures
        forall|p: int, q: int|
            0 <= p < q < s.remove(i).len() ==> s.remove(i)[p]@ != s.remove(i)[q]@,
        !relayer_listed(s.remove(i), key),
        forall|k: Seq<u8>| k != key ==> relayer_listed(s.remove(i), k) == relayer_listed(s, k),
        relayer_listed(s, key),
        forall|p: int| 0 <= p < s.remove(i).len() ==> s.contains(s.remove(i)[p]),
{
    s.remove_ensures(i);
    assert forall|k: Seq<u8>| k != key implies relayer_listed(s.remove(i), k) == relayer_listed(
        s,
        k,
    ) by {
        if relayer_listed(s, k) {
            let p = choose|p: int| 0 <= p < s.len() && s[p]@ == k;
            if p < i {
                assert(s.remove(i)[p]@ == k);
            } else {
                assert(s.remove(i)[p - 1]@ == k);
            }
        }
        if relayer_listed(s.remove(i), k) {
            let p = choose|p: int| 0 <= p < s.remove(i).len() && s.remove(i)[p]@ == k;
            if p < i {
                assert(s[p]@ == k);
            } else {
                assert(s[p + 1]@ == k);
            }
        }
    }
    assert forall|p: int| 0 <= p < s.remove(i).len() implies s.remove(i)[p]@ != key by {
        if p < i {
            assert(s.remove(i)[p] == s[p]);
        } else {
            assert(s.remove(i)[p] == s[p + 1]);
        }
    }
    assert forall|p: int| 0 <= p < s.remove(i).len() implies s.contains(s.remove(i)[p]) by {
        if p < i {
            assert(s[p] == s.remove(i)[p]);
        } else {
            assert(s[p + 1] == s.remove(i)[p]);
        }
    }
}

} // verus!
