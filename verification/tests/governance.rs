use privax_protocol::errors::PrivaxError;
use privax_protocol::keys::Pubkey;
use privax_protocol::state::ProgramState;
use privax_protocol::MAX_RELAYERS;

fn key(tag: u8) -> Pubkey {
    let mut bytes = [0u8; 32];
    bytes[0] = tag;
    bytes[31] = tag;
    Pubkey::new(bytes)
}

fn fresh() -> (ProgramState, Pubkey) {
    let admin = key(1);
    let (state, _) = ProgramState::initialize(admin, key(2), key(3));
    (state, admin)
}

#[test]
fn initialize_starts_empty() {
    let admin = key(1);
    let mint = key(2);
    let verifier = key(3);
    let (state, event) = ProgramState::initialize(admin, mint, verifier);
    assert!(state.admin() == admin);
    assert!(state.token_mint() == mint);
    assert!(state.verifier_program_id() == verifier);
    assert_eq!(state.relayer_count(), 0);
    assert_eq!(state.commitment_count(), 0);
    assert_eq!(state.nullifier_count(), 0);
    assert!(event.old_admin == Pubkey::zero());
    assert!(event.new_admin == admin);
}

#[test]
fn add_relayer_succeeds_for_admin() {
    let (mut state, admin) = fresh();
    let relayer = key(7);
    let event = state.add_relayer(&admin, relayer).unwrap();
    assert!(event.relayer_address == relayer);
    assert_eq!(state.relayer_count(), 1);
    assert!(state.is_whitelisted(&relayer));
}

#[test]
fn add_relayer_rejects_non_admin() {
    let (mut state, _) = fresh();
    let outsider = key(9);
    let r = state.add_relayer(&outsider, key(7)).map(|_| ());
    assert_eq!(r, Err(PrivaxError::NotAdmin));
    assert_eq!(state.relayer_count(), 0);
}

#[test]
fn add_relayer_rejects_zero_address() {
    let (mut state, admin) = fresh();
    let r = state.add_relayer(&admin, Pubkey::zero()).map(|_| ());
    assert_eq!(r, Err(PrivaxError::InvalidRelayerAddress));
}

#[test]
fn add_relayer_rejects_duplicate() {
    let (mut state, admin) = fresh();
    let relayer = key(7);
    state.add_relayer(&admin, relayer).unwrap();
    let r = state.add_relayer(&admin, relayer).map(|_| ());
    assert_eq!(r, Err(PrivaxError::RelayerAlreadyWhitelisted));
    assert_eq!(state.relayer_count(), 1);
}

#[test]
fn tenth_relayer_fits_eleventh_does_not() {
    let (mut state, admin) = fresh();
    for tag in 0..MAX_RELAYERS {
        let r = state.add_relayer(&admin, key(100 + tag as u8));
        assert!(r.is_ok());
    }
    assert_eq!(state.relayer_count(), MAX_RELAYERS);
    let r = state.add_relayer(&admin, key(200)).map(|_| ());
    assert_eq!(r, Err(PrivaxError::CapacityExceeded));
    assert_eq!(state.relayer_count(), MAX_RELAYERS);
}

#[test]
fn remove_relayer_rejects_unlisted() {
    let (mut state, admin) = fresh();
    let r = state.remove_relayer(&admin, key(7)).map(|_| ());
    assert_eq!(r, Err(PrivaxError::RelayerNotWhitelisted));
}

#[test]
fn remove_relayer_rejects_non_admin() {
    let (mut state, admin) = fresh();
    state.add_relayer(&admin, key(7)).unwrap();
    let outsider = key(9);
    let r = state.remove_relayer(&outsider, key(7)).map(|_| ());
    assert_eq!(r, Err(PrivaxError::NotAdmin));
    assert!(state.is_whitelisted(&key(7)));
}

#[test]
fn remove_relayer_keeps_the_others() {
    let (mut state, admin) = fresh();
    state.add_relayer(&admin, key(7)).unwrap();
    state.add_relayer(&admin, key(8)).unwrap();
    state.add_relayer(&admin, key(9)).unwrap();
    let event = state.remove_relayer(&admin, key(8)).unwrap();
    assert!(event.relayer_address == key(8));
    assert_eq!(state.relayer_count(), 2);
    assert!(state.is_whitelisted(&key(7)));
    assert!(!state.is_whitelisted(&key(8)));
    assert!(state.is_whitelisted(&key(9)));
    // The survivors keep their relative order.
    assert!(state.relayer_at(0) == key(7));
    assert!(state.relayer_at(1) == key(9));
}

#[test]
fn remove_after_add_restores_the_registry() {
    let (mut state, admin) = fresh();
    state.add_relayer(&admin, key(7)).unwrap();
    state.add_relayer(&admin, key(8)).unwrap();
    state.add_relayer(&admin, key(9)).unwrap();
    state.add_relayer(&admin, key(12)).unwrap();
    state.remove_relayer(&admin, key(12)).unwrap();
    // Exactly the registry from before the add, order included.
    assert_eq!(state.relayer_count(), 3);
    assert!(state.relayer_at(0) == key(7));
    assert!(state.relayer_at(1) == key(8));
    assert!(state.relayer_at(2) == key(9));
}

#[test]
fn transfer_ownership_rejects_zero() {
    let (mut state, admin) = fresh();
    let r = state.transfer_ownership(&admin, Pubkey::zero()).map(|_| ());
    assert_eq!(r, Err(PrivaxError::NewAdminIsZero));
    assert!(state.admin() == admin);
}

#[test]
fn transfer_ownership_rejects_non_admin() {
    let (mut state, _) = fresh();
    let outsider = key(9);
    let r = state.transfer_ownership(&outsider, key(10)).map(|_| ());
    assert_eq!(r, Err(PrivaxError::NotAdmin));
}

#[test]
fn transfer_ownership_swaps_admin() {
    let (mut state, admin) = fresh();
    let new_admin = key(10);
    let event = state.transfer_ownership(&admin, new_admin).unwrap();
    assert!(event.old_admin == admin);
    assert!(event.new_admin == new_admin);
    assert!(state.admin() == new_admin);
    // The old admin has lost its governance rights.
    let r = state.add_relayer(&admin, key(7)).map(|_| ());
    assert_eq!(r, Err(PrivaxError::NotAdmin));
    // The new admin holds them.
    assert!(state.add_relayer(&new_admin, key(7)).is_ok());
}
