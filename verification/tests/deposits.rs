use privax_protocol::accumulator::ROOT_PRIME;
use privax_protocol::accumulator::ROOT_SEED;
use privax_protocol::errors::PrivaxError;
use privax_protocol::errors::TransferError;
use privax_protocol::keys::Pubkey;
use privax_protocol::state::ProgramState;

fn key(tag: u8) -> Pubkey {
    let mut bytes = [0u8; 32];
    bytes[0] = tag;
    Pubkey::new(bytes)
}

fn fresh() -> ProgramState {
    let (state, _) = ProgramState::initialize(key(1), key(2), key(3));
    state
}

/// The root a history of commitments must summarize to: the seed with every
/// commitment's bytes folded in, in order.
fn expected_root(commitments: &[[u8; 32]]) -> u64 {
    let mut acc = ROOT_SEED;
    for c in commitments {
        for b in c {
            acc = acc.wrapping_mul(ROOT_PRIME).wrapping_add(*b as u64);
        }
    }
    acc
}

#[test]
fn deposit_validate_rejects_zero_amount() {
    let state = fresh();
    assert_eq!(state.deposit_validate(0), Err(PrivaxError::AmountTooSmall));
    assert_eq!(state.deposit_validate(1), Ok(()));
}

#[test]
fn deposit_rejects_zero_amount() {
    let mut state = fresh();
    let r = state.deposit(key(4), 0, [5u8; 32], Ok(()));
    assert_eq!(r.map(|_| ()), Err(PrivaxError::AmountTooSmall));
    assert_eq!(state.commitment_count(), 0);
}

#[test]
fn deposit_passes_transfer_failure_through_and_admits_nothing() {
    let mut state = fresh();
    let cause = TransferError { code: 17 };
    let r = state.deposit(key(4), 100, [5u8; 32], Err(cause));
    assert_eq!(r.map(|_| ()), Err(PrivaxError::Transfer(cause)));
    assert_eq!(state.commitment_count(), 0);
    assert_eq!(state.current_root(), ROOT_SEED);
}

#[test]
fn deposit_admits_commitment_and_updates_root() {
    let mut state = fresh();
    let user = key(4);
    let commitment = [5u8; 32];
    let event = state.deposit(user, 100, commitment, Ok(())).unwrap();
    assert!(event.user == user);
    assert!(event.token_address == key(2));
    assert_eq!(event.amount, 100);
    assert_eq!(event.commitment, commitment);
    assert_eq!(state.commitment_count(), 1);
    assert_eq!(state.commitment_at(0), commitment);
    assert_eq!(state.current_root(), expected_root(&[commitment]));
    assert_ne!(state.current_root(), ROOT_SEED);
}

#[test]
fn deposits_never_disturb_earlier_commitments() {
    let mut state = fresh();
    let c1 = [5u8; 32];
    let c2 = [6u8; 32];
    state.deposit(key(4), 100, c1, Ok(())).unwrap();
    let root_after_one = state.current_root();
    state.deposit(key(4), 50, c2, Ok(())).unwrap();
    assert_eq!(state.commitment_count(), 2);
    assert_eq!(state.commitment_at(0), c1);
    assert_eq!(state.commitment_at(1), c2);
    assert_ne!(state.current_root(), root_after_one);
    assert_eq!(state.current_root(), expected_root(&[c1, c2]));
}

#[test]
fn root_is_a_function_of_the_ordered_history() {
    let c1 = [5u8; 32];
    let c2 = [6u8; 32];
    let mut a = fresh();
    let mut b = fresh();
    a.deposit(key(4), 100, c1, Ok(())).unwrap();
    a.deposit(key(5), 200, c2, Ok(())).unwrap();
    b.deposit(key(9), 1, c1, Ok(())).unwrap();
    b.deposit(key(8), 2, c2, Ok(())).unwrap();
    // Same commitment order: same root, whoever deposited and whatever the
    // amounts were.
    assert_eq!(a.current_root(), b.current_root());
    // The reverse order gives a different summary.
    let mut c = fresh();
    c.deposit(key(4), 100, c2, Ok(())).unwrap();
    c.deposit(key(5), 200, c1, Ok(())).unwrap();
    assert_ne!(a.current_root(), c.current_root());
}
