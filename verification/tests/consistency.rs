use raiden_channels::channel::machine::sanity_check;
use raiden_channels::channel::state_transition;
use raiden_channels::channel::transitions::ChannelTransition;
use raiden_channels::channel::utils::{compute_locks_with, compute_locks_without, compute_locksroot};
use raiden_channels::hashing::compute_locksroot_of_no_locks;
use raiden_channels::map::LinearMap;
use raiden_channels::primitives::{Address, H256, U256};
use raiden_channels::types::random::Random;
use raiden_channels::types::state::{
    BalanceProofState, CanonicalIdentifier, ChannelState, HashTimeLockState, MediationFeeConfig,
    PendingLocksState, PendingWithdrawState, TransactionExecutionStatus, TransactionResult,
};
use raiden_channels::types::state_change::{ReceiveUnlock, StateChange};
use raiden_channels::views::{channel_balance, channel_distributable};

fn amount(x: u64) -> U256 {
    U256::from_u64(x)
}

fn address(b: u8) -> Address {
    Address { bytes: [b; 20] }
}

fn channel() -> ChannelState {
    ChannelState::new(
        CanonicalIdentifier {
            chain_identifier: 5,
            token_network_address: address(0x11),
            channel_identifier: amount(1),
        },
        address(0x22),
        address(0x33),
        address(1),
        address(2),
        50,
        500,
        TransactionExecutionStatus {
            started_block_number: Some(1),
            finished_block_number: Some(2),
            result: Some(TransactionResult::Success),
        },
        MediationFeeConfig::new(),
    )
    .ok()
    .expect("channel")
}

fn balance_proof_with(transferred: u64) -> BalanceProofState {
    BalanceProofState {
        nonce: amount(1),
        transferred_amount: amount(transferred),
        locked_amount: amount(0),
        locksroot: compute_locksroot_of_no_locks(),
        canonical_identifier: channel().canonical_identifier,
        balance_hash: H256::zero(),
        message_hash: None,
        signature: None,
        sender: None,
    }
}

#[test]
fn the_whole_deposit_is_accounted_for() {
    let mut c = channel();
    c.our_state.contract_balance = amount(100);
    c.partner_state.contract_balance = amount(50);
    c.our_state.onchain_total_withdraw = amount(10);
    c.our_state.balance_proof = Some(balance_proof_with(30));
    c.partner_state.balance_proof = Some(balance_proof_with(5));
    let ours = channel_balance(&c.our_state, &c.partner_state);
    let theirs = channel_balance(&c.partner_state, &c.our_state);
    assert_eq!(ours, amount(65));
    assert_eq!(theirs, amount(75));
    assert_eq!(ours.add(theirs), c.capacity());
    let distributable = channel_distributable(&c.our_state, &c.partner_state);
    assert_eq!(distributable, amount(65));
}

#[test]
fn removing_a_lock_just_added_restores_the_pending_locks() {
    let lock = HashTimeLockState::create(amount(10), 100, H256 { bytes: [7; 32] });
    let other = HashTimeLockState::create(amount(3), 90, H256 { bytes: [8; 32] });
    let base = compute_locks_with(&PendingLocksState::new(), other).expect("first lock");
    let with = compute_locks_with(&base, lock).expect("new lock");
    assert_eq!(with.locks.len(), 2);
    assert!(compute_locks_with(&with, lock).is_none());
    let without = compute_locks_without(&with, &lock).expect("known lock");
    assert_eq!(without.locks.len(), 1);
    assert!(without.locks[0].equals(&base.locks[0]));
    assert!(compute_locksroot(&without).equals(&compute_locksroot(&base)));
    assert!(compute_locks_without(&without, &lock).is_none());
}

#[test]
fn consistent_channel_passes_the_check() {
    let mut c = channel();
    c.our_state.contract_balance = amount(100);
    let t = ChannelTransition { new_state: Some(c), events: vec![] };
    assert!(sanity_check(t).is_ok());
    let cleared = ChannelTransition { new_state: None, events: vec![] };
    assert!(sanity_check(cleared).is_ok());
}

#[test]
fn locks_without_a_balance_proof_fail_the_check() {
    let mut c = channel();
    c.our_state.contract_balance = amount(100);
    let lock = HashTimeLockState::create(amount(4), 100, H256 { bytes: [7; 32] });
    c.our_state.secrethashes_to_lockedlocks.insert(lock.secrethash, lock);
    let t = ChannelTransition { new_state: Some(c), events: vec![] };
    let e = sanity_check(t).err().expect("inconsistent");
    assert_eq!(
        e.msg,
        "The sum of the lock's amounts, and the value of the balance proof locked_amount must be equal, otherwise settle will not reserve the proper amount of tokens."
    );
}

#[test]
fn wrong_locksroot_fails_the_check() {
    let mut c = channel();
    c.our_state.contract_balance = amount(100);
    let mut bp = balance_proof_with(0);
    bp.locksroot = H256 { bytes: [9; 32] };
    c.our_state.balance_proof = Some(bp);
    let t = ChannelTransition { new_state: Some(c), events: vec![] };
    let e = sanity_check(t).err().expect("inconsistent");
    assert_eq!(
        e.msg,
        "The balance proof locks root must match the existing locks. Otherwise it is not possible to prove on-chain that a given lock was pending."
    );
}

#[test]
fn unordered_withdraws_fail_the_check() {
    let mut c = channel();
    c.our_state.contract_balance = amount(100);
    let mut pending = LinearMap::new();
    pending.insert(
        amount(50),
        PendingWithdrawState { total_withdraw: amount(50), expiration: 10, nonce: amount(1), recipient_metadata: None },
    );
    pending.insert(
        amount(20),
        PendingWithdrawState { total_withdraw: amount(20), expiration: 10, nonce: amount(2), recipient_metadata: None },
    );
    c.our_state.withdraws_pending = pending;
    let t = ChannelTransition { new_state: Some(c), events: vec![] };
    let e = sanity_check(t).err().expect("inconsistent");
    assert_eq!(e.msg, "Total withdraws must be ordered");
}

#[test]
fn mismatched_withdraw_key_fails_the_check() {
    let mut c = channel();
    c.our_state.contract_balance = amount(100);
    c.our_state.withdraws_pending.insert(
        amount(50),
        PendingWithdrawState { total_withdraw: amount(40), expiration: 10, nonce: amount(1), recipient_metadata: None },
    );
    let t = ChannelTransition { new_state: Some(c), events: vec![] };
    let e = sanity_check(t).err().expect("inconsistent");
    assert_eq!(e.msg, "Total withdraw mismatch");
}

#[test]
fn channels_do_not_take_unlocks_directly() {
    let mut random = Random::new();
    let unlock = ReceiveUnlock {
        sender: address(2),
        message_identifier: 1,
        secret: H256::zero(),
        secrethash: H256::zero(),
        balance_proof: balance_proof_with(0),
    };
    let r = state_transition(channel(), StateChange::ReceiveUnlock(unlock), 1, H256::zero(), &mut random);
    assert_eq!(r.err().map(|e| e.msg), Some("Could not transition channel".to_string()));
}
