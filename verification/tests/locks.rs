use raiden_channels::channel::locks::{
    delete_lock, handle_receive_lock_expired, handle_receive_locked_transfer, handle_unlock,
    lock_exists_in_either_channel_side, register_offchain_secret, register_onchain_secret,
    send_lock_expired, send_locked_transfer, send_unlock,
};
use raiden_channels::channel::utils::compute_locksroot;
use raiden_channels::channel::views::get_amount_locked;
use raiden_channels::hashing::{hash_balance_data, keccak, pack_balance_proof};
use raiden_channels::primitives::{Address, Signature, H256, U256};
use raiden_channels::types::event::Event;
use raiden_channels::types::random::Random;
use raiden_channels::types::state::{
    BalanceProofState, CanonicalIdentifier, ChannelState, LockedTransferState, MediationFeeConfig,
    TransactionExecutionStatus, TransactionResult,
};
use raiden_channels::types::state_change::{ReceiveLockExpired, ReceiveUnlock};
use web3::signing::Key;

fn secret_key(name: &str) -> web3::signing::SecretKey {
    let mut secret = [0u8; 32];
    secret[..name.len()].copy_from_slice(name.as_bytes());
    web3::signing::SecretKey::from_slice(&secret).expect("valid key")
}

fn address_of(name: &str) -> Address {
    Address { bytes: web3::signing::SecretKeyRef::new(&secret_key(name)).address().0 }
}

fn amount(x: u64) -> U256 {
    U256::from_u64(x)
}

fn canonical_identifier() -> CanonicalIdentifier {
    CanonicalIdentifier {
        chain_identifier: 5,
        token_network_address: Address { bytes: [0x11; 20] },
        channel_identifier: amount(1),
    }
}

/// The channel as `our` sees it, with both deposits made.
fn channel(our: &str, our_deposit: u64, partner: &str, partner_deposit: u64) -> ChannelState {
    let mut c = ChannelState::new(
        canonical_identifier(),
        Address { bytes: [0x22; 20] },
        Address { bytes: [0x33; 20] },
        address_of(our),
        address_of(partner),
        50,
        500,
        TransactionExecutionStatus {
            started_block_number: Some(1),
            finished_block_number: Some(2),
            result: Some(TransactionResult::Success),
        },
        MediationFeeConfig::new(),
    )
    .ok()
    .expect("channel");
    c.our_state.contract_balance = amount(our_deposit);
    c.partner_state.contract_balance = amount(partner_deposit);
    c
}

/// `bp` signed by `signer`, as the transport would send it.
fn signed(bp: &BalanceProofState, signer: &str) -> BalanceProofState {
    let balance_hash = hash_balance_data(bp.transferred_amount, bp.locked_amount, bp.locksroot);
    let data = pack_balance_proof(bp.nonce, balance_hash, H256::zero(), bp.canonical_identifier);
    let digest = web3::signing::hash_message(&data);
    let sig = web3::signing::SecretKeyRef::new(&secret_key(signer))
        .sign(digest.as_bytes(), None)
        .expect("signature");
    let mut bytes = [0u8; 65];
    bytes[..32].copy_from_slice(sig.r.as_bytes());
    bytes[32..64].copy_from_slice(sig.s.as_bytes());
    bytes[64] = sig.v as u8;
    let mut out = *bp;
    out.signature = Some(Signature { bytes });
    out.sender = Some(address_of(signer));
    out
}

fn secret() -> H256 {
    H256 { bytes: [0x5a; 32] }
}

fn secrethash() -> H256 {
    keccak(&secret().bytes)
}

/// Alice sends Bob a locked transfer of 10 tokens.
fn alice_sends_transfer() -> (ChannelState, LockedTransferState) {
    let alice = channel("ALICE", 100, "BOB", 0);
    let (alice, event) = send_locked_transfer(
        alice,
        address_of("ALICE"),
        address_of("BOB"),
        amount(10),
        100,
        secrethash(),
        7,
        1,
        vec![],
        None,
    )
    .expect("transfer");
    (alice, event.transfer)
}

#[test]
fn locked_transfer_updates_sender_end() {
    let (alice, transfer) = alice_sends_transfer();
    let bp = alice.our_state.balance_proof.expect("balance proof");
    assert_eq!(bp.nonce, amount(1));
    assert_eq!(bp.transferred_amount, amount(0));
    assert_eq!(bp.locked_amount, amount(10));
    assert!(bp.locksroot.equals(&compute_locksroot(&alice.our_state.pending_locks)));
    assert_eq!(alice.our_state.nonce, amount(1));
    assert_eq!(alice.our_state.pending_locks.locks.len(), 1);
    assert!(alice.our_state.secrethashes_to_lockedlocks.contains_key(&secrethash()));
    assert_eq!(get_amount_locked(&alice.our_state), amount(10));
    assert_eq!(transfer.lock.amount, amount(10));
    assert_eq!(transfer.lock.expiration, 100);
    assert!(lock_exists_in_either_channel_side(&alice, secrethash()));
}

#[test]
fn locked_transfer_beyond_distributable_is_refused() {
    let alice = channel("ALICE", 5, "BOB", 0);
    let r = send_locked_transfer(
        alice,
        address_of("ALICE"),
        address_of("BOB"),
        amount(10),
        100,
        secrethash(),
        7,
        1,
        vec![],
        None,
    );
    assert_eq!(r.err(), Some("Caller must make sure there is enough balance".to_string()));
}

#[test]
fn same_lock_twice_is_refused() {
    let (alice, _) = alice_sends_transfer();
    let r = send_locked_transfer(
        alice,
        address_of("ALICE"),
        address_of("BOB"),
        amount(10),
        100,
        secrethash(),
        8,
        1,
        vec![],
        None,
    );
    assert_eq!(r.err(), Some("Caller must make sure the lock isn't used twice".to_string()));
}

#[test]
fn partner_accepts_signed_transfer() {
    let (_, transfer) = alice_sends_transfer();
    let mut bob = channel("BOB", 0, "ALICE", 100);
    let mut received = transfer;
    received.balance_proof = signed(&received.balance_proof, "ALICE");
    let event = handle_receive_locked_transfer(&mut bob, received, None).expect("handled");
    match event {
        Event::SendProcessed(e) => {
            assert!(e.inner.recipient.equals(&address_of("ALICE")));
            assert_eq!(e.inner.message_identifier, 7);
        },
        _ => panic!("expected processed"),
    }
    assert_eq!(bob.partner_state.nonce, amount(1));
    assert!(bob.partner_state.secrethashes_to_lockedlocks.contains_key(&secrethash()));
    assert_eq!(get_amount_locked(&bob.partner_state), amount(10));
    let bp = bob.partner_state.balance_proof.expect("balance proof");
    assert!(bp.locksroot.equals(&compute_locksroot(&bob.partner_state.pending_locks)));
}

#[test]
fn partner_refuses_unsigned_transfer() {
    let (_, transfer) = alice_sends_transfer();
    let mut bob = channel("BOB", 0, "ALICE", 100);
    let mut received = transfer;
    received.balance_proof.sender = Some(address_of("ALICE"));
    let event = handle_receive_locked_transfer(&mut bob, received, None).expect("handled");
    match event {
        Event::ErrorInvalidReceivedLockedTransfer(e) => {
            assert_eq!(e.payment_identifier, 1);
            assert_eq!(e.reason, "Invalid LockedTransfer message. Balance proof must be signed");
        },
        _ => panic!("expected an invalid transfer"),
    }
    assert!(bob.partner_state.balance_proof.is_none());
    assert_eq!(bob.partner_state.pending_locks.locks.len(), 0);
}

#[test]
fn transfer_without_sender_fails() {
    let (_, transfer) = alice_sends_transfer();
    let mut bob = channel("BOB", 0, "ALICE", 100);
    let r = handle_receive_locked_transfer(&mut bob, transfer, None);
    assert_eq!(r.err(), Some("The transfer's sender is None".to_string()));
}

#[test]
fn partner_refuses_transfer_with_wrong_nonce() {
    let (_, transfer) = alice_sends_transfer();
    let mut bob = channel("BOB", 0, "ALICE", 100);
    let mut received = transfer;
    received.balance_proof.nonce = amount(2);
    received.balance_proof = signed(&received.balance_proof, "ALICE");
    let event = handle_receive_locked_transfer(&mut bob, received, None).expect("handled");
    match event {
        Event::ErrorInvalidReceivedLockedTransfer(e) => {
            assert_eq!(
                e.reason,
                "Invalid LockedTransfer message. Nonce did not change sequentially. Expected: 1 got: 2"
            );
        },
        _ => panic!("expected an invalid transfer"),
    }
}

#[test]
fn unlock_round_trip() {
    let (mut alice, transfer) = alice_sends_transfer();
    let mut bob = channel("BOB", 0, "ALICE", 100);
    let mut received = transfer;
    received.balance_proof = signed(&received.balance_proof, "ALICE");
    handle_receive_locked_transfer(&mut bob, received, None).expect("handled");

    register_offchain_secret(&mut alice, secret(), secrethash());
    assert!(alice.our_state.secrethashes_to_unlockedlocks.contains_key(&secrethash()));
    assert!(alice.our_state.get_secret(secrethash()).expect("secret").equals(&secret()));

    let unlock = send_unlock(&mut alice, 9, 1, secret(), secrethash(), 20, None).expect("unlock");
    assert_eq!(unlock.balance_proof.nonce, amount(2));
    assert_eq!(unlock.balance_proof.transferred_amount, amount(10));
    assert_eq!(unlock.balance_proof.locked_amount, amount(0));
    assert_eq!(alice.our_state.nonce, amount(2));
    assert_eq!(alice.our_state.pending_locks.locks.len(), 0);
    assert!(!lock_exists_in_either_channel_side(&alice, secrethash()));
    assert!(!alice.our_state.secrethashes_to_unlockedlocks.contains_key(&secrethash()));

    let received = ReceiveUnlock {
        sender: address_of("ALICE"),
        message_identifier: 9,
        secret: secret(),
        secrethash: secrethash(),
        balance_proof: signed(&unlock.balance_proof, "ALICE"),
    };
    let event = handle_unlock(&mut bob, received, None).expect("handled");
    assert!(matches!(event, Event::SendProcessed(_)));
    let bp = bob.partner_state.balance_proof.expect("balance proof");
    assert_eq!(bp.transferred_amount, amount(10));
    assert_eq!(bob.partner_state.pending_locks.locks.len(), 0);
    assert!(!bob.partner_state.secrethashes_to_lockedlocks.contains_key(&secrethash()));
}

#[test]
fn unlock_of_unknown_lock_fails() {
    let mut alice = channel("ALICE", 100, "BOB", 0);
    let r = send_unlock(&mut alice, 9, 1, secret(), secrethash(), 20, None);
    assert_eq!(r.err(), Some("Caller must ensure the lock exists".to_string()));
}

#[test]
fn unlock_of_expired_lock_fails() {
    let (mut alice, _) = alice_sends_transfer();
    let r = send_unlock(&mut alice, 9, 1, secret(), secrethash(), 100, None);
    assert_eq!(r.err(), Some("Lock expired".to_string()));
    assert_eq!(alice.our_state.nonce, amount(1));
}

#[test]
fn unlock_on_closed_channel_fails() {
    let (mut alice, _) = alice_sends_transfer();
    alice.close_transaction = Some(TransactionExecutionStatus {
        started_block_number: Some(3),
        finished_block_number: Some(3),
        result: Some(TransactionResult::Success),
    });
    let r = send_unlock(&mut alice, 9, 1, secret(), secrethash(), 20, None);
    assert_eq!(r.err(), Some("Channel is not open".to_string()));
}

#[test]
fn lock_expiry_round_trip() {
    let (alice, transfer) = alice_sends_transfer();
    let mut bob = channel("BOB", 0, "ALICE", 100);
    let mut received = transfer;
    received.balance_proof = signed(&received.balance_proof, "ALICE");
    handle_receive_locked_transfer(&mut bob, received, None).expect("handled");

    let lock = *alice.our_state.secrethashes_to_lockedlocks.get(&secrethash()).expect("lock");
    let mut random = Random::new();
    let (alice, events) = send_lock_expired(alice, lock, &mut random, None).expect("expired");
    assert_eq!(events.len(), 1);
    let bp = events[0].balance_proof;
    assert_eq!(bp.nonce, amount(2));
    assert_eq!(bp.locked_amount, amount(0));
    assert_eq!(alice.our_state.pending_locks.locks.len(), 0);
    assert!(!alice.our_state.secrethashes_to_lockedlocks.contains_key(&secrethash()));

    let received = ReceiveLockExpired {
        sender: address_of("ALICE"),
        secrethash: secrethash(),
        message_identifier: 11,
        balance_proof: signed(&bp, "ALICE"),
    };
    let result = handle_receive_lock_expired(bob, received, 105, None).ok().expect("handled");
    assert!(matches!(result.events[0], Event::SendProcessed(_)));
    let bob = result.new_state.expect("channel");
    assert_eq!(bob.partner_state.pending_locks.locks.len(), 0);
    assert!(!bob.partner_state.secrethashes_to_lockedlocks.contains_key(&secrethash()));
}

#[test]
fn early_lock_expiry_is_refused() {
    let (alice, transfer) = alice_sends_transfer();
    let mut bob = channel("BOB", 0, "ALICE", 100);
    let mut received = transfer;
    received.balance_proof = signed(&received.balance_proof, "ALICE");
    handle_receive_locked_transfer(&mut bob, received, None).expect("handled");
    let lock = *alice.our_state.secrethashes_to_lockedlocks.get(&secrethash()).expect("lock");
    let mut random = Random::new();
    let (_, events) = send_lock_expired(alice, lock, &mut random, None).expect("expired");
    let received = ReceiveLockExpired {
        sender: address_of("ALICE"),
        secrethash: secrethash(),
        message_identifier: 11,
        balance_proof: signed(&events[0].balance_proof, "ALICE"),
    };
    let result = handle_receive_lock_expired(bob, received, 101, None).ok().expect("handled");
    match &result.events[0] {
        Event::ErrorInvalidReceivedLockExpired(e) => {
            assert_eq!(
                e.reason,
                "Invalid LockExpired message. Current block number (101) is not larger than lock.expiration + confirmation blocks (105)"
            );
        },
        _ => panic!("expected an invalid lock expired"),
    }
}

#[test]
fn lock_expired_without_sender_fails() {
    let bob = channel("BOB", 0, "ALICE", 100);
    let bp = BalanceProofState {
        nonce: amount(1),
        transferred_amount: amount(0),
        locked_amount: amount(0),
        locksroot: H256::zero(),
        canonical_identifier: canonical_identifier(),
        balance_hash: H256::zero(),
        message_hash: None,
        signature: None,
        sender: None,
    };
    let received = ReceiveLockExpired {
        sender: address_of("ALICE"),
        secrethash: secrethash(),
        message_identifier: 11,
        balance_proof: bp,
    };
    let r = handle_receive_lock_expired(bob, received, 200, None);
    assert_eq!(r.err().map(|e| e.msg), Some("The transfer's sender is None".to_string()));
}

#[test]
fn onchain_secret_registration_keeps_unexpired_lock() {
    let (mut alice, _) = alice_sends_transfer();
    register_onchain_secret(&mut alice, secret(), secrethash(), 50, false);
    assert!(alice.our_state.secrethashes_to_onchain_unlockedlocks.contains_key(&secrethash()));
    assert!(alice.our_state.secret_known_onchain(secrethash()));

    let (mut late, _) = alice_sends_transfer();
    register_onchain_secret(&mut late, secret(), secrethash(), 101, false);
    assert!(!late.our_state.secrethashes_to_onchain_unlockedlocks.contains_key(&secrethash()));
}

#[test]
fn deleted_lock_is_gone() {
    let (mut alice, _) = alice_sends_transfer();
    delete_lock(&mut alice.our_state, secrethash());
    assert!(!lock_exists_in_either_channel_side(&alice, secrethash()));
}
