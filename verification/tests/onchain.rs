use raiden_channels::hashing::{compute_locksroot_of_no_locks, hash_balance_data, pack_withdraw};
use raiden_channels::map::LinearMap;
use raiden_channels::onchain::{
    batch_unlock_lookups, close_arguments, coop_settle_withdraw_data, our_settle_amounts,
    our_unlock, partner_settle_amounts, partner_unlock, update_lock_info,
    update_transfer_arguments,
};
use raiden_channels::primitives::{Address, Signature, H256, U256};
use raiden_channels::types::event::{
    ContractSendChannelClose, ContractSendChannelCoopSettle, ContractSendChannelUpdateTransfer,
    ContractSendEventInner, Event, SendLockExpired, SendMessageEventInner,
};
use raiden_channels::types::state::{
    BalanceProofState, CanonicalIdentifier, ChainState, ChannelEndState, ChannelState,
    HashTimeLockState, InitiatorPaymentState, InitiatorTask, MediationFeeConfig,
    TransactionExecutionStatus, TransactionResult, TransferRole, TransferTask,
    UnlockPartialProofState,
};
use raiden_channels::types::state_change::{Block, ReceiveUnlock, StateChange};

fn address(b: u8) -> Address {
    Address { bytes: [b; 20] }
}

fn hash(b: u8) -> H256 {
    H256 { bytes: [b; 32] }
}

fn amount(x: u64) -> U256 {
    U256::from_u64(x)
}

fn canonical_identifier() -> CanonicalIdentifier {
    CanonicalIdentifier {
        chain_identifier: 5,
        token_network_address: address(0x11),
        channel_identifier: amount(1),
    }
}

fn balance_proof(transferred: u64, locked: u64) -> BalanceProofState {
    BalanceProofState {
        nonce: amount(3),
        transferred_amount: amount(transferred),
        locked_amount: amount(locked),
        locksroot: hash(7),
        canonical_identifier: canonical_identifier(),
        balance_hash: hash_balance_data(amount(transferred), amount(locked), hash(7)),
        message_hash: Some(hash(8)),
        signature: Some(Signature { bytes: [9; 65] }),
        sender: Some(address(0xbb)),
    }
}

fn channel() -> ChannelState {
    ChannelState::new(
        canonical_identifier(),
        address(0x22),
        address(0x33),
        address(0xaa),
        address(0xbb),
        50,
        500,
        TransactionExecutionStatus {
            started_block_number: Some(1),
            finished_block_number: Some(2),
            result: Some(TransactionResult::Success),
        },
        MediationFeeConfig::new(),
    )
    .expect("channel should be created")
}

fn lock(secrethash: u8, value: u64) -> HashTimeLockState {
    HashTimeLockState::create(amount(value), 100, hash(secrethash))
}

fn unlock(secrethash: u8, value: u64) -> UnlockPartialProofState {
    let lock = lock(secrethash, value);
    UnlockPartialProofState {
        lock,
        secret: hash(secrethash + 100),
        amount: lock.amount,
        expiration: lock.expiration,
        secrethash: lock.secrethash,
        encoded: lock.encoded,
    }
}

fn node_paying_for(secrethashes: &[u8]) -> ChainState {
    let mut chain_state = ChainState::new(5, 1, H256::zero(), address(0xaa));
    for s in secrethashes {
        chain_state.payment_mapping.secrethashes_to_task.insert(
            hash(*s),
            TransferTask::Initiator(InitiatorTask {
                role: TransferRole::Initiator,
                token_network_address: address(0x11),
                manager_state: InitiatorPaymentState {
                    routes: vec![],
                    initiator_transfers: LinearMap::new(),
                    cancelled_channels: vec![],
                },
            }),
        );
    }
    chain_state
}

#[test]
fn close_without_balance_proof_uses_zeros() {
    let event = ContractSendChannelClose {
        inner: ContractSendEventInner { triggered_by_blockhash: hash(1) },
        canonical_identifier: canonical_identifier(),
        balance_proof: None,
    };
    let args = close_arguments(&event);
    assert!(args.nonce.is_zero());
    assert_eq!(args.balance_hash.bytes, [0; 32]);
    assert_eq!(args.message_hash.bytes, [0; 32]);
    assert_eq!(args.signature, vec![0u8; 65]);
    assert_eq!(args.canonical_identifier.channel_identifier, amount(1));
}

#[test]
fn close_with_balance_proof_uses_it() {
    let mut bp = balance_proof(10, 0);
    bp.message_hash = None;
    bp.signature = None;
    let event = ContractSendChannelClose {
        inner: ContractSendEventInner { triggered_by_blockhash: hash(1) },
        canonical_identifier: canonical_identifier(),
        balance_proof: Some(bp),
    };
    let args = close_arguments(&event);
    assert_eq!(args.nonce, amount(3));
    assert_eq!(args.balance_hash.bytes, bp.balance_hash.bytes);
    assert!(args.signature.is_empty());
    assert_eq!(args.message_hash.bytes, [0; 32]);

    let event = ContractSendChannelClose {
        inner: ContractSendEventInner { triggered_by_blockhash: hash(1) },
        canonical_identifier: canonical_identifier(),
        balance_proof: Some(balance_proof(10, 0)),
    };
    let args = close_arguments(&event);
    assert_eq!(args.signature, vec![9u8; 65]);
    assert_eq!(args.message_hash.bytes, [8; 32]);
}

#[test]
fn update_transfer_needs_signature_and_hash() {
    let mut event = ContractSendChannelUpdateTransfer {
        inner: ContractSendEventInner { triggered_by_blockhash: hash(1) },
        expiration: 100,
        balance_proof: balance_proof(10, 0),
    };
    let (signature, message_hash) = update_transfer_arguments(&event).expect("complete proof");
    assert_eq!(signature.bytes, [9; 65]);
    assert_eq!(message_hash.bytes, [8; 32]);
    event.balance_proof.message_hash = None;
    assert_eq!(
        update_transfer_arguments(&event).err(),
        Some("Channel update transfer: Message hash is not set".to_string())
    );
    event.balance_proof.signature = None;
    assert_eq!(
        update_transfer_arguments(&event).err(),
        Some("Channel update transfer: Partner signature is not set".to_string())
    );
}

#[test]
fn settle_amounts_come_from_the_stored_balance_proofs() {
    let none = our_settle_amounts(H256::zero(), None).expect("nothing on chain");
    assert!(none.transferred_amount.is_zero());
    assert!(none.locked_amount.is_zero());
    assert_eq!(none.locksroot.bytes, compute_locksroot_of_no_locks().bytes);

    assert_eq!(
        our_settle_amounts(hash(1), None).err(),
        Some("Channel settle: Our balance proof could not be found in the database".to_string())
    );
    let event = Event::SendLockExpired(SendLockExpired {
        inner: SendMessageEventInner {
            recipient: address(0xbb),
            recipient_metadata: None,
            canonical_identifier: canonical_identifier(),
            message_identifier: 1,
        },
        balance_proof: balance_proof(10, 4),
        secrethash: hash(2),
    });
    let ours = our_settle_amounts(hash(1), Some(&event)).expect("stored proof");
    assert_eq!(ours.transferred_amount, amount(10));
    assert_eq!(ours.locked_amount, amount(4));
    assert_eq!(ours.locksroot.bytes, [7; 32]);
    assert_eq!(
        our_settle_amounts(hash(1), Some(&Event::ExpireServicesAddresses(5))).err(),
        Some("Channel settle: found participant event does not contain balance proof".to_string())
    );

    assert_eq!(
        partner_settle_amounts(hash(1), None).err(),
        Some("Channel settle: Partner balance proof could not be found in the database".to_string())
    );
    let state_change = StateChange::ReceiveUnlock(ReceiveUnlock {
        sender: address(0xbb),
        message_identifier: 1,
        secret: hash(3),
        secrethash: hash(4),
        balance_proof: balance_proof(20, 0),
    });
    let partners = partner_settle_amounts(hash(1), Some(&state_change)).expect("stored proof");
    assert_eq!(partners.transferred_amount, amount(20));
    let block = StateChange::Block(Block { block_number: 1, block_hash: hash(1), gas_limit: amount(1) });
    assert!(partner_settle_amounts(hash(1), Some(&block)).is_err());
    assert!(partner_settle_amounts(H256::zero(), Some(&block)).is_ok());
}

#[test]
fn lock_info_follows_the_newer_state() {
    let mut old = ChannelEndState::new(address(0xbb));
    old.secrethashes_to_lockedlocks.insert(hash(1), lock(1, 5));
    old.secrethashes_to_onchain_unlockedlocks.insert(hash(2), unlock(2, 6));
    old.secrethashes_to_unlockedlocks.insert(hash(3), unlock(3, 7));
    let mut new = ChannelEndState::new(address(0xbb));
    new.secrethashes_to_onchain_unlockedlocks.insert(hash(1), unlock(1, 5));
    update_lock_info(&mut old, &new, &node_paying_for(&[2]));
    assert_eq!(old.secrethashes_to_lockedlocks.len(), 1);
    assert_eq!(old.secrethashes_to_lockedlocks.get(&hash(2)).expect("lock").amount, amount(6));
    assert!(old.secrethashes_to_unlockedlocks.is_empty());
    assert_eq!(old.secrethashes_to_onchain_unlockedlocks.len(), 2);
    assert!(old.secrethashes_to_onchain_unlockedlocks.contains_key(&hash(1)));
    assert!(old.secrethashes_to_onchain_unlockedlocks.contains_key(&hash(2)));
}

#[test]
fn unlock_after_settlement_only_where_it_gains() {
    let current = channel();
    let nothing = partner_unlock(channel(), &current, &node_paying_for(&[]));
    assert!(nothing.is_none());

    let mut restored = channel();
    restored.partner_state.secrethashes_to_onchain_unlockedlocks.insert(hash(2), unlock(2, 6));
    assert!(partner_unlock(restored, &current, &node_paying_for(&[])).is_some());

    let mut restored = channel();
    restored.our_state.secrethashes_to_lockedlocks.insert(hash(1), lock(1, 5));
    assert!(our_unlock(restored, &current, &node_paying_for(&[])).is_none());
    let mut restored = channel();
    restored.our_state.secrethashes_to_lockedlocks.insert(hash(1), lock(1, 5));
    assert!(our_unlock(restored, &current, &node_paying_for(&[1])).is_some());
    let mut restored = channel();
    restored.our_state.secrethashes_to_lockedlocks.insert(hash(1), lock(1, 0));
    assert!(our_unlock(restored, &current, &node_paying_for(&[1])).is_none());
}

#[test]
fn fresh_channel_has_nothing_to_unlock() {
    assert_eq!(batch_unlock_lookups(&channel()), (false, false));
    let mut settled = channel();
    settled.partner_state.onchain_locksroot = hash(5);
    assert_eq!(batch_unlock_lookups(&settled), (false, true));
}

#[test]
fn coop_settle_signs_both_withdraws() {
    let event = ContractSendChannelCoopSettle {
        inner: ContractSendEventInner { triggered_by_blockhash: hash(1) },
        canonical_identifier: canonical_identifier(),
        our_total_withdraw: amount(10),
        partner_total_withdraw: amount(20),
        expiration: 100,
        signature_our_withdraw: Signature { bytes: [1; 65] },
        signature_partner_withdraw: Signature { bytes: [2; 65] },
    };
    let (ours, partners) = coop_settle_withdraw_data(&event, &channel());
    assert_eq!(ours, pack_withdraw(canonical_identifier(), address(0xaa), amount(10), 100));
    assert_eq!(partners, pack_withdraw(canonical_identifier(), address(0xbb), amount(20), 100));
    assert_ne!(ours, partners);
}

#[test]
fn payment_events_give_the_payment_status() {
    let sent = raiden_channels::types::event::Event::PaymentSentSuccess(raiden_channels::types::event::PaymentSentSuccess {
        token_network_registry_address: Address { bytes: [1; 20] },
        token_network_address: Address { bytes: [2; 20] },
        identifier: 7,
        amount: U256::from_u64(10),
        target: Address { bytes: [3; 20] },
        secret: H256 { bytes: [4; 32] },
        route: vec![],
    });
    match raiden_channels::onchain::payment_status(&sent) {
        Some(raiden_channels::onchain::PaymentStatus::Success(target, id)) => {
            assert_eq!(target.bytes, [3; 20]);
            assert_eq!(id, 7);
        },
        _ => panic!("expected success"),
    }
    let failed = raiden_channels::types::event::Event::ErrorPaymentSentFailed(raiden_channels::types::event::ErrorPaymentSentFailed {
        token_network_registry_address: Address { bytes: [1; 20] },
        token_network_address: Address { bytes: [2; 20] },
        identifier: 8,
        target: Address { bytes: [3; 20] },
        reason: "Lock expired".to_string(),
    });
    match raiden_channels::onchain::payment_status(&failed) {
        Some(raiden_channels::onchain::PaymentStatus::Error(_, id, reason)) => {
            assert_eq!(id, 8);
            assert_eq!(reason, "Lock expired");
        },
        _ => panic!("expected the failure"),
    }
    assert!(raiden_channels::onchain::payment_status(&raiden_channels::types::event::Event::ExpireServicesAddresses(3)).is_none());
}
