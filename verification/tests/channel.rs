use raiden_channels::channel::state_transition;
use raiden_channels::channel::utils::compute_locksroot;
use raiden_channels::hashing::compute_locksroot_of_no_locks;
use raiden_channels::primitives::{Address, H256, U256};
use raiden_channels::types::event::Event;
use raiden_channels::types::random::Random;
use raiden_channels::types::state::{
    BalanceProofState, CanonicalIdentifier, ChannelState, ChannelStatus, MediationFeeConfig,
    PendingLocksState, PendingWithdrawState, TransactionChannelDeposit, TransactionExecutionStatus,
    TransactionResult,
};
use raiden_channels::types::state_change::{
    ActionChannelSetRevealTimeout, ActionChannelWithdraw, Block, ContractReceiveChannelBatchUnlock,
    ContractReceiveChannelClosed, ContractReceiveChannelDeposit, ContractReceiveChannelSettled,
    ContractReceiveChannelWithdraw, StateChange,
};
use web3::signing::Key;

const CHAIN_ID: u64 = 5;

fn keyring_address(name: &str) -> Address {
    let mut secret = [0u8; 32];
    secret[..name.len()].copy_from_slice(name.as_bytes());
    let key = web3::signing::SecretKey::from_slice(&secret).expect("valid key");
    Address { bytes: web3::signing::SecretKeyRef::new(&key).address().0 }
}

fn alice() -> Address {
    keyring_address("ALICE")
}

fn bob() -> Address {
    keyring_address("BOB")
}

fn address(b: u8) -> Address {
    Address { bytes: [b; 20] }
}

fn hash(b: u8) -> H256 {
    H256 { bytes: [b; 32] }
}

fn amount(x: u64) -> U256 {
    U256::from_u64(x)
}

fn canonical_identifier(channel: u64) -> CanonicalIdentifier {
    CanonicalIdentifier {
        chain_identifier: CHAIN_ID,
        token_network_address: address(0x11),
        channel_identifier: amount(channel),
    }
}

/// A channel opened at block two between `our` and `partner`, as the
/// state-machine's chain builder sets one up.
fn open_channel(channel: u64, our: Address, partner: Address) -> ChannelState {
    ChannelState::new(
        canonical_identifier(channel),
        address(0x22),
        address(0x33),
        our,
        partner,
        50,
        500,
        TransactionExecutionStatus {
            started_block_number: Some(1),
            finished_block_number: Some(2),
            result: Some(TransactionResult::Success),
        },
        MediationFeeConfig::new(),
    )
    .expect("channel should be created")
}

fn same_identifier(a: &CanonicalIdentifier, b: &CanonicalIdentifier) -> bool {
    a.chain_identifier == b.chain_identifier
        && a.token_network_address.equals(&b.token_network_address)
        && a.channel_identifier == b.channel_identifier
}

#[test]
fn test_open_channel_new_block_with_expired_withdraws() {
    let mut channel_state = open_channel(1, alice(), bob());
    channel_state.our_state.contract_balance = amount(1000);
    channel_state.our_state.withdraws_pending.insert(
        amount(100),
        PendingWithdrawState {
            total_withdraw: amount(100),
            expiration: 50,
            nonce: amount(1),
            recipient_metadata: None,
        },
    );
    let partner = channel_state.partner_state.address;
    let our = channel_state.our_state.address;
    let mut random = Random::new();
    let result = state_transition(
        channel_state,
        StateChange::Block(Block { block_number: 511, block_hash: hash(7), gas_limit: amount(0) }),
        511,
        hash(7),
        &mut random,
    )
    .ok()
    .expect("Block should succeed");
    assert!(!result.events.is_empty());
    match &result.events[0] {
        Event::SendWithdrawExpired(e) => {
            assert!(e.inner.recipient.equals(&partner));
            assert!(e.inner.recipient_metadata.is_none());
            assert!(same_identifier(&e.inner.canonical_identifier, &canonical_identifier(1)));
            assert!(e.participant.equals(&our));
            assert_eq!(e.nonce, amount(1));
            assert_eq!(e.expiration, 50);
            assert_eq!(e.total_withdraw, amount(100));
        },
        _ => panic!("expected an expired withdraw"),
    }
}

#[test]
fn test_closed_channel_new_block() {
    let mut channel_state = open_channel(1, alice(), bob());
    channel_state.close_transaction = Some(TransactionExecutionStatus {
        started_block_number: Some(10),
        finished_block_number: Some(10),
        result: Some(TransactionResult::Success),
    });
    let block_hash = hash(9);
    let mut random = Random::new();
    let result = state_transition(
        channel_state,
        StateChange::Block(Block { block_number: 511, block_hash, gas_limit: amount(0) }),
        511,
        block_hash,
        &mut random,
    )
    .ok()
    .expect("Block should succeed");
    assert!(!result.events.is_empty());
    match &result.events[0] {
        Event::ContractSendChannelSettle(e) => {
            assert!(e.inner.triggered_by_blockhash.equals(&block_hash));
            assert!(same_identifier(&e.canonical_identifier, &canonical_identifier(1)));
        },
        _ => panic!("expected a settle transaction"),
    }
}

#[test]
fn test_channel_opened() {
    let channel_state = open_channel(1, alice(), bob());
    assert_eq!(channel_state.status(), ChannelStatus::Opened);
    assert!(same_identifier(&channel_state.canonical_identifier, &canonical_identifier(1)));
}

#[test]
fn test_channel_closed() {
    let channel_state = open_channel(1, alice(), bob());
    let mut random = Random::new();
    let state_change = ContractReceiveChannelClosed {
        transaction_hash: Some(hash(1)),
        block_number: 10,
        block_hash: hash(2),
        transaction_from: address(0x44),
        canonical_identifier: canonical_identifier(1),
    };
    let result = state_transition(
        channel_state,
        StateChange::ContractReceiveChannelClosed(state_change),
        1,
        hash(2),
        &mut random,
    )
    .ok()
    .expect("Should close channel");
    assert!(result.events.is_empty());

    let mut channel_state = open_channel(2, bob(), keyring_address("CHARLIE"));
    let balance_proof_state = BalanceProofState {
        nonce: amount(1),
        transferred_amount: amount(0),
        locked_amount: amount(0),
        locksroot: compute_locksroot(&PendingLocksState { locks: vec![] }),
        canonical_identifier: canonical_identifier(2),
        balance_hash: H256::zero(),
        message_hash: Some(H256::zero()),
        signature: None,
        sender: Some(Address::zero()),
    };
    channel_state.partner_state.balance_proof = Some(balance_proof_state);
    let state_change = ContractReceiveChannelClosed {
        transaction_hash: Some(hash(3)),
        block_number: 10,
        block_hash: H256::zero(),
        transaction_from: address(0x45),
        canonical_identifier: canonical_identifier(2),
    };
    let result = state_transition(
        channel_state,
        StateChange::ContractReceiveChannelClosed(state_change),
        1,
        H256::zero(),
        &mut random,
    )
    .ok()
    .expect("Should close channel");
    assert!(!result.events.is_empty());
    match &result.events[0] {
        Event::ContractSendChannelUpdateTransfer(e) => {
            assert!(e.inner.triggered_by_blockhash.equals(&H256::zero()));
            assert_eq!(e.expiration, 510);
            assert_eq!(e.balance_proof.nonce, amount(1));
            assert!(e.balance_proof.locksroot.equals(&compute_locksroot_of_no_locks()));
            assert!(same_identifier(&e.balance_proof.canonical_identifier, &canonical_identifier(2)));
        },
        _ => panic!("expected an update transfer"),
    }
}

#[test]
fn test_channel_withdraw() {
    let mut channel_state = open_channel(1, alice(), bob());
    assert_eq!(channel_state.our_state.contract_balance, amount(0));
    channel_state.our_state.contract_balance = amount(1000);
    channel_state.partner_state.contract_balance = amount(1000);
    let mut random = Random::new();
    let state_change = ContractReceiveChannelWithdraw {
        transaction_hash: Some(H256::zero()),
        block_number: 1,
        block_hash: H256::zero(),
        canonical_identifier: canonical_identifier(1),
        participant: alice(),
        total_withdraw: amount(100),
        fee_config: MediationFeeConfig::new(),
    };
    let result = state_transition(
        channel_state,
        StateChange::ContractReceiveChannelWithdraw(state_change),
        1,
        H256::zero(),
        &mut random,
    )
    .ok()
    .expect("Withdraw should succeed");
    let channel_state = result.new_state.expect("Channel should exist");
    assert_eq!(channel_state.our_state.onchain_total_withdraw, amount(100));

    let partner = channel_state.partner_state.address;
    let state_change = ContractReceiveChannelWithdraw {
        transaction_hash: Some(H256::zero()),
        block_number: 1,
        block_hash: H256::zero(),
        canonical_identifier: canonical_identifier(1),
        participant: partner,
        total_withdraw: amount(99),
        fee_config: MediationFeeConfig::new(),
    };
    let result = state_transition(
        channel_state,
        StateChange::ContractReceiveChannelWithdraw(state_change),
        1,
        H256::zero(),
        &mut random,
    )
    .ok()
    .expect("Withdraw should succeed");
    let channel_state = result.new_state.expect("Channel should exist");
    assert_eq!(channel_state.partner_state.onchain_total_withdraw, amount(99));
}

#[test]
fn test_channel_deposit() {
    let channel_state = open_channel(1, alice(), bob());
    assert_eq!(channel_state.our_state.contract_balance, amount(0));
    let mut random = Random::new();
    let state_change = ContractReceiveChannelDeposit {
        transaction_hash: Some(H256::zero()),
        block_number: 1,
        block_hash: H256::zero(),
        canonical_identifier: canonical_identifier(1),
        deposit_transaction: TransactionChannelDeposit {
            participant_address: alice(),
            contract_balance: amount(100),
            deposit_block_number: 10,
        },
        fee_config: MediationFeeConfig::new(),
    };
    let result = state_transition(
        channel_state,
        StateChange::ContractReceiveChannelDeposit(state_change),
        1,
        H256::zero(),
        &mut random,
    )
    .ok()
    .expect("Deposit should succeed");
    let channel_state = result.new_state.expect("Channel should exist");
    assert_eq!(channel_state.our_state.contract_balance, amount(100));

    let state_change = ContractReceiveChannelDeposit {
        transaction_hash: Some(H256::zero()),
        block_number: 1,
        block_hash: H256::zero(),
        canonical_identifier: canonical_identifier(1),
        deposit_transaction: TransactionChannelDeposit {
            participant_address: alice(),
            contract_balance: amount(99),
            deposit_block_number: 10,
        },
        fee_config: MediationFeeConfig::new(),
    };
    let result = state_transition(
        channel_state,
        StateChange::ContractReceiveChannelDeposit(state_change),
        1,
        H256::zero(),
        &mut random,
    )
    .ok()
    .expect("Deposit should succeed");
    let channel_state = result.new_state.expect("Channel should exist");
    assert_eq!(channel_state.our_state.contract_balance, amount(100));
}

#[test]
fn test_channel_settled() {
    let block_hash = hash(5);
    let our_locksroot = H256 { bytes: [1u8; 32] };
    let mut random = Random::new();
    let state_change = ContractReceiveChannelSettled {
        transaction_hash: Some(hash(6)),
        block_number: 1,
        block_hash,
        canonical_identifier: canonical_identifier(1),
        our_onchain_locksroot: compute_locksroot_of_no_locks(),
        partner_onchain_locksroot: compute_locksroot_of_no_locks(),
        our_transferred_amount: amount(0),
        partner_transferred_amount: amount(0),
    };
    let result = state_transition(
        open_channel(1, alice(), bob()),
        StateChange::ContractReceiveChannelSettled(state_change),
        1,
        block_hash,
        &mut random,
    )
    .ok()
    .expect("Channel settled should succeed");
    assert!(result.new_state.is_none());

    let state_change = ContractReceiveChannelSettled {
        transaction_hash: Some(hash(6)),
        block_number: 1,
        block_hash,
        canonical_identifier: canonical_identifier(1),
        our_onchain_locksroot: our_locksroot,
        partner_onchain_locksroot: compute_locksroot_of_no_locks(),
        our_transferred_amount: amount(0),
        partner_transferred_amount: amount(0),
    };
    let result = state_transition(
        open_channel(1, alice(), bob()),
        StateChange::ContractReceiveChannelSettled(state_change),
        1,
        block_hash,
        &mut random,
    )
    .ok()
    .expect("Channel settled should succeed");
    let channel_state = result.new_state.expect("channel should exist");
    assert!(!result.events.is_empty());
    assert!(channel_state.our_state.onchain_locksroot.equals(&our_locksroot));
    match &result.events[0] {
        Event::ContractSendChannelBatchUnlock(e) => {
            assert!(e.inner.triggered_by_blockhash.equals(&block_hash));
            assert!(same_identifier(&e.canonical_identifier, &canonical_identifier(1)));
            assert!(e.sender.equals(&channel_state.partner_state.address));
        },
        _ => panic!("expected a batch unlock"),
    }
}

#[test]
fn test_channel_batch_unlock() {
    let mut channel_state = open_channel(1, alice(), bob());
    channel_state.settle_transaction = Some(TransactionExecutionStatus {
        started_block_number: Some(1),
        finished_block_number: Some(2),
        result: Some(TransactionResult::Success),
    });
    let state_change = ContractReceiveChannelBatchUnlock {
        transaction_hash: Some(H256::zero()),
        block_number: 1,
        block_hash: H256::zero(),
        canonical_identifier: canonical_identifier(1),
        receiver: channel_state.our_state.address,
        sender: channel_state.partner_state.address,
        locksroot: compute_locksroot_of_no_locks(),
        unlocked_amount: amount(100),
        returned_tokens: amount(0),
    };
    let mut random = Random::new();
    let result = state_transition(
        channel_state,
        StateChange::ContractReceiveChannelBatchUnlock(state_change),
        1,
        H256::zero(),
        &mut random,
    )
    .ok()
    .expect("Should succeeed");
    assert!(result.new_state.is_none());
}

fn withdraw_action(total: u64) -> StateChange {
    StateChange::ActionChannelWithdraw(ActionChannelWithdraw {
        canonical_identifier: canonical_identifier(1),
        total_withdraw: amount(total),
        recipient_metadata: None,
    })
}

fn withdraw_error(events: &Vec<Event>) -> (U256, String) {
    match &events[0] {
        Event::ErrorInvalidActionWithdraw(e) => (e.attemped_withdraw, e.reason.clone()),
        _ => panic!("expected an invalid withdraw"),
    }
}

#[test]
fn test_channel_action_withdraw() {
    let mut random = Random::new();
    let result = state_transition(
        open_channel(1, alice(), bob()),
        withdraw_action(100),
        1,
        H256::zero(),
        &mut random,
    )
    .ok()
    .expect("action withdraw should succeed");
    assert!(!result.events.is_empty());
    assert_eq!(
        withdraw_error(&result.events),
        (amount(100), "Insufficient balance: 0. Requested 100 for withdraw".to_owned())
    );

    let result = state_transition(
        open_channel(1, alice(), bob()),
        withdraw_action(0),
        1,
        H256::zero(),
        &mut random,
    )
    .ok()
    .expect("action withdraw should succeed");
    assert!(!result.events.is_empty());
    assert_eq!(
        withdraw_error(&result.events),
        (amount(0), "Total withdraw 0 did not increase".to_owned())
    );

    let mut channel_state = open_channel(1, alice(), bob());
    channel_state.close_transaction = Some(TransactionExecutionStatus {
        started_block_number: Some(1),
        finished_block_number: Some(1),
        result: Some(TransactionResult::Success),
    });
    let result = state_transition(channel_state, withdraw_action(100), 1, H256::zero(), &mut random)
        .ok()
        .expect("action withdraw should succeed");
    assert!(!result.events.is_empty());
    assert_eq!(
        withdraw_error(&result.events),
        (amount(100), "Invalid withdraw, the channel is not opened".to_owned())
    );

    let mut channel_state = result.new_state.expect("Channel should exist");
    channel_state.close_transaction = None;
    channel_state.our_state.contract_balance = amount(200);
    let result = state_transition(channel_state, withdraw_action(100), 1, H256::zero(), &mut random)
        .ok()
        .expect("action withdraw should succeed");
    let channel_state = result.new_state.expect("Channel should exist");
    assert!(!channel_state.our_state.withdraws_pending.is_empty());
    assert!(!result.events.is_empty());
    match &result.events[0] {
        Event::SendWithdrawRequest(e) => {
            assert!(e.inner.recipient.equals(&channel_state.partner_state.address));
            assert!(e.inner.recipient_metadata.is_none());
            assert!(same_identifier(&e.inner.canonical_identifier, &canonical_identifier(1)));
            assert_eq!(e.total_withdraw, amount(100));
            assert!(e.participant.equals(&channel_state.our_state.address));
            assert_eq!(e.nonce, channel_state.our_state.nonce);
            assert_eq!(e.expiration, 101);
            assert!(!e.coop_settle);
        },
        _ => panic!("expected a withdraw request"),
    }
}

#[test]
fn test_channel_set_reveal_timeout() {
    let channel_state = open_channel(1, alice(), bob());
    assert_eq!(channel_state.reveal_timeout, 50);
    let mut random = Random::new();
    let result = state_transition(
        channel_state,
        StateChange::ActionChannelSetRevealTimeout(ActionChannelSetRevealTimeout {
            canonical_identifier: canonical_identifier(1),
            reveal_timeout: 6,
        }),
        1,
        H256::zero(),
        &mut random,
    )
    .ok()
    .expect("Set reveal timeout should succeed");
    assert!(!result.events.is_empty());
    match &result.events[0] {
        Event::ErrorInvalidActionSetRevealTimeout(e) => {
            assert_eq!(e.reveal_timeout, 6);
            assert_eq!(
                e.reason,
                "Settle timeout should be at least twice as large as reveal timeout".to_owned()
            );
        },
        _ => panic!("expected an invalid reveal timeout"),
    }

    let channel_state = open_channel(1, alice(), bob());
    let reveal_timeout = channel_state.settle_timeout / 2 - 1;
    let result = state_transition(
        channel_state,
        StateChange::ActionChannelSetRevealTimeout(ActionChannelSetRevealTimeout {
            canonical_identifier: canonical_identifier(1),
            reveal_timeout,
        }),
        1,
        H256::zero(),
        &mut random,
    )
    .ok()
    .expect("Set reveal timeout should succeed");
    assert!(result.events.is_empty());
    let channel_state = result.new_state.expect("Channel state should exist");
    assert_eq!(channel_state.reveal_timeout, reveal_timeout);
}
