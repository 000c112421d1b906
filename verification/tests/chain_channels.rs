use raiden_channels::chain::state_transition;
use raiden_channels::primitives::{Address, H256, U256};
use raiden_channels::types::event::Event;
use raiden_channels::types::state::{
    CanonicalIdentifier, ChainState, ChannelState, MediationFeeConfig, PendingWithdrawState,
    TokenNetworkRegistryState, TokenNetworkState, TransactionChannelDeposit,
    TransactionExecutionStatus, TransactionResult,
};
use raiden_channels::types::state_change::{
    ActionChannelClose, ActionChannelSetRevealTimeout, ActionChannelWithdraw, Block,
    ContractReceiveChannelDeposit, ContractReceiveChannelOpened, ContractReceiveTokenNetworkCreated,
    ContractReceiveTokenNetworkRegistry, StateChange,
};
use raiden_channels::views::get_channel_by_canonical_identifier;

fn address(b: u8) -> Address {
    Address { bytes: [b; 20] }
}

fn amount(x: u64) -> U256 {
    U256::from_u64(x)
}

fn alice() -> Address {
    address(0xa1)
}

fn bob() -> Address {
    address(0xb0)
}

fn channel_id() -> CanonicalIdentifier {
    CanonicalIdentifier { chain_identifier: 5, token_network_address: address(0x11), channel_identifier: amount(1) }
}

/// Alice's channel with Bob, opened at block two.
fn channel() -> ChannelState {
    ChannelState::new(
        channel_id(),
        address(0x22),
        address(0x33),
        alice(),
        bob(),
        50,
        500,
        TransactionExecutionStatus {
            started_block_number: Some(1),
            finished_block_number: Some(2),
            result: Some(TransactionResult::Success),
        },
        MediationFeeConfig::new(),
    )
    .expect("channel")
}

/// Alice's node, knowing the registry, the token network and the channel.
fn node_with(channel: ChannelState) -> ChainState {
    let chain_state = ChainState::new(5, 1, H256::zero(), alice());
    let registry = ContractReceiveTokenNetworkRegistry {
        transaction_hash: None,
        token_network_registry: TokenNetworkRegistryState::new(address(0x33), vec![]),
        block_number: 1,
        block_hash: H256::zero(),
    };
    let chain_state = state_transition(chain_state, StateChange::ContractReceiveTokenNetworkRegistry(registry))
        .ok()
        .expect("registry")
        .new_state;
    let created = ContractReceiveTokenNetworkCreated {
        transaction_hash: None,
        token_network_registry_address: address(0x33),
        token_network: TokenNetworkState::new(address(0x11), address(0x22)),
        block_number: 1,
        block_hash: H256::zero(),
    };
    let chain_state = state_transition(chain_state, StateChange::ContractReceiveTokenNetworkCreated(created))
        .ok()
        .expect("token network")
        .new_state;
    let opened = ContractReceiveChannelOpened {
        transaction_hash: None,
        block_number: 2,
        block_hash: H256::zero(),
        channel_state: channel,
    };
    state_transition(chain_state, StateChange::ContractReceiveChannelOpened(opened))
        .ok()
        .expect("channel")
        .new_state
}

fn withdraw(total: u64) -> StateChange {
    StateChange::ActionChannelWithdraw(ActionChannelWithdraw {
        canonical_identifier: channel_id(),
        total_withdraw: amount(total),
        recipient_metadata: None,
    })
}

fn withdraw_reason(events: &Vec<Event>) -> String {
    match &events[0] {
        Event::ErrorInvalidActionWithdraw(e) => e.reason.clone(),
        _ => panic!("expected an invalid withdraw"),
    }
}

#[test]
fn chain_action_withdraw() {
    let result = state_transition(node_with(channel()), withdraw(100)).ok().expect("Should succeed");
    assert_eq!(withdraw_reason(&result.events), "Insufficient balance: 0. Requested 100 for withdraw");
    let result = state_transition(result.new_state, withdraw(0)).ok().expect("Should succeed");
    assert_eq!(withdraw_reason(&result.events), "Total withdraw 0 did not increase");
    let channel_state = get_channel_by_canonical_identifier(&result.new_state, channel_id()).expect("channel");
    assert!(channel_state.our_state.withdraws_pending.is_empty());

    let mut closed = channel();
    closed.close_transaction = Some(TransactionExecutionStatus {
        started_block_number: Some(1),
        finished_block_number: Some(1),
        result: Some(TransactionResult::Success),
    });
    let result = state_transition(node_with(closed), withdraw(100)).ok().expect("Should succeed");
    assert_eq!(withdraw_reason(&result.events), "Invalid withdraw, the channel is not opened");
}

#[test]
fn chain_set_reveal_timeout() {
    let set = |reveal_timeout: u64| {
        StateChange::ActionChannelSetRevealTimeout(ActionChannelSetRevealTimeout {
            canonical_identifier: channel_id(),
            reveal_timeout,
        })
    };
    let result = state_transition(node_with(channel()), set(6)).ok().expect("Should succeed");
    match &result.events[0] {
        Event::ErrorInvalidActionSetRevealTimeout(e) => {
            assert_eq!(e.reveal_timeout, 6);
            assert_eq!(e.reason, "Settle timeout should be at least twice as large as reveal timeout");
        },
        _ => panic!("expected an invalid reveal timeout"),
    }
    let channel_state = get_channel_by_canonical_identifier(&result.new_state, channel_id()).expect("channel");
    assert_eq!(channel_state.reveal_timeout, 50);
    let result = state_transition(result.new_state, set(249)).ok().expect("Should succeed");
    assert!(result.events.is_empty());
    let channel_state = get_channel_by_canonical_identifier(&result.new_state, channel_id()).expect("channel");
    assert_eq!(channel_state.reveal_timeout, 249);
}

#[test]
fn chain_channel_deposit() {
    let deposit = |balance: u64| {
        StateChange::ContractReceiveChannelDeposit(ContractReceiveChannelDeposit {
            transaction_hash: Some(H256::zero()),
            block_number: 1,
            block_hash: H256::zero(),
            canonical_identifier: channel_id(),
            deposit_transaction: TransactionChannelDeposit {
                participant_address: alice(),
                contract_balance: amount(balance),
                deposit_block_number: 10,
            },
            fee_config: MediationFeeConfig::new(),
        })
    };
    let result = state_transition(node_with(channel()), deposit(100)).ok().expect("Should succeed");
    let result = state_transition(result.new_state, deposit(99)).ok().expect("Should succeed");
    let channel_state = get_channel_by_canonical_identifier(&result.new_state, channel_id()).expect("channel");
    assert_eq!(channel_state.our_state.contract_balance, amount(100));
}

#[test]
fn chain_new_block_expires_withdraws() {
    let mut channel_state = channel();
    channel_state.our_state.contract_balance = amount(1000);
    channel_state.our_state.withdraws_pending.insert(
        amount(100),
        PendingWithdrawState { total_withdraw: amount(100), expiration: 50, nonce: amount(1), recipient_metadata: None },
    );
    let block = Block { block_number: 511, block_hash: H256 { bytes: [7; 32] }, gas_limit: amount(0) };
    let result = state_transition(node_with(channel_state), StateChange::Block(block)).ok().expect("Should succeed");
    assert_eq!(result.new_state.block_number, 511);
    match &result.events[0] {
        Event::SendWithdrawExpired(e) => {
            assert_eq!(e.total_withdraw, amount(100));
            assert_eq!(e.expiration, 50);
        },
        _ => panic!("expected an expired withdraw"),
    }
}

#[test]
fn chain_channel_close() {
    let close = StateChange::ActionChannelClose(ActionChannelClose { canonical_identifier: channel_id() });
    let result = state_transition(node_with(channel()), close).ok().expect("Should succeed");
    match &result.events[0] {
        Event::ContractSendChannelClose(e) => assert!(e.balance_proof.is_none()),
        _ => panic!("expected the close"),
    }
    let channel_state = get_channel_by_canonical_identifier(&result.new_state, channel_id()).expect("channel");
    assert_eq!(channel_state.close_transaction.expect("started").started_block_number, Some(1));
}

#[test]
fn kinds_are_named_after_their_variants() {
    assert_eq!(Event::ExpireServicesAddresses(5).kind_name(), "ExpireServicesAddresses");
    let block = Block { block_number: 1, block_hash: H256::zero(), gas_limit: amount(0) };
    assert_eq!(StateChange::Block(block).kind_name(), "Block");
    assert_ne!(StateChange::Block(block).kind_name(), StateChange::ActionChannelClose(ActionChannelClose { canonical_identifier: channel_id() }).kind_name());
}
