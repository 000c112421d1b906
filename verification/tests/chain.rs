use raiden_channels::chain::machine::{
    handle_contract_receive_token_network_created, handle_token_network_state_change,
};
use raiden_channels::chain::queues::{
    is_transaction_effect_satisfied, is_transaction_expired, is_transaction_invalidated,
    update_queues, ChainTransition,
};
use raiden_channels::chain::state_transition;
use raiden_channels::hashing::compute_locksroot_of_no_locks;
use raiden_channels::primitives::{Address, Signature, H256, U256};
use raiden_channels::types::event::{
    ContractSendChannelClose, ContractSendChannelSettle, ContractSendChannelUpdateTransfer,
    ContractSendChannelWithdraw, ContractSendEvent, ContractSendEventInner,
    ContractSendSecretReveal, Event, SendMessageEvent, UpdatedServicesAddresses,
};
use raiden_channels::types::state::{
    BalanceProofState, CanonicalIdentifier, ChainState, ChannelState, ChannelStatus,
    MediationFeeConfig, TokenNetworkRegistryState, TokenNetworkState, TransactionExecutionStatus,
    TransactionResult,
};
use raiden_channels::types::state_change::{
    ActionChannelClose, ActionInitChain, Block, ContractReceiveChannelClosed,
    ContractReceiveChannelOpened, ContractReceiveChannelSettled, ContractReceiveSecretReveal,
    ContractReceiveTokenNetworkCreated, ContractReceiveTokenNetworkRegistry,
    ContractReceiveUpdateTransfer, ReceiveDelivered, ReceiveWithdrawRequest, StateChange,
    UpdateServicesAddresses,
};
use raiden_channels::views;

const CHAIN_ID: u64 = 5;

fn address(b: u8) -> Address {
    Address { bytes: [b; 20] }
}

fn hash(b: u8) -> H256 {
    H256 { bytes: [b; 32] }
}

fn amount(x: u64) -> U256 {
    U256::from_u64(x)
}

fn registry_address() -> Address {
    address(0x33)
}

fn token_network_address() -> Address {
    address(0x11)
}

fn token_address() -> Address {
    address(0x22)
}

fn our_address() -> Address {
    address(0xaa)
}

fn canonical_identifier(channel: u64) -> CanonicalIdentifier {
    CanonicalIdentifier {
        chain_identifier: CHAIN_ID,
        token_network_address: token_network_address(),
        channel_identifier: amount(channel),
    }
}

fn open_channel(channel: u64, partner: Address) -> ChannelState {
    ChannelState::new(
        canonical_identifier(channel),
        token_address(),
        registry_address(),
        our_address(),
        partner,
        50,
        500,
        TransactionExecutionStatus {
            started_block_number: Some(1),
            finished_block_number: Some(2),
            result: Some(TransactionResult::Success),
        },
        MediationFeeConfig::new(),
    )
    .expect("channel should be created")
}

fn new_chain() -> ChainState {
    ChainState::new(CHAIN_ID, 1, H256::zero(), our_address())
}

fn apply(chain_state: ChainState, state_change: StateChange) -> ChainTransition {
    match state_transition(chain_state, state_change) {
        Ok(transition) => transition,
        Err(e) => panic!("State transition should succeed: {}", e.msg),
    }
}

fn with_registry(chain_state: ChainState) -> ChainState {
    let state_change = ContractReceiveTokenNetworkRegistry {
        transaction_hash: Some(hash(1)),
        token_network_registry: TokenNetworkRegistryState::new(registry_address(), vec![]),
        block_number: 1,
        block_hash: hash(2),
    };
    let result = apply(chain_state, StateChange::ContractReceiveTokenNetworkRegistry(state_change));
    assert!(result.new_state.identifiers_to_tokennetworkregistries.get(&registry_address()).is_some());
    result.new_state
}

fn with_token_network(chain_state: ChainState) -> ChainState {
    let state_change = ContractReceiveTokenNetworkCreated {
        transaction_hash: Some(hash(3)),
        token_network_registry_address: registry_address(),
        token_network: TokenNetworkState::new(token_network_address(), token_address()),
        block_number: 1,
        block_hash: hash(4),
    };
    apply(chain_state, StateChange::ContractReceiveTokenNetworkCreated(state_change)).new_state
}

fn with_channel(chain_state: ChainState, channel: u64, partner: Address) -> ChainState {
    let state_change = ContractReceiveChannelOpened {
        transaction_hash: Some(hash(5)),
        block_number: 2,
        block_hash: hash(6),
        channel_state: open_channel(channel, partner),
    };
    apply(chain_state, StateChange::ContractReceiveChannelOpened(state_change)).new_state
}

fn node_with_channel() -> ChainState {
    with_channel(with_token_network(with_registry(new_chain())), 1, address(0xbb))
}

fn close_transaction(channel: u64) -> ContractSendEvent {
    ContractSendEvent::ContractSendChannelClose(ContractSendChannelClose {
        inner: ContractSendEventInner { triggered_by_blockhash: hash(0) },
        canonical_identifier: canonical_identifier(channel),
        balance_proof: None,
    })
}

fn update_transfer_transaction(channel: u64, nonce: u64, expiration: u64) -> ContractSendEvent {
    ContractSendEvent::ContractSendChannelUpdateTransfer(ContractSendChannelUpdateTransfer {
        inner: ContractSendEventInner { triggered_by_blockhash: hash(0) },
        expiration,
        balance_proof: BalanceProofState {
            nonce: amount(nonce),
            transferred_amount: amount(0),
            locked_amount: amount(0),
            locksroot: hash(0),
            canonical_identifier: canonical_identifier(channel),
            balance_hash: hash(0),
            message_hash: None,
            signature: None,
            sender: None,
        },
    })
}

fn channel_closed(channel: u64) -> ContractReceiveChannelClosed {
    ContractReceiveChannelClosed {
        transaction_hash: Some(hash(8)),
        block_number: 10,
        block_hash: hash(9),
        transaction_from: address(0xbb),
        canonical_identifier: canonical_identifier(channel),
    }
}

#[test]
fn chain_state_new_block() {
    let chain_state = new_chain();
    let state_change = Block { block_number: 2, block_hash: H256::zero(), gas_limit: U256::zero() };
    let result = apply(chain_state, StateChange::Block(state_change));
    assert_eq!(result.new_state.block_number, 2);

    let state_change = Block { block_number: 3, block_hash: H256::zero(), gas_limit: U256::zero() };
    let result = apply(result.new_state, StateChange::Block(state_change));
    assert_eq!(result.new_state.block_number, 3);
}

#[test]
fn create_token_network() {
    let chain_state = with_registry(new_chain());
    let token_network_address = address(0x55);
    let state_change = ContractReceiveTokenNetworkCreated {
        transaction_hash: Some(hash(1)),
        token_network_registry_address: registry_address(),
        token_network: TokenNetworkState::new(token_network_address, token_address()),
        block_number: 1,
        block_hash: hash(2),
    };
    let result = apply(chain_state, StateChange::ContractReceiveTokenNetworkCreated(state_change));

    let token_network =
        views::get_token_network_by_address(&result.new_state, token_network_address);
    assert!(token_network.is_some());
    let token_network = token_network.unwrap();
    assert!(token_network.address.equals(&token_network_address));
    assert!(token_network.token_address.equals(&token_address()));

    let token_network = views::get_token_network_by_token_address(
        &result.new_state,
        registry_address(),
        token_address(),
    );
    assert!(token_network.is_some());
    let token_network = token_network.unwrap();
    assert!(token_network.address.equals(&token_network_address));
    assert!(token_network.token_address.equals(&token_address()));
}

#[test]
fn init_chain_gives_an_empty_node() {
    let state_change =
        ActionInitChain { chain_id: 7, block_number: 9, block_hash: hash(3), our_address: address(4) };
    let result = apply(new_chain(), StateChange::ActionInitChain(state_change));
    assert_eq!(result.new_state.chain_id, 7);
    assert_eq!(result.new_state.block_number, 9);
    assert!(result.new_state.block_hash.equals(&hash(3)));
    assert!(result.new_state.our_address.equals(&address(4)));
    assert!(result.new_state.identifiers_to_tokennetworkregistries.is_empty());
    assert!(result.new_state.pending_transactions.is_empty());
    assert!(result.events.is_empty());
}

#[test]
fn opened_channel_is_found_through_the_views() {
    let chain_state = node_with_channel();
    let found = views::get_channel_by_canonical_identifier(&chain_state, canonical_identifier(1))
        .expect("Channel should exist");
    assert!(found.partner_state.address.equals(&address(0xbb)));
    assert!(views::get_channel_by_canonical_identifier(&chain_state, canonical_identifier(2))
        .is_none());
    let by_partner = views::get_channel_by_token_network_and_partner(
        &chain_state,
        token_network_address(),
        address(0xbb),
    )
    .expect("Channel should exist");
    assert_eq!(by_partner.canonical_identifier.channel_identifier, amount(1));
    let for_token =
        views::get_channel_state_for(&chain_state, registry_address(), token_address(), address(0xbb))
            .expect("Channel should exist");
    assert_eq!(for_token.canonical_identifier.channel_identifier, amount(1));
    assert!(views::get_channel_state_for(
        &chain_state,
        registry_address(),
        token_address(),
        address(0xcc)
    )
    .is_none());
    assert!(views::get_token_network(&chain_state, &token_network_address()).is_some());
    assert!(views::get_token_network(&chain_state, &address(0x66)).is_none());
    let registry = views::get_token_network_registry_by_token_network_address(
        &chain_state,
        token_network_address(),
    )
    .expect("Registry should exist");
    assert!(registry.address.equals(&registry_address()));
}

#[test]
fn channel_lists_follow_the_status() {
    let chain_state = with_channel(node_with_channel(), 2, address(0xcc));
    assert_eq!(views::get_channels(&chain_state).len(), 2);
    let open = views::get_channelstate_open(&chain_state, registry_address(), token_address());
    assert_eq!(open.len(), 2);
    assert_eq!(open[0].canonical_identifier.channel_identifier, amount(1));
    assert_eq!(open[1].canonical_identifier.channel_identifier, amount(2));
    assert!(views::get_channelstate_closed(&chain_state, registry_address(), token_address())
        .is_empty());

    let result = apply(chain_state, StateChange::ContractReceiveChannelClosed(channel_closed(1)));
    let chain_state = result.new_state;
    let closed = views::get_channelstate_closed(&chain_state, registry_address(), token_address());
    assert_eq!(closed.len(), 1);
    assert_eq!(closed[0].canonical_identifier.channel_identifier, amount(1));
    assert_eq!(closed[0].status(), ChannelStatus::Closed);
    let open = views::get_channelstate_open(&chain_state, registry_address(), token_address());
    assert_eq!(open.len(), 1);
    assert!(views::get_channelstate_closing(&chain_state, registry_address(), token_address())
        .is_empty());
    assert!(views::get_channelstate_settling(&chain_state, registry_address(), token_address())
        .is_empty());
    assert!(views::get_channelstate_settled(&chain_state, registry_address(), token_address())
        .is_empty());
}

#[test]
fn channels_by_partner_and_key() {
    let chain_state = with_channel(node_with_channel(), 2, address(0xcc));
    let channels = views::filter_channels_by_partner_address(
        &chain_state,
        registry_address(),
        token_address(),
        vec![address(0xcc), address(0xdd), address(0xbb)],
    );
    assert_eq!(channels.len(), 2);
    assert_eq!(channels[0].canonical_identifier.channel_identifier, amount(2));
    assert_eq!(channels[1].canonical_identifier.channel_identifier, amount(1));
    let map = views::get_addresses_to_channels(&chain_state);
    assert_eq!(map.len(), 2);
    let key = raiden_channels::routes::ChannelKey {
        token_network_address: token_network_address(),
        partner_address: address(0xcc),
    };
    let channel = map.get(&key).expect("Channel should exist");
    assert_eq!(channel.canonical_identifier.channel_identifier, amount(2));
    let tokens = views::get_token_identifiers(&chain_state, registry_address());
    assert_eq!(tokens.len(), 1);
    assert!(tokens[0].equals(&token_address()));
    assert!(views::get_token_identifiers(&chain_state, address(0x77)).is_empty());
}

#[test]
fn close_is_queued_until_the_channel_closes() {
    let mut channel_state = open_channel(1, address(0xbb));
    channel_state.partner_state.balance_proof = Some(BalanceProofState {
        nonce: amount(1),
        transferred_amount: amount(0),
        locked_amount: amount(0),
        locksroot: compute_locksroot_of_no_locks(),
        canonical_identifier: canonical_identifier(1),
        balance_hash: hash(0),
        message_hash: Some(hash(3)),
        signature: Some(Signature { bytes: [1u8; 65] }),
        sender: Some(address(0xbb)),
    });
    let opened = ContractReceiveChannelOpened {
        transaction_hash: Some(hash(5)),
        block_number: 2,
        block_hash: hash(6),
        channel_state,
    };
    let chain_state = apply(
        with_token_network(with_registry(new_chain())),
        StateChange::ContractReceiveChannelOpened(opened),
    )
    .new_state;
    let close = ActionChannelClose { canonical_identifier: canonical_identifier(1) };
    let result = apply(chain_state, StateChange::ActionChannelClose(close));
    assert_eq!(result.new_state.pending_transactions.len(), 1);
    match &result.new_state.pending_transactions[0] {
        ContractSendEvent::ContractSendChannelClose(t) => {
            assert_eq!(t.canonical_identifier.channel_identifier, amount(1));
        },
        _ => panic!("expected a close transaction"),
    }
    // The partner closed: our close leaves the queue, and the update of the
    // partner's balance proof joins it.
    let result = apply(result.new_state, StateChange::ContractReceiveChannelClosed(channel_closed(1)));
    assert_eq!(result.new_state.pending_transactions.len(), 1);
    assert!(matches!(
        result.new_state.pending_transactions[0],
        ContractSendEvent::ContractSendChannelUpdateTransfer(_)
    ));
}

#[test]
fn unknown_token_network_is_reported() {
    let chain_state = with_registry(new_chain());
    let result = handle_token_network_state_change(
        chain_state,
        address(0x12),
        StateChange::ContractReceiveChannelClosed(channel_closed(1)),
        1,
        hash(0),
    );
    match result {
        Err(e) => assert_eq!(e.msg, "Token network 0x1212…1212 was not found"),
        Ok(_) => panic!("expected an error"),
    }
}

#[test]
fn unknown_registry_is_reported() {
    let state_change = ContractReceiveTokenNetworkCreated {
        transaction_hash: None,
        token_network_registry_address: address(0xab),
        token_network: TokenNetworkState::new(token_network_address(), token_address()),
        block_number: 1,
        block_hash: hash(2),
    };
    match handle_contract_receive_token_network_created(new_chain(), state_change) {
        Err(e) => assert_eq!(e.msg, "Token network registry 0xabab…abab was not found"),
        Ok(_) => panic!("expected an error"),
    }
}

#[test]
fn known_registry_is_kept() {
    let chain_state = with_token_network(with_registry(new_chain()));
    let state_change = ContractReceiveTokenNetworkRegistry {
        transaction_hash: None,
        token_network_registry: TokenNetworkRegistryState::new(registry_address(), vec![]),
        block_number: 3,
        block_hash: hash(2),
    };
    let result = apply(chain_state, StateChange::ContractReceiveTokenNetworkRegistry(state_change));
    let registry = result
        .new_state
        .identifiers_to_tokennetworkregistries
        .get(&registry_address())
        .expect("Registry should exist");
    assert_eq!(registry.tokennetworkaddresses_to_tokennetworks.len(), 1);
}

#[test]
fn registry_lists_its_networks() {
    let registry = TokenNetworkRegistryState::new(
        address(0x01),
        vec![
            TokenNetworkState::new(address(0x02), address(0x03)),
            TokenNetworkState::new(address(0x04), address(0x05)),
        ],
    );
    assert!(registry.address.equals(&address(0x01)));
    assert_eq!(registry.tokennetworkaddresses_to_tokennetworks.len(), 2);
    let to_network = registry
        .tokenaddresses_to_tokennetworkaddresses
        .get(&address(0x05))
        .expect("token should be known");
    assert!(to_network.equals(&address(0x04)));
}

#[test]
fn services_update_is_reported() {
    let state_change = UpdateServicesAddresses { service: address(0x09), valid_till: amount(77) };
    let result = apply(new_chain(), StateChange::UpdateServicesAddresses(state_change));
    assert_eq!(result.events.len(), 1);
    match &result.events[0] {
        Event::UpdatedServicesAddresses(UpdatedServicesAddresses { service_address, validity }) => {
            assert!(service_address.equals(&address(0x09)));
            assert_eq!(*validity, amount(77));
        },
        _ => panic!("expected the services event"),
    }
}

#[test]
fn messages_leave_the_node_unchanged() {
    let chain_state = node_with_channel();
    let result = apply(
        chain_state,
        StateChange::ReceiveDelivered(ReceiveDelivered { sender: address(1), message_identifier: 3 }),
    );
    assert!(result.events.is_empty());
    let request = ReceiveWithdrawRequest {
        sender: address(0xbb),
        message_identifier: 1,
        canonical_identifier: CanonicalIdentifier {
            chain_identifier: CHAIN_ID,
            token_network_address: address(0x99),
            channel_identifier: amount(1),
        },
        total_withdraw: amount(10),
        nonce: amount(1),
        expiration: 100,
        signature: Signature { bytes: [0u8; 65] },
        participant: address(0xbb),
        coop_settle: false,
        sender_metadata: None,
    };
    let result = apply(result.new_state, StateChange::ReceiveWithdrawRequest(request));
    assert!(result.events.is_empty());
    assert!(views::get_channel_by_canonical_identifier(&result.new_state, canonical_identifier(1))
        .is_some());
}

#[test]
fn transaction_predicates() {
    let chain_state = node_with_channel();
    let update = update_transfer_transaction(1, 4, 20);
    let same_nonce = StateChange::ContractReceiveUpdateTransfer(ContractReceiveUpdateTransfer {
        transaction_hash: None,
        block_number: 3,
        block_hash: hash(0),
        canonical_identifier: canonical_identifier(1),
        nonce: amount(4),
    });
    let other_nonce = StateChange::ContractReceiveUpdateTransfer(ContractReceiveUpdateTransfer {
        transaction_hash: None,
        block_number: 3,
        block_hash: hash(0),
        canonical_identifier: canonical_identifier(1),
        nonce: amount(3),
    });
    assert!(is_transaction_effect_satisfied(&chain_state, &update, &same_nonce));
    assert!(!is_transaction_effect_satisfied(&chain_state, &update, &other_nonce));
    assert!(is_transaction_effect_satisfied(
        &chain_state,
        &close_transaction(1),
        &StateChange::ContractReceiveChannelClosed(channel_closed(1))
    ));
    assert!(!is_transaction_effect_satisfied(
        &chain_state,
        &close_transaction(2),
        &StateChange::ContractReceiveChannelClosed(channel_closed(1))
    ));
    let settled = StateChange::ContractReceiveChannelSettled(ContractReceiveChannelSettled {
        transaction_hash: None,
        block_number: 600,
        block_hash: hash(0),
        canonical_identifier: canonical_identifier(1),
        our_onchain_locksroot: hash(0),
        partner_onchain_locksroot: hash(0),
        our_transferred_amount: amount(0),
        partner_transferred_amount: amount(0),
    });
    let settle = ContractSendEvent::ContractSendChannelSettle(ContractSendChannelSettle {
        inner: ContractSendEventInner { triggered_by_blockhash: hash(0) },
        canonical_identifier: canonical_identifier(1),
    });
    assert!(is_transaction_effect_satisfied(&chain_state, &settle, &settled));
    assert!(is_transaction_invalidated(&update, &settled));
    let withdraw = ContractSendEvent::ContractSendChannelWithdraw(ContractSendChannelWithdraw {
        inner: ContractSendEventInner { triggered_by_blockhash: hash(0) },
        canonical_identifier: canonical_identifier(1),
        total_withdraw: amount(5),
        expiration: 90,
        partner_signature: Signature { bytes: [0u8; 65] },
    });
    assert!(is_transaction_invalidated(
        &withdraw,
        &StateChange::ContractReceiveChannelClosed(channel_closed(1))
    ));
    assert!(!is_transaction_invalidated(&withdraw, &settled));
    let reveal = ContractSendEvent::ContractSendSecretReveal(ContractSendSecretReveal {
        inner: ContractSendEventInner { triggered_by_blockhash: hash(0) },
        expiration: 30,
        secret: hash(7),
    });
    let revealed = StateChange::ContractReceiveSecretReveal(ContractReceiveSecretReveal {
        transaction_hash: None,
        block_number: 3,
        block_hash: hash(0),
        secret_registry_address: address(0x44),
        secrethash: hash(8),
        secret: hash(7),
    });
    assert!(is_transaction_effect_satisfied(&chain_state, &reveal, &revealed));
    assert!(is_transaction_expired(&reveal, 31));
    assert!(!is_transaction_expired(&reveal, 30));
    assert!(is_transaction_expired(&update, 21));
    assert!(!is_transaction_expired(&settle, 1000));
}

#[test]
fn queue_drops_what_an_event_settles_and_keeps_the_rest() {
    let mut chain_state = node_with_channel();
    chain_state.pending_transactions.push(close_transaction(1));
    chain_state.pending_transactions.push(close_transaction(2));
    chain_state.pending_transactions.push(update_transfer_transaction(3, 1, 0));
    let mut iteration = ChainTransition { new_state: chain_state, events: vec![] };
    update_queues(&mut iteration, &StateChange::ContractReceiveChannelClosed(channel_closed(1)));
    // The close of channel one is settled, the update transfer expired at block zero.
    assert_eq!(iteration.new_state.pending_transactions.len(), 1);
    match &iteration.new_state.pending_transactions[0] {
        ContractSendEvent::ContractSendChannelClose(t) => {
            assert_eq!(t.canonical_identifier.channel_identifier, amount(2));
        },
        _ => panic!("expected the other close"),
    }
    let mut iteration = ChainTransition {
        new_state: iteration.new_state,
        events: vec![Event::ContractSendChannelClose(ContractSendChannelClose {
            inner: ContractSendEventInner { triggered_by_blockhash: hash(0) },
            canonical_identifier: canonical_identifier(3),
            balance_proof: None,
        })],
    };
    update_queues(
        &mut iteration,
        &StateChange::ReceiveDelivered(ReceiveDelivered { sender: address(1), message_identifier: 1 }),
    );
    assert_eq!(iteration.new_state.pending_transactions.len(), 2);
}

#[test]
fn event_conversions() {
    let event = Event::ContractSendChannelSettle(ContractSendChannelSettle {
        inner: ContractSendEventInner { triggered_by_blockhash: hash(0) },
        canonical_identifier: canonical_identifier(1),
    });
    assert!(matches!(
        ContractSendEvent::try_from(event),
        Ok(ContractSendEvent::ContractSendChannelSettle(_))
    ));
    let event = Event::UpdatedServicesAddresses(UpdatedServicesAddresses {
        service_address: address(1),
        validity: amount(1),
    });
    assert!(ContractSendEvent::try_from(event).is_err());
    let event = Event::ExpireServicesAddresses(3);
    assert!(SendMessageEvent::try_from(event).is_err());
}

#[test]
fn initial_state_changes_set_the_node_up() {
    let (chain_state, state_changes, block_number) =
        raiden_channels::manager::init_state(CHAIN_ID, our_address(), registry_address(), 42);
    assert_eq!(block_number, 42);
    assert_eq!(chain_state.block_number, 0);
    assert_eq!(state_changes.len(), 2);
    let mut chain_state = chain_state;
    for state_change in state_changes {
        chain_state = apply(chain_state, state_change).new_state;
    }
    assert_eq!(chain_state.block_number, 1);
    assert_eq!(chain_state.chain_id, CHAIN_ID);
    let registry = chain_state
        .identifiers_to_tokennetworkregistries
        .get(&registry_address())
        .expect("Registry should exist");
    assert!(registry.tokennetworkaddresses_to_tokennetworks.is_empty());
}
