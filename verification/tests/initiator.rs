use raiden_channels::chain::state_transition as chain_transition;
use raiden_channels::effects::trigger_state_change_effects;
use raiden_channels::hashing::{compute_locksroot_of_no_locks, keccak};
use raiden_channels::initiator::{
    handle_block, handle_receive_offchain_secret_reveal, handle_receive_onchain_secret_reveal,
    handle_receive_secret_request, state_transition,
};
use raiden_channels::initiator_manager::{
    can_cancel, cancel_other_transfers, clear_if_finalized, handle_action_cancel_payment,
    handle_action_transfer_reroute, handle_transfer_cancel_route, transfer_exists, InitiatorManagerTransition,
};
use raiden_channels::types::state_change::{ActionTransferReroute, ReceiveLockExpired};
use raiden_channels::views::get_token_network;
use raiden_channels::channel::locks::send_locked_transfer;
use raiden_channels::map::LinearMap;
use raiden_channels::primitives::{Address, Signature, H256, U256};
use raiden_channels::types::event::{Event, SendWithdrawRequest, SendMessageEventInner};
use raiden_channels::types::random::Random;
use raiden_channels::types::state::{
    CanonicalIdentifier, ChainState, ChannelState, InitiatorPaymentState, InitiatorTask,
    InitiatorTransferState, LockedTransferState, MediationFeeConfig, RouteState, TokenNetworkRegistryState,
    TokenNetworkState, TransactionExecutionStatus, TransactionResult,
    TransferDescriptionWithSecretState, TransferRole, TransferState, TransferTask, PFSUpdate,
};
use raiden_channels::types::state_change::{
    ActionChannelClose, ActionInitInitiator, ActionCancelPayment, Block, ContractReceiveChannelDeposit, ContractReceiveChannelOpened,
    ContractReceiveSecretReveal, ContractReceiveTokenNetworkCreated,
    ContractReceiveTokenNetworkRegistry, ReceiveSecretRequest, ReceiveSecretReveal,
    ReceiveTransferCancelRoute, StateChange,
};
use raiden_channels::types::state::{BalanceProofState, TransactionChannelDeposit};

fn address(b: u8) -> Address {
    Address { bytes: [b; 20] }
}

fn amount(x: u64) -> U256 {
    U256::from_u64(x)
}

fn alice() -> Address {
    address(0xa1)
}

fn bob() -> Address {
    address(0xb0)
}

fn secret() -> H256 {
    H256 { bytes: [0x5a; 32] }
}

fn secrethash() -> H256 {
    keccak(&secret().bytes)
}

fn canonical_identifier() -> CanonicalIdentifier {
    CanonicalIdentifier {
        chain_identifier: 5,
        token_network_address: address(0x11),
        channel_identifier: amount(1),
    }
}

fn alice_channel() -> ChannelState {
    let mut c = ChannelState::new(
        canonical_identifier(),
        address(0x22),
        address(0x33),
        alice(),
        bob(),
        50,
        500,
        TransactionExecutionStatus {
            started_block_number: Some(1),
            finished_block_number: Some(2),
            result: Some(TransactionResult::Success),
        },
        MediationFeeConfig::new(),
    )
    .ok()
    .expect("channel");
    c.our_state.contract_balance = amount(1000);
    c
}

fn route() -> RouteState {
    RouteState {
        route: vec![alice(), bob()],
        address_to_metadata: LinearMap::new(),
        swaps: LinearMap::new(),
        estimated_fee: amount(0),
    }
}

fn description() -> TransferDescriptionWithSecretState {
    TransferDescriptionWithSecretState {
        token_network_registry_address: address(0x33),
        payment_identifier: 1,
        amount: amount(100),
        token_network_address: address(0x11),
        initiator: alice(),
        target: bob(),
        secret: secret(),
        secrethash: secrethash(),
        lock_timeout: Some(100),
    }
}

/// Alice locked 100 tokens for Bob, expiring at block 100.
fn sent() -> (ChannelState, LockedTransferState) {
    let (channel, event) = send_locked_transfer(
        alice_channel(),
        alice(),
        bob(),
        amount(100),
        100,
        secrethash(),
        7,
        1,
        vec![],
        None,
    )
    .ok()
    .expect("transfer");
    (channel, event.transfer)
}

fn initiator(transfer: LockedTransferState) -> InitiatorTransferState {
    InitiatorTransferState {
        route: route(),
        transfer_description: description(),
        channel_identifier: amount(1),
        transfer,
        received_secret_request: false,
        transfer_state: TransferState::Pending,
    }
}

fn request(sender: Address, expiration: u64) -> ReceiveSecretRequest {
    ReceiveSecretRequest {
        sender,
        payment_identifier: 1,
        amount: amount(100),
        expiration,
        secrethash: secrethash(),
        revealsecret: None,
    }
}

#[test]
fn secret_request_from_a_stranger_is_ignored() {
    let (channel, transfer) = sent();
    let mut random = Random::new();
    let result = handle_receive_secret_request(
        initiator(transfer),
        request(address(0x99), 100),
        channel,
        &mut random,
    )
    .ok()
    .expect("Should succeed");
    assert!(result.events.is_empty());
    assert!(!result.new_state.expect("transfer").received_secret_request);
}

#[test]
fn target_gets_the_secret() {
    let (channel, transfer) = sent();
    let mut random = Random::new();
    let result = handle_receive_secret_request(initiator(transfer), request(bob(), 100), channel, &mut random)
        .ok()
        .expect("Should succeed");
    assert_eq!(result.events.len(), 1);
    match &result.events[0] {
        Event::SendSecretReveal(reveal) => {
            assert!(reveal.inner.recipient.equals(&bob()));
            assert!(reveal.secret.equals(&secret()));
            assert_eq!(reveal.inner.canonical_identifier.chain_identifier, 0);
        },
        _ => panic!("expected the secret reveal"),
    }
    let state = result.new_state.expect("transfer");
    assert!(state.received_secret_request);
    assert_eq!(state.transfer_state, TransferState::SecretRevealed);

    // A second request is ignored.
    let channel = result.channel_state.expect("channel");
    let result = handle_receive_secret_request(state, request(bob(), 100), channel, &mut random)
        .ok()
        .expect("Should succeed");
    assert!(result.events.is_empty());
}

#[test]
fn request_with_another_expiration_is_invalid() {
    let (channel, transfer) = sent();
    let mut random = Random::new();
    let result = handle_receive_secret_request(initiator(transfer), request(bob(), 101), channel, &mut random)
        .ok()
        .expect("Should succeed");
    match &result.events[0] {
        Event::ErrorInvalidSecretRequest(e) => {
            assert_eq!(e.payment_identifier, 1);
            assert_eq!(e.intended_amount, amount(100));
            assert_eq!(e.actual_amount, amount(100));
        },
        _ => panic!("expected the invalid request"),
    }
    let state = result.new_state.expect("transfer");
    assert!(state.received_secret_request);
    assert_eq!(state.transfer_state, TransferState::Pending);
}

#[test]
fn request_without_the_lock_fails() {
    let (_, transfer) = sent();
    let mut random = Random::new();
    match handle_receive_secret_request(initiator(transfer), request(bob(), 100), alice_channel(), &mut random) {
        Err(e) => assert_eq!(e.msg, "Channel does not have the transfer's lock"),
        Ok(_) => panic!("expected an error"),
    }
}

#[test]
fn partner_reveal_unlocks_the_lock() {
    let (channel, transfer) = sent();
    let mut random = Random::new();
    let reveal = ReceiveSecretReveal { sender: bob(), secret: secret(), secrethash: secrethash() };
    let result =
        handle_receive_offchain_secret_reveal(initiator(transfer), reveal, channel, &mut random, 10)
            .ok()
            .expect("Should succeed");
    assert_eq!(result.events.len(), 3);
    match &result.events[0] {
        Event::SendUnlock(unlock) => {
            assert_eq!(unlock.balance_proof.transferred_amount, amount(100));
            assert_eq!(unlock.balance_proof.locked_amount, amount(0));
        },
        _ => panic!("expected the unlock"),
    }
    match &result.events[1] {
        Event::PaymentSentSuccess(success) => {
            assert_eq!(success.amount, amount(100));
            assert_eq!(success.route.len(), 2);
        },
        _ => panic!("expected the payment's success"),
    }
    assert!(matches!(result.events[2], Event::UnlockSuccess(_)));
    let channel = result.channel_state.expect("channel");
    assert!(!channel.our_state.secrethashes_to_lockedlocks.contains_key(&secrethash()));
}

#[test]
fn stranger_reveal_changes_nothing() {
    let (channel, transfer) = sent();
    let mut random = Random::new();
    let reveal = ReceiveSecretReveal { sender: address(0x99), secret: secret(), secrethash: secrethash() };
    let result =
        handle_receive_offchain_secret_reveal(initiator(transfer), reveal, channel, &mut random, 10)
            .ok()
            .expect("Should succeed");
    assert!(result.events.is_empty());
    assert!(result.channel_state.expect("channel").our_state.secrethashes_to_lockedlocks.contains_key(&secrethash()));
}

#[test]
fn onchain_reveal_removes_the_lock_before_the_unlock() {
    let (channel, transfer) = sent();
    let mut random = Random::new();
    let reveal = ContractReceiveSecretReveal {
        transaction_hash: None,
        block_number: 20,
        block_hash: H256::zero(),
        secret_registry_address: address(0x44),
        secrethash: secrethash(),
        secret: secret(),
    };
    match handle_receive_onchain_secret_reveal(initiator(transfer), reveal, channel, &mut random, 20) {
        Err(e) => assert_eq!(e.msg, "Caller must ensure the lock exists"),
        Ok(_) => panic!("expected the unlock to fail"),
    }
}

#[test]
fn late_onchain_reveal_changes_nothing() {
    let (channel, transfer) = sent();
    let mut random = Random::new();
    let reveal = ContractReceiveSecretReveal {
        transaction_hash: None,
        block_number: 200,
        block_hash: H256::zero(),
        secret_registry_address: address(0x44),
        secrethash: secrethash(),
        secret: secret(),
    };
    let result = handle_receive_onchain_secret_reveal(initiator(transfer), reveal, channel, &mut random, 200)
        .ok()
        .expect("Should succeed");
    assert!(result.events.is_empty());
    assert!(result.channel_state.expect("channel").our_state.secrethashes_to_lockedlocks.contains_key(&secrethash()));
}

#[test]
fn expired_lock_is_removed_on_a_block() {
    let (channel, transfer) = sent();
    let mut random = Random::new();
    let block = Block { block_number: 112, block_hash: H256::zero(), gas_limit: amount(0) };
    let result = handle_block(initiator(transfer), block, channel, &mut random)
        .ok()
        .expect("Should succeed");
    assert_eq!(result.events.len(), 4);
    assert!(matches!(result.events[0], Event::SendLockExpired(_)));
    match &result.events[1] {
        Event::ErrorPaymentSentFailed(e) => assert_eq!(e.reason, "Lock expired"),
        _ => panic!("expected the payment failure"),
    }
    assert!(matches!(result.events[2], Event::ErrorRouteFailed(_)));
    match &result.events[3] {
        Event::ErrorUnlockFailed(e) => assert_eq!(e.reason, "Lock expired"),
        _ => panic!("expected the unlock failure"),
    }
    assert!(result.new_state.is_none());
    let channel = result.channel_state.expect("channel");
    assert!(!channel.our_state.secrethashes_to_lockedlocks.contains_key(&secrethash()));
    assert!(channel.our_state.pending_locks.locks.is_empty());
}

#[test]
fn lock_before_its_expiry_stays() {
    let (channel, transfer) = sent();
    let mut random = Random::new();
    let block = Block { block_number: 109, block_hash: H256::zero(), gas_limit: amount(0) };
    let result = state_transition(initiator(transfer), StateChange::Block(block), channel, &mut random, 109)
        .ok()
        .expect("Should succeed");
    let state = result.new_state.expect("transfer");
    assert_eq!(state.transfer_state, TransferState::Pending);
    assert!(result.channel_state.expect("channel").our_state.secrethashes_to_lockedlocks.contains_key(&secrethash()));
}

fn payment(transfer: LockedTransferState) -> InitiatorPaymentState {
    let mut initiator_transfers = LinearMap::new();
    initiator_transfers.insert(secrethash(), initiator(transfer));
    InitiatorPaymentState { routes: vec![route()], initiator_transfers, cancelled_channels: vec![] }
}

fn node_with(channel: ChannelState) -> ChainState {
    let chain_state = ChainState::new(5, 1, H256::zero(), alice());
    let registry = ContractReceiveTokenNetworkRegistry {
        transaction_hash: None,
        token_network_registry: TokenNetworkRegistryState::new(address(0x33), vec![]),
        block_number: 1,
        block_hash: H256::zero(),
    };
    let chain_state = chain_transition(chain_state, StateChange::ContractReceiveTokenNetworkRegistry(registry))
        .ok()
        .expect("registry")
        .new_state;
    let created = ContractReceiveTokenNetworkCreated {
        transaction_hash: None,
        token_network_registry_address: address(0x33),
        token_network: TokenNetworkState::new(address(0x11), address(0x22)),
        block_number: 1,
        block_hash: H256::zero(),
    };
    let chain_state = chain_transition(chain_state, StateChange::ContractReceiveTokenNetworkCreated(created))
        .ok()
        .expect("token network")
        .new_state;
    let opened = ContractReceiveChannelOpened {
        transaction_hash: None,
        block_number: 2,
        block_hash: H256::zero(),
        channel_state: channel,
    };
    chain_transition(chain_state, StateChange::ContractReceiveChannelOpened(opened))
        .ok()
        .expect("channel")
        .new_state
}

#[test]
fn user_cancels_the_payment() {
    let (channel, transfer) = sent();
    let chain_state = node_with(channel);
    let result = handle_action_cancel_payment(
        chain_state,
        Some(payment(transfer)),
        ActionCancelPayment { payment_identifier: 1 },
    )
    .ok()
    .expect("Should succeed");
    assert_eq!(result.events.len(), 3);
    match &result.events[0] {
        Event::ErrorUnlockFailed(e) => assert_eq!(e.reason, "route was canceled"),
        _ => panic!("expected the unlock failure"),
    }
    assert!(matches!(result.events[1], Event::ErrorRouteFailed(_)));
    match &result.events[2] {
        Event::ErrorPaymentSentFailed(e) => assert_eq!(e.reason, "user canceled payment"),
        _ => panic!("expected the payment failure"),
    }
    let state = result.new_state.expect("payment");
    assert_eq!(state.cancelled_channels, vec![amount(1)]);
    let transfer = state.initiator_transfers.get(&secrethash()).expect("transfer");
    assert_eq!(transfer.transfer_state, TransferState::Pending);
}

#[test]
fn cancel_without_a_payment_fails() {
    match handle_action_cancel_payment(node_with(alice_channel()), None, ActionCancelPayment { payment_identifier: 1 }) {
        Err(e) => assert_eq!(
            e.msg,
            "ActionCancelPayment state change should be accompanied by a valid payment state"
        ),
        Ok(_) => panic!("expected an error"),
    }
}

#[test]
fn payee_cancels_the_route() {
    let (_, transfer) = sent();
    let cancel = ReceiveTransferCancelRoute { transfer: sent().1 };
    let result = handle_transfer_cancel_route(ChainState::new(5, 1, H256::zero(), alice()), Some(payment(transfer)), cancel)
        .ok()
        .expect("Should succeed");
    assert_eq!(result.events.len(), 2);
    assert_eq!(result.new_state.expect("payment").cancelled_channels, vec![amount(1)]);
}

#[test]
fn payment_bookkeeping() {
    let (_, transfer) = sent();
    let mut state = payment(transfer);
    assert!(transfer_exists(&state, secrethash()));
    assert!(!transfer_exists(&state, H256::zero()));
    assert!(can_cancel(state.initiator_transfers.get(&secrethash()).expect("transfer")));
    cancel_other_transfers(&mut state);
    let transfer = state.initiator_transfers.get(&secrethash()).expect("transfer");
    assert!(!can_cancel(transfer));
    let finished = clear_if_finalized(InitiatorManagerTransition {
        new_state: Some(InitiatorPaymentState {
            routes: vec![],
            initiator_transfers: LinearMap::new(),
            cancelled_channels: vec![],
        }),
        chain_state: ChainState::new(5, 1, H256::zero(), alice()),
        events: vec![],
    });
    assert!(finished.new_state.is_none());
    let kept = clear_if_finalized(InitiatorManagerTransition {
        new_state: Some(state),
        chain_state: ChainState::new(5, 1, H256::zero(), alice()),
        events: vec![],
    });
    assert!(kept.new_state.is_some());
}

#[test]
fn effects_of_a_batch() {
    let deposit = ContractReceiveChannelDeposit {
        transaction_hash: None,
        block_number: 3,
        block_hash: H256::zero(),
        canonical_identifier: canonical_identifier(),
        deposit_transaction: TransactionChannelDeposit {
            participant_address: alice(),
            contract_balance: amount(10),
            deposit_block_number: 3,
        },
        fee_config: MediationFeeConfig::new(),
    };
    let block = Block { block_number: 9, block_hash: H256::zero(), gas_limit: amount(0) };
    let withdraw = Event::SendWithdrawRequest(SendWithdrawRequest {
        inner: SendMessageEventInner {
            recipient: bob(),
            recipient_metadata: None,
            canonical_identifier: CanonicalIdentifier {
                chain_identifier: 5,
                token_network_address: address(0x11),
                channel_identifier: amount(2),
            },
            message_identifier: 4,
        },
        total_withdraw: amount(5),
        participant: alice(),
        expiration: 50,
        nonce: amount(1),
        coop_settle: false,
    });
    let events = trigger_state_change_effects(
        vec![StateChange::ContractReceiveChannelDeposit(deposit), StateChange::Block(block)],
        vec![withdraw],
    );
    assert_eq!(events.len(), 4);
    assert!(matches!(events[0], Event::SendWithdrawRequest(_)));
    assert!(matches!(events[1], Event::ExpireServicesAddresses(9)));
    match &events[2] {
        Event::SendPFSUpdate(PFSUpdate { canonical_identifier, update_fee_schedule }) => {
            assert!(*update_fee_schedule);
            assert_eq!(canonical_identifier.channel_identifier, amount(1));
        },
        _ => panic!("expected the fee update of the deposit"),
    }
    match &events[3] {
        Event::SendPFSUpdate(PFSUpdate { canonical_identifier, update_fee_schedule }) => {
            assert!(*update_fee_schedule);
            assert_eq!(canonical_identifier.channel_identifier, amount(2));
        },
        _ => panic!("expected the fee update of the withdraw"),
    }
}

fn node_paying(transfer: LockedTransferState) -> ChainState {
    let mut chain_state = node_with(alice_channel());
    chain_state.payment_mapping.secrethashes_to_task.insert(
        secrethash(),
        TransferTask::Initiator(InitiatorTask {
            role: TransferRole::Initiator,
            token_network_address: address(0x11),
            manager_state: payment(transfer),
        }),
    );
    chain_state
}

#[test]
fn cancelled_route_reaches_the_payment_task() {
    let (_, transfer) = sent();
    let chain_state = node_paying(transfer);
    let cancel = ReceiveTransferCancelRoute { transfer: sent().1 };
    let result = chain_transition(chain_state, StateChange::ReceiveTransferCancelRoute(cancel))
        .ok()
        .expect("Should succeed");
    assert_eq!(result.events.len(), 2);
    match result.new_state.payment_mapping.secrethashes_to_task.get(&secrethash()) {
        Some(TransferTask::Initiator(task)) => {
            assert_eq!(task.manager_state.cancelled_channels, vec![amount(1)]);
        }
        _ => panic!("the payment task stays"),
    }
}

#[test]
fn state_change_of_another_payment_changes_nothing() {
    let (_, transfer) = sent();
    let chain_state = node_paying(transfer);
    let mut other = sent().1;
    other.lock.secrethash = H256::zero();
    let cancel = ReceiveTransferCancelRoute { transfer: other };
    let result = chain_transition(chain_state, StateChange::ReceiveTransferCancelRoute(cancel))
        .ok()
        .expect("Should succeed");
    assert!(result.events.is_empty());
    match result.new_state.payment_mapping.secrethashes_to_task.get(&secrethash()) {
        Some(TransferTask::Initiator(task)) => assert!(task.manager_state.cancelled_channels.is_empty()),
        _ => panic!("the payment task stays"),
    }
}

fn init(routes: Vec<RouteState>) -> StateChange {
    StateChange::ActionInitInitiator(ActionInitInitiator { transfer: description(), routes })
}

/// A node of Alice's that sent Bob 100 tokens under `secrethash()`.
fn setup_initiator() -> ChainState {
    let result = chain_transition(node_with(alice_channel()), init(vec![route()]))
        .ok()
        .expect("Should succeed");
    assert!(matches!(result.events[0], Event::SendLockedTransfer(_)));
    result.new_state
}

#[test]
fn test_init_initiator() {
    let mut no_route = route();
    no_route.route = vec![];
    let result = chain_transition(node_with(alice_channel()), init(vec![no_route]))
        .ok()
        .expect("Should succeed");
    match &result.events[0] {
        Event::ErrorPaymentSentFailed(e) => assert_eq!(e.reason, "None of the available routes could be used"),
        _ => panic!("expected the payment failure"),
    }
    assert!(result.new_state.payment_mapping.secrethashes_to_task.get(&secrethash()).is_none());

    let result = chain_transition(node_with(alice_channel()), init(vec![route()]))
        .ok()
        .expect("Should succeed");
    match &result.events[0] {
        Event::SendLockedTransfer(e) => {
            assert_eq!(e.transfer.lock.amount, amount(100));
            assert_eq!(e.transfer.lock.expiration, 101);
            assert_eq!(e.inner.recipient.bytes, bob().bytes);
        }
        _ => panic!("expected the locked transfer"),
    }
    assert!(result.new_state.payment_mapping.secrethashes_to_task.get(&secrethash()).is_some());

    let close = StateChange::ActionChannelClose(ActionChannelClose { canonical_identifier: canonical_identifier() });
    let closed = chain_transition(result.new_state, close).ok().expect("Should succeed").new_state;
    let mut transfer = description();
    transfer.secret = H256 { bytes: [0x6b; 32] };
    transfer.secrethash = keccak(&transfer.secret.bytes);
    let again = StateChange::ActionInitInitiator(ActionInitInitiator { transfer, routes: vec![route()] });
    let result = chain_transition(closed, again).ok().expect("Should succeed");
    assert!(matches!(result.events[0], Event::ErrorPaymentSentFailed(_)));
}

#[test]
fn too_expensive_route_is_reported() {
    let mut costly = route();
    costly.estimated_fee = amount(50);
    let result = chain_transition(node_with(alice_channel()), init(vec![costly]))
        .ok()
        .expect("Should succeed");
    match &result.events[0] {
        Event::ErrorPaymentSentFailed(e) => assert_eq!(
            e.reason,
            "None of the available routes could be used and at least one of them exceeded the maximum fee limit"
        ),
        _ => panic!("expected the payment failure"),
    }
}

#[test]
fn test_initiator_secret_request() {
    let chain_state = setup_initiator();
    let result = chain_transition(chain_state, StateChange::ReceiveSecretRequest(request(address(0x99), 100)))
        .ok()
        .expect("Should succeed");
    assert!(result.events.is_empty());
    let result = chain_transition(result.new_state, StateChange::ReceiveSecretRequest(request(bob(), 101)))
        .ok()
        .expect("Should succeed");
    assert!(matches!(result.events[0], Event::SendSecretReveal(_)));
}

#[test]
fn test_initiator_offchain_secret_reveal() {
    let chain_state = setup_initiator();
    let stranger = ReceiveSecretReveal { sender: address(0x99), secret: secret(), secrethash: secrethash() };
    let result = chain_transition(chain_state, StateChange::ReceiveSecretReveal(stranger))
        .ok()
        .expect("Should succeed");
    assert!(result.events.is_empty());
    let wrong = ReceiveSecretReveal { sender: address(0x99), secret: H256 { bytes: [1; 32] }, secrethash: secrethash() };
    let result = chain_transition(result.new_state, StateChange::ReceiveSecretReveal(wrong))
        .ok()
        .expect("Should succeed");
    assert!(result.events.is_empty());
    assert!(result.new_state.payment_mapping.secrethashes_to_task.get(&secrethash()).is_some());
    let partner = ReceiveSecretReveal { sender: bob(), secret: secret(), secrethash: secrethash() };
    let result = chain_transition(result.new_state, StateChange::ReceiveSecretReveal(partner))
        .ok()
        .expect("Should succeed");
    assert!(matches!(result.events[0], Event::SendUnlock(_)));
    assert!(result.new_state.payment_mapping.secrethashes_to_task.get(&secrethash()).is_none());
}

#[test]
fn test_initiator_onchain_secret_reveal() {
    let chain_state = setup_initiator();
    let stranger = ReceiveSecretReveal { sender: address(0x99), secret: secret(), secrethash: secrethash() };
    let result = chain_transition(chain_state, StateChange::ReceiveSecretReveal(stranger))
        .ok()
        .expect("Should succeed");
    assert!(result.events.is_empty());
    let registered = ContractReceiveSecretReveal {
        transaction_hash: Some(H256 { bytes: [7; 32] }),
        block_number: 200,
        block_hash: H256 { bytes: [8; 32] },
        secret_registry_address: address(0x44),
        secrethash: secrethash(),
        secret: secret(),
    };
    let result = chain_transition(result.new_state, StateChange::ContractReceiveSecretReveal(registered))
        .ok()
        .expect("Should succeed");
    assert!(result.events.is_empty());
    assert!(result.new_state.payment_mapping.secrethashes_to_task.get(&secrethash()).is_some());
    let partner = ReceiveSecretReveal { sender: bob(), secret: secret(), secrethash: secrethash() };
    let result = chain_transition(result.new_state, StateChange::ReceiveSecretReveal(partner))
        .ok()
        .expect("Should succeed");
    assert!(matches!(result.events[0], Event::SendUnlock(_)));
    assert!(result.new_state.payment_mapping.secrethashes_to_task.get(&secrethash()).is_none());
}

#[test]
fn test_initiator_lock_expired() {
    let chain_state = setup_initiator();
    let block = Block { block_number: 112, block_hash: H256 { bytes: [7; 32] }, gas_limit: amount(0) };
    let result = chain_transition(chain_state, StateChange::Block(block)).ok().expect("Should succeed");
    assert!(matches!(result.events[0], Event::SendLockExpired(_)));
}

#[test]
fn block_before_expiry_keeps_the_payment() {
    let chain_state = setup_initiator();
    let block = Block { block_number: 50, block_hash: H256 { bytes: [7; 32] }, gas_limit: amount(0) };
    let result = chain_transition(chain_state, StateChange::Block(block)).ok().expect("Should succeed");
    assert!(result.events.is_empty());
    assert_eq!(result.new_state.block_number, 50);
    assert!(result.new_state.payment_mapping.secrethashes_to_task.get(&secrethash()).is_some());
}

fn reroute(sender: Address) -> ActionTransferReroute {
    let (_, mut transfer) = sent();
    transfer.balance_proof.sender = Some(sender);
    ActionTransferReroute { transfer, secret: H256 { bytes: [0x6b; 32] }, secrethash: H256 { bytes: [0x6c; 32] } }
}

#[test]
fn reroute_without_a_payment_fails() {
    match handle_action_transfer_reroute(node_with(alice_channel()), None, reroute(bob())) {
        Err(e) => assert_eq!(
            e.msg,
            "TransferCancelRoute state change should be accompanied by a valid payment state"
        ),
        Ok(_) => panic!("expected an error"),
    }
}

#[test]
fn refund_from_the_target_is_not_rerouted() {
    let chain_state = setup_initiator();
    let result = chain_transition(chain_state, StateChange::ActionTransferReroute(reroute(bob())))
        .ok()
        .expect("Should succeed");
    assert!(result.events.is_empty());
    let tasks = &result.new_state.payment_mapping.secrethashes_to_task;
    assert!(tasks.get(&secrethash()).is_some());
    match tasks.get(&H256 { bytes: [0x6c; 32] }) {
        Some(TransferTask::Initiator(task)) => {
            assert_eq!(task.manager_state.initiator_transfers.len(), 1);
            assert!(task.manager_state.initiator_transfers.get(&secrethash()).is_some());
        }
        _ => panic!("the payment is filed under the new secret hash as well"),
    }
}

#[test]
fn expired_lock_of_the_partner_is_reported() {
    let chain_state = setup_initiator();
    let expired = ReceiveLockExpired {
        sender: bob(),
        secrethash: secrethash(),
        message_identifier: 9,
        balance_proof: BalanceProofState {
            nonce: amount(1),
            transferred_amount: amount(0),
            locked_amount: amount(0),
            locksroot: compute_locksroot_of_no_locks(),
            canonical_identifier: canonical_identifier(),
            balance_hash: H256::zero(),
            message_hash: Some(H256 { bytes: [3; 32] }),
            signature: Some(Signature { bytes: [4; 65] }),
            sender: Some(bob()),
        },
    };
    let result = chain_transition(chain_state, StateChange::ReceiveLockExpired(expired))
        .ok()
        .expect("Should succeed");
    assert_eq!(result.events.len(), 2);
    assert!(matches!(result.events[0], Event::ErrorInvalidReceivedLockExpired(_)));
    match &result.events[1] {
        Event::ErrorUnlockClaimFailed(e) => {
            assert_eq!(e.reason, "Lock expired");
            assert_eq!(e.identifier, 1);
        }
        _ => panic!("expected the failed claim"),
    }
}

#[test]
fn token_network_of_an_earlier_registry_is_found() {
    let chain_state = node_with(alice_channel());
    let registry = ContractReceiveTokenNetworkRegistry {
        transaction_hash: None,
        token_network_registry: TokenNetworkRegistryState::new(address(0x44), vec![]),
        block_number: 1,
        block_hash: H256::zero(),
    };
    let chain_state = chain_transition(chain_state, StateChange::ContractReceiveTokenNetworkRegistry(registry))
        .ok()
        .expect("registry")
        .new_state;
    assert_eq!(chain_state.identifiers_to_tokennetworkregistries.len(), 2);
    let network = get_token_network(&chain_state, &address(0x11)).expect("the first registry holds it");
    assert_eq!(network.address.bytes, address(0x11).bytes);
    assert!(get_token_network(&chain_state, &address(0x12)).is_none());
}
