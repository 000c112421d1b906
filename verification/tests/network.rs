use raiden_channels::map::LinearMap;
use raiden_channels::primitives::{Address, H256, U256};
use raiden_channels::routes::{filter_acceptable_routes, prune_route_table, ChannelKey};
use raiden_channels::token_network::{
    handle_contract_receive_channel_opened, state_transition, subdispatch_to_channel_by_id,
};
use raiden_channels::transport::{EnvironmentType, MessageHandler, MessageType, MessageTypeId};
use raiden_channels::types::random::Random;
use raiden_channels::types::state::{
    CanonicalIdentifier, ChannelState, MediationFeeConfig, RouteState, TokenNetworkGraphState,
    TokenNetworkState, TransactionChannelDeposit, TransactionExecutionStatus, TransactionResult,
};
use raiden_channels::types::state_change::{
    ActionChannelClose, Block, ContractReceiveChannelDeposit, ContractReceiveChannelOpened,
    ContractReceiveChannelSettled, StateChange,
};
use raiden_channels::hashing::compute_locksroot_of_no_locks;

fn address(b: u8) -> Address {
    Address { bytes: [b; 20] }
}

fn route(nodes: &[u8]) -> RouteState {
    RouteState {
        route: nodes.iter().map(|b| address(*b)).collect(),
        address_to_metadata: LinearMap::new(),
        swaps: LinearMap::new(),
        estimated_fee: U256::from_u64(nodes.len() as u64),
    }
}

fn nodes(r: &RouteState) -> Vec<u8> {
    r.route.iter().map(|a| a.bytes[0]).collect()
}

#[test]
fn hop_after_finds_the_next_node() {
    let r = route(&[1, 2, 3]);
    assert!(r.hop_after(address(1)).expect("hop").equals(&address(2)));
    assert!(r.hop_after(address(2)).expect("hop").equals(&address(3)));
    assert!(r.hop_after(address(3)).is_none());
    assert!(r.hop_after(address(9)).is_none());
}

#[test]
fn prune_keeps_routes_through_the_selected_hop() {
    let routes = vec![route(&[1, 2, 5]), route(&[1, 3, 5]), route(&[1, 2, 6, 5])];
    let pruned = prune_route_table(routes, route(&[1, 2, 7]), address(1));
    assert_eq!(pruned.len(), 2);
    assert_eq!(nodes(&pruned[0]), vec![2, 5]);
    assert_eq!(nodes(&pruned[1]), vec![2, 6, 5]);
    assert_eq!(pruned[1].estimated_fee, U256::from_u64(4));
}

fn channel(id: u64, our: Address, partner: Address) -> ChannelState {
    ChannelState::new(
        CanonicalIdentifier {
            chain_identifier: 5,
            token_network_address: address(0x11),
            channel_identifier: U256::from_u64(id),
        },
        address(0x22),
        address(0x33),
        our,
        partner,
        50,
        500,
        TransactionExecutionStatus {
            started_block_number: Some(1),
            finished_block_number: Some(2),
            result: Some(TransactionResult::Success),
        },
        MediationFeeConfig::new(),
    )
    .ok()
    .expect("channel")
}

#[test]
fn acceptable_routes_need_a_channel_that_is_not_blacklisted() {
    let to_two = channel(1, address(1), address(2));
    let to_three = channel(2, address(1), address(3));
    let mut channels = LinearMap::new();
    channels.insert(ChannelKey { token_network_address: address(0x11), partner_address: address(2) }, &to_two);
    channels.insert(ChannelKey { token_network_address: address(0x11), partner_address: address(3) }, &to_three);
    let routes = vec![route(&[1, 2, 5]), route(&[1, 3, 5]), route(&[1, 4, 5]), route(&[7, 8])];
    let accepted = filter_acceptable_routes(
        routes,
        vec![U256::from_u64(2)],
        channels,
        address(0x11),
        address(1),
    );
    assert_eq!(accepted.len(), 1);
    assert_eq!(nodes(&accepted[0]), vec![1, 2, 5]);
}

fn token_network() -> TokenNetworkState {
    TokenNetworkState {
        address: address(0x11),
        token_address: address(0x22),
        network_graph: TokenNetworkGraphState {},
        channelidentifiers_to_channels: LinearMap::new(),
        partneraddresses_to_channelidentifiers: LinearMap::new(),
    }
}

fn opened(id: u64, partner: u8) -> ContractReceiveChannelOpened {
    ContractReceiveChannelOpened {
        transaction_hash: None,
        block_number: 1,
        block_hash: H256::zero(),
        channel_state: channel(id, address(1), address(partner)),
    }
}

#[test]
fn opened_channels_are_recorded_with_their_partner() {
    let t = handle_contract_receive_channel_opened(token_network(), opened(1, 2)).ok().expect("opened");
    let t = handle_contract_receive_channel_opened(t.new_state, opened(3, 2)).ok().expect("opened");
    let tn = t.new_state;
    assert!(tn.channelidentifiers_to_channels.contains_key(&U256::from_u64(1)));
    assert!(tn.channelidentifiers_to_channels.contains_key(&U256::from_u64(3)));
    let ids = tn.partneraddresses_to_channelidentifiers.get(&address(2)).expect("ids");
    assert_eq!(ids.clone(), vec![U256::from_u64(1), U256::from_u64(3)]);
}

#[test]
fn reopening_a_known_channel_keeps_the_first() {
    let t = handle_contract_receive_channel_opened(token_network(), opened(1, 2)).ok().expect("opened");
    let mut again = opened(1, 2);
    again.channel_state.reveal_timeout = 20;
    let t = handle_contract_receive_channel_opened(t.new_state, again).ok().expect("opened");
    let c = t.new_state.channelidentifiers_to_channels.get(&U256::from_u64(1)).expect("channel");
    assert_eq!(c.reveal_timeout, 50);
}

#[test]
fn state_changes_reach_their_channel() {
    let mut random = Random::new();
    let t = state_transition(
        token_network(),
        StateChange::ContractReceiveChannelOpened(opened(1, 2)),
        1,
        H256::zero(),
        &mut random,
    )
    .ok()
    .expect("opened");
    let deposit = ContractReceiveChannelDeposit {
        transaction_hash: None,
        block_number: 3,
        block_hash: H256::zero(),
        canonical_identifier: CanonicalIdentifier {
            chain_identifier: 5,
            token_network_address: address(0x11),
            channel_identifier: U256::from_u64(1),
        },
        deposit_transaction: TransactionChannelDeposit {
            participant_address: address(1),
            contract_balance: U256::from_u64(70),
            deposit_block_number: 3,
        },
        fee_config: MediationFeeConfig::new(),
    };
    let t = state_transition(
        t.new_state,
        StateChange::ContractReceiveChannelDeposit(deposit),
        3,
        H256::zero(),
        &mut random,
    )
    .ok()
    .expect("deposit");
    let c = t.new_state.channelidentifiers_to_channels.get(&U256::from_u64(1)).expect("channel");
    assert_eq!(c.our_state.contract_balance, U256::from_u64(70));
}

#[test]
fn unknown_channel_is_left_alone() {
    let mut random = Random::new();
    let close = ActionChannelClose {
        canonical_identifier: CanonicalIdentifier {
            chain_identifier: 5,
            token_network_address: address(0x11),
            channel_identifier: U256::from_u64(9),
        },
    };
    let t = subdispatch_to_channel_by_id(
        token_network(),
        U256::from_u64(9),
        StateChange::ActionChannelClose(close),
        1,
        H256::zero(),
        &mut random,
    )
    .ok()
    .expect("nothing to do");
    assert!(t.events.is_empty());
    assert!(t.new_state.channelidentifiers_to_channels.is_empty());
}

#[test]
fn settled_channel_leaves_the_token_network() {
    let mut random = Random::new();
    let t = handle_contract_receive_channel_opened(token_network(), opened(1, 2)).ok().expect("opened");
    let settled = ContractReceiveChannelSettled {
        transaction_hash: None,
        block_number: 600,
        block_hash: H256::zero(),
        canonical_identifier: CanonicalIdentifier {
            chain_identifier: 5,
            token_network_address: address(0x11),
            channel_identifier: U256::from_u64(1),
        },
        our_onchain_locksroot: compute_locksroot_of_no_locks(),
        partner_onchain_locksroot: compute_locksroot_of_no_locks(),
        our_transferred_amount: U256::zero(),
        partner_transferred_amount: U256::zero(),
    };
    let t = state_transition(
        t.new_state,
        StateChange::ContractReceiveChannelSettled(settled),
        600,
        H256::zero(),
        &mut random,
    )
    .ok()
    .expect("settled");
    assert!(t.new_state.channelidentifiers_to_channels.is_empty());
    assert!(!t.new_state.partneraddresses_to_channelidentifiers.contains_key(&address(2)));
}

#[test]
fn token_network_refuses_other_state_changes() {
    let mut random = Random::new();
    let r = state_transition(
        token_network(),
        StateChange::Block(Block { block_number: 2, block_hash: H256::zero(), gas_limit: U256::zero() }),
        2,
        H256::zero(),
        &mut random,
    );
    assert_eq!(r.err().map(|e| e.msg), Some("Could not transition token network".to_string()));
}

#[test]
fn message_type_numbers() {
    let all = [
        MessageTypeId::BalanceProof,
        MessageTypeId::BalanceProofUpdate,
        MessageTypeId::Withdraw,
        MessageTypeId::CooperativeSettle,
        MessageTypeId::IOU,
        MessageTypeId::MSReward,
    ];
    let numbers: Vec<u8> = all.iter().map(|t| t.value()).collect();
    assert_eq!(numbers, vec![1, 2, 3, 4, 5, 6]);
    assert_eq!(MessageTypeId::Withdraw.to_bytes(), [3u8]);
    assert_eq!(MessageTypeId::CooperativeSettle.name(), "CooperativeSettle");
}

#[test]
fn transport_kinds() {
    assert_ne!(EnvironmentType::Production, EnvironmentType::Development);
    assert_ne!(MessageType::Text, MessageType::Notice);
    assert!(MessageHandler {}.handle("hello".to_string()).is_ok());
}
