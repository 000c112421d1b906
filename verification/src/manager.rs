//! The state a node starts from when it has nothing stored yet.
use vstd::prelude::*;

use crate::primitives::{Address, H256};
use crate::types::state::{
    BlockNumber, ChainID, ChainState, SecretHash, TokenNetworkRegistryAddress,
    TokenNetworkRegistryState, TokenNetworkState, TransferTask,
};
use crate::types::state_change::{
    ActionInitChain, ContractReceiveTokenNetworkRegistry, StateChange,
};

verus! {

/// The hash of all zero bytes.
pub open spec fn spec_zero_hash(h: H256) -> bool {
    h@ == Seq::new(32, |i: int| 0u8)
}

/// The state changes that set a new node up: the chain, then the registry
/// deployed at `deploy_block_number`, with no token network yet.
pub open spec fn spec_initial_state_changes(
    s: Seq<StateChange>,
    chain_id: ChainID,
    our_address: Address,
    token_network_registry_address: TokenNetworkRegistryAddress,
    deploy_block_number: BlockNumber,
) -> bool {
    &&& s.len() == 2
    &&& s[0] matches StateChange::ActionInitChain(init) && {
        &&& init.chain_id == chain_id
        &&& init.our_address == our_address
        &&& init.block_number == 1
        &&& spec_zero_hash(init.block_hash)
    }
    &&& s[1] matches StateChange::ContractReceiveTokenNetworkRegistry(registry) && {
        &&& registry.transaction_hash matches Some(h) && spec_zero_hash(h)
        &&& registry.block_number == deploy_block_number
        &&& spec_zero_hash(registry.block_hash)
        &&& registry.token_network_registry.address == token_network_registry_address
        &&& registry.token_network_registry.tokennetworkaddresses_to_tokennetworks@
            == Map::<Address, TokenNetworkState>::empty()
        &&& registry.token_network_registry.tokenaddresses_to_tokennetworkaddresses@
            == Map::<Address, Address>::empty()
    }
}

/// The state of a new node, at block zero, and the state changes that set
/// it up; the state changes stored so far follow these.
pub fn init_state(
    chain_id: ChainID,
    our_address: Address,
    token_network_registry_address: TokenNetworkRegistryAddress,
    token_network_registry_deploy_block_number: BlockNumber,
) -> (r: (ChainState, Vec<StateChange>, BlockNumber))
    ensures
        r.0.chain_id == chain_id,
        r.0.block_number == 0,
        spec_zero_hash(r.0.block_hash),
        r.0.our_address == our_address,
        r.0.identifiers_to_tokennetworkregistries@ == Map::<Address, TokenNetworkRegistryState>::empty(),
        r.0.payment_mapping.secrethashes_to_task@ == Map::<SecretHash, TransferTask>::empty(),
        r.0.pending_transactions@.len() == 0,
        spec_initial_state_changes(
            r.1@,
            chain_id,
            our_address,
            token_network_registry_address,
            token_network_registry_deploy_block_number,
        ),
        r.2 == token_network_registry_deploy_block_number,
{
    let mut state_changes: Vec<StateChange> = Vec::new();
    let chain_state = ChainState::new(chain_id, 0, H256::zero(), our_address);
    state_changes.push(
        StateChange::ActionInitChain(
            ActionInitChain { chain_id, our_address, block_number: 1, block_hash: H256::zero() },
        ),
    );
    let token_network_registry_state = TokenNetworkRegistryState::new(
        token_network_registry_address,
        Vec::new(),
    );
    let new_network_registry_state_change = ContractReceiveTokenNetworkRegistry {
        transaction_hash: Some(H256::zero()),
        token_network_registry: token_network_registry_state,
        block_number: token_network_registry_deploy_block_number,
        block_hash: H256::zero(),
    };
    state_changes.push(
        StateChange::ContractReceiveTokenNetworkRegistry(new_network_registry_state_change),
    );
    (chain_state, state_changes, token_network_registry_deploy_block_number)
}

} // verus!
