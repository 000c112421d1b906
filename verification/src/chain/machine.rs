//! The transitions of a node's state: state changes are routed to the token
//! network or channel they concern, and the registries are kept.
use vstd::prelude::*;

use crate::chain::queues::ChainTransition;
use crate::errors::StateTransitionError;
use crate::primitives::Address;
use crate::text::{spec_address_short, with_short_address};
use crate::token_network::{
    spec_token_network_transition, spec_token_network_transition_defined, TokenNetworkTransition,
};
use crate::types::event::{Event, UpdatedServicesAddresses};
use crate::types::state::{
    BlockHash, BlockNumber, CanonicalIdentifier, ChainState, TokenNetworkAddress,
    TokenNetworkRegistryState, TokenNetworkState,
};
use crate::types::state_change::{
    ActionCancelPayment, ActionInitChain, ContractReceiveChannelClosed,
    ContractReceiveTokenNetworkCreated, ContractReceiveTokenNetworkRegistry, ReceiveDelivered,
    ReceiveProcessed, ReceiveWithdrawConfirmation, ReceiveWithdrawExpired, ReceiveWithdrawRequest,
    StateChange, UpdateServicesAddresses,
};
use crate::views::spec_registries;

verus! {

pub type TransitionResult = Result<ChainTransition, StateTransitionError>;

/// The first position, from `k` on, of a token network of `s` whose address
/// is `address`.
pub open spec fn spec_network_index_from(
    s: Seq<(Address, TokenNetworkState)>,
    address: Address,
    k: int,
) -> Option<int>
    decreases s.len() - k,
{
    if k < 0 || k >= s.len() {
        None
    } else if s[k].1.address == address {
        Some(k)
    } else {
        spec_network_index_from(s, address, k + 1)
    }
}

/// The first position, registries from `i` on in order and the networks of
/// each in order, of a token network whose address is `address`: the
/// registry's position and the network's position in it.
pub open spec fn spec_network_position_from(
    regs: Seq<(Address, TokenNetworkRegistryState)>,
    address: Address,
    i: int,
) -> Option<(int, int)>
    decreases regs.len() - i,
{
    if i < 0 || i >= regs.len() {
        None
    } else {
        match spec_network_index_from(
            regs[i].1.tokennetworkaddresses_to_tokennetworks.entries(),
            address,
            0,
        ) {
            Some(j) => Some((i, j)),
            None => spec_network_position_from(regs, address, i + 1),
        }
    }
}

/// The position of the token network with address `address` in the chain
/// state, if there is one.
pub open spec fn spec_network_position(chain_state: &ChainState, address: Address) -> Option<
    (int, int),
> {
    spec_network_position_from(spec_registries(chain_state), address, 0)
}

/// The token network at position `j` of the registry at position `i`.
pub open spec fn spec_network_at(chain_state: &ChainState, i: int, j: int) -> TokenNetworkState {
    spec_registries(chain_state)[i].1.tokennetworkaddresses_to_tokennetworks.entries()[j].1
}

/// Position `(i, j)` names a token network of the chain state.
pub open spec fn spec_valid_position(chain_state: &ChainState, i: int, j: int) -> bool {
    &&& 0 <= i < spec_registries(chain_state).len()
    &&& 0 <= j < spec_registries(
        chain_state,
    )[i].1.tokennetworkaddresses_to_tokennetworks.entries().len()
}

/// `new` is `old` with the token network at position `(i, j)` replaced by
/// `tn` under the same key; the registries and networks keep their order,
/// and only the random number generator may differ besides.
pub open spec fn spec_network_replaced(
    new: ChainState,
    old: ChainState,
    i: int,
    j: int,
    tn: TokenNetworkState,
) -> bool {
    let oregs = spec_registries(&old);
    let nregs = spec_registries(&new);
    let oreg = oregs[i].1;
    let nreg = nregs[i].1;
    let otns = oreg.tokennetworkaddresses_to_tokennetworks;
    &&& new == ChainState {
        identifiers_to_tokennetworkregistries: new.identifiers_to_tokennetworkregistries,
        pseudo_random_number_generator: new.pseudo_random_number_generator,
        ..old
    }
    &&& nregs == oregs.update(i, (oregs[i].0, nreg))
    &&& nreg == TokenNetworkRegistryState {
        tokennetworkaddresses_to_tokennetworks: nreg.tokennetworkaddresses_to_tokennetworks,
        ..oreg
    }
    &&& nreg.tokennetworkaddresses_to_tokennetworks.entries() == otns.entries().update(
        j,
        (otns.entries()[j].0, tn),
    )
    &&& new.identifiers_to_tokennetworkregistries@
        == old.identifiers_to_tokennetworkregistries@.insert(oregs[i].0, nreg)
    &&& nreg.tokennetworkaddresses_to_tokennetworks@ == otns@.insert(otns.entries()[j].0, tn)
}

/// `r` is what the node makes of the token network's outcome for the
/// network at `(i, j)`: its failure, or the node with the network replaced
/// and the network's events.
pub open spec fn spec_network_outcome(
    old: ChainState,
    i: int,
    j: int,
    state_change: StateChange,
    block_number: BlockNumber,
    block_hash: BlockHash,
    r: TransitionResult,
) -> bool {
    let tn = spec_network_at(&old, i, j);
    match r {
        Err(e) => spec_token_network_transition(
            tn,
            state_change,
            block_number,
            block_hash,
            Err(e),
        ),
        Ok(ct) => exists|t: TokenNetworkTransition|
            #[trigger] spec_token_network_transition(
                tn,
                state_change,
                block_number,
                block_hash,
                Ok(t),
            ) && ct.events == t.events && spec_network_replaced(
                ct.new_state,
                old,
                i,
                j,
                t.new_state,
            ),
    }
}

/// Finds the position of the first token network whose address is
/// `address`.
pub(crate) fn find_network_position(chain_state: &ChainState, address: Address) -> (r: Option<(usize, usize)>)
    ensures
        match spec_network_position(chain_state, address) {
            Some((i, j)) => {
                &&& r.is_some()
                &&& r.unwrap().0 == i
                &&& r.unwrap().1 == j
                &&& spec_valid_position(chain_state, i, j)
            },
            None => r.is_none(),
        },
{
    let registries = &chain_state.identifiers_to_tokennetworkregistries;
    let ghost regs = registries.entries();
    let mut i: usize = 0;
    while i < registries.len()
        invariant
            i <= regs.len(),
            regs == registries.entries(),
            regs == spec_registries(chain_state),
            spec_network_position_from(regs, address, 0) == spec_network_position_from(
                regs,
                address,
                i as int,
            ),
        decreases regs.len() - i,
    {
        let (_, registry) = registries.entry_at(i);
        let tns = &registry.tokennetworkaddresses_to_tokennetworks;
        let ghost s = tns.entries();
        assert(s == regs[i as int].1.tokennetworkaddresses_to_tokennetworks.entries());
        let mut j: usize = 0;
        while j < tns.len()
            invariant
                j <= s.len(),
                s == tns.entries(),
                i < regs.len(),
                regs == spec_registries(chain_state),
                spec_network_position_from(regs, address, 0) == spec_network_position_from(
                    regs,
                    address,
                    i as int,
                ),
                s == regs[i as int].1.tokennetworkaddresses_to_tokennetworks.entries(),
                spec_network_index_from(s, address, 0) == spec_network_index_from(
                    s,
                    address,
                    j as int,
                ),
            decreases s.len() - j,
        {
            let (_, tn) = tns.entry_at(j);
            if tn.address.equals(&address) {
                assert(spec_network_index_from(s, address, j as int) == Some(j as int));
                assert(spec_network_position_from(regs, address, i as int) == Some(
                    (i as int, j as int),
                ));
                return Some((i, j));
            }
            j = j + 1;
        }
        assert(spec_network_index_from(s, address, j as int) == None::<int>);
        assert(spec_network_position_from(regs, address, i as int) == spec_network_position_from(
            regs,
            address,
            i + 1,
        ));
        i = i + 1;
    }
    None
}

/// Applies `state_change` to the token network at position `(i, j)` and
/// puts the new network back in its place.
fn transition_network_at(
    chain_state: ChainState,
    i: usize,
    j: usize,
    state_change: StateChange,
    block_number: BlockNumber,
    block_hash: BlockHash,
) -> (r: TransitionResult)
    requires
        spec_valid_position(&chain_state, i as int, j as int),
        spec_token_network_transition_defined(
            spec_network_at(&chain_state, i as int, j as int),
            state_change,
            block_number,
            block_hash,
        ),
    ensures
        spec_network_outcome(chain_state, i as int, j as int, state_change, block_number, block_hash, r),
{
    let ghost old = chain_state;
    let mut chain_state = chain_state;
    let (registry_key, mut registry) = chain_state.identifiers_to_tokennetworkregistries.take(i);
    let (network_key, token_network) = registry.tokennetworkaddresses_to_tokennetworks.take(j);
    let transition = crate::token_network::state_transition(
        token_network,
        state_change,
        block_number,
        block_hash,
        &mut chain_state.pseudo_random_number_generator,
    );
    match transition {
        Err(e) => Err(e),
        Ok(t) => {
            let ghost tt = t;
            let ghost oreg = registry;
            registry.tokennetworkaddresses_to_tokennetworks.put_back(j, network_key, t.new_state);
            let ghost nreg = registry;
            chain_state.identifiers_to_tokennetworkregistries.put_back(i, registry_key, registry);
            proof {
                let oregs = spec_registries(&old);
                let otns = oregs[i as int].1.tokennetworkaddresses_to_tokennetworks;
                assert(otns.entries().remove(j as int).insert(j as int, (network_key, tt.new_state))
                    =~= otns.entries().update(j as int, (network_key, tt.new_state)));
                assert(oregs.remove(i as int).insert(i as int, (registry_key, nreg)) =~= oregs.update(
                    i as int,
                    (registry_key, nreg),
                ));
                assert(otns@.remove(network_key).insert(network_key, tt.new_state) =~= otns@.insert(
                    network_key,
                    tt.new_state,
                ));
                assert(old.identifiers_to_tokennetworkregistries@.remove(registry_key).insert(
                    registry_key,
                    nreg,
                ) =~= old.identifiers_to_tokennetworkregistries@.insert(registry_key, nreg));
            }
            let r = Ok(ChainTransition { new_state: chain_state, events: t.events });
            assert(spec_network_replaced(r.unwrap().new_state, old, i as int, j as int, tt.new_state));
            r
        },
    }
}


/// What `subdispatch_by_canonical_id` needs: the transition of the token
/// network it reaches, if any, is defined.
pub open spec fn spec_subdispatch_defined(
    chain_state: &ChainState,
    state_change: StateChange,
    canonical_identifier: CanonicalIdentifier,
) -> bool {
    match spec_network_position(chain_state, canonical_identifier.token_network_address) {
        Some((i, j)) => spec_token_network_transition_defined(
            spec_network_at(chain_state, i, j),
            state_change,
            chain_state.block_number,
            chain_state.block_hash,
        ),
        None => true,
    }
}

/// `r` leaves the node as it is, with no event.
pub open spec fn spec_unchanged(chain_state: ChainState, r: TransitionResult) -> bool {
    &&& r.is_ok()
    &&& r.unwrap().new_state == chain_state
    &&& r.unwrap().events@.len() == 0
}

/// The outcome of `subdispatch_by_canonical_id`.
pub open spec fn spec_subdispatch(
    chain_state: ChainState,
    state_change: StateChange,
    canonical_identifier: CanonicalIdentifier,
    r: TransitionResult,
) -> bool {
    match spec_network_position(&chain_state, canonical_identifier.token_network_address) {
        Some((i, j)) => spec_network_outcome(
            chain_state,
            i,
            j,
            state_change,
            chain_state.block_number,
            chain_state.block_hash,
            r,
        ),
        None => spec_unchanged(chain_state, r),
    }
}

/// Subdispatch to a channel by canonical ID: the first token network with
/// the channel's token network address handles the state change; without
/// one nothing happens.
pub fn subdispatch_by_canonical_id(
    chain_state: ChainState,
    state_change: StateChange,
    canonical_identifier: CanonicalIdentifier,
) -> (r: TransitionResult)
    requires
        spec_subdispatch_defined(&chain_state, state_change, canonical_identifier),
    ensures
        spec_subdispatch(chain_state, state_change, canonical_identifier, r),
{
    match find_network_position(&chain_state, canonical_identifier.token_network_address) {
        Some((i, j)) => {
            let block_number = chain_state.block_number;
            let block_hash = chain_state.block_hash;
            transition_network_at(chain_state, i, j, state_change, block_number, block_hash)
        },
        None => Ok(ChainTransition { new_state: chain_state, events: Vec::new() }),
    }
}

/// The message of the failure when no token network has the address.
pub open spec fn spec_network_not_found(token_network_address: TokenNetworkAddress) -> Seq<char> {
    "Token network "@ + spec_address_short(token_network_address@) + " was not found"@
}

/// What `handle_token_network_state_change` needs: the token network that
/// the first registry holding one under the address gives is filed under its
/// own address, that registry is filed under its own address (so that the
/// network read is the one written back), and the network's transition is
/// defined.
pub open spec fn spec_network_state_change_defined(
    chain_state: &ChainState,
    token_network_address: TokenNetworkAddress,
    state_change: StateChange,
    block_number: BlockNumber,
    block_hash: BlockHash,
) -> bool {
    let regs = spec_registries(chain_state);
    match crate::views::spec_registry_index_from(regs, token_network_address, 0) {
        Some(i) => {
            let tn = regs[i].1.tokennetworkaddresses_to_tokennetworks@[token_network_address];
            &&& tn.address == token_network_address
            &&& regs[i].1.address == regs[i].0
            &&& spec_token_network_transition_defined(tn, state_change, block_number, block_hash)
        },
        None => true,
    }
}

/// The outcome of `handle_token_network_state_change`.
pub open spec fn spec_network_state_change(
    chain_state: ChainState,
    token_network_address: TokenNetworkAddress,
    state_change: StateChange,
    block_number: BlockNumber,
    block_hash: BlockHash,
    r: TransitionResult,
) -> bool {
    let regs = spec_registries(&chain_state);
    match crate::views::spec_registry_index_from(regs, token_network_address, 0) {
        Some(i) => {
            let tns = regs[i].1.tokennetworkaddresses_to_tokennetworks.entries();
            exists|j: int|
                0 <= j < tns.len() && #[trigger] tns[j].0 == token_network_address
                    && spec_network_outcome(chain_state, i, j, state_change, block_number, block_hash, r)
        },
        None => match r {
            Err(e) => e.msg@ == spec_network_not_found(token_network_address),
            Ok(_) => false,
        },
    }
}

/// Dispatch `StateChange` to token network state machine: the network that
/// the first registry holding one under the address gives handles it and is
/// stored back in its place.
pub fn handle_token_network_state_change(
    chain_state: ChainState,
    token_network_address: TokenNetworkAddress,
    state_change: StateChange,
    block_number: BlockNumber,
    block_hash: BlockHash,
) -> (r: TransitionResult)
    requires
        spec_network_state_change_defined(
            &chain_state,
            token_network_address,
            state_change,
            block_number,
            block_hash,
        ),
    ensures
        spec_network_state_change(
            chain_state,
            token_network_address,
            state_change,
            block_number,
            block_hash,
            r,
        ),
{
    let ghost regs = spec_registries(&chain_state);
    let i = match crate::views::find_registry_index(&chain_state, &token_network_address) {
        Some(i) => i,
        None => {
            let msg = with_short_address("Token network ", &token_network_address, " was not found");
            return Err(StateTransitionError::from_message(msg));
        },
    };
    let (_, registry) = chain_state.identifiers_to_tokennetworkregistries.entry_at(i);
    proof {
        crate::views::lemma_registry_index_holds(regs, token_network_address, 0);
    }
    let j = match registry.tokennetworkaddresses_to_tokennetworks.find(&token_network_address) {
        Some(j) => j,
        None => {
            assert(false);
            return Err(StateTransitionError::from_message(String::new()));
        },
    };
    let ghost tns = regs[i as int].1.tokennetworkaddresses_to_tokennetworks.entries();
    assert(tns[j as int].0 == token_network_address);
    let r = transition_network_at(chain_state, i, j, state_change, block_number, block_hash);
    assert(spec_network_outcome(chain_state, i as int, j as int, state_change, block_number, block_hash, r));
    r
}

/// Handle `ContractReceiveChannelClosed` state change.
pub fn handle_contract_receive_channel_closed(
    chain_state: ChainState,
    state_change: ContractReceiveChannelClosed,
    block_number: BlockNumber,
    block_hash: BlockHash,
) -> (r: TransitionResult)
    requires
        spec_network_state_change_defined(
            &chain_state,
            state_change.canonical_identifier.token_network_address,
            StateChange::ContractReceiveChannelClosed(state_change),
            block_number,
            block_hash,
        ),
    ensures
        spec_network_state_change(
            chain_state,
            state_change.canonical_identifier.token_network_address,
            StateChange::ContractReceiveChannelClosed(state_change),
            block_number,
            block_hash,
            r,
        ),
{
    let token_network_address = state_change.canonical_identifier.token_network_address;
    handle_token_network_state_change(
        chain_state,
        token_network_address,
        StateChange::ContractReceiveChannelClosed(state_change),
        block_number,
        block_hash,
    )
}


/// The outcome of `handle_action_init_chain`.
pub open spec fn spec_chain_initialized(state_change: ActionInitChain, r: TransitionResult) -> bool {
    let n = r.unwrap().new_state;
    &&& r.is_ok()
    &&& r.unwrap().events@.len() == 0
    &&& n.chain_id == state_change.chain_id
    &&& n.block_number == state_change.block_number
    &&& n.block_hash == state_change.block_hash
    &&& n.our_address == state_change.our_address
    &&& n.identifiers_to_tokennetworkregistries@ == Map::<Address, TokenNetworkRegistryState>::empty()
    &&& n.payment_mapping.secrethashes_to_task@.dom().len() == 0
    &&& n.pending_transactions@.len() == 0
}

/// Initialize chain information: a new node state with no registries,
/// payments or pending transactions.
pub fn handle_action_init_chain(state_change: ActionInitChain) -> (r: TransitionResult)
    ensures
        spec_chain_initialized(state_change, r),
{
    let new_state = ChainState::new(
        state_change.chain_id,
        state_change.block_number,
        state_change.block_hash,
        state_change.our_address,
    );
    Ok(ChainTransition { new_state, events: Vec::new() })
}

/// The outcome of `handle_contract_receive_token_network_registry`.
pub open spec fn spec_registry_added(
    chain_state: ChainState,
    state_change: ContractReceiveTokenNetworkRegistry,
    r: TransitionResult,
) -> bool {
    let registry = state_change.token_network_registry;
    let old = chain_state.identifiers_to_tokennetworkregistries;
    let new = r.unwrap().new_state;
    &&& r.is_ok()
    &&& r.unwrap().events@.len() == 0
    &&& new == ChainState {
        identifiers_to_tokennetworkregistries: new.identifiers_to_tokennetworkregistries,
        ..chain_state
    }
    &&& if old@.contains_key(registry.address) {
        new.identifiers_to_tokennetworkregistries == old
    } else {
        crate::map::spec_inserted(
            new.identifiers_to_tokennetworkregistries,
            old,
            registry.address,
            registry,
        )
    }
}

/// Handle `ContractReceiveTokenNetworkRegistry` state change: a registry
/// that is not known yet is added under its address.
pub fn handle_contract_receive_token_network_registry(
    chain_state: ChainState,
    state_change: ContractReceiveTokenNetworkRegistry,
) -> (r: TransitionResult)
    ensures
        spec_registry_added(chain_state, state_change, r),
{
    let mut chain_state = chain_state;
    let address = state_change.token_network_registry.address;
    if !chain_state.identifiers_to_tokennetworkregistries.contains_key(&address) {
        chain_state.identifiers_to_tokennetworkregistries.insert(
            address,
            state_change.token_network_registry,
        );
    }
    Ok(ChainTransition { new_state: chain_state, events: Vec::new() })
}

/// The message of the failure when the registry is not known.
pub open spec fn spec_registry_not_found(registry_address: Address) -> Seq<char> {
    "Token network registry "@ + spec_address_short(registry_address@) + " was not found"@
}

/// The outcome of `handle_contract_receive_token_network_created`.
pub open spec fn spec_network_added(
    chain_state: ChainState,
    state_change: ContractReceiveTokenNetworkCreated,
    r: TransitionResult,
) -> bool {
    let key = state_change.token_network_registry_address;
    let tn = state_change.token_network;
    let old = chain_state.identifiers_to_tokennetworkregistries;
    if old@.contains_key(key) {
        let new = r.unwrap().new_state;
        let oreg = old@[key];
        let nreg = new.identifiers_to_tokennetworkregistries@[key];
        &&& r.is_ok()
        &&& r.unwrap().events@.len() == 0
        &&& new == ChainState {
            identifiers_to_tokennetworkregistries: new.identifiers_to_tokennetworkregistries,
            ..chain_state
        }
        &&& crate::map::spec_inserted(new.identifiers_to_tokennetworkregistries, old, key, nreg)
        &&& nreg.address == oreg.address
        &&& crate::map::spec_inserted(
            nreg.tokennetworkaddresses_to_tokennetworks,
            oreg.tokennetworkaddresses_to_tokennetworks,
            tn.address,
            tn,
        )
        &&& crate::map::spec_inserted(
            nreg.tokenaddresses_to_tokennetworkaddresses,
            oreg.tokenaddresses_to_tokennetworkaddresses,
            tn.token_address,
            tn.address,
        )
    } else {
        match r {
            Err(e) => e.msg@ == spec_registry_not_found(key),
            Ok(_) => false,
        }
    }
}

/// Handle `ContractReceiveTokenNetworkCreated` state change: the network is
/// added to its registry, under its address and under its token.
pub fn handle_contract_receive_token_network_created(
    chain_state: ChainState,
    state_change: ContractReceiveTokenNetworkCreated,
) -> (r: TransitionResult)
    ensures
        spec_network_added(chain_state, state_change, r),
{
    let ghost old = chain_state;
    let mut chain_state = chain_state;
    let key = state_change.token_network_registry_address;
    match chain_state.identifiers_to_tokennetworkregistries.find(&key) {
        None => {
            let msg = with_short_address("Token network registry ", &key, " was not found");
            Err(StateTransitionError::from_message(msg))
        },
        Some(i) => {
            let (registry_key, mut registry) = chain_state.identifiers_to_tokennetworkregistries.take(
                i,
            );
            let token_network = state_change.token_network;
            let token_network_address = token_network.address;
            let token_address = token_network.token_address;
            registry.tokennetworkaddresses_to_tokennetworks.insert(
                token_network_address,
                token_network,
            );
            registry.tokenaddresses_to_tokennetworkaddresses.insert(
                token_address,
                token_network_address,
            );
            let ghost nreg = registry;
            chain_state.identifiers_to_tokennetworkregistries.put_back(i, registry_key, registry);
            proof {
                let oids = old.identifiers_to_tokennetworkregistries;
                assert(oids.entries().remove(i as int).insert(i as int, (key, nreg)) =~= oids.entries().update(
                    i as int,
                    (key, nreg),
                ));
                assert(oids@.remove(key).insert(key, nreg) =~= oids@.insert(key, nreg));
            }
            Ok(ChainTransition { new_state: chain_state, events: Vec::new() })
        },
    }
}

/// Handle `WithdrawRequest` state change.
pub fn handle_receive_withdraw_request(chain_state: ChainState, state_change: ReceiveWithdrawRequest) -> (r:
    TransitionResult)
    requires
        spec_subdispatch_defined(
            &chain_state,
            StateChange::ReceiveWithdrawRequest(state_change),
            state_change.canonical_identifier,
        ),
    ensures
        spec_subdispatch(
            chain_state,
            StateChange::ReceiveWithdrawRequest(state_change),
            state_change.canonical_identifier,
            r,
        ),
{
    let canonical_identifier = state_change.canonical_identifier;
    subdispatch_by_canonical_id(
        chain_state,
        StateChange::ReceiveWithdrawRequest(state_change),
        canonical_identifier,
    )
}

/// Handle `ReceiveWithdrawConfirmation` state change.
pub fn handle_receive_withdraw_confirmation(
    chain_state: ChainState,
    state_change: ReceiveWithdrawConfirmation,
) -> (r: TransitionResult)
    requires
        spec_subdispatch_defined(
            &chain_state,
            StateChange::ReceiveWithdrawConfirmation(state_change),
            state_change.canonical_identifier,
        ),
    ensures
        spec_subdispatch(
            chain_state,
            StateChange::ReceiveWithdrawConfirmation(state_change),
            state_change.canonical_identifier,
            r,
        ),
{
    let canonical_identifier = state_change.canonical_identifier;
    subdispatch_by_canonical_id(
        chain_state,
        StateChange::ReceiveWithdrawConfirmation(state_change),
        canonical_identifier,
    )
}

/// Handle `WithdrawExpired` state change.
pub fn handle_receive_withdraw_expired(chain_state: ChainState, state_change: ReceiveWithdrawExpired) -> (r:
    TransitionResult)
    requires
        spec_subdispatch_defined(
            &chain_state,
            StateChange::ReceiveWithdrawExpired(state_change),
            state_change.canonical_identifier,
        ),
    ensures
        spec_subdispatch(
            chain_state,
            StateChange::ReceiveWithdrawExpired(state_change),
            state_change.canonical_identifier,
            r,
        ),
{
    let canonical_identifier = state_change.canonical_identifier;
    subdispatch_by_canonical_id(
        chain_state,
        StateChange::ReceiveWithdrawExpired(state_change),
        canonical_identifier,
    )
}

/// Handle `ReceiveDelivered` state change: nothing changes.
pub fn handle_receive_delivered(chain_state: ChainState, state_change: ReceiveDelivered) -> (r:
    TransitionResult)
    ensures
        spec_unchanged(chain_state, r),
{
    Ok(ChainTransition { new_state: chain_state, events: Vec::new() })
}

/// Handle `ReceiveProcessed` state change: nothing changes.
pub fn handle_receive_processed(chain_state: ChainState, state_change: ReceiveProcessed) -> (r:
    TransitionResult)
    ensures
        spec_unchanged(chain_state, r),
{
    Ok(ChainTransition { new_state: chain_state, events: Vec::new() })
}

/// Handle `ActionCancelPayment` state change: nothing changes.
pub fn handle_action_cancel_payment(chain_state: ChainState, state_change: ActionCancelPayment) -> (r:
    TransitionResult)
    ensures
        spec_unchanged(chain_state, r),
{
    Ok(ChainTransition { new_state: chain_state, events: Vec::new() })
}

/// The outcome of `handle_update_services_addresses`.
pub open spec fn spec_services_updated(
    chain_state: ChainState,
    state_change: UpdateServicesAddresses,
    r: TransitionResult,
) -> bool {
    &&& r.is_ok()
    &&& r.unwrap().new_state == chain_state
    &&& r.unwrap().events@ == seq![
        Event::UpdatedServicesAddresses(
            UpdatedServicesAddresses {
                service_address: state_change.service,
                validity: state_change.valid_till,
            },
        ),
    ]
}

/// Handle `UpdateServicesAddresses` state change: the node reports the
/// service's address and how long it is valid.
pub fn handle_update_services_addresses(
    chain_state: ChainState,
    state_change: UpdateServicesAddresses,
) -> (r: TransitionResult)
    ensures
        spec_services_updated(chain_state, state_change, r),
{
    let event = UpdatedServicesAddresses {
        service_address: state_change.service,
        validity: state_change.valid_till,
    };
    let mut events: Vec<Event> = Vec::new();
    events.push(Event::UpdatedServicesAddresses(event));
    Ok(ChainTransition { new_state: chain_state, events })
}

} // verus!
