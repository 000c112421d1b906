//! The token network: the channels of one token, keyed by identifier, and
//! the channels we have with each partner.
use vstd::prelude::*;

use crate::channel::machine::{spec_state_transition, spec_state_transition_defined};
use crate::channel::transitions::TransitionResult as ChannelTransitionResult;
use crate::errors::StateTransitionError;
use crate::primitives::{Address, U256};
use crate::types::event::Event;
use crate::types::random::Random;
use crate::types::state::{BlockHash, BlockNumber, TokenNetworkState};
use crate::types::state_change::{ContractReceiveChannelOpened, StateChange};

verus! {

/// The token network after a state change, and the events to act on.
pub struct TokenNetworkTransition {
    pub new_state: TokenNetworkState,
    pub events: Vec<Event>,
}

pub type TransitionResult = Result<TokenNetworkTransition, StateTransitionError>;

/// `new` is `old` with other channel maps.
pub open spec fn spec_maps_replaced(new: TokenNetworkState, old: TokenNetworkState) -> bool {
    new == TokenNetworkState {
        channelidentifiers_to_channels: new.channelidentifiers_to_channels,
        partneraddresses_to_channelidentifiers: new.partneraddresses_to_channelidentifiers,
        ..old
    }
}

/// `r` is what the token network makes of the channel's outcome `c` for
/// the channel `channel_identifier` with partner `partner`: a failure
/// stays; a channel that remains replaces the old one; a cleared channel
/// leaves both maps.
pub open spec fn spec_channel_result_applied(
    token_network_state: TokenNetworkState,
    channel_identifier: U256,
    partner: Address,
    c: ChannelTransitionResult,
    r: TransitionResult,
) -> bool {
    match c {
        Err(e) => r == Err::<TokenNetworkTransition, StateTransitionError>(e),
        Ok(t) => {
            let n = r.unwrap().new_state;
            let old = token_network_state;
            &&& r.is_ok()
            &&& r.unwrap().events == t.events
            &&& spec_maps_replaced(n, old)
            &&& match t.new_state {
                Some(channel) => {
                    &&& n.channelidentifiers_to_channels@
                        == old.channelidentifiers_to_channels@.insert(channel_identifier, channel)
                    &&& n.partneraddresses_to_channelidentifiers@
                        == old.partneraddresses_to_channelidentifiers@
                },
                None => {
                    &&& n.channelidentifiers_to_channels@
                        == old.channelidentifiers_to_channels@.remove(channel_identifier)
                    &&& n.partneraddresses_to_channelidentifiers@
                        == old.partneraddresses_to_channelidentifiers@.remove(partner)
                },
            }
        },
    }
}

/// What `subdispatch_to_channel_by_id` needs: the transition of the
/// channel, if there is one, is defined.
pub open spec fn spec_subdispatch_defined(
    token_network_state: TokenNetworkState,
    channel_identifier: U256,
    state_change: StateChange,
    block_number: BlockNumber,
    block_hash: BlockHash,
) -> bool {
    let channels = token_network_state.channelidentifiers_to_channels@;
    channels.contains_key(channel_identifier) ==> spec_state_transition_defined(
        channels[channel_identifier],
        state_change,
        block_number,
        block_hash,
    )
}

/// The outcome of `subdispatch_to_channel_by_id`: nothing happens to an
/// unknown channel; a known one goes through its state machine.
pub open spec fn spec_subdispatch(
    token_network_state: TokenNetworkState,
    channel_identifier: U256,
    state_change: StateChange,
    block_number: BlockNumber,
    block_hash: BlockHash,
    r: TransitionResult,
) -> bool {
    let channels = token_network_state.channelidentifiers_to_channels@;
    if channels.contains_key(channel_identifier) {
        let channel = channels[channel_identifier];
        exists|c: ChannelTransitionResult|
            #[trigger] spec_state_transition(channel, state_change, block_number, block_hash, c)
                && spec_channel_result_applied(
                token_network_state,
                channel_identifier,
                channel.partner_state.address,
                c,
                r,
            )
    } else {
        &&& r.is_ok()
        &&& r.unwrap().new_state == token_network_state
        &&& r.unwrap().events@.len() == 0
    }
}

/// Hands the state change to the channel `channel_identifier`, if the
/// token network has it, and records what the channel becomes.
pub fn subdispatch_to_channel_by_id(
    token_network_state: TokenNetworkState,
    channel_identifier: U256,
    state_change: StateChange,
    block_number: BlockNumber,
    block_hash: BlockHash,
    pseudo_random_number_generator: &mut Random,
) -> (r: TransitionResult)
    requires
        spec_subdispatch_defined(
            token_network_state,
            channel_identifier,
            state_change,
            block_number,
            block_hash,
        ),
    ensures
        spec_subdispatch(
            token_network_state,
            channel_identifier,
            state_change,
            block_number,
            block_hash,
            r,
        ),
{
    let ghost old_state = token_network_state;
    let mut token_network_state = token_network_state;
    if !token_network_state.channelidentifiers_to_channels.contains_key(&channel_identifier) {
        return Ok(TokenNetworkTransition { new_state: token_network_state, events: Vec::new() });
    }
    let channel_state = match token_network_state.channelidentifiers_to_channels.remove(
        &channel_identifier,
    ) {
        Some(channel_state) => channel_state,
        None => {
            return Ok(TokenNetworkTransition { new_state: token_network_state, events: Vec::new() });
        },
    };
    let ghost channel = channel_state;
    let partner_address = channel_state.partner_state.address;
    let result = crate::channel::machine::state_transition(
        channel_state,
        state_change,
        block_number,
        block_hash,
        pseudo_random_number_generator,
    );
    let ghost c = result;
    assert(spec_state_transition(channel, state_change, block_number, block_hash, c));
    let result = match result {
        Ok(result) => result,
        Err(e) => {
            return Err(e);
        },
    };
    match result.new_state {
        Some(channel_state) => {
            token_network_state.channelidentifiers_to_channels.insert(
                channel_identifier,
                channel_state,
            );
            assert(token_network_state.channelidentifiers_to_channels@ =~= old_state.channelidentifiers_to_channels@.insert(
                channel_identifier,
                channel_state,
            ));
        },
        None => {
            token_network_state.partneraddresses_to_channelidentifiers.remove(&partner_address);
        },
    }
    Ok(TokenNetworkTransition { new_state: token_network_state, events: result.events })
}

/// The channel identifiers we have with `partner` after a channel
/// `channel_identifier` opened with it.
pub open spec fn spec_partner_channels_after_open(
    old: Map<Address, Vec<U256>>,
    new: Map<Address, Vec<U256>>,
    partner: Address,
    channel_identifier: U256,
) -> bool {
    &&& new.dom() == old.dom().insert(partner)
    &&& new[partner]@ == (if old.contains_key(partner) {
        old[partner]@
    } else {
        Seq::<U256>::empty()
    }).push(channel_identifier)
    &&& forall|a: Address| a != partner && old.contains_key(a) ==> #[trigger] new[a] == old[a]
}

/// The outcome of `handle_contract_receive_channel_opened`.
pub open spec fn spec_channel_opened(
    token_network_state: TokenNetworkState,
    state_change: ContractReceiveChannelOpened,
    r: TransitionResult,
) -> bool {
    let old = token_network_state;
    let channel = state_change.channel_state;
    let id = channel.canonical_identifier.channel_identifier;
    let n = r.unwrap().new_state;
    &&& r.is_ok()
    &&& r.unwrap().events@.len() == 0
    &&& spec_maps_replaced(n, old)
    &&& spec_partner_channels_after_open(
        old.partneraddresses_to_channelidentifiers@,
        n.partneraddresses_to_channelidentifiers@,
        channel.partner_state.address,
        id,
    )
    &&& n.channelidentifiers_to_channels@ == if old.channelidentifiers_to_channels@.contains_key(id) {
        old.channelidentifiers_to_channels@
    } else {
        old.channelidentifiers_to_channels@.insert(id, channel)
    }
}

/// Records a channel that was opened on chain, unless its identifier is
/// already known, and adds it to the channels with its partner.
pub fn handle_contract_receive_channel_opened(
    token_network_state: TokenNetworkState,
    state_change: ContractReceiveChannelOpened,
) -> (r: TransitionResult)
    ensures
        spec_channel_opened(token_network_state, state_change, r),
{
    let ghost old_state = token_network_state;
    let mut token_network_state = token_network_state;
    let channel_state = state_change.channel_state;
    let partner = channel_state.partner_state.address;
    let channel_identifier = channel_state.canonical_identifier.channel_identifier;
    let mut identifiers = match token_network_state.partneraddresses_to_channelidentifiers.remove(
        &partner,
    ) {
        Some(identifiers) => identifiers,
        None => Vec::new(),
    };
    identifiers.push(channel_identifier);
    token_network_state.partneraddresses_to_channelidentifiers.insert(partner, identifiers);
    proof {
        let old_p = old_state.partneraddresses_to_channelidentifiers@;
        let new_p = token_network_state.partneraddresses_to_channelidentifiers@;
        assert(new_p.dom() =~= old_p.dom().insert(partner));
    }
    if !token_network_state.channelidentifiers_to_channels.contains_key(&channel_identifier) {
        token_network_state.channelidentifiers_to_channels.insert(channel_identifier, channel_state);
    }
    Ok(TokenNetworkTransition { new_state: token_network_state, events: Vec::new() })
}

/// The channel a state change is for, where the token network hands it to
/// a channel.
pub open spec fn spec_routed_channel(state_change: StateChange) -> Option<U256> {
    match state_change {
        StateChange::ActionChannelClose(inner) => Some(inner.canonical_identifier.channel_identifier),
        StateChange::ActionChannelWithdraw(inner) => Some(
            inner.canonical_identifier.channel_identifier,
        ),
        StateChange::ActionChannelCoopSettle(inner) => Some(
            inner.canonical_identifier.channel_identifier,
        ),
        StateChange::ActionChannelSetRevealTimeout(inner) => Some(
            inner.canonical_identifier.channel_identifier,
        ),
        StateChange::ContractReceiveChannelClosed(inner) => Some(
            inner.canonical_identifier.channel_identifier,
        ),
        StateChange::ContractReceiveChannelDeposit(inner) => Some(
            inner.canonical_identifier.channel_identifier,
        ),
        StateChange::ContractReceiveChannelWithdraw(inner) => Some(
            inner.canonical_identifier.channel_identifier,
        ),
        StateChange::ContractReceiveChannelSettled(inner) => Some(
            inner.canonical_identifier.channel_identifier,
        ),
        StateChange::ContractReceiveUpdateTransfer(inner) => Some(
            inner.canonical_identifier.channel_identifier,
        ),
        StateChange::ContractReceiveChannelBatchUnlock(inner) => Some(
            inner.canonical_identifier.channel_identifier,
        ),
        StateChange::ReceiveWithdrawRequest(inner) => Some(
            inner.canonical_identifier.channel_identifier,
        ),
        StateChange::ReceiveWithdrawConfirmation(inner) => Some(
            inner.canonical_identifier.channel_identifier,
        ),
        StateChange::ReceiveWithdrawExpired(inner) => Some(
            inner.canonical_identifier.channel_identifier,
        ),
        _ => None,
    }
}

/// The channel of the state change, when the token network routes it.
fn routed_channel(state_change: &StateChange) -> (r: Option<U256>)
    ensures
        r == spec_routed_channel(*state_change),
{
    match state_change {
        StateChange::ActionChannelClose(inner) => Some(inner.canonical_identifier.channel_identifier),
        StateChange::ActionChannelWithdraw(inner) => Some(
            inner.canonical_identifier.channel_identifier,
        ),
        StateChange::ActionChannelCoopSettle(inner) => Some(
            inner.canonical_identifier.channel_identifier,
        ),
        StateChange::ActionChannelSetRevealTimeout(inner) => Some(
            inner.canonical_identifier.channel_identifier,
        ),
        StateChange::ContractReceiveChannelClosed(inner) => Some(
            inner.canonical_identifier.channel_identifier,
        ),
        StateChange::ContractReceiveChannelDeposit(inner) => Some(
            inner.canonical_identifier.channel_identifier,
        ),
        StateChange::ContractReceiveChannelWithdraw(inner) => Some(
            inner.canonical_identifier.channel_identifier,
        ),
        StateChange::ContractReceiveChannelSettled(inner) => Some(
            inner.canonical_identifier.channel_identifier,
        ),
        StateChange::ContractReceiveUpdateTransfer(inner) => Some(
            inner.canonical_identifier.channel_identifier,
        ),
        StateChange::ContractReceiveChannelBatchUnlock(inner) => Some(
            inner.canonical_identifier.channel_identifier,
        ),
        StateChange::ReceiveWithdrawRequest(inner) => Some(
            inner.canonical_identifier.channel_identifier,
        ),
        StateChange::ReceiveWithdrawConfirmation(inner) => Some(
            inner.canonical_identifier.channel_identifier,
        ),
        StateChange::ReceiveWithdrawExpired(inner) => Some(
            inner.canonical_identifier.channel_identifier,
        ),
        _ => None,
    }
}

/// What the token network's `state_transition` needs.
pub open spec fn spec_token_network_transition_defined(
    token_network_state: TokenNetworkState,
    state_change: StateChange,
    block_number: BlockNumber,
    block_hash: BlockHash,
) -> bool {
    match spec_routed_channel(state_change) {
        Some(id) => spec_subdispatch_defined(
            token_network_state,
            id,
            state_change,
            block_number,
            block_hash,
        ),
        None => true,
    }
}

/// The outcome of the token network's `state_transition`.
pub open spec fn spec_token_network_transition(
    token_network_state: TokenNetworkState,
    state_change: StateChange,
    block_number: BlockNumber,
    block_hash: BlockHash,
    r: TransitionResult,
) -> bool {
    match state_change {
        StateChange::ContractReceiveChannelOpened(inner) => spec_channel_opened(
            token_network_state,
            inner,
            r,
        ),
        _ => match spec_routed_channel(state_change) {
            Some(id) => spec_subdispatch(
                token_network_state,
                id,
                state_change,
                block_number,
                block_hash,
                r,
            ),
            None => r.is_err(),
        },
    }
}

/// Applies a state change to the token network: channel events go to
/// their channel, an opened channel is recorded, anything else fails.
pub fn state_transition(
    token_network_state: TokenNetworkState,
    state_change: StateChange,
    block_number: BlockNumber,
    block_hash: BlockHash,
    pseudo_random_number_generator: &mut Random,
) -> (r: TransitionResult)
    requires
        spec_token_network_transition_defined(
            token_network_state,
            state_change,
            block_number,
            block_hash,
        ),
    ensures
        spec_token_network_transition(
            token_network_state,
            state_change,
            block_number,
            block_hash,
            r,
        ),
{
    let routed = routed_channel(&state_change);
    match state_change {
        StateChange::ContractReceiveChannelOpened(inner) => {
            handle_contract_receive_channel_opened(token_network_state, inner)
        },
        _ => match routed {
            Some(channel_identifier) => subdispatch_to_channel_by_id(
                token_network_state,
                channel_identifier,
                state_change,
                block_number,
                block_hash,
                pseudo_random_number_generator,
            ),
            None => Err(
                StateTransitionError::from_message("Could not transition token network".to_string()),
            ),
        },
    }
}

} // verus!
