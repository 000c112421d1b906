//! Writing a channel back into the node's state.
use vstd::prelude::*;

use crate::chain::machine::{
    find_network_position, spec_network_at, spec_network_position, spec_network_replaced,
};
use crate::map::spec_inserted;
use crate::types::state::{ChainState, ChannelState, TokenNetworkState};
use crate::views::spec_registries;

verus! {

/// `new` is `old` with `channel_state` set under its identifier in the
/// first token network with its token network address.
pub open spec fn spec_channel_updated(
    new: ChainState,
    old: ChainState,
    channel_state: ChannelState,
) -> bool {
    match spec_network_position(&old, channel_state.canonical_identifier.token_network_address) {
        Some((i, j)) => {
            let tn = spec_network_at(&old, i, j);
            let ntn = spec_network_at(&new, i, j);
            &&& spec_network_replaced(new, old, i, j, ntn)
            &&& new.pseudo_random_number_generator == old.pseudo_random_number_generator
            &&& ntn == TokenNetworkState {
                channelidentifiers_to_channels: ntn.channelidentifiers_to_channels,
                ..tn
            }
            &&& spec_inserted(
                ntn.channelidentifiers_to_channels,
                tn.channelidentifiers_to_channels,
                channel_state.canonical_identifier.channel_identifier,
                channel_state,
            )
        },
        None => false,
    }
}

/// Sets `channel_state` under its identifier in the first token network
/// with its token network address.
pub fn update_channel(chain_state: &mut ChainState, channel_state: ChannelState)
    requires
        spec_network_position(
            &*old(chain_state),
            channel_state.canonical_identifier.token_network_address,
        ).is_some(),
    ensures
        spec_channel_updated(*final(chain_state), *old(chain_state), channel_state),
{
    let ghost old = *chain_state;
    let position = find_network_position(
        chain_state,
        channel_state.canonical_identifier.token_network_address,
    );
    let (i, j) = match position {
        Some(p) => p,
        None => {
            return;
        },
    };
    let (registry_key, mut registry) = chain_state.identifiers_to_tokennetworkregistries.take(i);
    let (network_key, mut network) = registry.tokennetworkaddresses_to_tokennetworks.take(j);
    let ghost old_network = network;
    network.channelidentifiers_to_channels.insert(
        channel_state.canonical_identifier.channel_identifier,
        channel_state,
    );
    let ghost new_network = network;
    registry.tokennetworkaddresses_to_tokennetworks.put_back(j, network_key, network);
    let ghost nreg = registry;
    chain_state.identifiers_to_tokennetworkregistries.put_back(i, registry_key, registry);
    proof {
        let oregs = spec_registries(&old);
        let otns = oregs[i as int].1.tokennetworkaddresses_to_tokennetworks;
        assert(otns.entries().remove(j as int).insert(j as int, (network_key, new_network))
            =~= otns.entries().update(j as int, (network_key, new_network)));
        assert(oregs.remove(i as int).insert(i as int, (registry_key, nreg)) =~= oregs.update(
            i as int,
            (registry_key, nreg),
        ));
        assert(otns@.remove(network_key).insert(network_key, new_network) =~= otns@.insert(
            network_key,
            new_network,
        ));
        assert(old.identifiers_to_tokennetworkregistries@.remove(registry_key).insert(
            registry_key,
            nreg,
        ) =~= old.identifiers_to_tokennetworkregistries@.insert(registry_key, nreg));
        assert(spec_network_at(&*chain_state, i as int, j as int) == new_network);
    }
}

} // verus!
