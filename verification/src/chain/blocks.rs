//! A state change that every channel of a node handles, one after the
//! other: a new block.
use vstd::prelude::*;

use crate::channel::machine::{spec_state_transition, spec_state_transition_defined};
use crate::channel::transitions::ChannelTransition;
use crate::chain::queues::ChainTransition;
use crate::errors::StateTransitionError;
use crate::map::LinearMap;
use crate::primitives::{Address, U256};
use crate::types::event::Event;
use crate::types::random::Random;
use crate::types::state::{
    BlockHash, BlockNumber, ChainState, ChannelState, TokenNetworkRegistryState, TokenNetworkState,
};
use crate::types::state_change::{Block, StateChange};

verus! {

/// `new` holds the channels of `old`, in order and under the same keys,
/// each replaced by an outcome of the state change; `evs` holds the events
/// after each channel, from `ev0` to `ev1`.
pub open spec fn spec_channels_stepped(
    old: Seq<(U256, ChannelState)>,
    new: Seq<(U256, ChannelState)>,
    state_change: StateChange,
    block_number: BlockNumber,
    block_hash: BlockHash,
    ev0: Seq<Event>,
    ev1: Seq<Event>,
) -> bool {
    exists|evs: Seq<Seq<Event>>|
        #[trigger] evs.len() == old.len() + 1 && spec_channels_stepped_with(
            old,
            new,
            state_change,
            block_number,
            block_hash,
            evs,
        ) && evs[0] == ev0 && evs[old.len() as int] == ev1
}

/// `spec_channels_stepped` with the events after each channel named.
pub open spec fn spec_channels_stepped_with(
    old: Seq<(U256, ChannelState)>,
    new: Seq<(U256, ChannelState)>,
    state_change: StateChange,
    block_number: BlockNumber,
    block_hash: BlockHash,
    evs: Seq<Seq<Event>>,
) -> bool {
    &&& new.len() == old.len()
    &&& evs.len() == old.len() + 1
    &&& forall|k: int|
        0 <= k < old.len() ==> #[trigger] spec_channel_step(
            old[k],
            new[k],
            state_change,
            block_number,
            block_hash,
            evs[k],
            evs[k + 1],
        )
}

/// The channel entry `new` is the entry `old` after the state change, and
/// the events grow from `ev0` to `ev1` by the transition's events.
pub open spec fn spec_channel_step(
    old: (U256, ChannelState),
    new: (U256, ChannelState),
    state_change: StateChange,
    block_number: BlockNumber,
    block_hash: BlockHash,
    ev0: Seq<Event>,
    ev1: Seq<Event>,
) -> bool {
    &&& new.0 == old.0
    &&& exists|t: ChannelTransition|
        #[trigger] spec_state_transition(old.1, state_change, block_number, block_hash, Ok(t))
            && t.new_state == Some(new.1) && ev1 == ev0 + t.events@
}

/// The token network entry `new` is `old` with its channels stepped.
pub open spec fn spec_network_step(
    old: (Address, TokenNetworkState),
    new: (Address, TokenNetworkState),
    state_change: StateChange,
    block_number: BlockNumber,
    block_hash: BlockHash,
    ev0: Seq<Event>,
    ev1: Seq<Event>,
) -> bool {
    &&& new.0 == old.0
    &&& new.1 == TokenNetworkState {
        channelidentifiers_to_channels: new.1.channelidentifiers_to_channels,
        ..old.1
    }
    &&& spec_channels_stepped(
        old.1.channelidentifiers_to_channels.entries(),
        new.1.channelidentifiers_to_channels.entries(),
        state_change,
        block_number,
        block_hash,
        ev0,
        ev1,
    )
}

/// The token networks of `new` are those of `old`, each stepped.
pub open spec fn spec_networks_stepped(
    old: Seq<(Address, TokenNetworkState)>,
    new: Seq<(Address, TokenNetworkState)>,
    state_change: StateChange,
    block_number: BlockNumber,
    block_hash: BlockHash,
    ev0: Seq<Event>,
    ev1: Seq<Event>,
) -> bool {
    exists|evs: Seq<Seq<Event>>|
        #[trigger] evs.len() == old.len() + 1 && new.len() == old.len() && evs[0] == ev0
            && evs[old.len() as int] == ev1 && forall|j: int|
            0 <= j < old.len() ==> #[trigger] spec_network_step(
                old[j],
                new[j],
                state_change,
                block_number,
                block_hash,
                evs[j],
                evs[j + 1],
            )
}

/// The registry entry `new` is `old` with its token networks stepped.
pub open spec fn spec_registry_step(
    old: (Address, TokenNetworkRegistryState),
    new: (Address, TokenNetworkRegistryState),
    state_change: StateChange,
    block_number: BlockNumber,
    block_hash: BlockHash,
    ev0: Seq<Event>,
    ev1: Seq<Event>,
) -> bool {
    &&& new.0 == old.0
    &&& new.1 == TokenNetworkRegistryState {
        tokennetworkaddresses_to_tokennetworks: new.1.tokennetworkaddresses_to_tokennetworks,
        ..old.1
    }
    &&& spec_networks_stepped(
        old.1.tokennetworkaddresses_to_tokennetworks.entries(),
        new.1.tokennetworkaddresses_to_tokennetworks.entries(),
        state_change,
        block_number,
        block_hash,
        ev0,
        ev1,
    )
}

/// The registries of `new` are those of `old`, each stepped.
pub open spec fn spec_registries_stepped(
    old: Seq<(Address, TokenNetworkRegistryState)>,
    new: Seq<(Address, TokenNetworkRegistryState)>,
    state_change: StateChange,
    block_number: BlockNumber,
    block_hash: BlockHash,
    ev0: Seq<Event>,
    ev1: Seq<Event>,
) -> bool {
    exists|evs: Seq<Seq<Event>>|
        #[trigger] evs.len() == old.len() + 1 && new.len() == old.len() && evs[0] == ev0
            && evs[old.len() as int] == ev1 && forall|i: int|
            0 <= i < old.len() ==> #[trigger] spec_registry_step(
                old[i],
                new[i],
                state_change,
                block_number,
                block_hash,
                evs[i],
                evs[i + 1],
            )
}

/// Every channel of `s` can take the state change.
pub open spec fn spec_channels_defined(
    s: Seq<(U256, ChannelState)>,
    state_change: StateChange,
    block_number: BlockNumber,
    block_hash: BlockHash,
) -> bool {
    forall|k: int|
        0 <= k < s.len() ==> #[trigger] spec_state_transition_defined(
            s[k].1,
            state_change,
            block_number,
            block_hash,
        )
}

/// Every channel of the token networks of `s` can take the state change.
pub open spec fn spec_networks_defined(
    s: Seq<(Address, TokenNetworkState)>,
    state_change: StateChange,
    block_number: BlockNumber,
    block_hash: BlockHash,
) -> bool {
    forall|j: int|
        0 <= j < s.len() ==> #[trigger] spec_channels_defined(
            s[j].1.channelidentifiers_to_channels.entries(),
            state_change,
            block_number,
            block_hash,
        )
}

/// Every channel of the chain state can take the state change.
pub open spec fn spec_all_channels_defined(
    chain_state: &ChainState,
    state_change: StateChange,
    block_number: BlockNumber,
    block_hash: BlockHash,
) -> bool {
    let regs = chain_state.identifiers_to_tokennetworkregistries.entries();
    forall|i: int|
        0 <= i < regs.len() ==> #[trigger] spec_networks_defined(
            regs[i].1.tokennetworkaddresses_to_tokennetworks.entries(),
            state_change,
            block_number,
            block_hash,
        )
}

/// Some channel of `s` may fail the state change with `e`.
pub open spec fn spec_some_channel_fails(
    s: Seq<(U256, ChannelState)>,
    state_change: StateChange,
    block_number: BlockNumber,
    block_hash: BlockHash,
    e: StateTransitionError,
) -> bool {
    exists|k: int|
        0 <= k < s.len() && #[trigger] spec_state_transition(
            s[k].1,
            state_change,
            block_number,
            block_hash,
            Err(e),
        )
}

/// Some channel of the token networks of `s` may fail with `e`.
pub open spec fn spec_some_network_fails(
    s: Seq<(Address, TokenNetworkState)>,
    state_change: StateChange,
    block_number: BlockNumber,
    block_hash: BlockHash,
    e: StateTransitionError,
) -> bool {
    exists|j: int|
        0 <= j < s.len() && #[trigger] spec_some_channel_fails(
            s[j].1.channelidentifiers_to_channels.entries(),
            state_change,
            block_number,
            block_hash,
            e,
        )
}

/// Some channel of the registries of `s` may fail with `e`.
pub open spec fn spec_some_registry_fails(
    s: Seq<(Address, TokenNetworkRegistryState)>,
    state_change: StateChange,
    block_number: BlockNumber,
    block_hash: BlockHash,
    e: StateTransitionError,
) -> bool {
    exists|i: int|
        0 <= i < s.len() && #[trigger] spec_some_network_fails(
            s[i].1.tokennetworkaddresses_to_tokennetworks.entries(),
            state_change,
            block_number,
            block_hash,
            e,
        )
}

/// A channel that takes a block stays.
proof fn lemma_block_keeps_channel(
    channel_state: ChannelState,
    state_change: StateChange,
    block_number: BlockNumber,
    block_hash: BlockHash,
    t: ChannelTransition,
)
    requires
        state_change is Block,
        spec_state_transition(channel_state, state_change, block_number, block_hash, Ok(t)),
    ensures
        t.new_state.is_some(),
{
}

fn step_channels(
    channels: &mut LinearMap<U256, ChannelState>,
    block: Block,
    block_number: BlockNumber,
    block_hash: BlockHash,
    pseudo_random_number_generator: &mut Random,
    events: &mut Vec<Event>,
) -> (r: Result<(), StateTransitionError>)
    requires
        spec_channels_defined(old(channels).entries(), StateChange::Block(block), block_number, block_hash),
    ensures
        r.is_ok() ==> spec_channels_stepped(
            old(channels).entries(),
            final(channels).entries(),
            StateChange::Block(block),
            block_number,
            block_hash,
            old(events)@,
            final(events)@,
        ),
        r matches Err(e) ==> spec_some_channel_fails(
            old(channels).entries(),
            StateChange::Block(block),
            block_number,
            block_hash,
            e,
        ),
{
    let ghost state_change = StateChange::Block(block);
    let ghost old_s = channels.entries();
    let ghost mut evs: Seq<Seq<Event>> = seq![events@];
    let n = channels.len();
    let mut k: usize = 0;
    while k < n
        invariant
            n == old_s.len(),
            old_s == old(channels).entries(),
            k <= n,
            state_change == StateChange::Block(block),
            spec_channels_defined(old_s, state_change, block_number, block_hash),
            channels.entries().len() == n,
            forall|m: int| k <= m < n ==> channels.entries()[m] == old_s[m],
            evs.len() == k + 1,
            evs[0] == old(events)@,
            evs[k as int] == events@,
            forall|m: int|
                0 <= m < k ==> #[trigger] spec_channel_step(
                    old_s[m],
                    channels.entries()[m],
                    state_change,
                    block_number,
                    block_hash,
                    evs[m],
                    evs[m + 1],
                ),
        decreases n - k,
    {
        let ghost before = channels.entries();
        let (key, channel_state) = channels.take(k);
        assert(channel_state == old_s[k as int].1);
        assert(spec_state_transition_defined(old_s[k as int].1, state_change, block_number, block_hash));
        let result = crate::channel::state_transition(
            channel_state,
            StateChange::Block(block),
            block_number,
            block_hash,
            pseudo_random_number_generator,
        );
        match result {
            Err(e) => {
                assert(spec_state_transition(
                    old_s[k as int].1,
                    state_change,
                    block_number,
                    block_hash,
                    Err(e),
                ));
                assert(spec_some_channel_fails(old_s, state_change, block_number, block_hash, e));
                return Err(e);
            },
            Ok(t) => {
                let ghost tt = t;
                proof {
                    lemma_block_keeps_channel(old_s[k as int].1, state_change, block_number, block_hash, tt);
                }
                let ghost ev_before = events@;
                let ChannelTransition { new_state, events: mut new_events } = t;
                let new_channel = match new_state {
                    Some(c) => c,
                    None => {
                        proof {
                            assert(false);
                        }
                        return Err(StateTransitionError::from_message("Channel was cleared".to_string()));
                    },
                };
                events.append(&mut new_events);
                channels.put_back(k, key, new_channel);
                proof {
                    assert(channels.entries() =~= before.update(k as int, (key, new_channel)));
                    evs = evs.push(events@);
                    assert(events@ == ev_before + tt.events@);
                    assert(spec_channel_step(
                        old_s[k as int],
                        channels.entries()[k as int],
                        state_change,
                        block_number,
                        block_hash,
                        evs[k as int],
                        evs[k + 1],
                    ));
                    assert forall|m: int| 0 <= m < k + 1 implies #[trigger] spec_channel_step(
                        old_s[m],
                        channels.entries()[m],
                        state_change,
                        block_number,
                        block_hash,
                        evs[m],
                        evs[m + 1],
                    ) by {
                        if m < k {
                            assert(channels.entries()[m] == before[m]);
                        }
                    }
                }
            },
        }
        k = k + 1;
    }
    proof {
        assert(spec_channels_stepped_with(
            old_s,
            channels.entries(),
            state_change,
            block_number,
            block_hash,
            evs,
        ));
    }
    Ok(())
}


fn step_networks(
    tns: &mut LinearMap<Address, TokenNetworkState>,
    block: Block,
    block_number: BlockNumber,
    block_hash: BlockHash,
    pseudo_random_number_generator: &mut Random,
    events: &mut Vec<Event>,
) -> (r: Result<(), StateTransitionError>)
    requires
        spec_networks_defined(old(tns).entries(), StateChange::Block(block), block_number, block_hash),
    ensures
        r.is_ok() ==> spec_networks_stepped(
            old(tns).entries(),
            final(tns).entries(),
            StateChange::Block(block),
            block_number,
            block_hash,
            old(events)@,
            final(events)@,
        ),
        r matches Err(e) ==> spec_some_network_fails(
            old(tns).entries(),
            StateChange::Block(block),
            block_number,
            block_hash,
            e,
        ),
{
    let ghost state_change = StateChange::Block(block);
    let ghost old_s = tns.entries();
    let ghost mut evs: Seq<Seq<Event>> = seq![events@];
    let n = tns.len();
    let mut j: usize = 0;
    while j < n
        invariant
            n == old_s.len(),
            old_s == old(tns).entries(),
            j <= n,
            state_change == StateChange::Block(block),
            spec_networks_defined(old_s, state_change, block_number, block_hash),
            tns.entries().len() == n,
            forall|m: int| j <= m < n ==> tns.entries()[m] == old_s[m],
            evs.len() == j + 1,
            evs[0] == old(events)@,
            evs[j as int] == events@,
            forall|m: int|
                0 <= m < j ==> #[trigger] spec_network_step(
                    old_s[m],
                    tns.entries()[m],
                    state_change,
                    block_number,
                    block_hash,
                    evs[m],
                    evs[m + 1],
                ),
        decreases n - j,
    {
        let ghost before = tns.entries();
        let (key, mut token_network) = tns.take(j);
        let ghost old_tn = token_network;
        assert(old_tn == old_s[j as int].1);
        assert(spec_channels_defined(
            old_s[j as int].1.channelidentifiers_to_channels.entries(),
            state_change,
            block_number,
            block_hash,
        ));
        let ghost ev_before = events@;
        let result = step_channels(
            &mut token_network.channelidentifiers_to_channels,
            block,
            block_number,
            block_hash,
            pseudo_random_number_generator,
            events,
        );
        match result {
            Err(e) => {
                assert(spec_some_channel_fails(
                    old_s[j as int].1.channelidentifiers_to_channels.entries(),
                    state_change,
                    block_number,
                    block_hash,
                    e,
                ));
                assert(spec_some_network_fails(old_s, state_change, block_number, block_hash, e));
                return Err(e);
            },
            Ok(()) => {},
        }
        let ghost new_tn = token_network;
        tns.put_back(j, key, token_network);
        proof {
            assert(tns.entries() =~= before.update(j as int, (key, new_tn)));
            evs = evs.push(events@);
            assert(spec_network_step(
                old_s[j as int],
                tns.entries()[j as int],
                state_change,
                block_number,
                block_hash,
                evs[j as int],
                evs[j + 1],
            ));
            assert forall|m: int| 0 <= m < j + 1 implies #[trigger] spec_network_step(
                old_s[m],
                tns.entries()[m],
                state_change,
                block_number,
                block_hash,
                evs[m],
                evs[m + 1],
            ) by {
                if m < j {
                    assert(tns.entries()[m] == before[m]);
                }
            }
        }
        j = j + 1;
    }
    assert(evs.len() == old_s.len() + 1);
    Ok(())
}

/// The outcome of `subdispatch_to_all_channels`: every channel of every
/// token network of every registry took the state change, in order, and
/// the events are theirs in that order; or some channel failed.
pub open spec fn spec_all_channels_stepped(
    chain_state: ChainState,
    state_change: StateChange,
    block_number: BlockNumber,
    block_hash: BlockHash,
    r: Result<ChainTransition, StateTransitionError>,
) -> bool {
    let regs = chain_state.identifiers_to_tokennetworkregistries.entries();
    match r {
        Ok(ct) => {
            &&& ct.new_state == ChainState {
                identifiers_to_tokennetworkregistries: ct.new_state.identifiers_to_tokennetworkregistries,
                pseudo_random_number_generator: ct.new_state.pseudo_random_number_generator,
                ..chain_state
            }
            &&& spec_registries_stepped(
                regs,
                ct.new_state.identifiers_to_tokennetworkregistries.entries(),
                state_change,
                block_number,
                block_hash,
                Seq::empty(),
                ct.events@,
            )
        },
        Err(e) => spec_some_registry_fails(regs, state_change, block_number, block_hash, e),
    }
}

/// Subdispatch change to all currently known channels: each channel takes
/// the block in turn and is replaced by its new state.
pub fn subdispatch_to_all_channels(
    chain_state: ChainState,
    state_change: StateChange,
    block_number: BlockNumber,
    block_hash: BlockHash,
) -> (r: Result<ChainTransition, StateTransitionError>)
    requires
        state_change is Block,
        spec_all_channels_defined(&chain_state, state_change, block_number, block_hash),
    ensures
        spec_all_channels_stepped(chain_state, state_change, block_number, block_hash, r),
{
    let block = match state_change {
        StateChange::Block(b) => b,
        _ => {
            proof {
                assert(false);
            }
            return Err(StateTransitionError::from_message("Not a block".to_string()));
        },
    };
    let ghost old = chain_state;
    let ghost old_s = chain_state.identifiers_to_tokennetworkregistries.entries();
    let mut state = chain_state;
    let mut events: Vec<Event> = Vec::new();
    let ghost mut evs: Seq<Seq<Event>> = seq![events@];
    let n = state.identifiers_to_tokennetworkregistries.len();
    let mut i: usize = 0;
    while i < n
        invariant
            old == chain_state,
            n == old_s.len(),
            old_s == old.identifiers_to_tokennetworkregistries.entries(),
            i <= n,
            state_change == StateChange::Block(block),
            spec_all_channels_defined(&old, state_change, block_number, block_hash),
            state == (ChainState {
                identifiers_to_tokennetworkregistries: state.identifiers_to_tokennetworkregistries,
                pseudo_random_number_generator: state.pseudo_random_number_generator,
                ..old
            }),
            state.identifiers_to_tokennetworkregistries.entries().len() == n,
            forall|m: int|
                i <= m < n ==> state.identifiers_to_tokennetworkregistries.entries()[m]
                    == old_s[m],
            evs.len() == i + 1,
            evs[0] == Seq::<Event>::empty(),
            evs[i as int] == events@,
            forall|m: int|
                0 <= m < i ==> #[trigger] spec_registry_step(
                    old_s[m],
                    state.identifiers_to_tokennetworkregistries.entries()[m],
                    state_change,
                    block_number,
                    block_hash,
                    evs[m],
                    evs[m + 1],
                ),
        decreases n - i,
    {
        let ghost before = state.identifiers_to_tokennetworkregistries.entries();
        let (key, mut registry) = state.identifiers_to_tokennetworkregistries.take(i);
        assert(registry == old_s[i as int].1);
        assert(spec_networks_defined(
            old_s[i as int].1.tokennetworkaddresses_to_tokennetworks.entries(),
            state_change,
            block_number,
            block_hash,
        ));
        let result = step_networks(
            &mut registry.tokennetworkaddresses_to_tokennetworks,
            block,
            block_number,
            block_hash,
            &mut state.pseudo_random_number_generator,
            &mut events,
        );
        match result {
            Err(e) => {
                assert(spec_some_network_fails(
                    old_s[i as int].1.tokennetworkaddresses_to_tokennetworks.entries(),
                    state_change,
                    block_number,
                    block_hash,
                    e,
                ));
                assert(spec_some_registry_fails(old_s, state_change, block_number, block_hash, e));
                return Err(e);
            },
            Ok(()) => {},
        }
        let ghost new_reg = registry;
        state.identifiers_to_tokennetworkregistries.put_back(i, key, registry);
        proof {
            assert(state.identifiers_to_tokennetworkregistries.entries() =~= before.update(
                i as int,
                (key, new_reg),
            ));
            evs = evs.push(events@);
            assert(spec_registry_step(
                old_s[i as int],
                state.identifiers_to_tokennetworkregistries.entries()[i as int],
                state_change,
                block_number,
                block_hash,
                evs[i as int],
                evs[i + 1],
            ));
            assert forall|m: int| 0 <= m < i + 1 implies #[trigger] spec_registry_step(
                old_s[m],
                state.identifiers_to_tokennetworkregistries.entries()[m],
                state_change,
                block_number,
                block_hash,
                evs[m],
                evs[m + 1],
            ) by {
                if m < i {
                    assert(state.identifiers_to_tokennetworkregistries.entries()[m] == before[m]);
                }
            }
        }
        i = i + 1;
    }
    assert(evs.len() == old_s.len() + 1);
    Ok(ChainTransition { new_state: state, events })
}

} // verus!
