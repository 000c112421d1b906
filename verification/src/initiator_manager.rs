//! The payments a node initiates: the transfers of each payment, and how a
//! payment is cancelled as a whole or on one route.
use vstd::prelude::*;

use crate::errors::StateTransitionError;
use crate::primitives::Address;
use crate::types::event::{ErrorPaymentSentFailed, ErrorRouteFailed, ErrorUnlockClaimFailed, ErrorUnlockFailed, Event};
use crate::types::state::{
    AddressMetadata, CanonicalIdentifier, ChainState, LockedTransferState, ChannelIdentifier, ChannelState, InitiatorPaymentState,
    InitiatorTransferState, RouteState, SecretHash, TransferDescriptionWithSecretState,
    TransferState,
};
use crate::types::state_change::{
    ActionCancelPayment, ActionInitInitiator, ActionTransferReroute, Block, ContractReceiveSecretReveal, ReceiveLockExpired,
    ReceiveSecretRequest, ReceiveSecretReveal, ReceiveTransferCancelRoute, StateChange,
};
use crate::copies::{
    copy_channel, copy_initiator, copy_routes, lemma_initiator_copy_trans, spec_channel_copy,
    spec_initiator_copy, spec_routes_copy,
};
use crate::initiator::{spec_initiator_transition, spec_initiator_transition_defined};
use crate::map::{spec_inserted, spec_removed};
use crate::initiator::{spec_try_new_route, spec_try_new_route_defined, try_new_route};
use crate::map::LinearMap;
use crate::views::{get_channel_by_canonical_identifier, spec_channel_by_canonical_identifier};
use crate::routes::copy_addresses;

verus! {

/// A payment after a state change, the node's state, and the events.
pub struct InitiatorManagerTransition {
    pub new_state: Option<InitiatorPaymentState>,
    pub chain_state: ChainState,
    pub events: Vec<Event>,
}

pub type TransitionResult = Result<InitiatorManagerTransition, StateTransitionError>;

/// A transfer that was not cancelled yet can be.
pub fn can_cancel(initiator: &InitiatorTransferState) -> (r: bool)
    ensures
        r == (initiator.transfer_state != TransferState::Canceled),
{
    initiator.transfer_state != TransferState::Canceled
}

/// The payment has a transfer with the secret hash.
pub fn transfer_exists(payment_state: &InitiatorPaymentState, secrethash: SecretHash) -> (r: bool)
    ensures
        r == payment_state.initiator_transfers@.contains_key(secrethash),
{
    payment_state.initiator_transfers.contains_key(&secrethash)
}

/// `new` holds the transfers of `old`, in order and under the same secret
/// hashes, each marked cancelled.
pub open spec fn spec_all_cancelled(
    new: Seq<(SecretHash, InitiatorTransferState)>,
    old: Seq<(SecretHash, InitiatorTransferState)>,
) -> bool {
    &&& new.len() == old.len()
    &&& forall|i: int|
        0 <= i < old.len() ==> #[trigger] new[i] == (
            old[i].0,
            InitiatorTransferState { transfer_state: TransferState::Canceled, ..old[i].1 },
        )
}

/// Marks every transfer of the payment cancelled.
pub fn cancel_other_transfers(payment_state: &mut InitiatorPaymentState)
    ensures
        spec_all_cancelled(
            final(payment_state).initiator_transfers.entries(),
            old(payment_state).initiator_transfers.entries(),
        ),
        final(payment_state).routes == old(payment_state).routes,
        final(payment_state).cancelled_channels == old(payment_state).cancelled_channels,
{
    let ghost start = payment_state.initiator_transfers.entries();
    let n = payment_state.initiator_transfers.len();
    let mut i: usize = 0;
    while i < n
        invariant
            n == start.len(),
            i <= n,
            start == old(payment_state).initiator_transfers.entries(),
            payment_state.routes == old(payment_state).routes,
            payment_state.cancelled_channels == old(payment_state).cancelled_channels,
            payment_state.initiator_transfers.entries().len() == n,
            forall|m: int| i <= m < n ==> payment_state.initiator_transfers.entries()[m] == start[m],
            forall|m: int|
                0 <= m < i ==> #[trigger] payment_state.initiator_transfers.entries()[m] == (
                    start[m].0,
                    InitiatorTransferState { transfer_state: TransferState::Canceled, ..start[m].1 },
                ),
        decreases n - i,
    {
        let ghost before = payment_state.initiator_transfers.entries();
        let (key, mut initiator_state) = payment_state.initiator_transfers.take(i);
        initiator_state.transfer_state = TransferState::Canceled;
        let ghost cancelled = initiator_state;
        payment_state.initiator_transfers.put_back(i, key, initiator_state);
        proof {
            assert(payment_state.initiator_transfers.entries() =~= before.update(
                i as int,
                (key, cancelled),
            ));
            assert forall|m: int| 0 <= m < i + 1 implies #[trigger] payment_state.initiator_transfers.entries()[m] == (
                start[m].0,
                InitiatorTransferState { transfer_state: TransferState::Canceled, ..start[m].1 },
            ) by {
                if m < i {
                    assert(payment_state.initiator_transfers.entries()[m] == before[m]);
                }
            }
        }
        i = i + 1;
    }
}

/// `e0` and `e1` report that the route of the transfer `initiator_state`
/// was cancelled: its unlock failed, and the route failed.
pub open spec fn spec_route_cancel_events(
    e0: Event,
    e1: Event,
    route_state: RouteState,
    desc: TransferDescriptionWithSecretState,
) -> bool {
    &&& e0 matches Event::ErrorUnlockFailed(u) && {
        &&& u.identifier == desc.payment_identifier
        &&& u.secrethash == desc.secrethash
        &&& u.reason@ == "route was canceled"@
    }
    &&& e1 matches Event::ErrorRouteFailed(f) && {
        &&& f.secrethash == desc.secrethash
        &&& f.route@ == route_state.route@
        &&& f.token_network_address == desc.token_network_address
    }
}

/// The events that report the cancellation of a route.
pub fn events_for_cancel_current_route(
    route_state: &RouteState,
    transfer_description: &TransferDescriptionWithSecretState,
) -> (r: Vec<Event>)
    ensures
        r@.len() == 2,
        spec_route_cancel_events(r@[0], r@[1], *route_state, *transfer_description),
{
    let mut events: Vec<Event> = Vec::new();
    events.push(
        Event::ErrorUnlockFailed(
            ErrorUnlockFailed {
                identifier: transfer_description.payment_identifier,
                secrethash: transfer_description.secrethash,
                reason: "route was canceled".to_string(),
            },
        ),
    );
    events.push(
        Event::ErrorRouteFailed(
            ErrorRouteFailed {
                secrethash: transfer_description.secrethash,
                route: copy_addresses(&route_state.route),
                token_network_address: transfer_description.token_network_address,
            },
        ),
    );
    events
}

/// Cancels the route of `initiator_state`: its channel joins the cancelled
/// ones, and the cancellation is reported.
pub fn cancel_current_route(
    cancelled_channels: &mut Vec<ChannelIdentifier>,
    initiator_state: &InitiatorTransferState,
) -> (r: Vec<Event>)
    ensures
        final(cancelled_channels)@ == old(cancelled_channels)@.push(initiator_state.channel_identifier),
        r@.len() == 2,
        spec_route_cancel_events(
            r@[0],
            r@[1],
            initiator_state.route,
            initiator_state.transfer_description,
        ),
{
    cancelled_channels.push(initiator_state.channel_identifier);
    events_for_cancel_current_route(&initiator_state.route, &initiator_state.transfer_description)
}

/// The outcome of `handle_transfer_cancel_route`: the route of the
/// payment's transfer with the secret hash, unless it was cancelled, is
/// cancelled; nothing else changes.
pub open spec fn spec_transfer_cancel_route(
    chain_state: ChainState,
    payment_state: Option<InitiatorPaymentState>,
    state_change: ReceiveTransferCancelRoute,
    r: TransitionResult,
) -> bool {
    match payment_state {
        None => match r {
            Err(e) => e.msg@
                == "TransferCancelRoute state change should be accompanied by a valid payment state"@,
            Ok(_) => false,
        },
        Some(p) => {
            let sh = state_change.transfer.lock.secrethash;
            let t = r.unwrap();
            let n = t.new_state.unwrap();
            &&& r.is_ok()
            &&& t.chain_state == chain_state
            &&& t.new_state.is_some()
            &&& n.routes == p.routes
            &&& n.initiator_transfers == p.initiator_transfers
            &&& if p.initiator_transfers@.contains_key(sh)
                && p.initiator_transfers@[sh].transfer_state != TransferState::Canceled {
                let init = p.initiator_transfers@[sh];
                &&& n.cancelled_channels@ == p.cancelled_channels@.push(init.channel_identifier)
                &&& t.events@.len() == 2
                &&& spec_route_cancel_events(
                    t.events@[0],
                    t.events@[1],
                    init.route,
                    init.transfer_description,
                )
            } else {
                &&& n.cancelled_channels == p.cancelled_channels
                &&& t.events@.len() == 0
            }
        },
    }
}

/// Handles the cancellation of a route by the payee.
pub fn handle_transfer_cancel_route(
    chain_state: ChainState,
    payment_state: Option<InitiatorPaymentState>,
    state_change: ReceiveTransferCancelRoute,
) -> (r: TransitionResult)
    ensures
        spec_transfer_cancel_route(chain_state, payment_state, state_change, r),
{
    let mut payment_state = match payment_state {
        Some(payment_state) => payment_state,
        None => {
            return Err(
                StateTransitionError::from_message(
                    "TransferCancelRoute state change should be accompanied by a valid payment state".to_string(),
                ),
            );
        },
    };
    let mut events: Vec<Event> = Vec::new();
    if let Some(initiator_state) = payment_state.initiator_transfers.get(
        &state_change.transfer.lock.secrethash,
    ) {
        if can_cancel(initiator_state) {
            events = cancel_current_route(&mut payment_state.cancelled_channels, initiator_state);
        }
    }
    Ok(InitiatorManagerTransition { new_state: Some(payment_state), chain_state, events })
}

/// The channel of the transfer `init` in the node's state.
pub open spec fn spec_transfer_channel(chain_state: &ChainState, init: InitiatorTransferState) -> Option<
    ChannelState,
> {
    spec_channel_by_canonical_identifier(
        chain_state,
        CanonicalIdentifier {
            chain_identifier: chain_state.chain_id,
            token_network_address: init.transfer_description.token_network_address,
            channel_identifier: init.channel_identifier,
        },
    )
}

/// The transfers of `s`, in order, that a user's cancellation cancels:
/// those whose channel is known and that were not cancelled yet.
pub open spec fn spec_cancellable(chain_state: &ChainState, s: Seq<(SecretHash, InitiatorTransferState)>) -> Seq<
    InitiatorTransferState,
>
    decreases s.len(),
{
    if s.len() == 0 {
        Seq::empty()
    } else {
        let init = s.last().1;
        let rest = spec_cancellable(chain_state, s.drop_last());
        if spec_transfer_channel(chain_state, init).is_some() && init.transfer_state
            != TransferState::Canceled {
            rest.push(init)
        } else {
            rest
        }
    }
}

/// The three events of the user's cancellation of the transfer `init`,
/// whose channel is `channel`.
pub open spec fn spec_user_cancel_events(
    e0: Event,
    e1: Event,
    e2: Event,
    init: InitiatorTransferState,
    channel: ChannelState,
) -> bool {
    let desc = init.transfer_description;
    &&& spec_route_cancel_events(e0, e1, init.route, desc)
    &&& e2 matches Event::ErrorPaymentSentFailed(f) && {
        &&& f.token_network_registry_address == channel.token_network_registry_address
        &&& f.token_network_address == channel.canonical_identifier.token_network_address
        &&& f.identifier == desc.payment_identifier
        &&& f.target == desc.target
        &&& f.reason@ == "user canceled payment"@
    }
}

/// The events report, three by three, the cancellation of each transfer
/// of `cancelled`.
pub open spec fn spec_cancel_events(chain_state: &ChainState, events: Seq<Event>, cancelled: Seq<InitiatorTransferState>) -> bool {
    &&& events.len() == 3 * cancelled.len()
    &&& forall|k: int|
        0 <= k < cancelled.len() ==> #[trigger] spec_user_cancel_events(
            events[3 * k],
            events[3 * k + 1],
            events[3 * k + 2],
            cancelled[k],
            spec_transfer_channel(chain_state, cancelled[k]).unwrap(),
        )
}

/// The outcome of `handle_action_cancel_payment`: the route of each
/// transfer whose channel is known and that was not cancelled yet is
/// cancelled and the payment reported failed; the transfers themselves
/// keep their state.
pub open spec fn spec_action_cancel_payment(
    chain_state: ChainState,
    payment_state: Option<InitiatorPaymentState>,
    r: TransitionResult,
) -> bool {
    match payment_state {
        None => match r {
            Err(e) => e.msg@
                == "ActionCancelPayment state change should be accompanied by a valid payment state"@,
            Ok(_) => false,
        },
        Some(p) => {
            let t = r.unwrap();
            let n = t.new_state.unwrap();
            let cancelled = spec_cancellable(&chain_state, p.initiator_transfers.entries());
            &&& r.is_ok()
            &&& t.chain_state == chain_state
            &&& t.new_state.is_some()
            &&& n.routes == p.routes
            &&& n.initiator_transfers == p.initiator_transfers
            &&& n.cancelled_channels@ == p.cancelled_channels@ + cancelled.map_values(
                |init: InitiatorTransferState| init.channel_identifier,
            )
            &&& spec_cancel_events(&chain_state, t.events@, cancelled)
        },
    }
}

/// Handles the user's cancellation of a payment.
pub fn handle_action_cancel_payment(
    chain_state: ChainState,
    payment_state: Option<InitiatorPaymentState>,
    state_change: ActionCancelPayment,
) -> (r: TransitionResult)
    ensures
        spec_action_cancel_payment(chain_state, payment_state, r),
{
    let mut payment_state = match payment_state {
        Some(payment_state) => payment_state,
        None => {
            return Err(
                StateTransitionError::from_message(
                    "ActionCancelPayment state change should be accompanied by a valid payment state".to_string(),
                ),
            );
        },
    };
    let ghost p0 = payment_state;
    let ghost s = payment_state.initiator_transfers.entries();
    let ghost c0 = payment_state.cancelled_channels@;
    let mut events: Vec<Event> = Vec::new();
    let mut i: usize = 0;
    assert(s.subrange(0, 0) =~= Seq::<(SecretHash, InitiatorTransferState)>::empty());
    while i < payment_state.initiator_transfers.len()
        invariant
            i <= s.len(),
            s == payment_state.initiator_transfers.entries(),
            payment_state.routes == p0.routes,
            payment_state.initiator_transfers == p0.initiator_transfers,
            c0 == p0.cancelled_channels@,
            payment_state.cancelled_channels@ == c0 + spec_cancellable(
                &chain_state,
                s.subrange(0, i as int),
            ).map_values(|init: InitiatorTransferState| init.channel_identifier),
            spec_cancel_events(&chain_state, events@, spec_cancellable(&chain_state, s.subrange(0, i as int))),
        decreases s.len() - i,
    {
        let (_, initiator_state) = payment_state.initiator_transfers.entry_at(i);
        let ghost before = spec_cancellable(&chain_state, s.subrange(0, i as int));
        let ghost ev_before = events@;
        proof {
            assert(s.subrange(0, i + 1).drop_last() =~= s.subrange(0, i as int));
            assert(s.subrange(0, i + 1).last() == s[i as int]);
        }
        let canonical_identifier = CanonicalIdentifier {
            chain_identifier: chain_state.chain_id,
            token_network_address: initiator_state.transfer_description.token_network_address,
            channel_identifier: initiator_state.channel_identifier,
        };
        let channel_state = get_channel_by_canonical_identifier(&chain_state, canonical_identifier);
        if let Some(channel_state) = channel_state {
            if can_cancel(initiator_state) {
                let mut cancel_events = cancel_current_route(
                    &mut payment_state.cancelled_channels,
                    initiator_state,
                );
                let cancel = ErrorPaymentSentFailed {
                    token_network_registry_address: channel_state.token_network_registry_address,
                    token_network_address: channel_state.canonical_identifier.token_network_address,
                    identifier: initiator_state.transfer_description.payment_identifier,
                    target: initiator_state.transfer_description.target,
                    reason: "user canceled payment".to_string(),
                };
                cancel_events.push(Event::ErrorPaymentSentFailed(cancel));
                events.append(&mut cancel_events);
                proof {
                    let after = before.push(s[i as int].1);
                    assert(spec_cancellable(&chain_state, s.subrange(0, i + 1)) == after);
                    assert(after.map_values(|init: InitiatorTransferState| init.channel_identifier)
                        =~= before.map_values(|init: InitiatorTransferState| init.channel_identifier).push(
                        s[i as int].1.channel_identifier,
                    ));
                    assert forall|k: int| 0 <= k < after.len() implies #[trigger] spec_user_cancel_events(
                        events@[3 * k],
                        events@[3 * k + 1],
                        events@[3 * k + 2],
                        after[k],
                        spec_transfer_channel(&chain_state, after[k]).unwrap(),
                    ) by {
                        if k < before.len() {
                            assert(events@[3 * k] == ev_before[3 * k]);
                            assert(events@[3 * k + 1] == ev_before[3 * k + 1]);
                            assert(events@[3 * k + 2] == ev_before[3 * k + 2]);
                            assert(spec_user_cancel_events(
                                ev_before[3 * k],
                                ev_before[3 * k + 1],
                                ev_before[3 * k + 2],
                                before[k],
                                spec_transfer_channel(&chain_state, before[k]).unwrap(),
                            ));
                        }
                    }
                }
                i = i + 1;
                continue;
            }
        }
        proof {
            assert(spec_cancellable(&chain_state, s.subrange(0, i + 1)) == before);
        }
        i = i + 1;
    }
    assert(s.subrange(0, s.len() as int) =~= s);
    Ok(InitiatorManagerTransition { new_state: Some(payment_state), chain_state, events })
}

/// A payment without transfers is finished: it is dropped.
pub open spec fn spec_cleared(t: InitiatorManagerTransition, r: InitiatorManagerTransition) -> bool {
    &&& r.chain_state == t.chain_state
    &&& r.events == t.events
    &&& r.new_state == match t.new_state {
        Some(p) => if p.initiator_transfers.entries().len() == 0 {
            None
        } else {
            Some(p)
        },
        None => None,
    }
}

/// Drops a payment that has no transfer left.
pub fn clear_if_finalized(transition: InitiatorManagerTransition) -> (r: InitiatorManagerTransition)
    ensures
        spec_cleared(transition, r),
{
    let finished = match &transition.new_state {
        Some(new_state) => new_state.initiator_transfers.len() == 0,
        None => false,
    };
    if finished {
        return InitiatorManagerTransition {
            new_state: None,
            chain_state: transition.chain_state,
            events: transition.events,
        };
    }
    transition
}


/// What passing `state_change` to the transfer `s` needs: over every copy
/// of the transfer and of its channel, the transfer's transition is
/// defined.
pub open spec fn spec_transfer_dispatch_defined(
    chain_state: &ChainState,
    s: InitiatorTransferState,
    state_change: StateChange,
) -> bool {
    match spec_transfer_channel(chain_state, s) {
        Some(channel_state) => forall|i: InitiatorTransferState, c: ChannelState|
            #[trigger] spec_initiator_copy(i, s) && #[trigger] spec_channel_copy(c, channel_state)
                ==> spec_initiator_transition_defined(&i, &state_change, &c, chain_state.block_number),
        None => true,
    }
}

/// The outcome of passing `state_change` to the transfer `s` of the
/// payment: without its channel nothing happens; else copies of the
/// transfer and its channel take the state change, the payment keeps the
/// transfer's new state under its secret hash or drops it, and the node
/// keeps its state but for the random number generator. What the transfer
/// does to its copy of the channel is not kept.
pub open spec fn spec_transfer_dispatch(
    chain_state: ChainState,
    payment_state: InitiatorPaymentState,
    s: InitiatorTransferState,
    state_change: StateChange,
    r: TransitionResult,
) -> bool {
    match spec_transfer_channel(&chain_state, s) {
        None => {
            &&& r is Ok
            &&& r->Ok_0.new_state == Some(payment_state)
            &&& r->Ok_0.chain_state == chain_state
            &&& r->Ok_0.events@.len() == 0
        },
        Some(channel_state) => exists|
            i: InitiatorTransferState,
            c: ChannelState,
            t: crate::initiator::TransitionResult,
        |
            #[trigger] spec_initiator_transition(i, state_change, c, chain_state.block_number, t)
                && spec_initiator_copy(i, s) && spec_channel_copy(c, channel_state) && match t {
                Err(e) => r == Err::<InitiatorManagerTransition, StateTransitionError>(e),
                Ok(tt) => {
                    let n = r->Ok_0;
                    let p = n.new_state.unwrap();
                    let key = s.transfer.lock.secrethash;
                    &&& r is Ok
                    &&& n.chain_state == ChainState {
                        pseudo_random_number_generator: n.chain_state.pseudo_random_number_generator,
                        ..chain_state
                    }
                    &&& n.events == tt.events
                    &&& n.new_state is Some
                    &&& p == InitiatorPaymentState {
                        initiator_transfers: p.initiator_transfers,
                        ..payment_state
                    }
                    &&& match tt.new_state {
                        Some(ns) => spec_inserted(
                            p.initiator_transfers,
                            payment_state.initiator_transfers,
                            key,
                            ns,
                        ),
                        None => spec_removed(p.initiator_transfers, payment_state.initiator_transfers, key),
                    }
                },
            },
    }
}

/// Passes a state change to one transfer of the payment, over a copy of its
/// channel.
pub fn subdispatch_to_initiator_transfer(
    chain_state: ChainState,
    payment_state: InitiatorPaymentState,
    initiator_state: &InitiatorTransferState,
    state_change: StateChange,
) -> (r: TransitionResult)
    requires
        spec_transfer_dispatch_defined(&chain_state, *initiator_state, state_change),
    ensures
        spec_transfer_dispatch(chain_state, payment_state, *initiator_state, state_change, r),
{
    let ghost initial = chain_state;
    let canonical_identifier = CanonicalIdentifier {
        chain_identifier: chain_state.chain_id,
        token_network_address: initiator_state.transfer_description.token_network_address,
        channel_identifier: initiator_state.channel_identifier,
    };
    let channel_state = match get_channel_by_canonical_identifier(&chain_state, canonical_identifier) {
        Some(c) => copy_channel(c),
        None => {
            return Ok(
                InitiatorManagerTransition {
                    new_state: Some(payment_state),
                    chain_state,
                    events: Vec::new(),
                },
            );
        },
    };
    let transfer = copy_initiator(initiator_state);
    let ghost i = transfer;
    let ghost c = channel_state;
    let secrethash = initiator_state.transfer.lock.secrethash;
    let block_number = chain_state.block_number;
    let mut chain_state = chain_state;
    let mut payment_state = payment_state;
    let sub_iteration = crate::initiator::state_transition(
        transfer,
        state_change,
        channel_state,
        &mut chain_state.pseudo_random_number_generator,
        block_number,
    );
    let ghost t = sub_iteration;
    let sub_iteration = match sub_iteration {
        Ok(sub) => sub,
        Err(e) => {
            assert(spec_initiator_transition(i, state_change, c, initial.block_number, t));
            return Err(e);
        },
    };
    match sub_iteration.new_state {
        Some(transfer_state) => {
            payment_state.initiator_transfers.insert(secrethash, transfer_state);
        },
        None => {
            payment_state.initiator_transfers.remove(&secrethash);
        },
    }
    let r = Ok(
        InitiatorManagerTransition {
            new_state: Some(payment_state),
            chain_state,
            events: sub_iteration.events,
        },
    );
    assert(spec_initiator_transition(i, state_change, c, initial.block_number, t));
    r
}

/// `ss` holds copies of the transfers of `entries`, in order.
pub open spec fn spec_transfer_copies(
    ss: Seq<InitiatorTransferState>,
    entries: Seq<(SecretHash, InitiatorTransferState)>,
) -> bool {
    &&& ss.len() == entries.len()
    &&& forall|i: int| 0 <= i < ss.len() ==> spec_initiator_copy(#[trigger] ss[i], entries[i].1)
}

/// After the first `i` transfers of `ss` took `state_change` in turn, the
/// node is `chain_state`, the payment `payment_state`, and the events so far
/// are `events`.
pub open spec fn spec_transfers_stepped(
    chain0: ChainState,
    payment0: InitiatorPaymentState,
    ss: Seq<InitiatorTransferState>,
    state_change: StateChange,
    i: int,
    chain_state: ChainState,
    payment_state: InitiatorPaymentState,
    events: Seq<Event>,
) -> bool
    decreases i,
{
    if i <= 0 {
        &&& chain_state == chain0
        &&& payment_state == payment0
        &&& events == Seq::<Event>::empty()
    } else {
        exists|c: ChainState, q: InitiatorPaymentState, t: TransitionResult|
            #[trigger] spec_transfer_dispatch(c, q, ss[i - 1], state_change, t) && t is Ok
                && t->Ok_0.chain_state == chain_state && t->Ok_0.new_state == Some(payment_state)
                && t->Ok_0.events@.len() <= events.len() && events.subrange(
                events.len() - t->Ok_0.events@.len(),
                events.len() as int,
            ) == t->Ok_0.events@ && spec_transfers_stepped(
                chain0,
                payment0,
                ss,
                state_change,
                i - 1,
                c,
                q,
                events.subrange(0, events.len() - t->Ok_0.events@.len()),
            )
    }
}

/// The outcome of passing `state_change` to every transfer of the payment
/// in turn, each over copies of it and of its channel: the first failure,
/// or the node and payment after the last transfer with the events of all
/// in order. The node keeps its state but for the random number generator.
pub open spec fn spec_all_transfers(
    chain_state: ChainState,
    payment_state: InitiatorPaymentState,
    state_change: StateChange,
    r: TransitionResult,
) -> bool {
    exists|ss: Seq<InitiatorTransferState>|
        #[trigger] spec_transfer_copies(ss, payment_state.initiator_transfers.entries()) && match r {
            Ok(rr) => {
                &&& rr.new_state is Some
                &&& rr.chain_state == ChainState {
                    pseudo_random_number_generator: rr.chain_state.pseudo_random_number_generator,
                    ..chain_state
                }
                &&& spec_transfers_stepped(
                    chain_state,
                    payment_state,
                    ss,
                    state_change,
                    ss.len() as int,
                    rr.chain_state,
                    rr.new_state.unwrap(),
                    rr.events@,
                )
            },
            Err(e) => exists|i: int, c: ChainState, q: InitiatorPaymentState, ev: Seq<Event>|
                0 <= i < ss.len() && #[trigger] spec_transfers_stepped(
                    chain_state,
                    payment_state,
                    ss,
                    state_change,
                    i,
                    c,
                    q,
                    ev,
                ) && spec_transfer_dispatch(
                    c,
                    q,
                    ss[i],
                    state_change,
                    Err::<InitiatorManagerTransition, StateTransitionError>(e),
                ),
        }
}

/// What passing `state_change` to every transfer needs.
pub open spec fn spec_all_transfers_defined(
    chain_state: &ChainState,
    payment_state: InitiatorPaymentState,
    state_change: StateChange,
) -> bool {
    forall|i: int|
        0 <= i < payment_state.initiator_transfers.entries().len() ==> spec_transfer_dispatch_defined(
            chain_state,
            #[trigger] payment_state.initiator_transfers.entries()[i].1,
            state_change,
        )
}

fn copy_transfers(payment_state: &InitiatorPaymentState) -> (r: Vec<InitiatorTransferState>)
    ensures
        spec_transfer_copies(r@, payment_state.initiator_transfers.entries()),
{
    let ghost e = payment_state.initiator_transfers.entries();
    let mut r: Vec<InitiatorTransferState> = Vec::new();
    let n = payment_state.initiator_transfers.len();
    let mut i: usize = 0;
    while i < n
        invariant
            i <= n,
            n == e.len(),
            e == payment_state.initiator_transfers.entries(),
            r@.len() == i,
            forall|j: int| 0 <= j < i ==> spec_initiator_copy(#[trigger] r@[j], e[j].1),
        decreases n - i,
    {
        let (_, s) = payment_state.initiator_transfers.entry_at(i);
        r.push(copy_initiator(s));
        i = i + 1;
    }
    r
}

/// Passes a new block to every transfer of the payment in turn.
pub fn subdispatch_to_all_initiator_transfer(
    payment_state: InitiatorPaymentState,
    chain_state: ChainState,
    state_change: Block,
) -> (r: TransitionResult)
    requires
        spec_all_transfers_defined(&chain_state, payment_state, StateChange::Block(state_change)),
    ensures
        spec_all_transfers(chain_state, payment_state, StateChange::Block(state_change), r),
{
    let ghost sc = StateChange::Block(state_change);
    let ghost chain0 = chain_state;
    let ghost payment0 = payment_state;
    let snapshot = copy_transfers(&payment_state);
    let ghost ss = snapshot@;
    let mut chain_state = chain_state;
    let mut payment_state = payment_state;
    let mut events: Vec<Event> = Vec::new();
    let n = snapshot.len();
    let mut i: usize = 0;
    while i < n
        invariant
            i <= n,
            n == ss.len(),
            ss == snapshot@,
            sc == StateChange::Block(state_change),
            spec_transfer_copies(ss, payment0.initiator_transfers.entries()),
            spec_all_transfers_defined(&chain0, payment0, sc),
            chain_state == (ChainState {
                pseudo_random_number_generator: chain_state.pseudo_random_number_generator,
                ..chain0
            }),
            spec_transfers_stepped(chain0, payment0, ss, sc, i as int, chain_state, payment_state, events@),
        decreases n - i,
    {
        let ghost c = chain_state;
        let ghost q = payment_state;
        let ghost ev = events@;
        proof {
            lemma_copy_dispatch_defined(chain0, c, payment0, ss, i as int, sc);
        }
        let t = subdispatch_to_initiator_transfer(
            chain_state,
            payment_state,
            &snapshot[i],
            StateChange::Block(state_change),
        );
        let ghost tg = t;
        assert(spec_transfer_dispatch(c, q, ss[i as int], sc, tg));
        let transition = match t {
            Ok(tt) => tt,
            Err(e) => {
                proof {
                    assert(spec_transfers_stepped(chain0, payment0, ss, sc, i as int, c, q, ev));
                }
                return Err(e);
            },
        };
        proof {
            lemma_transfer_dispatch_ok(c, q, ss[i as int], sc, tg);
        }
        chain_state = transition.chain_state;
        payment_state = match transition.new_state {
            Some(p) => p,
            None => {
                proof {
                    assert(false);
                }
                return Err(StateTransitionError::from_message(String::new()));
            },
        };
        let mut more = transition.events;
        events.append(&mut more);
        let ghost k = i as int;
        i = i + 1;
        proof {
            assert(ss[i - 1] == ss[k]);
            assert(spec_transfer_dispatch(c, q, ss[i - 1], sc, tg));
            assert(spec_transfers_stepped(chain0, payment0, ss, sc, i - 1, c, q, ev));
            assert(events@ == ev + tg->Ok_0.events@);
            assert(tg->Ok_0.chain_state == chain_state);
            assert(tg->Ok_0.new_state == Some(payment_state));
            assert(tg is Ok);
            lemma_stepped_next(chain0, payment0, ss, sc, k, c, q, ev, tg, chain_state, payment_state, events@);
        }
    }
    Ok(InitiatorManagerTransition { new_state: Some(payment_state), chain_state, events })
}

proof fn lemma_stepped_next(
    chain0: ChainState,
    payment0: InitiatorPaymentState,
    ss: Seq<InitiatorTransferState>,
    sc: StateChange,
    k: int,
    c: ChainState,
    q: InitiatorPaymentState,
    ev: Seq<Event>,
    t: TransitionResult,
    chain_state: ChainState,
    payment_state: InitiatorPaymentState,
    events: Seq<Event>,
)
    requires
        k >= 0,
        spec_transfers_stepped(chain0, payment0, ss, sc, k, c, q, ev),
        spec_transfer_dispatch(c, q, ss[k], sc, t),
        t is Ok,
        t->Ok_0.chain_state == chain_state,
        t->Ok_0.new_state == Some(payment_state),
        events == ev + t->Ok_0.events@,
    ensures
        spec_transfers_stepped(chain0, payment0, ss, sc, k + 1, chain_state, payment_state, events),
{
    let i = k + 1;
    assert(ss[i - 1] == ss[k]);
    assert(events.subrange(0, events.len() - t->Ok_0.events@.len()) =~= ev);
    assert(events.subrange(events.len() - t->Ok_0.events@.len(), events.len() as int) =~= t->Ok_0.events@);
}

/// A copy of a transfer of the payment may take the state change on a node
/// that differs from the first only in its random number generator.
proof fn lemma_copy_dispatch_defined(
    chain0: ChainState,
    c: ChainState,
    payment0: InitiatorPaymentState,
    ss: Seq<InitiatorTransferState>,
    i: int,
    sc: StateChange,
)
    requires
        spec_transfer_copies(ss, payment0.initiator_transfers.entries()),
        spec_all_transfers_defined(&chain0, payment0, sc),
        c == (ChainState { pseudo_random_number_generator: c.pseudo_random_number_generator, ..chain0 }),
        0 <= i < ss.len(),
    ensures
        spec_transfer_dispatch_defined(&c, ss[i], sc),
{
    let original = payment0.initiator_transfers.entries()[i].1;
    assert(spec_initiator_copy(ss[i], original));
    assert(spec_transfer_dispatch_defined(&chain0, original, sc));
    assert(crate::views::spec_registries(&c) == crate::views::spec_registries(&chain0));
    assert(spec_transfer_channel(&c, original) == spec_transfer_channel(&chain0, original));
    assert(spec_transfer_channel(&c, ss[i]) == spec_transfer_channel(&chain0, original));
    match spec_transfer_channel(&chain0, original) {
        Some(ch) => {
            assert forall|x: InitiatorTransferState, y: ChannelState|
                #[trigger] spec_initiator_copy(x, ss[i]) && #[trigger] spec_channel_copy(y, ch)
                    implies spec_initiator_transition_defined(&x, &sc, &y, c.block_number) by {
                lemma_initiator_copy_trans(x, ss[i], original);
            }
        },
        None => {},
    }
}

proof fn lemma_transfer_dispatch_ok(
    chain_state: ChainState,
    payment_state: InitiatorPaymentState,
    s: InitiatorTransferState,
    state_change: StateChange,
    t: TransitionResult,
)
    requires
        spec_transfer_dispatch(chain_state, payment_state, s, state_change, t),
        t.is_ok(),
    ensures
        t->Ok_0.new_state is Some,
        t->Ok_0.chain_state == (ChainState {
            pseudo_random_number_generator: t->Ok_0.chain_state.pseudo_random_number_generator,
            ..chain_state
        }),
{
    if spec_transfer_channel(&chain_state, s).is_some() {
        let (i, c, x) = choose|i: InitiatorTransferState, c: ChannelState, x: crate::initiator::TransitionResult|
            #[trigger] spec_initiator_transition(i, state_change, c, chain_state.block_number, x)
                && spec_initiator_copy(i, s) && spec_channel_copy(
                c,
                spec_transfer_channel(&chain_state, s).unwrap(),
            ) && match x {
                Err(e) => t == Err::<InitiatorManagerTransition, StateTransitionError>(e),
                Ok(xx) => {
                    let n = t->Ok_0;
                    let q = n.new_state.unwrap();
                    let key = s.transfer.lock.secrethash;
                    &&& t is Ok
                    &&& n.chain_state == ChainState {
                        pseudo_random_number_generator: n.chain_state.pseudo_random_number_generator,
                        ..chain_state
                    }
                    &&& n.events == xx.events
                    &&& n.new_state is Some
                    &&& q == InitiatorPaymentState { initiator_transfers: q.initiator_transfers, ..payment_state }
                    &&& match xx.new_state {
                        Some(ns) => spec_inserted(q.initiator_transfers, payment_state.initiator_transfers, key, ns),
                        None => spec_removed(q.initiator_transfers, payment_state.initiator_transfers, key),
                    }
                },
            };
    }
}

/// The outcome of a block for a payment: without the payment an error;
/// else every transfer of the payment takes it in turn.
pub open spec fn spec_manager_block(
    chain_state: ChainState,
    payment_state: Option<InitiatorPaymentState>,
    state_change: Block,
    r: TransitionResult,
) -> bool {
    match payment_state {
        None => r is Err && r->Err_0.msg@
            == "Block state change should be accompanied by a valid payment state"@,
        Some(p) => spec_all_transfers(chain_state, p, StateChange::Block(state_change), r),
    }
}

/// Handles a new block for a payment we initiated.
pub fn handle_block(
    chain_state: ChainState,
    payment_state: Option<InitiatorPaymentState>,
    state_change: Block,
) -> (r: TransitionResult)
    requires
        payment_state matches Some(p) ==> spec_all_transfers_defined(
            &chain_state,
            p,
            StateChange::Block(state_change),
        ),
    ensures
        spec_manager_block(chain_state, payment_state, state_change, r),
{
    proof {
        reveal_strlit("Block state change should be accompanied by a valid payment state");
    }
    match payment_state {
        Some(p) => subdispatch_to_all_initiator_transfer(p, chain_state, state_change),
        None => Err(
            StateTransitionError::from_message(
                "Block state change should be accompanied by a valid payment state".to_string(),
            ),
        ),
    }
}

/// What handling the partner's expired lock needs: the channel of the
/// transfer, if known, can take the message over any copy of it, and its
/// token network can be written back.
pub open spec fn spec_lock_expired_handled_defined(
    chain_state: &ChainState,
    payment_state: Option<InitiatorPaymentState>,
    state_change: &ReceiveLockExpired,
) -> bool {
    match payment_state {
        Some(p) => p.initiator_transfers@.contains_key(state_change.secrethash) ==> match spec_transfer_channel(
            chain_state,
            p.initiator_transfers@[state_change.secrethash],
        ) {
            Some(ch) => {
                &&& forall|c: ChannelState|
                    #[trigger] spec_channel_copy(c, ch) ==> crate::channel::validators::spec_lock_expired_defined(
                        &c,
                        state_change,
                        &c.partner_state,
                    )
                &&& crate::chain::machine::spec_network_position(
                    chain_state,
                    ch.canonical_identifier.token_network_address,
                ).is_some()
            },
            None => true,
        },
        None => true,
    }
}

/// The events after the channel took the partner's expired lock: the
/// channel's, then a failed claim of the transfer's lock where the partner
/// no longer holds it.
pub open spec fn spec_lock_expired_events(
    events: Seq<Event>,
    channel_events: Seq<Event>,
    channel_state: ChannelState,
    s: InitiatorTransferState,
) -> bool {
    let secrethash = s.transfer.lock.secrethash;
    if crate::channel::views::spec_get_lock(&channel_state.partner_state, secrethash) is None {
        &&& events.len() == channel_events.len() + 1
        &&& events.subrange(0, channel_events.len() as int) == channel_events
        &&& events.last() matches Event::ErrorUnlockClaimFailed(e)
        &&& events.last()->ErrorUnlockClaimFailed_0.identifier == s.transfer.payment_identifier
        &&& events.last()->ErrorUnlockClaimFailed_0.secrethash == secrethash
        &&& events.last()->ErrorUnlockClaimFailed_0.reason@ == "Lock expired"@
    } else {
        events == channel_events
    }
}

/// The outcome of the partner's message that a lock of a payment we
/// initiated expired: without the payment an error; without the transfer
/// or its channel nothing happens; else a copy of the channel takes the
/// message and is written back, and a lock the partner no longer holds is
/// reported as failed to claim.
pub open spec fn spec_manager_lock_expired(
    chain_state: ChainState,
    payment_state: Option<InitiatorPaymentState>,
    state_change: ReceiveLockExpired,
    r: TransitionResult,
) -> bool {
    let unchanged = r is Ok && r->Ok_0.new_state == payment_state && r->Ok_0.chain_state == chain_state
        && r->Ok_0.events@.len() == 0;
    match payment_state {
        None => r is Err && r->Err_0.msg@
            == "ReceiveLockExpired state change should be accompanied by a valid payment state"@,
        Some(p) => if !p.initiator_transfers@.contains_key(state_change.secrethash) {
            unchanged
        } else {
            let s = p.initiator_transfers@[state_change.secrethash];
            match spec_transfer_channel(&chain_state, s) {
                None => unchanged,
                Some(ch) => exists|c: ChannelState, t: crate::channel::transitions::TransitionResult|
                    #[trigger] crate::channel::locks::spec_channel_lock_expired(
                        c,
                        state_change,
                        chain_state.block_number,
                        crate::views::spec_address_metadata(ch.partner_state.address, p.routes@),
                        t,
                    ) && spec_channel_copy(c, ch) && match t {
                        Err(e) => r == Err::<InitiatorManagerTransition, StateTransitionError>(e),
                        Ok(tt) => {
                            &&& r is Ok
                            &&& r->Ok_0.new_state == payment_state
                            &&& crate::chain::channels::spec_channel_updated(
                                r->Ok_0.chain_state,
                                chain_state,
                                tt.new_state.unwrap(),
                            )
                            &&& spec_lock_expired_events(r->Ok_0.events@, tt.events@, tt.new_state.unwrap(), s)
                        },
                    },
            }
        },
    }
}

/// Handles the partner's message that a lock of a payment we initiated
/// expired.
pub fn handle_lock_expired(
    chain_state: ChainState,
    payment_state: Option<InitiatorPaymentState>,
    state_change: ReceiveLockExpired,
) -> (r: TransitionResult)
    requires
        spec_lock_expired_handled_defined(&chain_state, payment_state, &state_change),
    ensures
        spec_manager_lock_expired(chain_state, payment_state, state_change, r),
{
    proof {
        reveal_strlit("ReceiveLockExpired state change should be accompanied by a valid payment state");
        reveal_strlit("Lock expired");
    }
    let ghost cs = chain_state;
    let ghost ps = payment_state;
    let ghost sc = state_change;
    let payment_state = match payment_state {
        Some(p) => p,
        None => {
            return Err(
                StateTransitionError::from_message(
                    "ReceiveLockExpired state change should be accompanied by a valid payment state".to_string(),
                ),
            );
        },
    };
    let initiator_state = match payment_state.initiator_transfers.get(&state_change.secrethash) {
        Some(s) => s,
        None => {
            return Ok(InitiatorManagerTransition { new_state: Some(payment_state), chain_state, events: Vec::new() });
        },
    };
    let canonical_identifier = CanonicalIdentifier {
        chain_identifier: chain_state.chain_id,
        token_network_address: initiator_state.transfer_description.token_network_address,
        channel_identifier: initiator_state.channel_identifier,
    };
    let channel_state = match get_channel_by_canonical_identifier(&chain_state, canonical_identifier) {
        Some(c) => copy_channel(c),
        None => {
            return Ok(InitiatorManagerTransition { new_state: Some(payment_state), chain_state, events: Vec::new() });
        },
    };
    let ghost c = channel_state;
    let secrethash = initiator_state.transfer.lock.secrethash;
    let payment_identifier = initiator_state.transfer.payment_identifier;
    let recipient_metadata = crate::views::get_address_metadata(channel_state.partner_state.address, &payment_state.routes);
    let block_number = chain_state.block_number;
    let sub_iteration = crate::channel::locks::handle_receive_lock_expired(
        channel_state,
        state_change,
        block_number,
        recipient_metadata,
    );
    let ghost t = sub_iteration;
    let sub_iteration = match sub_iteration {
        Ok(sub) => sub,
        Err(e) => {
            assert(crate::channel::locks::spec_channel_lock_expired(c, sc, cs.block_number, recipient_metadata, t));
            return Err(e);
        },
    };
    let channel_state = match sub_iteration.new_state {
        Some(c) => c,
        None => {
            assert(false);
            return Err(StateTransitionError::from_message(String::new()));
        },
    };
    let mut events = sub_iteration.events;
    let ghost channel_events = events@;
    if crate::channel::views::get_lock(&channel_state.partner_state, secrethash).is_none() {
        events.push(
            Event::ErrorUnlockClaimFailed(
                ErrorUnlockClaimFailed {
                    identifier: payment_identifier,
                    secrethash,
                    reason: "Lock expired".to_string(),
                },
            ),
        );
        assert(events@.subrange(0, channel_events.len() as int) =~= channel_events);
    }
    let mut chain_state = chain_state;
    crate::chain::channels::update_channel(&mut chain_state, channel_state);
    let r = Ok(InitiatorManagerTransition { new_state: Some(payment_state), chain_state, events });
    assert(crate::channel::locks::spec_channel_lock_expired(c, sc, cs.block_number, recipient_metadata, t));
    r
}

/// The payment description under the new secret and secret hash of a
/// reroute.
pub open spec fn spec_reroute_description(
    d: TransferDescriptionWithSecretState,
    state_change: &ActionTransferReroute,
) -> TransferDescriptionWithSecretState {
    TransferDescriptionWithSecretState { secret: state_change.secret, secrethash: state_change.secrethash, ..d }
}

/// The routes of `routes` that `filter_acceptable_routes` keeps on the node
/// `chain_state`, in order.
pub open spec fn spec_filtered_routes(
    routes: Seq<RouteState>,
    cancelled: Seq<ChannelIdentifier>,
    chain_state: &ChainState,
    token_network_address: Address,
    our_address: Address,
) -> Seq<RouteState> {
    let positions = crate::routes::spec_acceptable_positions(
        routes,
        cancelled,
        crate::views::spec_insert_registries(Map::empty(), crate::views::spec_registries(chain_state)),
        token_network_address,
        our_address,
    );
    Seq::new(positions.len(), |k: int| routes[positions[k]])
}

/// The refund answers the transfer's lock: same secret hash, amount and
/// expiration.
pub open spec fn spec_reroute_lock_valid(refund: &LockedTransferState, transfer: &LockedTransferState) -> bool {
    &&& refund.lock.secrethash == transfer.lock.secrethash
    &&& refund.lock.amount == transfer.lock.amount
    &&& refund.lock.expiration == transfer.lock.expiration
}

/// The refund was taken into the copy `c` of the transfer's channel, which
/// became `c2`.
pub open spec fn spec_refund_taken(
    c: ChannelState,
    c2: ChannelState,
    ev: Result<Event, String>,
    s: InitiatorTransferState,
    state_change: &ActionTransferReroute,
    metadata: Option<AddressMetadata>,
) -> bool {
    &&& crate::channel::locks::spec_locked_transfer_received(c, state_change.transfer, metadata, c2, ev)
    &&& ev is Ok
    &&& spec_reroute_lock_valid(&state_change.transfer, &s.transfer)
    &&& crate::channel::validators::spec_refund_matches(&state_change.transfer, &s.transfer)
}

/// What a reroute needs: the transfer's channel, if known, can take the
/// refund over any copy of it, its token network can be written back, and
/// the acceptable routes can be tried on the node that results.
pub open spec fn spec_reroute_defined(
    chain_state: &ChainState,
    payment_state: Option<InitiatorPaymentState>,
    state_change: &ActionTransferReroute,
) -> bool {
    match payment_state {
        None => true,
        Some(p) => {
            let key = state_change.transfer.lock.secrethash;
            p.initiator_transfers@.contains_key(key) ==> {
                let s = p.initiator_transfers@[key];
                match spec_transfer_channel(chain_state, s) {
                    None => true,
                    Some(ch) => {
                        let metadata = crate::views::spec_address_metadata(ch.partner_state.address, p.routes@);
                        &&& forall|c: ChannelState|
                            #[trigger] spec_channel_copy(c, ch)
                                ==> crate::channel::validators::spec_locked_transfer_check_defined(
                                &c.partner_state,
                                &c.our_state,
                                &state_change.transfer.lock,
                            )
                        &&& crate::chain::machine::spec_network_position(
                            chain_state,
                            ch.canonical_identifier.token_network_address,
                        ).is_some()
                        &&& forall|c: ChannelState, c2: ChannelState, ev: Result<Event, String>, n: ChainState, rc: Seq<RouteState>|
                            #![trigger spec_refund_taken(c, c2, ev, s, state_change, metadata), crate::chain::channels::spec_channel_updated(n, *chain_state, c2), spec_routes_copy(rc, p.routes@)]
                            spec_refund_taken(c, c2, ev, s, state_change, metadata) && spec_channel_copy(c, ch)
                                && crate::chain::channels::spec_channel_updated(n, *chain_state, c2)
                                && spec_routes_copy(rc, p.routes@) ==> spec_try_new_route_defined(
                                &n,
                                spec_filtered_routes(
                                    rc,
                                    p.cancelled_channels@,
                                    &n,
                                    s.transfer_description.token_network_address,
                                    ch.our_state.address,
                                ),
                                &spec_reroute_description(s.transfer_description, state_change),
                            )
                    },
                }
            }
        },
    }
}

/// The outcome of a reroute: without the payment an error; without the
/// transfer or its channel, or where the refund does not answer the
/// transfer or is refused, nothing happens; else the refund is taken into
/// the channel, the acceptable routes are tried under the new secret, and
/// the new transfer, if any, joins the payment.
pub open spec fn spec_transfer_reroute(
    chain_state: ChainState,
    payment_state: Option<InitiatorPaymentState>,
    state_change: ActionTransferReroute,
    r: TransitionResult,
) -> bool {
    let unchanged = r is Ok && r->Ok_0.new_state == payment_state && r->Ok_0.chain_state == chain_state
        && r->Ok_0.events@.len() == 0;
    match payment_state {
        None => r is Err && r->Err_0.msg@
            == "TransferCancelRoute state change should be accompanied by a valid payment state"@,
        Some(p) => {
            let key = state_change.transfer.lock.secrethash;
            if !p.initiator_transfers@.contains_key(key) {
                unchanged
            } else {
                let s = p.initiator_transfers@[key];
                match spec_transfer_channel(&chain_state, s) {
                    None => unchanged,
                    Some(ch) => {
                        let metadata = crate::views::spec_address_metadata(ch.partner_state.address, p.routes@);
                        exists|c: ChannelState, c2: ChannelState, ev: Result<Event, String>|
                            #[trigger] crate::channel::locks::spec_locked_transfer_received(
                                c,
                                state_change.transfer,
                                metadata,
                                c2,
                                ev,
                            ) && spec_channel_copy(c, ch) && if !spec_refund_taken(c, c2, ev, s, &state_change, metadata) {
                                unchanged
                            } else {
                                exists|n: ChainState, rc: Seq<RouteState>, x: Result<(Option<InitiatorTransferState>, ChainState, Vec<Event>), String>|
                                    #[trigger] spec_try_new_route(
                                        n,
                                        spec_filtered_routes(
                                            rc,
                                            p.cancelled_channels@,
                                            &n,
                                            s.transfer_description.token_network_address,
                                            ch.our_state.address,
                                        ),
                                        spec_reroute_description(s.transfer_description, &state_change),
                                        x,
                                    ) && crate::chain::channels::spec_channel_updated(n, chain_state, c2)
                                        && spec_routes_copy(rc, p.routes@) && match x {
                                        Err(msg) => r is Err && r->Err_0.msg == msg,
                                        Ok(xx) => {
                                            &&& r is Ok
                                            &&& r->Ok_0.chain_state == xx.1
                                            &&& r->Ok_0.events == xx.2
                                            &&& r->Ok_0.new_state is Some
                                            &&& match xx.0 {
                                                Some(ns) => {
                                                    let q = r->Ok_0.new_state.unwrap();
                                                    &&& q == InitiatorPaymentState {
                                                        initiator_transfers: q.initiator_transfers,
                                                        ..p
                                                    }
                                                    &&& spec_inserted(
                                                        q.initiator_transfers,
                                                        p.initiator_transfers,
                                                        ns.transfer.lock.secrethash,
                                                        ns,
                                                    )
                                                },
                                                None => r->Ok_0.new_state == payment_state,
                                            }
                                        },
                                    }
                            }
                    },
                }
            }
        },
    }
}

/// Handle `ActionTransferReroute` state change: the refund of the payee's
/// partner is taken into the channel, and the payment tries the acceptable
/// routes again under a new secret.
pub fn handle_action_transfer_reroute(
    chain_state: ChainState,
    payment_state: Option<InitiatorPaymentState>,
    state_change: ActionTransferReroute,
) -> (r: TransitionResult)
    requires
        spec_reroute_defined(&chain_state, payment_state, &state_change),
    ensures
        spec_transfer_reroute(chain_state, payment_state, state_change, r),
{
    proof {
        reveal_strlit("TransferCancelRoute state change should be accompanied by a valid payment state");
    }
    let ghost cs = chain_state;
    let ghost sc = state_change;
    let mut payment_state = match payment_state {
        Some(p) => p,
        None => {
            return Err(
                StateTransitionError::from_message(
                    "TransferCancelRoute state change should be accompanied by a valid payment state".to_string(),
                ),
            );
        },
    };
    let ghost p = payment_state;
    let ActionTransferReroute { transfer: refund_transfer, secret, secrethash } = state_change;
    let initiator_state = match payment_state.initiator_transfers.get(&refund_transfer.lock.secrethash) {
        Some(s) => s,
        None => {
            return Ok(InitiatorManagerTransition { new_state: Some(payment_state), chain_state, events: Vec::new() });
        },
    };
    let ghost s = *initiator_state;
    let canonical_identifier = CanonicalIdentifier {
        chain_identifier: chain_state.chain_id,
        token_network_address: initiator_state.transfer_description.token_network_address,
        channel_identifier: initiator_state.channel_identifier,
    };
    let mut channel_state = match get_channel_by_canonical_identifier(&chain_state, canonical_identifier) {
        Some(c) => copy_channel(c),
        None => {
            return Ok(InitiatorManagerTransition { new_state: Some(payment_state), chain_state, events: Vec::new() });
        },
    };
    let ghost ch = spec_transfer_channel(&cs, s).unwrap();
    let ghost c = channel_state;
    let original = &initiator_state.transfer;
    let is_valid_lock = refund_transfer.lock.secrethash.equals(&original.lock.secrethash)
        && refund_transfer.lock.amount.equals(&original.lock.amount)
        && refund_transfer.lock.expiration == original.lock.expiration;
    let is_valid_refund = crate::channel::validators::refund_transfer_matches_transfer(&refund_transfer, original);
    let old_description = &initiator_state.transfer_description;
    let transfer_description = TransferDescriptionWithSecretState {
        token_network_registry_address: old_description.token_network_registry_address,
        payment_identifier: old_description.payment_identifier,
        amount: old_description.amount,
        token_network_address: old_description.token_network_address,
        initiator: old_description.initiator,
        target: old_description.target,
        secret,
        secrethash,
        lock_timeout: old_description.lock_timeout,
    };
    let recipient_metadata = crate::views::get_address_metadata(
        channel_state.partner_state.address,
        &payment_state.routes,
    );
    let ghost metadata = recipient_metadata;
    let received = crate::channel::locks::handle_receive_locked_transfer(
        &mut channel_state,
        refund_transfer,
        recipient_metadata,
    );
    let ghost ev = received;
    let ghost c2 = channel_state;
    assert(crate::channel::locks::spec_locked_transfer_received(c, sc.transfer, metadata, c2, ev));
    if !is_valid_lock || !is_valid_refund || received.is_err() {
        assert(!spec_refund_taken(c, c2, ev, s, &sc, metadata));
        return Ok(InitiatorManagerTransition { new_state: Some(payment_state), chain_state, events: Vec::new() });
    }
    assert(spec_refund_taken(c, c2, ev, s, &sc, metadata));
    let our_address = channel_state.our_state.address;
    let mut chain_state = chain_state;
    crate::chain::channels::update_channel(&mut chain_state, channel_state);
    let ghost n = chain_state;
    let routes = copy_routes(&payment_state.routes);
    let ghost rc = routes@;
    let cancelled = crate::copies::copy_vec(&payment_state.cancelled_channels);
    let addresses = crate::views::get_addresses_to_channels(&chain_state);
    let filtered = crate::routes::filter_acceptable_routes(
        routes,
        cancelled,
        addresses,
        transfer_description.token_network_address,
        our_address,
    );
    let ghost fr = spec_filtered_routes(
        rc,
        p.cancelled_channels@,
        &n,
        s.transfer_description.token_network_address,
        ch.our_state.address,
    );
    assert(filtered@ =~= fr);
    assert(transfer_description == spec_reroute_description(s.transfer_description, &sc));
    let tried = try_new_route(chain_state, filtered, transfer_description);
    let ghost x = tried;
    let (new_state, chain_state, events) = match tried {
        Ok(t) => t,
        Err(msg) => {
            return Err(StateTransitionError::from_message(msg));
        },
    };
    match new_state {
        Some(ns) => {
            payment_state.initiator_transfers.insert(ns.transfer.lock.secrethash, ns);
        },
        None => {},
    }
    let r = Ok(InitiatorManagerTransition { new_state: Some(payment_state), chain_state, events });
    assert(spec_try_new_route(n, fr, spec_reroute_description(s.transfer_description, &sc), x));
    r
}

/// What passing a message about `secrethash` to its transfer needs: the
/// transfer's transition is defined over copies of it and its channel.
pub open spec fn spec_message_dispatch_defined(
    chain_state: &ChainState,
    payment_state: Option<InitiatorPaymentState>,
    secrethash: SecretHash,
    state_change: StateChange,
) -> bool {
    match payment_state {
        Some(p) => p.initiator_transfers@.contains_key(secrethash) ==> spec_transfer_dispatch_defined(
            chain_state,
            p.initiator_transfers@[secrethash],
            state_change,
        ),
        None => true,
    }
}

/// The outcome of passing a message about `secrethash` to a copy of its
/// transfer.
pub open spec fn spec_message_dispatch(
    chain_state: ChainState,
    payment_state: InitiatorPaymentState,
    secrethash: SecretHash,
    state_change: StateChange,
    r: TransitionResult,
) -> bool {
    exists|s: InitiatorTransferState|
        #[trigger] spec_transfer_dispatch(chain_state, payment_state, s, state_change, r)
            && spec_initiator_copy(s, payment_state.initiator_transfers@[secrethash])
}

fn dispatch_message(
    chain_state: ChainState,
    payment_state: InitiatorPaymentState,
    secrethash: SecretHash,
    state_change: StateChange,
) -> (r: TransitionResult)
    requires
        payment_state.initiator_transfers@.contains_key(secrethash),
        spec_transfer_dispatch_defined(
            &chain_state,
            payment_state.initiator_transfers@[secrethash],
            state_change,
        ),
    ensures
        spec_message_dispatch(chain_state, payment_state, secrethash, state_change, r),
{
    let ghost cs = chain_state;
    let ghost ps = payment_state;
    let initiator_state = match payment_state.initiator_transfers.get(&secrethash) {
        Some(s) => copy_initiator(s),
        None => {
            return Ok(
                InitiatorManagerTransition {
                    new_state: Some(payment_state),
                    chain_state,
                    events: Vec::new(),
                },
            );
        },
    };
    let ghost s = initiator_state;
    let ghost original = ps.initiator_transfers@[secrethash];
    proof {
        match spec_transfer_channel(&cs, original) {
            Some(ch) => {
                assert forall|i: InitiatorTransferState, c: ChannelState|
                    #[trigger] spec_initiator_copy(i, s) && #[trigger] spec_channel_copy(c, ch)
                        implies spec_initiator_transition_defined(
                        &i,
                        &state_change,
                        &c,
                        cs.block_number,
                    ) by {
                    lemma_initiator_copy_trans(i, s, original);
                }
            },
            None => {},
        }
    }
    let r = subdispatch_to_initiator_transfer(chain_state, payment_state, &initiator_state, state_change);
    assert(spec_transfer_dispatch(cs, ps, s, state_change, r));
    r
}

/// The outcome of a secret request for a payment: without the payment an
/// error; a request about no transfer of the payment, or about a cancelled
/// one, changes nothing; else the transfer handles it.
pub open spec fn spec_secret_request(
    chain_state: ChainState,
    payment_state: Option<InitiatorPaymentState>,
    state_change: ReceiveSecretRequest,
    r: TransitionResult,
) -> bool {
    match payment_state {
        None => r is Err && r->Err_0.msg@
            == "ReceiveSecretRequest state change should be accompanied by a valid payment state"@,
        Some(p) => if !p.initiator_transfers@.contains_key(state_change.secrethash)
            || p.initiator_transfers@[state_change.secrethash].transfer_state
            == TransferState::Canceled {
            &&& r is Ok
            &&& r->Ok_0.new_state == payment_state
            &&& r->Ok_0.chain_state == chain_state
            &&& r->Ok_0.events@.len() == 0
        } else {
            spec_message_dispatch(
                chain_state,
                p,
                state_change.secrethash,
                StateChange::ReceiveSecretRequest(state_change),
                r,
            )
        },
    }
}

/// Handles a request for the secret of a payment we initiated.
pub fn handle_secret_request(
    chain_state: ChainState,
    payment_state: Option<InitiatorPaymentState>,
    state_change: ReceiveSecretRequest,
) -> (r: TransitionResult)
    requires
        spec_message_dispatch_defined(
            &chain_state,
            payment_state,
            state_change.secrethash,
            StateChange::ReceiveSecretRequest(state_change),
        ),
    ensures
        spec_secret_request(chain_state, payment_state, state_change, r),
{
    let payment_state = match payment_state {
        Some(p) => p,
        None => {
            return Err(
                StateTransitionError::from_message(
                    "ReceiveSecretRequest state change should be accompanied by a valid payment state".to_string(),
                ),
            );
        },
    };
    let forward = match payment_state.initiator_transfers.get(&state_change.secrethash) {
        Some(s) => s.transfer_state != TransferState::Canceled,
        None => false,
    };
    if !forward {
        return Ok(
            InitiatorManagerTransition {
                new_state: Some(payment_state),
                chain_state,
                events: Vec::new(),
            },
        );
    }
    dispatch_message(
        chain_state,
        payment_state,
        state_change.secrethash,
        StateChange::ReceiveSecretRequest(state_change),
    )
}

/// After a secret reveal: where the transfer of the secret is gone, the
/// other transfers of the payment are cancelled.
pub open spec fn spec_after_reveal(t: TransitionResult, secrethash: SecretHash, r: TransitionResult) -> bool {
    match t {
        Err(e) => r == Err::<InitiatorManagerTransition, StateTransitionError>(e),
        Ok(tt) => {
            &&& r is Ok
            &&& r->Ok_0.chain_state == tt.chain_state
            &&& r->Ok_0.events == tt.events
            &&& match tt.new_state {
                Some(p) => if p.initiator_transfers@.contains_key(secrethash) {
                    r->Ok_0.new_state == Some(p)
                } else {
                    let q = r->Ok_0.new_state.unwrap();
                    &&& r->Ok_0.new_state is Some
                    &&& spec_all_cancelled(q.initiator_transfers.entries(), p.initiator_transfers.entries())
                    &&& q.routes == p.routes
                    &&& q.cancelled_channels == p.cancelled_channels
                },
                None => r->Ok_0.new_state is None,
            }
        },
    }
}

fn cancel_others_if_gone(t: TransitionResult, secrethash: SecretHash) -> (r: TransitionResult)
    ensures
        spec_after_reveal(t, secrethash, r),
{
    let mut transition = match t {
        Ok(tt) => tt,
        Err(e) => {
            return Err(e);
        },
    };
    if let Some(ref mut new_state) = transition.new_state {
        if !transfer_exists(new_state, secrethash) {
            cancel_other_transfers(new_state);
        }
    }
    Ok(transition)
}

/// The outcome of a secret reveal for a payment: without the payment an
/// error; a reveal about no transfer of the payment changes nothing; else
/// the transfer handles it, and where it is then gone the other transfers
/// are cancelled.
pub open spec fn spec_secret_reveal(
    chain_state: ChainState,
    payment_state: Option<InitiatorPaymentState>,
    state_change: ReceiveSecretReveal,
    r: TransitionResult,
) -> bool {
    match payment_state {
        None => r is Err && r->Err_0.msg@
            == "ReceiveSecretReveal state change should be accompanied by a valid payment state"@,
        Some(p) => if !p.initiator_transfers@.contains_key(state_change.secrethash) {
            &&& r is Ok
            &&& r->Ok_0.new_state == payment_state
            &&& r->Ok_0.chain_state == chain_state
            &&& r->Ok_0.events@.len() == 0
        } else {
            exists|t: TransitionResult|
                #[trigger] spec_message_dispatch(
                    chain_state,
                    p,
                    state_change.secrethash,
                    StateChange::ReceiveSecretReveal(state_change),
                    t,
                ) && spec_after_reveal(t, state_change.secrethash, r)
        },
    }
}

/// Handles the secret of a payment we initiated, revealed off chain.
pub fn handle_secret_reveal(
    chain_state: ChainState,
    payment_state: Option<InitiatorPaymentState>,
    state_change: ReceiveSecretReveal,
) -> (r: TransitionResult)
    requires
        spec_message_dispatch_defined(
            &chain_state,
            payment_state,
            state_change.secrethash,
            StateChange::ReceiveSecretReveal(state_change),
        ),
    ensures
        spec_secret_reveal(chain_state, payment_state, state_change, r),
{
    let payment_state = match payment_state {
        Some(p) => p,
        None => {
            return Err(
                StateTransitionError::from_message(
                    "ReceiveSecretReveal state change should be accompanied by a valid payment state".to_string(),
                ),
            );
        },
    };
    if !payment_state.initiator_transfers.contains_key(&state_change.secrethash) {
        return Ok(
            InitiatorManagerTransition {
                new_state: Some(payment_state),
                chain_state,
                events: Vec::new(),
            },
        );
    }
    let secrethash = state_change.secrethash;
    let t = dispatch_message(
        chain_state,
        payment_state,
        secrethash,
        StateChange::ReceiveSecretReveal(state_change),
    );
    cancel_others_if_gone(t, secrethash)
}

/// The outcome of a secret registered on chain for a payment: without the
/// payment an error; one about no transfer of the payment, or about a
/// cancelled one, changes nothing; else the transfer handles it, and where
/// it is then gone the other transfers are cancelled.
pub open spec fn spec_contract_secret_reveal(
    chain_state: ChainState,
    payment_state: Option<InitiatorPaymentState>,
    state_change: ContractReceiveSecretReveal,
    r: TransitionResult,
) -> bool {
    match payment_state {
        None => r is Err && r->Err_0.msg@
            == "ContractReceiveSecretReveal state change should be accompanied by a valid payment state"@,
        Some(p) => if !p.initiator_transfers@.contains_key(state_change.secrethash)
            || p.initiator_transfers@[state_change.secrethash].transfer_state
            == TransferState::Canceled {
            &&& r is Ok
            &&& r->Ok_0.new_state == payment_state
            &&& r->Ok_0.chain_state == chain_state
            &&& r->Ok_0.events@.len() == 0
        } else {
            exists|t: TransitionResult|
                #[trigger] spec_message_dispatch(
                    chain_state,
                    p,
                    state_change.secrethash,
                    StateChange::ContractReceiveSecretReveal(state_change),
                    t,
                ) && spec_after_reveal(t, state_change.secrethash, r)
        },
    }
}

/// Handles the secret of a payment we initiated, registered on chain.
pub fn handle_contract_secret_reveal(
    chain_state: ChainState,
    payment_state: Option<InitiatorPaymentState>,
    state_change: ContractReceiveSecretReveal,
) -> (r: TransitionResult)
    requires
        spec_message_dispatch_defined(
            &chain_state,
            payment_state,
            state_change.secrethash,
            StateChange::ContractReceiveSecretReveal(state_change),
        ),
    ensures
        spec_contract_secret_reveal(chain_state, payment_state, state_change, r),
{
    let payment_state = match payment_state {
        Some(p) => p,
        None => {
            return Err(
                StateTransitionError::from_message(
                    "ContractReceiveSecretReveal state change should be accompanied by a valid payment state".to_string(),
                ),
            );
        },
    };
    let forward = match payment_state.initiator_transfers.get(&state_change.secrethash) {
        Some(s) => s.transfer_state != TransferState::Canceled,
        None => false,
    };
    if !forward {
        return Ok(
            InitiatorManagerTransition {
                new_state: Some(payment_state),
                chain_state,
                events: Vec::new(),
            },
        );
    }
    let secrethash = state_change.secrethash;
    let t = dispatch_message(
        chain_state,
        payment_state,
        secrethash,
        StateChange::ContractReceiveSecretReveal(state_change),
    );
    cancel_others_if_gone(t, secrethash)
}

/// The payment that starts with transfer `s`: the routes it was given and
/// the one transfer, not cancelled on any channel.
pub open spec fn spec_started_payment(
    p: InitiatorPaymentState,
    routes: Seq<RouteState>,
    s: InitiatorTransferState,
) -> bool {
    &&& spec_routes_copy(p.routes@, routes)
    &&& p.initiator_transfers.entries() == seq![(s.transfer.lock.secrethash, s)]
    &&& p.cancelled_channels@.len() == 0
}

/// The outcome of starting a payment: where none is under way, the
/// transfer goes over the first usable route, and a payment follows it
/// where it went; where one is, nothing happens.
pub open spec fn spec_init_initiator(
    chain_state: ChainState,
    manager_state: Option<InitiatorPaymentState>,
    state_change: ActionInitInitiator,
    r: TransitionResult,
) -> bool {
    match manager_state {
        Some(_) => {
            &&& r is Ok
            &&& r->Ok_0.new_state == manager_state
            &&& r->Ok_0.chain_state == chain_state
            &&& r->Ok_0.events@.len() == 0
        },
        None => exists|t: Result<(Option<InitiatorTransferState>, ChainState, Vec<Event>), String>|
            #[trigger] spec_try_new_route(chain_state, state_change.routes@, state_change.transfer, t)
                && match t {
                Err(msg) => r is Err && r->Err_0.msg == msg,
                Ok(tt) => {
                    &&& r is Ok
                    &&& r->Ok_0.chain_state == tt.1
                    &&& r->Ok_0.events == tt.2
                    &&& match tt.0 {
                        Some(s) => r->Ok_0.new_state is Some && spec_started_payment(
                            r->Ok_0.new_state.unwrap(),
                            state_change.routes@,
                            s,
                        ),
                        None => r->Ok_0.new_state is None,
                    }
                },
            },
    }
}

/// Starts a payment: where none is under way, tries the routes and follows
/// the transfer that went out.
pub fn handle_init_initiator(
    chain_state: ChainState,
    payment_state: Option<InitiatorPaymentState>,
    state_change: ActionInitInitiator,
) -> (r: TransitionResult)
    requires
        payment_state.is_none() ==> spec_try_new_route_defined(
            &chain_state,
            state_change.routes@,
            &state_change.transfer,
        ),
    ensures
        spec_init_initiator(chain_state, payment_state, state_change, r),
{
    if payment_state.is_some() {
        return Ok(InitiatorManagerTransition { new_state: payment_state, chain_state, events: Vec::new() });
    }
    let ghost sc = state_change;
    let ghost cs0 = chain_state;
    let routes = copy_routes(&state_change.routes);
    let tried = try_new_route(chain_state, state_change.routes, state_change.transfer);
    let ghost t = tried;
    let (new_state, chain_state, events) = match tried {
        Ok(tt) => tt,
        Err(msg) => {
            return Err(StateTransitionError::from_message(msg));
        },
    };
    let payment_state = match new_state {
        Some(s) => {
            let mut initiator_transfers = LinearMap::new();
            initiator_transfers.insert(s.transfer.lock.secrethash, s);
            assert(initiator_transfers.entries() =~= seq![(s.transfer.lock.secrethash, s)]);
            Some(InitiatorPaymentState { routes, initiator_transfers, cancelled_channels: Vec::new() })
        },
        None => None,
    };
    let r = Ok(InitiatorManagerTransition { new_state: payment_state, chain_state, events });
    assert(spec_try_new_route(cs0, sc.routes@, sc.transfer, t));
    r
}

/// What a payment's transition needs: for a payment to start, the routes
/// can be tried; for a block, every transfer can take it; for a reroute or
/// an expired lock of the partner, what their handlers need; for a message
/// about a transfer, the transfer's transition is defined.
pub open spec fn spec_manager_defined(
    chain_state: &ChainState,
    manager_state: Option<InitiatorPaymentState>,
    state_change: StateChange,
) -> bool {
    match state_change {
        StateChange::Block(inner) => manager_state matches Some(p) ==> spec_all_transfers_defined(
            chain_state,
            p,
            state_change,
        ),
        StateChange::ActionTransferReroute(inner) => spec_reroute_defined(chain_state, manager_state, &inner),
        StateChange::ReceiveLockExpired(inner) => spec_lock_expired_handled_defined(
            chain_state,
            manager_state,
            &inner,
        ),
        StateChange::ActionInitInitiator(inner) => manager_state.is_none()
            ==> spec_try_new_route_defined(chain_state, inner.routes@, &inner.transfer),
        StateChange::ReceiveSecretRequest(inner) => spec_message_dispatch_defined(
            chain_state,
            manager_state,
            inner.secrethash,
            state_change,
        ),
        StateChange::ReceiveSecretReveal(inner) => spec_message_dispatch_defined(
            chain_state,
            manager_state,
            inner.secrethash,
            state_change,
        ),
        StateChange::ContractReceiveSecretReveal(inner) => spec_message_dispatch_defined(
            chain_state,
            manager_state,
            inner.secrethash,
            state_change,
        ),
        _ => true,
    }
}

/// The outcome of the handler of `state_change` for a payment: a block, its
/// start, a reroute, the user's cancellation, the payee's cancellation of a
/// route, a secret request, a secret revealed off or on chain, an expired
/// lock of the partner, or nothing for the state changes that a payment
/// ignores.
pub open spec fn spec_manager_dispatch(
    chain_state: ChainState,
    manager_state: Option<InitiatorPaymentState>,
    state_change: StateChange,
    r: TransitionResult,
) -> bool {
    match state_change {
        StateChange::Block(inner) => spec_manager_block(chain_state, manager_state, inner, r),
        StateChange::ReceiveLockExpired(inner) => spec_manager_lock_expired(chain_state, manager_state, inner, r),
        StateChange::ActionTransferReroute(inner) => spec_transfer_reroute(chain_state, manager_state, inner, r),
        StateChange::ActionInitInitiator(inner) => spec_init_initiator(
            chain_state,
            manager_state,
            inner,
            r,
        ),
        StateChange::ActionCancelPayment(_) => spec_action_cancel_payment(chain_state, manager_state, r),
        StateChange::ReceiveTransferCancelRoute(inner) => spec_transfer_cancel_route(
            chain_state,
            manager_state,
            inner,
            r,
        ),
        StateChange::ReceiveSecretRequest(inner) => spec_secret_request(
            chain_state,
            manager_state,
            inner,
            r,
        ),
        StateChange::ReceiveSecretReveal(inner) => spec_secret_reveal(
            chain_state,
            manager_state,
            inner,
            r,
        ),
        StateChange::ContractReceiveSecretReveal(inner) => spec_contract_secret_reveal(
            chain_state,
            manager_state,
            inner,
            r,
        ),
        _ => {
            &&& r.is_ok()
            &&& r.unwrap().new_state == manager_state
            &&& r.unwrap().chain_state == chain_state
            &&& r.unwrap().events@.len() == 0
        },
    }
}

/// The outcome of the payment's `state_transition`: the handler's outcome,
/// with a payment that has no transfer left dropped.
pub open spec fn spec_manager_transition(
    chain_state: ChainState,
    manager_state: Option<InitiatorPaymentState>,
    state_change: StateChange,
    r: TransitionResult,
) -> bool {
    exists|t: TransitionResult|
        #[trigger] spec_manager_dispatch(chain_state, manager_state, state_change, t) && match t {
            Err(e) => r == Err::<InitiatorManagerTransition, StateTransitionError>(e),
            Ok(tt) => r.is_ok() && spec_cleared(tt, r.unwrap()),
        }
}

/// Applies a state change to a payment we initiated.
pub fn state_transition(
    chain_state: ChainState,
    manager_state: Option<InitiatorPaymentState>,
    state_change: StateChange,
) -> (r: TransitionResult)
    requires
        spec_manager_defined(&chain_state, manager_state, state_change),
    ensures
        spec_manager_transition(chain_state, manager_state, state_change, r),
{
    let ghost cs = chain_state;
    let ghost ms = manager_state;
    let ghost sc = state_change;
    let transition_result = match state_change {
        StateChange::Block(inner) => handle_block(chain_state, manager_state, inner),
        StateChange::ReceiveLockExpired(inner) => handle_lock_expired(chain_state, manager_state, inner),
        StateChange::ActionTransferReroute(inner) => handle_action_transfer_reroute(
            chain_state,
            manager_state,
            inner,
        ),
        StateChange::ActionInitInitiator(inner) => handle_init_initiator(
            chain_state,
            manager_state,
            inner,
        ),
        StateChange::ActionCancelPayment(inner) => handle_action_cancel_payment(
            chain_state,
            manager_state,
            inner,
        ),
        StateChange::ReceiveTransferCancelRoute(inner) => handle_transfer_cancel_route(
            chain_state,
            manager_state,
            inner,
        ),
        StateChange::ReceiveSecretRequest(inner) => handle_secret_request(
            chain_state,
            manager_state,
            inner,
        ),
        StateChange::ReceiveSecretReveal(inner) => handle_secret_reveal(
            chain_state,
            manager_state,
            inner,
        ),
        StateChange::ContractReceiveSecretReveal(inner) => handle_contract_secret_reveal(
            chain_state,
            manager_state,
            inner,
        ),
        _ => Ok(InitiatorManagerTransition { new_state: manager_state, chain_state, events: Vec::new() }),
    };
    let ghost t = transition_result;
    assert(spec_manager_dispatch(cs, ms, sc, t));
    match transition_result {
        Err(e) => Err(e),
        Ok(transition) => Ok(clear_if_finalized(transition)),
    }
}

/// A payment's transition leaves the payments of the node as they were.
pub proof fn lemma_manager_keeps_payments(
    chain_state: ChainState,
    manager_state: Option<InitiatorPaymentState>,
    state_change: StateChange,
    r: TransitionResult,
)
    requires
        spec_manager_transition(chain_state, manager_state, state_change, r),
        r.is_ok(),
    ensures
        r.unwrap().chain_state.payment_mapping == chain_state.payment_mapping,
{
    let t = choose|t: TransitionResult|
        #[trigger] spec_manager_dispatch(chain_state, manager_state, state_change, t) && match t {
            Err(e) => r == Err::<InitiatorManagerTransition, StateTransitionError>(e),
            Ok(tt) => r.is_ok() && spec_cleared(tt, r.unwrap()),
        };
    let tt = t.unwrap();
    match state_change {
        StateChange::ActionInitInitiator(inner) => {
            if manager_state.is_none() {
                let x = choose|x: Result<(Option<InitiatorTransferState>, ChainState, Vec<Event>), String>|
                    #[trigger] spec_try_new_route(chain_state, inner.routes@, inner.transfer, x)
                        && match x {
                        Err(msg) => t is Err && t->Err_0.msg == msg,
                        Ok(xx) => {
                            &&& t is Ok
                            &&& t->Ok_0.chain_state == xx.1
                            &&& t->Ok_0.events == xx.2
                            &&& match xx.0 {
                                Some(s) => t->Ok_0.new_state is Some && spec_started_payment(
                                    t->Ok_0.new_state.unwrap(),
                                    inner.routes@,
                                    s,
                                ),
                                None => t->Ok_0.new_state is None,
                            }
                        },
                    };
                lemma_new_route_keeps_payments(chain_state, inner.routes@, inner.transfer, x);
            }
        },
        StateChange::ReceiveSecretRequest(inner) => {
            if manager_state.is_some() && manager_state.unwrap().initiator_transfers@.contains_key(
                inner.secrethash,
            ) && manager_state.unwrap().initiator_transfers@[inner.secrethash].transfer_state
                != TransferState::Canceled {
                lemma_message_keeps_payments(
                    chain_state,
                    manager_state.unwrap(),
                    inner.secrethash,
                    state_change,
                    t,
                );
            }
        },
        StateChange::ReceiveSecretReveal(inner) => {
            if manager_state.is_some() && manager_state.unwrap().initiator_transfers@.contains_key(
                inner.secrethash,
            ) {
                let x = choose|x: TransitionResult|
                    #[trigger] spec_message_dispatch(
                        chain_state,
                        manager_state.unwrap(),
                        inner.secrethash,
                        state_change,
                        x,
                    ) && spec_after_reveal(x, inner.secrethash, t);
                lemma_message_keeps_payments(
                    chain_state,
                    manager_state.unwrap(),
                    inner.secrethash,
                    state_change,
                    x,
                );
            }
        },
        StateChange::ContractReceiveSecretReveal(inner) => {
            if manager_state.is_some() && manager_state.unwrap().initiator_transfers@.contains_key(
                inner.secrethash,
            ) && manager_state.unwrap().initiator_transfers@[inner.secrethash].transfer_state
                != TransferState::Canceled {
                let x = choose|x: TransitionResult|
                    #[trigger] spec_message_dispatch(
                        chain_state,
                        manager_state.unwrap(),
                        inner.secrethash,
                        state_change,
                        x,
                    ) && spec_after_reveal(x, inner.secrethash, t);
                lemma_message_keeps_payments(
                    chain_state,
                    manager_state.unwrap(),
                    inner.secrethash,
                    state_change,
                    x,
                );
            }
        },
        _ => {},
    }
}

proof fn lemma_new_route_keeps_payments(
    chain_state: ChainState,
    routes: Seq<RouteState>,
    description: TransferDescriptionWithSecretState,
    x: Result<(Option<InitiatorTransferState>, ChainState, Vec<Event>), String>,
)
    requires
        spec_try_new_route(chain_state, routes, description, x),
        x.is_ok(),
    ensures
        x.unwrap().1.payment_mapping == chain_state.payment_mapping,
{
    match crate::initiator::spec_first_usable(&chain_state, routes, &description, routes.len() as int) {
        Some(k) => {
            let (initiator, new_chain, events) = x.unwrap();
            let e = events@[0]->SendLockedTransfer_0;
            let channel_state = crate::initiator::spec_route_channel(&chain_state, routes[k], &description).unwrap();
            let expiration = crate::initiator::spec_route_expiration(&chain_state, channel_state, &description);
            let (copy, sent, pruned) = choose|copy: ChannelState, sent: ChannelState, pruned: Vec<RouteState>|
                #[trigger] crate::channel::locks::spec_locked_transfer_sent(
                    copy,
                    description.initiator,
                    description.target,
                    e.transfer.lock.amount,
                    expiration as u64,
                    description.secrethash,
                    e.inner.message_identifier,
                    description.payment_identifier,
                    pruned,
                    crate::views::spec_address_metadata(channel_state.partner_state.address, routes),
                    sent,
                    e,
                ) && spec_channel_copy(copy, channel_state) && crate::initiator::spec_pruned_routes(
                    pruned@,
                    routes,
                    routes[k],
                    chain_state.our_address,
                ) && crate::chain::channels::spec_channel_updated(
                    new_chain,
                    ChainState {
                        pseudo_random_number_generator: new_chain.pseudo_random_number_generator,
                        ..chain_state
                    },
                    sent,
                );
        },
        None => {},
    }
}

proof fn lemma_message_keeps_payments(
    chain_state: ChainState,
    p: InitiatorPaymentState,
    secrethash: SecretHash,
    state_change: StateChange,
    t: TransitionResult,
)
    requires
        spec_message_dispatch(chain_state, p, secrethash, state_change, t),
        t.is_ok(),
    ensures
        t.unwrap().chain_state.payment_mapping == chain_state.payment_mapping,
{
    {
        let s = choose|s: InitiatorTransferState|
            #[trigger] spec_transfer_dispatch(chain_state, p, s, state_change, t)
                && spec_initiator_copy(s, p.initiator_transfers@[secrethash]);
        if spec_transfer_channel(&chain_state, s).is_some() {
            let (i, c, x) = choose|
                i: InitiatorTransferState,
                c: ChannelState,
                x: crate::initiator::TransitionResult,
            |
                #[trigger] spec_initiator_transition(i, state_change, c, chain_state.block_number, x)
                    && spec_initiator_copy(i, s) && spec_channel_copy(
                    c,
                    spec_transfer_channel(&chain_state, s).unwrap(),
                ) && match x {
                    Err(e) => t == Err::<InitiatorManagerTransition, StateTransitionError>(e),
                    Ok(xx) => {
                        let n = t->Ok_0;
                        let q = n.new_state.unwrap();
                        let key = s.transfer.lock.secrethash;
                        &&& t is Ok
                        &&& n.chain_state == ChainState {
                            pseudo_random_number_generator: n.chain_state.pseudo_random_number_generator,
                            ..chain_state
                        }
                        &&& n.events == xx.events
                        &&& n.new_state is Some
                        &&& q == InitiatorPaymentState { initiator_transfers: q.initiator_transfers, ..p }
                        &&& match xx.new_state {
                            Some(ns) => spec_inserted(q.initiator_transfers, p.initiator_transfers, key, ns),
                            None => spec_removed(q.initiator_transfers, p.initiator_transfers, key),
                        }
                    },
                };
        }
    }
}

/// Whether a payment's transition is defined does not depend on the other
/// payments of the node.
pub proof fn lemma_manager_defined_ignores_payments(
    a: ChainState,
    b: ChainState,
    manager_state: Option<InitiatorPaymentState>,
    state_change: StateChange,
)
    requires
        a == (ChainState { payment_mapping: a.payment_mapping, ..b }),
        spec_manager_defined(&b, manager_state, state_change),
    ensures
        spec_manager_defined(&a, manager_state, state_change),
{
    assert(crate::views::spec_registries(&a) == crate::views::spec_registries(&b));
    match state_change {
        StateChange::ActionInitInitiator(inner) => {
            if manager_state.is_none() {
                lemma_try_new_route_defined_ignores_payments(a, b, inner.routes@, inner.transfer);
            }
        },
        StateChange::ActionTransferReroute(inner) => {
            if let Some(p) = manager_state {
                let key = inner.transfer.lock.secrethash;
                if p.initiator_transfers@.contains_key(key) {
                    let s = p.initiator_transfers@[key];
                    if let Some(ch) = spec_transfer_channel(&b, s) {
                        assert(spec_transfer_channel(&a, s) == Some(ch));
                        let metadata = crate::views::spec_address_metadata(ch.partner_state.address, p.routes@);
                        assert forall|c: ChannelState, c2: ChannelState, ev: Result<Event, String>, n: ChainState, rc: Seq<RouteState>|
                            #![trigger spec_refund_taken(c, c2, ev, s, &inner, metadata), crate::chain::channels::spec_channel_updated(n, a, c2), spec_routes_copy(rc, p.routes@)]
                            spec_refund_taken(c, c2, ev, s, &inner, metadata) && spec_channel_copy(c, ch)
                                && crate::chain::channels::spec_channel_updated(n, a, c2)
                                && spec_routes_copy(rc, p.routes@) implies spec_try_new_route_defined(
                                &n,
                                spec_filtered_routes(
                                    rc,
                                    p.cancelled_channels@,
                                    &n,
                                    s.transfer_description.token_network_address,
                                    ch.our_state.address,
                                ),
                                &spec_reroute_description(s.transfer_description, &inner),
                            ) by {
                            let nb = ChainState { payment_mapping: b.payment_mapping, ..n };
                            assert(crate::views::spec_registries(&nb) == crate::views::spec_registries(&n));
                            assert(crate::chain::channels::spec_channel_updated(nb, b, c2));
                            let fr = spec_filtered_routes(
                                rc,
                                p.cancelled_channels@,
                                &n,
                                s.transfer_description.token_network_address,
                                ch.our_state.address,
                            );
                            assert(fr == spec_filtered_routes(
                                rc,
                                p.cancelled_channels@,
                                &nb,
                                s.transfer_description.token_network_address,
                                ch.our_state.address,
                            ));
                            lemma_try_new_route_defined_ignores_payments(
                                n,
                                nb,
                                fr,
                                spec_reroute_description(s.transfer_description, &inner),
                            );
                        }
                    }
                }
            }
        },
        _ => {},
    }
}

/// Whether the routes can be tried does not depend on the node's payments.
proof fn lemma_try_new_route_defined_ignores_payments(
    a: ChainState,
    b: ChainState,
    routes: Seq<RouteState>,
    d: TransferDescriptionWithSecretState,
)
    requires
        a == (ChainState { payment_mapping: a.payment_mapping, ..b }),
        spec_try_new_route_defined(&b, routes, &d),
    ensures
        spec_try_new_route_defined(&a, routes, &d),
{
    assert(crate::views::spec_registries(&a) == crate::views::spec_registries(&b));
    assert forall|n: int| 0 <= n <= routes.len() implies crate::initiator::spec_first_usable(
        &a,
        routes,
        &d,
        n,
    ) == crate::initiator::spec_first_usable(&b, routes, &d, n) by {
        lemma_first_usable_ignores_payments(a, b, routes, d, n);
    }
    assert forall|n: int|
        0 <= n < routes.len() && crate::initiator::spec_first_usable(
            &a,
            routes,
            &d,
            n,
        ).is_none() implies crate::initiator::spec_route_check_defined(
        &a,
        #[trigger] routes[n],
        &d,
    ) by {
        assert(crate::initiator::spec_route_check_defined(&b, routes[n], &d));
    }
}

proof fn lemma_first_usable_ignores_payments(
    a: ChainState,
    b: ChainState,
    routes: Seq<RouteState>,
    d: TransferDescriptionWithSecretState,
    n: int,
)
    requires
        a == (ChainState { payment_mapping: a.payment_mapping, ..b }),
    ensures
        crate::initiator::spec_first_usable(&a, routes, &d, n) == crate::initiator::spec_first_usable(
            &b,
            routes,
            &d,
            n,
        ),
    decreases n,
{
    assert(crate::views::spec_registries(&a) == crate::views::spec_registries(&b));
    if n > 0 {
        lemma_first_usable_ignores_payments(a, b, routes, d, n - 1);
    }
}


/// A block passed to a payment leaves the node as it was but for its random
/// number generator.
pub proof fn lemma_manager_block_keeps_chain(
    chain_state: ChainState,
    manager_state: Option<InitiatorPaymentState>,
    state_change: Block,
    r: TransitionResult,
)
    requires
        spec_manager_transition(chain_state, manager_state, StateChange::Block(state_change), r),
        r.is_ok(),
    ensures
        r.unwrap().chain_state == (ChainState {
            pseudo_random_number_generator: r.unwrap().chain_state.pseudo_random_number_generator,
            ..chain_state
        }),
{
    let sc = StateChange::Block(state_change);
    let t = choose|t: TransitionResult|
        #[trigger] spec_manager_dispatch(chain_state, manager_state, sc, t) && match t {
            Err(e) => r == Err::<InitiatorManagerTransition, StateTransitionError>(e),
            Ok(tt) => r.is_ok() && spec_cleared(tt, r.unwrap()),
        };
    assert(spec_manager_block(chain_state, manager_state, state_change, t));
    if let Some(p) = manager_state {
        let ss = choose|ss: Seq<InitiatorTransferState>|
            #[trigger] spec_transfer_copies(ss, p.initiator_transfers.entries()) && match t {
                Ok(rr) => {
                    &&& rr.new_state is Some
                    &&& rr.chain_state == ChainState {
                        pseudo_random_number_generator: rr.chain_state.pseudo_random_number_generator,
                        ..chain_state
                    }
                    &&& spec_transfers_stepped(
                        chain_state,
                        p,
                        ss,
                        sc,
                        ss.len() as int,
                        rr.chain_state,
                        rr.new_state.unwrap(),
                        rr.events@,
                    )
                },
                Err(e) => exists|i: int, c: ChainState, q: InitiatorPaymentState, ev: Seq<Event>|
                    0 <= i < ss.len() && #[trigger] spec_transfers_stepped(
                        chain_state,
                        p,
                        ss,
                        sc,
                        i,
                        c,
                        q,
                        ev,
                    ) && spec_transfer_dispatch(
                        c,
                        q,
                        ss[i],
                        sc,
                        Err::<InitiatorManagerTransition, StateTransitionError>(e),
                    ),
            };
    }
}

/// Whether a payment can take a block does not depend on the node's random
/// number generator or on its other payments.
pub proof fn lemma_block_defined_ignores(
    a: ChainState,
    b: ChainState,
    manager_state: Option<InitiatorPaymentState>,
    state_change: Block,
)
    requires
        a == (ChainState {
            pseudo_random_number_generator: a.pseudo_random_number_generator,
            payment_mapping: a.payment_mapping,
            ..b
        }),
        spec_manager_defined(&b, manager_state, StateChange::Block(state_change)),
    ensures
        spec_manager_defined(&a, manager_state, StateChange::Block(state_change)),
{
    assert(crate::views::spec_registries(&a) == crate::views::spec_registries(&b));
    if let Some(p) = manager_state {
        let sc = StateChange::Block(state_change);
        assert forall|i: int| 0 <= i < p.initiator_transfers.entries().len() implies spec_transfer_dispatch_defined(
            &a,
            #[trigger] p.initiator_transfers.entries()[i].1,
            sc,
        ) by {
            let s = p.initiator_transfers.entries()[i].1;
            assert(spec_transfer_dispatch_defined(&b, s, sc));
            assert(spec_transfer_channel(&a, s) == spec_transfer_channel(&b, s));
        }
    }
}

} // verus!
