//! The state transition of a node: each state change goes to its handler,
//! and the queue of on-chain transactions follows.
use vstd::prelude::*;

use crate::chain::blocks::{spec_all_channels_defined, spec_all_channels_stepped, subdispatch_to_all_channels};
use crate::chain::machine::{
    handle_action_cancel_payment, handle_action_init_chain, handle_contract_receive_channel_closed,
    handle_contract_receive_token_network_created, handle_contract_receive_token_network_registry,
    handle_receive_delivered, handle_receive_processed, handle_receive_withdraw_confirmation,
    handle_receive_withdraw_expired, handle_receive_withdraw_request,
    handle_token_network_state_change, handle_update_services_addresses, spec_chain_initialized,
    spec_network_added, spec_network_state_change, spec_network_state_change_defined,
    spec_registry_added, spec_services_updated, spec_subdispatch, spec_subdispatch_defined,
    spec_unchanged, subdispatch_by_canonical_id, TransitionResult,
};
use crate::chain::payments::{
    handle_action_transfer_reroute, spec_chain_reroute, spec_chain_reroute_defined,
    spec_all_payment_tasks, spec_all_payment_tasks_defined, subdispatch_to_all_lockedtransfers,
    handle_action_init_initiator, spec_init_initiator_defined, spec_initiator_task_started,
    handle_contract_receive_secret_reveal, handle_receive_lock_expired,
    handle_receive_secret_request, handle_receive_secret_reveal, handle_receive_transfer_cancel_route,
    handle_receive_transfer_refund, handle_receive_unlock, spec_payment_task_defined,
    spec_payment_task_outcome,
};
use crate::chain::queues::{spec_updated_queue, update_queues_after, ChainTransition, QueueChange};
use crate::types::state::{ChainState, SecretHash};
use crate::types::state_change::{Block, StateChange};

verus! {

/// The node state in which the block `state_change` arrived.
pub open spec fn spec_at_block(chain_state: ChainState, state_change: Block) -> ChainState {
    ChainState {
        block_number: state_change.block_number,
        block_hash: state_change.block_hash,
        ..chain_state
    }
}

/// What `handle_new_block` needs: every channel can take the block, and
/// after they did, every payment task can.
pub open spec fn spec_new_block_defined(chain_state: &ChainState, state_change: Block) -> bool {
    let at = spec_at_block(*chain_state, state_change);
    &&& spec_all_channels_defined(
        &at,
        StateChange::Block(state_change),
        state_change.block_number,
        state_change.block_hash,
    )
    &&& forall|c1: ChainTransition|
        #[trigger] spec_all_channels_stepped(
            at,
            StateChange::Block(state_change),
            state_change.block_number,
            state_change.block_hash,
            Ok(c1),
        ) ==> spec_all_payment_tasks_defined(&c1.new_state, state_change)
}

/// The outcome of a block: the node moves to it, every channel takes it in
/// turn, then every payment task; the events are the channels' and then the
/// tasks'.
pub open spec fn spec_new_block(chain_state: ChainState, state_change: Block, r: TransitionResult) -> bool {
    exists|ct: TransitionResult|
        #[trigger] spec_all_channels_stepped(
            spec_at_block(chain_state, state_change),
            StateChange::Block(state_change),
            state_change.block_number,
            state_change.block_hash,
            ct,
        ) && match ct {
            Err(e) => r == Err::<ChainTransition, crate::errors::StateTransitionError>(e),
            Ok(c1) => exists|t2: TransitionResult|
                #[trigger] spec_all_payment_tasks(c1.new_state, state_change, t2) && match t2 {
                    Err(e) => r == Err::<ChainTransition, crate::errors::StateTransitionError>(e),
                    Ok(c2) => {
                        &&& r is Ok
                        &&& r->Ok_0.new_state == c2.new_state
                        &&& r->Ok_0.events@ == c1.events@ + c2.events@
                    },
                },
        }
}

/// Handle `Block` state change: the node moves to the block, every channel
/// takes it, then every payment task.
pub fn handle_new_block(chain_state: ChainState, state_change: Block) -> (r: TransitionResult)
    requires
        spec_new_block_defined(&chain_state, state_change),
    ensures
        spec_new_block(chain_state, state_change, r),
{
    let ghost at = spec_at_block(chain_state, state_change);
    let mut chain_state = chain_state;
    chain_state.block_number = state_change.block_number;
    chain_state.block_hash = state_change.block_hash;
    let block_number = chain_state.block_number;
    let block_hash = chain_state.block_hash;
    let channels_result = subdispatch_to_all_channels(
        chain_state,
        StateChange::Block(state_change),
        block_number,
        block_hash,
    );
    let ghost ct = channels_result;
    let channels_result = match channels_result {
        Ok(c) => c,
        Err(e) => {
            return Err(e);
        },
    };
    let mut events = channels_result.events;
    let ghost ev1 = events@;
    let transfers_result = subdispatch_to_all_lockedtransfers(channels_result.new_state, state_change);
    let ghost t2 = transfers_result;
    let transfers_result = match transfers_result {
        Ok(t) => t,
        Err(e) => {
            return Err(e);
        },
    };
    let mut more = transfers_result.events;
    events.append(&mut more);
    let r = Ok(ChainTransition { new_state: transfers_result.new_state, events });
    assert(spec_all_payment_tasks(ct->Ok_0.new_state, state_change, t2));
    r
}

/// The payment task that the state change is about, by secret hash, for
/// the state changes that go to one.
pub open spec fn spec_payment_secrethash(state_change: &StateChange) -> Option<SecretHash> {
    match *state_change {
        StateChange::ContractReceiveSecretReveal(inner) => Some(inner.secrethash),
        StateChange::ReceiveTransferCancelRoute(inner) => Some(inner.transfer.lock.secrethash),
        StateChange::ReceiveSecretReveal(inner) => Some(inner.secrethash),
        StateChange::ReceiveSecretRequest(inner) => Some(inner.secrethash),
        StateChange::ReceiveLockExpired(inner) => Some(inner.secrethash),
        StateChange::ReceiveTransferRefund(inner) => Some(inner.transfer.lock.secrethash),
        StateChange::ReceiveUnlock(inner) => Some(inner.secrethash),
        _ => None,
    }
}

/// The state change would reach a payment task that this library does not
/// hold the handling of: one that starts a mediated or a received payment,
/// or a message about a payment that is not one we initiated or that such a
/// payment cannot take.
pub open spec fn spec_reaches_payment_task(chain_state: &ChainState, state_change: &StateChange) -> bool {
    match *state_change {
        StateChange::ActionInitInitiator(_) => false,
        StateChange::ActionInitMediator(_) => true,
        StateChange::ActionInitTarget(_) => true,
        StateChange::ActionTransferReroute(_) => false,
        StateChange::Block(_) => false,
        _ => match spec_payment_secrethash(state_change) {
            Some(secrethash) => !spec_payment_task_defined(chain_state, state_change, secrethash),
            None => false,
        },
    }
}

/// What the handler of `state_change` needs.
pub open spec fn spec_dispatch_defined(chain_state: &ChainState, state_change: StateChange) -> bool {
    let c = *chain_state;
    match state_change {
        StateChange::ActionChannelWithdraw(inner) => spec_subdispatch_defined(
            chain_state,
            state_change,
            inner.canonical_identifier,
        ),
        StateChange::ActionChannelSetRevealTimeout(inner) => spec_subdispatch_defined(
            chain_state,
            state_change,
            inner.canonical_identifier,
        ),
        StateChange::ActionChannelCoopSettle(inner) => spec_subdispatch_defined(
            chain_state,
            state_change,
            inner.canonical_identifier,
        ),
        StateChange::ReceiveWithdrawRequest(inner) => spec_subdispatch_defined(
            chain_state,
            state_change,
            inner.canonical_identifier,
        ),
        StateChange::ReceiveWithdrawConfirmation(inner) => spec_subdispatch_defined(
            chain_state,
            state_change,
            inner.canonical_identifier,
        ),
        StateChange::ReceiveWithdrawExpired(inner) => spec_subdispatch_defined(
            chain_state,
            state_change,
            inner.canonical_identifier,
        ),
        StateChange::ActionChannelClose(inner) => spec_network_state_change_defined(
            chain_state,
            inner.canonical_identifier.token_network_address,
            state_change,
            c.block_number,
            c.block_hash,
        ),
        StateChange::ContractReceiveChannelOpened(inner) => spec_network_state_change_defined(
            chain_state,
            inner.channel_state.canonical_identifier.token_network_address,
            state_change,
            c.block_number,
            c.block_hash,
        ),
        StateChange::ContractReceiveChannelClosed(inner) => spec_network_state_change_defined(
            chain_state,
            inner.canonical_identifier.token_network_address,
            state_change,
            c.block_number,
            c.block_hash,
        ),
        StateChange::ContractReceiveChannelSettled(inner) => spec_network_state_change_defined(
            chain_state,
            inner.canonical_identifier.token_network_address,
            state_change,
            c.block_number,
            c.block_hash,
        ),
        StateChange::ContractReceiveChannelDeposit(inner) => spec_network_state_change_defined(
            chain_state,
            inner.canonical_identifier.token_network_address,
            state_change,
            c.block_number,
            c.block_hash,
        ),
        StateChange::ContractReceiveChannelWithdraw(inner) => spec_network_state_change_defined(
            chain_state,
            inner.canonical_identifier.token_network_address,
            state_change,
            c.block_number,
            c.block_hash,
        ),
        StateChange::ContractReceiveChannelBatchUnlock(inner) => spec_network_state_change_defined(
            chain_state,
            inner.canonical_identifier.token_network_address,
            state_change,
            c.block_number,
            c.block_hash,
        ),
        StateChange::ContractReceiveUpdateTransfer(inner) => spec_network_state_change_defined(
            chain_state,
            inner.canonical_identifier.token_network_address,
            state_change,
            c.block_number,
            c.block_hash,
        ),
        StateChange::Block(inner) => spec_new_block_defined(chain_state, inner),
        StateChange::ActionInitInitiator(inner) => spec_init_initiator_defined(chain_state, &inner),
        StateChange::ActionTransferReroute(inner) => spec_chain_reroute_defined(chain_state, inner),
        _ => true,
    }
}

/// The outcome of the handler of `state_change`: messages about a payment
/// go to its task; the state changes that reach no task and no channel
/// leave the node as it is; those that start a mediated or a received
/// payment have no outcome here.
pub open spec fn spec_dispatch(chain_state: ChainState, state_change: StateChange, r: TransitionResult) -> bool {
    let c = chain_state;
    match state_change {
        StateChange::ActionInitChain(inner) => spec_chain_initialized(inner, r),
        StateChange::ActionChannelWithdraw(inner) => spec_subdispatch(
            c,
            state_change,
            inner.canonical_identifier,
            r,
        ),
        StateChange::ActionChannelSetRevealTimeout(inner) => spec_subdispatch(
            c,
            state_change,
            inner.canonical_identifier,
            r,
        ),
        StateChange::ActionChannelCoopSettle(inner) => spec_subdispatch(
            c,
            state_change,
            inner.canonical_identifier,
            r,
        ),
        StateChange::ReceiveWithdrawRequest(inner) => spec_subdispatch(
            c,
            state_change,
            inner.canonical_identifier,
            r,
        ),
        StateChange::ReceiveWithdrawConfirmation(inner) => spec_subdispatch(
            c,
            state_change,
            inner.canonical_identifier,
            r,
        ),
        StateChange::ReceiveWithdrawExpired(inner) => spec_subdispatch(
            c,
            state_change,
            inner.canonical_identifier,
            r,
        ),
        StateChange::ActionChannelClose(inner) => spec_network_state_change(
            c,
            inner.canonical_identifier.token_network_address,
            state_change,
            c.block_number,
            c.block_hash,
            r,
        ),
        StateChange::ContractReceiveChannelOpened(inner) => spec_network_state_change(
            c,
            inner.channel_state.canonical_identifier.token_network_address,
            state_change,
            c.block_number,
            c.block_hash,
            r,
        ),
        StateChange::ContractReceiveChannelClosed(inner) => spec_network_state_change(
            c,
            inner.canonical_identifier.token_network_address,
            state_change,
            c.block_number,
            c.block_hash,
            r,
        ),
        StateChange::ContractReceiveChannelSettled(inner) => spec_network_state_change(
            c,
            inner.canonical_identifier.token_network_address,
            state_change,
            c.block_number,
            c.block_hash,
            r,
        ),
        StateChange::ContractReceiveChannelDeposit(inner) => spec_network_state_change(
            c,
            inner.canonical_identifier.token_network_address,
            state_change,
            c.block_number,
            c.block_hash,
            r,
        ),
        StateChange::ContractReceiveChannelWithdraw(inner) => spec_network_state_change(
            c,
            inner.canonical_identifier.token_network_address,
            state_change,
            c.block_number,
            c.block_hash,
            r,
        ),
        StateChange::ContractReceiveChannelBatchUnlock(inner) => spec_network_state_change(
            c,
            inner.canonical_identifier.token_network_address,
            state_change,
            c.block_number,
            c.block_hash,
            r,
        ),
        StateChange::ContractReceiveUpdateTransfer(inner) => spec_network_state_change(
            c,
            inner.canonical_identifier.token_network_address,
            state_change,
            c.block_number,
            c.block_hash,
            r,
        ),
        StateChange::Block(inner) => spec_new_block(c, inner, r),
        StateChange::ContractReceiveTokenNetworkRegistry(inner) => spec_registry_added(c, inner, r),
        StateChange::ContractReceiveTokenNetworkCreated(inner) => spec_network_added(c, inner, r),
        StateChange::UpdateServicesAddresses(inner) => spec_services_updated(c, inner, r),
        StateChange::ActionInitInitiator(inner) => spec_initiator_task_started(c, inner, r),
        StateChange::ActionInitMediator(_) => false,
        StateChange::ActionInitTarget(_) => false,
        StateChange::ActionTransferReroute(inner) => spec_chain_reroute(c, inner, r),
        _ => match spec_payment_secrethash(&state_change) {
            Some(secrethash) => spec_payment_task_outcome(c, state_change, secrethash, r),
            None => spec_unchanged(c, r),
        },
    }
}

/// What `state_transition` needs: the state change reaches no payment
/// task, and its handler is defined.
pub open spec fn spec_chain_transition_defined(chain_state: &ChainState, state_change: StateChange) -> bool {
    &&& !spec_reaches_payment_task(chain_state, &state_change)
    &&& spec_dispatch_defined(chain_state, state_change)
}

/// The outcome of `state_transition`: the handler's outcome, with the queue
/// of pending transactions updated.
pub open spec fn spec_chain_transition(chain_state: ChainState, state_change: StateChange, r: TransitionResult) -> bool {
    exists|t: TransitionResult|
        #[trigger] spec_dispatch(chain_state, state_change, t) && match t {
            Err(e) => r == Err::<ChainTransition, crate::errors::StateTransitionError>(e),
            Ok(ct) => {
                &&& r.is_ok()
                &&& r.unwrap().events == ct.events
                &&& r.unwrap().new_state == ChainState {
                    pending_transactions: r.unwrap().new_state.pending_transactions,
                    ..ct.new_state
                }
                &&& r.unwrap().new_state.pending_transactions@ == spec_updated_queue(
                    &ct.new_state,
                    ct.events@,
                    &state_change,
                )
            },
        }
}

fn dispatch(chain_state: ChainState, state_change: StateChange) -> (r: TransitionResult)
    requires
        spec_chain_transition_defined(&chain_state, state_change),
    ensures
        spec_dispatch(chain_state, state_change, r),
{
    let block_number = chain_state.block_number;
    let block_hash = chain_state.block_hash;
    match state_change {
        StateChange::ActionInitChain(inner) => handle_action_init_chain(inner),
        StateChange::ActionInitInitiator(inner) => handle_action_init_initiator(chain_state, inner),
        StateChange::ActionChannelWithdraw(inner) => {
            let canonical_identifier = inner.canonical_identifier;
            subdispatch_by_canonical_id(
                chain_state,
                StateChange::ActionChannelWithdraw(inner),
                canonical_identifier,
            )
        },
        StateChange::ActionChannelSetRevealTimeout(inner) => {
            let canonical_identifier = inner.canonical_identifier;
            subdispatch_by_canonical_id(
                chain_state,
                StateChange::ActionChannelSetRevealTimeout(inner),
                canonical_identifier,
            )
        },
        StateChange::ActionCancelPayment(inner) => handle_action_cancel_payment(chain_state, inner),
        StateChange::ActionTransferReroute(inner) => handle_action_transfer_reroute(chain_state, inner),
        StateChange::ActionChannelClose(inner) => {
            let token_network_address = inner.canonical_identifier.token_network_address;
            handle_token_network_state_change(
                chain_state,
                token_network_address,
                StateChange::ActionChannelClose(inner),
                block_number,
                block_hash,
            )
        },
        StateChange::ActionChannelCoopSettle(inner) => {
            let canonical_identifier = inner.canonical_identifier;
            subdispatch_by_canonical_id(
                chain_state,
                StateChange::ActionChannelCoopSettle(inner),
                canonical_identifier,
            )
        },
        StateChange::Block(inner) => handle_new_block(chain_state, inner),
        StateChange::ContractReceiveTokenNetworkRegistry(inner) => {
            handle_contract_receive_token_network_registry(chain_state, inner)
        },
        StateChange::ContractReceiveTokenNetworkCreated(inner) => {
            handle_contract_receive_token_network_created(chain_state, inner)
        },
        StateChange::ContractReceiveChannelOpened(inner) => {
            let token_network_address =
                inner.channel_state.canonical_identifier.token_network_address;
            handle_token_network_state_change(
                chain_state,
                token_network_address,
                StateChange::ContractReceiveChannelOpened(inner),
                block_number,
                block_hash,
            )
        },
        StateChange::ContractReceiveChannelClosed(inner) => {
            handle_contract_receive_channel_closed(chain_state, inner, block_number, block_hash)
        },
        StateChange::ContractReceiveChannelSettled(inner) => {
            let token_network_address = inner.canonical_identifier.token_network_address;
            handle_token_network_state_change(
                chain_state,
                token_network_address,
                StateChange::ContractReceiveChannelSettled(inner),
                block_number,
                block_hash,
            )
        },
        StateChange::ContractReceiveChannelDeposit(inner) => {
            let token_network_address = inner.canonical_identifier.token_network_address;
            handle_token_network_state_change(
                chain_state,
                token_network_address,
                StateChange::ContractReceiveChannelDeposit(inner),
                block_number,
                block_hash,
            )
        },
        StateChange::ContractReceiveChannelWithdraw(inner) => {
            let token_network_address = inner.canonical_identifier.token_network_address;
            handle_token_network_state_change(
                chain_state,
                token_network_address,
                StateChange::ContractReceiveChannelWithdraw(inner),
                block_number,
                block_hash,
            )
        },
        StateChange::ContractReceiveChannelBatchUnlock(inner) => {
            let token_network_address = inner.canonical_identifier.token_network_address;
            handle_token_network_state_change(
                chain_state,
                token_network_address,
                StateChange::ContractReceiveChannelBatchUnlock(inner),
                block_number,
                block_hash,
            )
        },
        StateChange::ContractReceiveUpdateTransfer(inner) => {
            let token_network_address = inner.canonical_identifier.token_network_address;
            handle_token_network_state_change(
                chain_state,
                token_network_address,
                StateChange::ContractReceiveUpdateTransfer(inner),
                block_number,
                block_hash,
            )
        },
        StateChange::ReceiveWithdrawRequest(inner) => handle_receive_withdraw_request(
            chain_state,
            inner,
        ),
        StateChange::ReceiveWithdrawConfirmation(inner) => handle_receive_withdraw_confirmation(
            chain_state,
            inner,
        ),
        StateChange::ReceiveWithdrawExpired(inner) => handle_receive_withdraw_expired(
            chain_state,
            inner,
        ),
        StateChange::ReceiveDelivered(inner) => handle_receive_delivered(chain_state, inner),
        StateChange::ReceiveProcessed(inner) => handle_receive_processed(chain_state, inner),
        StateChange::UpdateServicesAddresses(inner) => handle_update_services_addresses(
            chain_state,
            inner,
        ),
        StateChange::ContractReceiveSecretReveal(inner) => handle_contract_receive_secret_reveal(
            chain_state,
            inner,
        ),
        StateChange::ReceiveTransferCancelRoute(inner) => handle_receive_transfer_cancel_route(
            chain_state,
            inner,
        ),
        StateChange::ReceiveSecretReveal(inner) => handle_receive_secret_reveal(chain_state, inner),
        StateChange::ReceiveSecretRequest(inner) => handle_receive_secret_request(chain_state, inner),
        StateChange::ReceiveLockExpired(inner) => handle_receive_lock_expired(chain_state, inner),
        StateChange::ReceiveTransferRefund(inner) => handle_receive_transfer_refund(
            chain_state,
            inner,
        ),
        StateChange::ReceiveUnlock(inner) => handle_receive_unlock(chain_state, inner),
        _ => Ok(ChainTransition { new_state: chain_state, events: Vec::new() }),
    }
}

/// Update chain state based on the provided `state_change`: the handler
/// of the state change runs, then the queue of pending transactions is
/// updated.
pub fn state_transition(chain_state: ChainState, state_change: StateChange) -> (r: TransitionResult)
    requires
        spec_chain_transition_defined(&chain_state, state_change),
    ensures
        spec_chain_transition(chain_state, state_change, r),
{
    let ghost sc = state_change;
    let ghost cs = chain_state;
    let change = QueueChange::of(&state_change);
    let result = dispatch(chain_state, state_change);
    let ghost t = result;
    let r = match result {
        Err(e) => Err(e),
        Ok(mut iteration) => {
            update_queues_after(&mut iteration, change);
            Ok(iteration)
        },
    };
    assert(spec_dispatch(cs, sc, t));
    r
}

} // verus!
