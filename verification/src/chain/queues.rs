//! The queue of on-chain transactions that a node waits for, and when a
//! state change takes one out of it.
use vstd::prelude::*;

use crate::types::event::{spec_contract_send_event, ContractSendEvent, Event};
use crate::types::state::{BlockNumber, ChainState};
use crate::types::state_change::{
    ContractReceiveChannelBatchUnlock, ContractReceiveChannelClosed, ContractReceiveChannelSettled,
    ContractReceiveSecretReveal, ContractReceiveUpdateTransfer, StateChange,
};
use crate::views::{get_channel_by_token_network_and_partner, spec_channel_by_token_network_and_partner};

verus! {

/// A node's state after a state change, and the events to act on.
pub struct ChainTransition {
    pub new_state: ChainState,
    pub events: Vec<Event>,
}

/// The side effect of `transaction` is reached by `state_change`, whoever
/// sent the transaction that reached it.
pub open spec fn spec_effect_satisfied(
    chain_state: &ChainState,
    transaction: &ContractSendEvent,
    state_change: &StateChange,
) -> bool {
    match (*state_change, *transaction) {
        (
            StateChange::ContractReceiveUpdateTransfer(sc),
            ContractSendEvent::ContractSendChannelUpdateTransfer(t),
        ) => sc.canonical_identifier == t.balance_proof.canonical_identifier && sc.nonce
            == t.balance_proof.nonce,
        (
            StateChange::ContractReceiveChannelClosed(sc),
            ContractSendEvent::ContractSendChannelClose(t),
        ) => sc.canonical_identifier == t.canonical_identifier,
        (
            StateChange::ContractReceiveChannelSettled(sc),
            ContractSendEvent::ContractSendChannelSettle(t),
        ) => sc.canonical_identifier == t.canonical_identifier,
        (
            StateChange::ContractReceiveSecretReveal(sc),
            ContractSendEvent::ContractSendSecretReveal(t),
        ) => sc.secret == t.secret,
        (
            StateChange::ContractReceiveChannelBatchUnlock(sc),
            ContractSendEvent::ContractSendChannelBatchUnlock(_),
        ) => {
            let partner = if sc.receiver == chain_state.our_address {
                Some(sc.sender)
            } else if sc.sender == chain_state.our_address {
                Some(sc.receiver)
            } else {
                None
            };
            match partner {
                Some(p) => spec_channel_by_token_network_and_partner(
                    chain_state,
                    sc.canonical_identifier.token_network_address,
                    p,
                ).is_none(),
                None => false,
            }
        },
        _ => false,
    }
}

/// True if the side-effect of `transaction` is satisfied by
/// `state_change`: an update transfer of the same balance proof, a close
/// or settle of the same channel, a registration of the same secret, or a
/// batch unlock after which our channel with the partner is gone.
pub fn is_transaction_effect_satisfied(
    chain_state: &ChainState,
    transaction: &ContractSendEvent,
    state_change: &StateChange,
) -> (r: bool)
    ensures
        r == spec_effect_satisfied(chain_state, transaction, state_change),
{
    if let StateChange::ContractReceiveUpdateTransfer(update_transfer_state_change) = state_change {
        if let ContractSendEvent::ContractSendChannelUpdateTransfer(update_transfer_event) =
            transaction {
            if update_transfer_state_change.canonical_identifier.equals(
                &update_transfer_event.balance_proof.canonical_identifier,
            ) && update_transfer_state_change.nonce.equals(&update_transfer_event.balance_proof.nonce) {
                return true;
            }
        }
    }
    if let StateChange::ContractReceiveChannelClosed(channel_closed_state_change) = state_change {
        if let ContractSendEvent::ContractSendChannelClose(channel_close_event) = transaction {
            if channel_closed_state_change.canonical_identifier.equals(
                &channel_close_event.canonical_identifier,
            ) {
                return true;
            }
        }
    }
    if let StateChange::ContractReceiveChannelSettled(channel_settled_state_change) = state_change {
        if let ContractSendEvent::ContractSendChannelSettle(channel_settle_event) = transaction {
            if channel_settled_state_change.canonical_identifier.equals(
                &channel_settle_event.canonical_identifier,
            ) {
                return true;
            }
        }
    }
    if let StateChange::ContractReceiveSecretReveal(secret_reveal_state_change) = state_change {
        if let ContractSendEvent::ContractSendSecretReveal(secret_reveal_event) = transaction {
            if secret_reveal_state_change.secret.equals(&secret_reveal_event.secret) {
                return true;
            }
        }
    }
    if let StateChange::ContractReceiveChannelBatchUnlock(batch_unlock_state_change) = state_change {
        if let ContractSendEvent::ContractSendChannelBatchUnlock(_) = transaction {
            let our_address = chain_state.our_address;
            let mut partner_address = None;
            if batch_unlock_state_change.receiver.equals(&our_address) {
                partner_address = Some(batch_unlock_state_change.sender);
            } else if batch_unlock_state_change.sender.equals(&our_address) {
                partner_address = Some(batch_unlock_state_change.receiver);
            }
            if let Some(partner_address) = partner_address {
                let channel_state = get_channel_by_token_network_and_partner(
                    chain_state,
                    batch_unlock_state_change.canonical_identifier.token_network_address,
                    partner_address,
                );
                if channel_state.is_none() {
                    return true;
                }
            }
        }
    }
    false
}

/// `transaction` can no longer succeed after `state_change`.
pub open spec fn spec_invalidated(transaction: &ContractSendEvent, state_change: &StateChange) -> bool {
    match (*state_change, *transaction) {
        (
            StateChange::ContractReceiveChannelSettled(sc),
            ContractSendEvent::ContractSendChannelUpdateTransfer(t),
        ) => sc.canonical_identifier == t.balance_proof.canonical_identifier,
        (
            StateChange::ContractReceiveChannelClosed(sc),
            ContractSendEvent::ContractSendChannelWithdraw(t),
        ) => sc.canonical_identifier == t.canonical_identifier,
        _ => false,
    }
}

/// True if the `transaction` is made invalid by `state_change`: a settle
/// invalidates an update transfer of the channel, a close a withdraw.
pub fn is_transaction_invalidated(transaction: &ContractSendEvent, state_change: &StateChange) -> (r:
    bool)
    ensures
        r == spec_invalidated(transaction, state_change),
{
    if let StateChange::ContractReceiveChannelSettled(channel_settled) = state_change {
        if let ContractSendEvent::ContractSendChannelUpdateTransfer(update_transfer) = transaction {
            if channel_settled.canonical_identifier.equals(
                &update_transfer.balance_proof.canonical_identifier,
            ) {
                return true;
            }
        }
    }
    if let StateChange::ContractReceiveChannelClosed(channel_closed) = state_change {
        if let ContractSendEvent::ContractSendChannelWithdraw(channel_withdraw) = transaction {
            if channel_closed.canonical_identifier.equals(&channel_withdraw.canonical_identifier) {
                return true;
            }
        }
    }
    false
}

/// `transaction` has an expiration that `block_number` has passed.
pub open spec fn spec_expired(transaction: &ContractSendEvent, block_number: BlockNumber) -> bool {
    match *transaction {
        ContractSendEvent::ContractSendChannelUpdateTransfer(t) => t.expiration < block_number,
        ContractSendEvent::ContractSendSecretReveal(t) => t.expiration < block_number,
        _ => false,
    }
}

/// True if transaction cannot be mined because it has expired.
pub fn is_transaction_expired(transaction: &ContractSendEvent, block_number: BlockNumber) -> (r:
    bool)
    ensures
        r == spec_expired(transaction, block_number),
{
    if let ContractSendEvent::ContractSendChannelUpdateTransfer(update_transfer) = transaction {
        if update_transfer.expiration < block_number {
            return true;
        }
    }
    if let ContractSendEvent::ContractSendSecretReveal(secret_reveal) = transaction {
        if secret_reveal.expiration < block_number {
            return true;
        }
    }
    false
}

/// `transaction` is still worth waiting for after `state_change`.
pub open spec fn spec_pending(
    chain_state: &ChainState,
    transaction: &ContractSendEvent,
    state_change: &StateChange,
) -> bool {
    !(spec_effect_satisfied(chain_state, transaction, state_change) || spec_invalidated(
        transaction,
        state_change,
    ) || spec_expired(transaction, chain_state.block_number))
}

/// True if a pending transaction exists, and not expired.
pub fn is_transaction_pending(
    chain_state: &ChainState,
    transaction: &ContractSendEvent,
    state_change: &StateChange,
) -> (r: bool)
    ensures
        r == spec_pending(chain_state, transaction, state_change),
{
    !(is_transaction_effect_satisfied(chain_state, transaction, state_change)
        || is_transaction_invalidated(transaction, state_change) || is_transaction_expired(
        transaction,
        chain_state.block_number,
    ))
}

/// The state changes that report an on-chain event, after which the queue
/// is cleared of the transactions they settle.
pub open spec fn spec_clears_queue(state_change: &StateChange) -> bool {
    match *state_change {
        StateChange::ContractReceiveChannelOpened(_) => true,
        StateChange::ContractReceiveChannelClosed(_) => true,
        StateChange::ContractReceiveChannelSettled(_) => true,
        StateChange::ContractReceiveChannelDeposit(_) => true,
        StateChange::ContractReceiveChannelWithdraw(_) => true,
        StateChange::ContractReceiveChannelBatchUnlock(_) => true,
        StateChange::ContractReceiveSecretReveal(_) => true,
        StateChange::ContractReceiveRouteNew(_) => true,
        StateChange::ContractReceiveUpdateTransfer(_) => true,
        _ => false,
    }
}

/// What the update of the queue reads of a state change: whether it clears
/// the queue, and the content of those that settle transactions.
#[derive(Clone, Copy, Debug)]
pub enum QueueChange {
    Keeps,
    Clears,
    UpdateTransfer(ContractReceiveUpdateTransfer),
    ChannelClosed(ContractReceiveChannelClosed),
    ChannelSettled(ContractReceiveChannelSettled),
    SecretReveal(ContractReceiveSecretReveal),
    BatchUnlock(ContractReceiveChannelBatchUnlock),
}

/// What the update of the queue reads of `state_change`.
pub open spec fn spec_queue_change(state_change: &StateChange) -> QueueChange {
    match *state_change {
        StateChange::ContractReceiveUpdateTransfer(inner) => QueueChange::UpdateTransfer(inner),
        StateChange::ContractReceiveChannelClosed(inner) => QueueChange::ChannelClosed(inner),
        StateChange::ContractReceiveChannelSettled(inner) => QueueChange::ChannelSettled(inner),
        StateChange::ContractReceiveSecretReveal(inner) => QueueChange::SecretReveal(inner),
        StateChange::ContractReceiveChannelBatchUnlock(inner) => QueueChange::BatchUnlock(inner),
        _ => if spec_clears_queue(state_change) {
            QueueChange::Clears
        } else {
            QueueChange::Keeps
        },
    }
}

impl QueueChange {
    /// Reads what the update of the queue needs of `state_change`.
    pub fn of(state_change: &StateChange) -> (r: QueueChange)
        ensures
            r == spec_queue_change(state_change),
    {
        match state_change {
            StateChange::ContractReceiveUpdateTransfer(inner) => QueueChange::UpdateTransfer(*inner),
            StateChange::ContractReceiveChannelClosed(inner) => QueueChange::ChannelClosed(*inner),
            StateChange::ContractReceiveChannelSettled(inner) => QueueChange::ChannelSettled(*inner),
            StateChange::ContractReceiveSecretReveal(inner) => QueueChange::SecretReveal(*inner),
            StateChange::ContractReceiveChannelBatchUnlock(inner) => QueueChange::BatchUnlock(
                *inner,
            ),
            StateChange::ContractReceiveChannelOpened(_)
            | StateChange::ContractReceiveChannelDeposit(_)
            | StateChange::ContractReceiveChannelWithdraw(_)
            | StateChange::ContractReceiveRouteNew(_) => QueueChange::Clears,
            _ => QueueChange::Keeps,
        }
    }
}

/// `transaction` stays pending after a state change of which the queue
/// reads `change`.
pub open spec fn spec_pending_after(
    chain_state: &ChainState,
    transaction: &ContractSendEvent,
    change: QueueChange,
) -> bool {
    match change {
        QueueChange::UpdateTransfer(inner) => spec_pending(
            chain_state,
            transaction,
            &StateChange::ContractReceiveUpdateTransfer(inner),
        ),
        QueueChange::ChannelClosed(inner) => spec_pending(
            chain_state,
            transaction,
            &StateChange::ContractReceiveChannelClosed(inner),
        ),
        QueueChange::ChannelSettled(inner) => spec_pending(
            chain_state,
            transaction,
            &StateChange::ContractReceiveChannelSettled(inner),
        ),
        QueueChange::SecretReveal(inner) => spec_pending(
            chain_state,
            transaction,
            &StateChange::ContractReceiveSecretReveal(inner),
        ),
        QueueChange::BatchUnlock(inner) => spec_pending(
            chain_state,
            transaction,
            &StateChange::ContractReceiveChannelBatchUnlock(inner),
        ),
        _ => !spec_expired(transaction, chain_state.block_number),
    }
}

fn is_pending_after(chain_state: &ChainState, transaction: &ContractSendEvent, change: QueueChange) -> (r:
    bool)
    ensures
        r == spec_pending_after(chain_state, transaction, change),
{
    match change {
        QueueChange::UpdateTransfer(inner) => is_transaction_pending(
            chain_state,
            transaction,
            &StateChange::ContractReceiveUpdateTransfer(inner),
        ),
        QueueChange::ChannelClosed(inner) => is_transaction_pending(
            chain_state,
            transaction,
            &StateChange::ContractReceiveChannelClosed(inner),
        ),
        QueueChange::ChannelSettled(inner) => is_transaction_pending(
            chain_state,
            transaction,
            &StateChange::ContractReceiveChannelSettled(inner),
        ),
        QueueChange::SecretReveal(inner) => is_transaction_pending(
            chain_state,
            transaction,
            &StateChange::ContractReceiveSecretReveal(inner),
        ),
        QueueChange::BatchUnlock(inner) => is_transaction_pending(
            chain_state,
            transaction,
            &StateChange::ContractReceiveChannelBatchUnlock(inner),
        ),
        _ => !is_transaction_expired(transaction, chain_state.block_number),
    }
}

/// The transactions of `s` that stay pending after the change, in order.
pub open spec fn spec_still_pending(
    chain_state: &ChainState,
    s: Seq<ContractSendEvent>,
    change: QueueChange,
) -> Seq<ContractSendEvent>
    decreases s.len(),
{
    if s.len() == 0 {
        Seq::empty()
    } else if spec_pending_after(chain_state, &s.last(), change) {
        spec_still_pending(chain_state, s.drop_last(), change).push(s.last())
    } else {
        spec_still_pending(chain_state, s.drop_last(), change)
    }
}

/// The on-chain transactions that the events of `s` ask for, in order.
pub open spec fn spec_sent_transactions(s: Seq<Event>) -> Seq<ContractSendEvent>
    decreases s.len(),
{
    if s.len() == 0 {
        Seq::empty()
    } else {
        match spec_contract_send_event(&s.last()) {
            Ok(t) => spec_sent_transactions(s.drop_last()).push(t),
            Err(_) => spec_sent_transactions(s.drop_last()),
        }
    }
}

/// The queue after a transition: what stays pending, then what the
/// transition's events send.
pub open spec fn spec_queue_after(
    chain_state: &ChainState,
    events: Seq<Event>,
    change: QueueChange,
) -> Seq<ContractSendEvent> {
    let kept = match change {
        QueueChange::Keeps => chain_state.pending_transactions@,
        _ => spec_still_pending(chain_state, chain_state.pending_transactions@, change),
    };
    kept + spec_sent_transactions(events)
}

/// The queue after a transition for `state_change`.
pub open spec fn spec_updated_queue(
    chain_state: &ChainState,
    events: Seq<Event>,
    state_change: &StateChange,
) -> Seq<ContractSendEvent> {
    spec_queue_after(chain_state, events, spec_queue_change(state_change))
}

/// What the update reads of a state change decides what stays pending as
/// the state change itself does.
pub proof fn lemma_queue_change_pending(
    chain_state: &ChainState,
    transaction: &ContractSendEvent,
    state_change: &StateChange,
)
    requires
        spec_clears_queue(state_change),
    ensures
        spec_pending_after(chain_state, transaction, spec_queue_change(state_change)) == spec_pending(
            chain_state,
            transaction,
            state_change,
        ),
        !(spec_queue_change(state_change) is Keeps),
{
}

/// Check and update pending transactions after applying a state change of
/// which `change` is what the queue reads.
pub fn update_queues_after(iteration: &mut ChainTransition, change: QueueChange)
    ensures
        final(iteration).events == old(iteration).events,
        final(iteration).new_state == (ChainState {
            pending_transactions: final(iteration).new_state.pending_transactions,
            ..old(iteration).new_state
        }),
        final(iteration).new_state.pending_transactions@ == spec_queue_after(
            &old(iteration).new_state,
            old(iteration).events@,
            change,
        ),
{
    let ghost start = iteration.new_state.pending_transactions@;
    match change {
        QueueChange::Keeps => {},
        _ => {
            let chain_state = &iteration.new_state;
            let pending = &chain_state.pending_transactions;
            let mut kept: Vec<ContractSendEvent> = Vec::new();
            let mut i: usize = 0;
            while i < pending.len()
                invariant
                    i <= pending@.len(),
                    pending@ == start,
                    kept@ == spec_still_pending(chain_state, start.subrange(0, i as int), change),
                decreases pending@.len() - i,
            {
                let transaction = pending[i];
                proof {
                    assert(start.subrange(0, i + 1).drop_last() =~= start.subrange(0, i as int));
                    assert(start.subrange(0, i + 1).last() == start[i as int]);
                }
                if is_pending_after(chain_state, &transaction, change) {
                    kept.push(transaction);
                }
                i = i + 1;
            }
            assert(start.subrange(0, start.len() as int) =~= start);
            iteration.new_state.pending_transactions = kept;
        },
    }
    let ghost middle = iteration.new_state.pending_transactions@;
    let mut j: usize = 0;
    assert(iteration.events@.subrange(0, 0) =~= Seq::<Event>::empty());
    while j < iteration.events.len()
        invariant
            j <= iteration.events@.len(),
            iteration.events == old(iteration).events,
            iteration.new_state == (ChainState {
                pending_transactions: iteration.new_state.pending_transactions,
                ..old(iteration).new_state
            }),
            iteration.new_state.pending_transactions@ == middle + spec_sent_transactions(
                iteration.events@.subrange(0, j as int),
            ),
        decreases iteration.events@.len() - j,
    {
        let sent = ContractSendEvent::of_event(&iteration.events[j]);
        proof {
            let es = iteration.events@;
            assert(es.subrange(0, j + 1).drop_last() =~= es.subrange(0, j as int));
            assert(es.subrange(0, j + 1).last() == es[j as int]);
        }
        match sent {
            Ok(transaction) => {
                iteration.new_state.pending_transactions.push(transaction);
                proof {
                    let es = iteration.events@;
                    assert(middle + spec_sent_transactions(es.subrange(0, j + 1)) =~= (middle
                        + spec_sent_transactions(es.subrange(0, j as int))).push(transaction));
                }
            },
            Err(_) => {},
        }
        j = j + 1;
    }
    assert(iteration.events@.subrange(0, iteration.events@.len() as int) =~= iteration.events@);
}

/// Check and update pending transactions after applying state change: an
/// on-chain event takes out the transactions that it settles, invalidates
/// or that expired; the transactions that the events ask for join the queue.
pub fn update_queues(iteration: &mut ChainTransition, state_change: &StateChange)
    ensures
        final(iteration).events == old(iteration).events,
        final(iteration).new_state == (ChainState {
            pending_transactions: final(iteration).new_state.pending_transactions,
            ..old(iteration).new_state
        }),
        final(iteration).new_state.pending_transactions@ == spec_updated_queue(
            &old(iteration).new_state,
            old(iteration).events@,
            state_change,
        ),
{
    let change = QueueChange::of(state_change);
    update_queues_after(iteration, change);
}

} // verus!
