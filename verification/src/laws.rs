//! Properties of the library that span several functions: of channels,
//! their locks and amounts, the queue of a node, and payments.
use vstd::prelude::*;

use crate::chain::machine::{spec_registry_added, TransitionResult as ChainTransitionResult};
use crate::chain::queues::{
    spec_effect_satisfied, spec_pending_after, spec_queue_change, spec_still_pending, QueueChange,
};
use crate::channel::fees::spec_linspace_point;
use crate::channel::locks::{
    lemma_holds_encoding, spec_locked_transfer_message, spec_locked_transfer_ok,
    spec_lock_can_expire, spec_lock_expired_message, spec_secret_registered, spec_unlock_message,
    spec_unlock_reachable,
};
use crate::channel::machine::{spec_state_transition, spec_transition_sane};
use crate::channel::transitions::TransitionResult;
use crate::channel::utils::without_lock;
use crate::channel::validators::{
    spec_expired_lock_candidate, spec_valid_balance_proof_signature, spec_valid_lock_expired,
    spec_valid_locked_transfer_check, spec_valid_unlock,
};
use crate::channel::views::{spec_amount_locked, spec_get_lock};
use crate::effects::spec_state_change_effects;
use crate::initiator::{
    spec_fee_margin, spec_from_target, spec_initiator_secret_request, spec_safe_amount_with_fee,
    TransitionResult as InitiatorTransitionResult,
};
use crate::primitives::{u256_max, Address};
use crate::transport::{spec_message_type_number, MessageTypeId};
use crate::types::event::{
    ContractSendChannelClose, ContractSendEvent, Event, SendLockExpired, SendLockedTransfer,
    SendUnlock,
};
use crate::types::state::{
    AddressMetadata, BalanceProofState, BlockExpiration, BlockHash, BlockNumber, ChainState,
    ChannelEndState, ChannelState, ChannelStatus, EncodedLock, HashTimeLockState,
    InitiatorTransferState, MessageIdentifier, PaymentIdentifier, RouteState, Secret, SecretHash,
    TokenAmount,
};
use crate::types::state_change::{
    ContractReceiveChannelClosed, ContractReceiveTokenNetworkRegistry, ReceiveLockExpired,
    ReceiveSecretRequest, ReceiveUnlock, StateChange,
};
use crate::views::{spec_channel_balance, spec_channel_distributable, spec_distributable_defined};

verus! {

/// The whole deposit of a channel is accounted for: our balance and the
/// partner's balance add up to the channel's capacity.
pub proof fn law_deposit_accounted_for(channel_state: ChannelState)
    ensures
        spec_channel_balance(&channel_state.our_state, &channel_state.partner_state)
            + spec_channel_balance(&channel_state.partner_state, &channel_state.our_state)
            == channel_state.spec_capacity(),
{
}

/// What an end can still distribute, together with what it has locked,
/// never exceeds its balance.
pub proof fn law_distributable_within_balance(sender: ChannelEndState, receiver: ChannelEndState)
    requires
        spec_distributable_defined(&sender, &receiver),
    ensures
        spec_channel_distributable(&sender, &receiver) + sender.spec_locked_amount()
            <= spec_channel_balance(&sender, &receiver),
{
}

proof fn lemma_without_absent_lock(locks: Seq<EncodedLock>, lock: EncodedLock)
    requires
        !locks.contains(lock),
    ensures
        without_lock(locks, lock) == locks,
    decreases locks.len(),
{
    if locks.len() > 0 {
        assert(!locks.drop_last().contains(lock)) by {
            if locks.drop_last().contains(lock) {
                let i = choose|i: int| 0 <= i < locks.drop_last().len() && locks.drop_last()[i] == lock;
                assert(locks[i] == lock);
            }
        }
        lemma_without_absent_lock(locks.drop_last(), lock);
        assert(locks.last() != lock) by {
            assert(locks[locks.len() - 1] == locks.last());
        }
        assert(locks.drop_last().push(locks.last()) =~= locks);
    }
}

/// Removing a lock that was just added to the pending locks gives back the
/// pending locks as they were.
pub proof fn law_lock_removal_undoes_addition(locks: Seq<EncodedLock>, lock: EncodedLock)
    requires
        !locks.contains(lock),
    ensures
        without_lock(locks.push(lock), lock) == locks,
{
    assert(locks.push(lock).drop_last() =~= locks);
    lemma_without_absent_lock(locks, lock);
}

/// A removed lock is no longer pending.
pub proof fn law_removed_lock_is_gone(locks: Seq<EncodedLock>, lock: EncodedLock)
    ensures
        !without_lock(locks, lock).contains(lock),
    decreases locks.len(),
{
    if locks.len() > 0 {
        law_removed_lock_is_gone(locks.drop_last(), lock);
        let rest = without_lock(locks.drop_last(), lock);
        if locks.last() != lock {
            assert forall|i: int| 0 <= i < rest.push(locks.last()).len() implies rest.push(
                locks.last(),
            )[i] != lock by {
                if i < rest.len() {
                    assert(rest.push(locks.last())[i] == rest[i]);
                }
            }
        }
    }
}

/// Once the secret of a locked lock is learnt, the end knows it: the lock
/// is unlocked and its secret is the one registered.
pub proof fn law_registered_secret_is_known(
    new: ChannelEndState,
    old: ChannelEndState,
    secret: Secret,
    secrethash: SecretHash,
)
    requires
        spec_secret_registered(new, old, secret, secrethash),
        old.secrethashes_to_lockedlocks@.contains_key(secrethash),
    ensures
        new.spec_get_secret(secrethash) == Some(secret),
        !new.secrethashes_to_lockedlocks@.contains_key(secrethash),
        new.secrethashes_to_unlockedlocks@.contains_key(secrethash),
{
}

/// A channel that the state machine returns from a successful transition
/// is consistent.
pub proof fn law_transition_keeps_channel_consistent(
    channel_state: ChannelState,
    state_change: StateChange,
    block_number: BlockNumber,
    block_hash: BlockHash,
    r: TransitionResult,
)
    requires
        spec_state_transition(channel_state, state_change, block_number, block_hash, r),
        r.is_ok(),
    ensures
        spec_transition_sane(&r.unwrap()),
{
}

/// The amount sent with fees covers the payment and the estimated fee; it
/// adds nothing when no fee is expected.
pub proof fn law_safe_amount_covers_fee(payment_amount: nat, estimated_fee: nat)
    ensures
        spec_safe_amount_with_fee(payment_amount, estimated_fee) >= payment_amount + estimated_fee,
        estimated_fee == 0 ==> spec_safe_amount_with_fee(payment_amount, estimated_fee)
            == payment_amount,
        estimated_fee == 0 ==> spec_fee_margin(payment_amount, estimated_fee) == 0,
{
}

/// The points of `linspace` run from `start` to `stop`, both included, and
/// never go down.
pub proof fn law_linspace_ends(start: nat, stop: nat, num: nat, j: int, k: int)
    requires
        start <= stop,
        num >= 2,
        0 <= j <= k < num,
    ensures
        spec_linspace_point(start, stop, num, 0) == start,
        spec_linspace_point(start, stop, num, num - 1) == stop,
        start <= spec_linspace_point(start, stop, num, j) <= spec_linspace_point(start, stop, num, k) <= stop,
{
    let d = (stop - start) as int;
    let n = (num - 1) as int;
    vstd::arithmetic::div_mod::lemma_div_by_multiple(d, n);
    assert(n * d == d * n) by (nonlinear_arith);
    assert(0 * d == 0);
    assert(j * d <= k * d && k * d <= n * d && 0 <= j * d) by (nonlinear_arith)
        requires
            0 <= j <= k <= n,
            d >= 0,
    ;
    vstd::arithmetic::div_mod::lemma_div_is_ordered(j * d, k * d, n);
    vstd::arithmetic::div_mod::lemma_div_is_ordered(k * d, n * d, n);
    vstd::arithmetic::div_mod::lemma_div_pos_is_pos(j * d, n);
}

/// Distinct message types have distinct numbers.
pub proof fn law_message_type_numbers_distinct(a: MessageTypeId, b: MessageTypeId)
    requires
        a != b,
    ensures
        spec_message_type_number(a) != spec_message_type_number(b),
{
}

/// A locked transfer that we send, once signed by us, is accepted by the
/// partner whose channel mirrors ours: its view of our end is our end, its
/// own end is the one we see, and the channel is open for it too. This
/// holds while the new lock stays within the limit of pending transfers,
/// the amounts fit in 256 bits, and our locked amount is zero when we have
/// no balance proof yet.
pub proof fn law_sent_transfer_is_accepted(
    sender_channel: ChannelState,
    receiver_channel: ChannelState,
    initiator: Address,
    target: Address,
    amount: TokenAmount,
    expiration: BlockExpiration,
    secrethash: SecretHash,
    message_identifier: MessageIdentifier,
    payment_identifier: PaymentIdentifier,
    route_states: Vec<RouteState>,
    recipient_metadata: Option<AddressMetadata>,
    message: SendLockedTransfer,
    signed: BalanceProofState,
)
    requires
        spec_locked_transfer_ok(&sender_channel, amount, expiration, secrethash),
        spec_locked_transfer_message(
            message,
            &sender_channel,
            initiator,
            target,
            amount,
            expiration,
            secrethash,
            message_identifier,
            payment_identifier,
            route_states,
            recipient_metadata,
        ),
        receiver_channel.partner_state == sender_channel.our_state,
        receiver_channel.our_state == sender_channel.partner_state,
        receiver_channel.canonical_identifier == sender_channel.canonical_identifier,
        receiver_channel.spec_status() == ChannelStatus::Opened,
        signed.nonce == message.transfer.balance_proof.nonce,
        signed.transferred_amount == message.transfer.balance_proof.transferred_amount,
        signed.locked_amount == message.transfer.balance_proof.locked_amount,
        signed.locksroot == message.transfer.balance_proof.locksroot,
        signed.canonical_identifier == message.transfer.balance_proof.canonical_identifier,
        spec_valid_balance_proof_signature(signed, sender_channel.our_state.address),
        sender_channel.our_state.pending_locks.locks@.len() + 1
            <= ChannelState::spec_maximum_pending_transfers(),
        sender_channel.our_state.spec_transferred() + spec_amount_locked(&sender_channel.our_state)
            + amount@ <= u256_max(),
        sender_channel.our_state.balance_proof.is_some() || spec_amount_locked(
            &sender_channel.our_state,
        ) == 0,
    ensures
        spec_valid_locked_transfer_check(
            &receiver_channel,
            &receiver_channel.partner_state,
            &receiver_channel.our_state,
            &signed,
            &message.transfer.lock,
        ),
{
    lemma_holds_encoding(sender_channel.our_state.pending_locks.locks@, message.transfer.lock.encoded);
}

/// An unlock that we send, once signed by us, is accepted by the partner
/// whose channel mirrors ours, while the amounts fit in 256 bits.
pub proof fn law_sent_unlock_is_accepted(
    sender_channel: ChannelState,
    receiver_channel: ChannelState,
    lock: HashTimeLockState,
    secrethash: SecretHash,
    block_number: BlockNumber,
    message_identifier: MessageIdentifier,
    payment_identifier: PaymentIdentifier,
    secret: Secret,
    recipient_metadata: Option<AddressMetadata>,
    message: SendUnlock,
    received: ReceiveUnlock,
)
    requires
        spec_get_lock(&sender_channel.our_state, secrethash) == Some(lock),
        lock.secrethash == secrethash,
        spec_unlock_reachable(&sender_channel, &lock, block_number),
        sender_channel.our_state.pending_locks.locks@.contains(lock.encoded),
        spec_unlock_message(
            message,
            &sender_channel,
            lock,
            message_identifier,
            payment_identifier,
            secret,
            recipient_metadata,
        ),
        receiver_channel.partner_state == sender_channel.our_state,
        receiver_channel.our_state == sender_channel.partner_state,
        receiver_channel.canonical_identifier == sender_channel.canonical_identifier,
        receiver_channel.spec_status() == ChannelStatus::Opened,
        received.secrethash == message.secrethash,
        received.balance_proof.nonce == message.balance_proof.nonce,
        received.balance_proof.transferred_amount == message.balance_proof.transferred_amount,
        received.balance_proof.locked_amount == message.balance_proof.locked_amount,
        received.balance_proof.locksroot == message.balance_proof.locksroot,
        received.balance_proof.canonical_identifier == message.balance_proof.canonical_identifier,
        spec_valid_balance_proof_signature(
            received.balance_proof,
            sender_channel.our_state.address,
        ),
        spec_amount_locked(&sender_channel.our_state) >= lock.amount@,
        sender_channel.our_state.spec_transferred() + spec_amount_locked(&sender_channel.our_state)
            <= u256_max(),
    ensures
        spec_valid_unlock(&receiver_channel, &receiver_channel.partner_state, &received),
{
}

/// A message that expires one of our locks, once signed by us, is accepted
/// by the partner whose channel mirrors ours, when the lock is the one the
/// partner knows under its secret hash, its secret was not registered on
/// chain, and the partner's block is past the lock's expiration and the
/// confirmation blocks.
pub proof fn law_sent_lock_expiry_is_accepted(
    sender_channel: ChannelState,
    receiver_channel: ChannelState,
    lock: HashTimeLockState,
    message: SendLockExpired,
    received: ReceiveLockExpired,
    block_number: BlockNumber,
)
    requires
        spec_lock_can_expire(&sender_channel.our_state, &lock),
        spec_lock_expired_message(
            message,
            &sender_channel.our_state,
            lock,
            sender_channel.canonical_identifier,
            sender_channel.partner_state.address,
            message.inner.recipient_metadata,
        ),
        receiver_channel.partner_state == sender_channel.our_state,
        receiver_channel.our_state == sender_channel.partner_state,
        receiver_channel.canonical_identifier == sender_channel.canonical_identifier,
        receiver_channel.spec_status() == ChannelStatus::Opened,
        spec_expired_lock_candidate(&receiver_channel, lock.secrethash) == Some(lock),
        !sender_channel.our_state.secrethashes_to_onchain_unlockedlocks@.contains_key(
            lock.secrethash,
        ),
        !sender_channel.partner_state.secrethashes_to_onchain_unlockedlocks@.contains_key(
            lock.secrethash,
        ),
        block_number >= lock.expiration + 5,
        received.secrethash == message.secrethash,
        received.balance_proof.nonce == message.balance_proof.nonce,
        received.balance_proof.transferred_amount == message.balance_proof.transferred_amount,
        received.balance_proof.locked_amount == message.balance_proof.locked_amount,
        received.balance_proof.locksroot == message.balance_proof.locksroot,
        received.balance_proof.canonical_identifier == message.balance_proof.canonical_identifier,
        spec_valid_balance_proof_signature(
            received.balance_proof,
            sender_channel.our_state.address,
        ),
        spec_amount_locked(&sender_channel.our_state) >= lock.amount@,
        sender_channel.our_state.spec_transferred() + spec_amount_locked(&sender_channel.our_state)
            <= u256_max(),
    ensures
        spec_valid_lock_expired(
            &receiver_channel,
            &received,
            &receiver_channel.partner_state,
            &receiver_channel.our_state,
            block_number,
        ),
{
}


/// Clearing the queue keeps exactly the transactions that stay pending, and
/// only transactions of the queue: none that the state change settles,
/// invalidates or that expired survives, and no pending one is lost.
pub proof fn law_queue_keeps_exactly_the_pending(
    chain_state: ChainState,
    queue: Seq<ContractSendEvent>,
    change: QueueChange,
)
    ensures
        forall|t: ContractSendEvent|
            #[trigger] spec_still_pending(&chain_state, queue, change).contains(t) <==> (
            queue.contains(t) && spec_pending_after(&chain_state, &t, change)),
    decreases queue.len(),
{
    if queue.len() > 0 {
        law_queue_keeps_exactly_the_pending(chain_state, queue.drop_last(), change);
        let rest = spec_still_pending(&chain_state, queue.drop_last(), change);
        assert forall|t: ContractSendEvent|
            spec_still_pending(&chain_state, queue, change).contains(t) <==> (queue.contains(t)
                && spec_pending_after(&chain_state, &t, change)) by {
            assert(queue =~= queue.drop_last().push(queue.last()));
            if queue.contains(t) && t != queue.last() {
                let i = choose|i: int| 0 <= i < queue.len() && queue[i] == t;
                assert(queue.drop_last()[i] == t);
            }
            if spec_pending_after(&chain_state, &queue.last(), change) {
                assert(spec_still_pending(&chain_state, queue, change) == rest.push(queue.last()));
                if rest.contains(t) {
                    let i = choose|i: int| 0 <= i < rest.len() && rest[i] == t;
                    assert(rest.push(queue.last())[i] == t);
                }
                if rest.push(queue.last()).contains(t) && t != queue.last() {
                    let i = choose|i: int| 0 <= i < rest.len() + 1 && rest.push(queue.last())[i] == t;
                    assert(rest[i] == t);
                }
                if t == queue.last() {
                    assert(rest.push(queue.last())[rest.len() as int] == t);
                }
            }
            if queue.drop_last().contains(t) {
                let i = choose|i: int| 0 <= i < queue.drop_last().len() && queue.drop_last()[i] == t;
                assert(queue[i] == t);
            }
            if t == queue.last() {
                assert(queue[queue.len() - 1] == t);
            }
        }
    }
}

/// Once the channel is known to be closed on chain, no transaction that
/// would close it stays in the queue.
pub proof fn law_closed_channel_leaves_no_close_pending(
    chain_state: ChainState,
    queue: Seq<ContractSendEvent>,
    closed: ContractReceiveChannelClosed,
    close: ContractSendChannelClose,
)
    requires
        close.canonical_identifier == closed.canonical_identifier,
    ensures
        !spec_still_pending(
            &chain_state,
            queue,
            spec_queue_change(&StateChange::ContractReceiveChannelClosed(closed)),
        ).contains(ContractSendEvent::ContractSendChannelClose(close)),
{
    let sc = StateChange::ContractReceiveChannelClosed(closed);
    let t = ContractSendEvent::ContractSendChannelClose(close);
    assert(spec_queue_change(&sc) == QueueChange::ChannelClosed(closed));
    assert(spec_effect_satisfied(&chain_state, &t, &sc));
    assert(!spec_pending_after(&chain_state, &t, spec_queue_change(&sc)));
    law_queue_keeps_exactly_the_pending(chain_state, queue, spec_queue_change(&sc));
}

/// Learning of a registry twice leaves the node as learning of it once.
pub proof fn law_registry_added_once(
    chain_state: ChainState,
    state_change: ContractReceiveTokenNetworkRegistry,
    first: ChainTransitionResult,
    second: ChainTransitionResult,
)
    requires
        spec_registry_added(chain_state, state_change, first),
        spec_registry_added(first.unwrap().new_state, state_change, second),
    ensures
        second.unwrap().new_state.identifiers_to_tokennetworkregistries
            == first.unwrap().new_state.identifiers_to_tokennetworkregistries,
        second.unwrap().new_state == first.unwrap().new_state,
{
}


/// The target's request for the secret is answered once: a second request
/// after one that was handled changes nothing and sends nothing.
pub proof fn law_secret_request_answered_once(
    initiator_state: InitiatorTransferState,
    first: ReceiveSecretRequest,
    second: ReceiveSecretRequest,
    channel_state: ChannelState,
    r1: InitiatorTransitionResult,
    r2: InitiatorTransitionResult,
)
    requires
        spec_from_target(&initiator_state, &first),
        spec_get_lock(&channel_state.our_state, initiator_state.transfer_description.secrethash).is_some(),
        spec_initiator_secret_request(initiator_state, first, channel_state, r1),
        spec_initiator_secret_request(
            r1.unwrap().new_state.unwrap(),
            second,
            r1.unwrap().channel_state.unwrap(),
            r2,
        ),
    ensures
        r2.is_ok(),
        r2.unwrap().events@.len() == 0,
        r2.unwrap().new_state == r1.unwrap().new_state,
        r2.unwrap().channel_state == r1.unwrap().channel_state,
{
}

/// The events to handle after a batch start with the transitions' own
/// events, in order.
pub proof fn law_effects_keep_the_events_first(state_changes: Seq<StateChange>, events: Seq<Event>)
    ensures
        spec_state_change_effects(state_changes, events).subrange(0, events.len() as int) == events,
{
    let r = spec_state_change_effects(state_changes, events);
    assert(r.subrange(0, events.len() as int) =~= events);
}

/// Events of distinct kinds have distinct names.
pub proof fn law_event_names_distinct(a: Event, b: Event)
    requires
        crate::types::event::spec_event_kind(&a) != crate::types::event::spec_event_kind(&b),
    ensures
        crate::types::event::spec_event_kind_name(&a)@ != crate::types::event::spec_event_kind_name(&b)@,
{
    crate::types::event::lemma_event_name_code(&a);
    crate::types::event::lemma_event_name_code(&b);
}

/// State changes of distinct kinds have distinct names.
pub proof fn law_state_change_names_distinct(a: StateChange, b: StateChange)
    requires
        crate::types::state_change::spec_state_change_kind(&a) != crate::types::state_change::spec_state_change_kind(&b),
    ensures
        crate::types::state_change::spec_kind_name(&a)@ != crate::types::state_change::spec_kind_name(&b)@,
{
    crate::types::state_change::lemma_state_change_name_code(&a);
    crate::types::state_change::lemma_state_change_name_code(&b);
}

} // verus!
