//! The initiator of a payment: the amounts it reserves for mediation fees,
//! and how a transfer it sent reacts to blocks, secret requests and secret
//! reveals.
use vstd::prelude::*;

use crate::channel::locks::{
    send_locked_transfer as send_lock_to_partner, spec_lock_send_defined, spec_lock_sendable,
    spec_locked_transfer_sent, lock_exists_in_either_channel_side, register_onchain_secret, send_lock_expired, send_unlock,
    spec_onchain_secret_registered_channel, spec_send_expired_lock_defined, spec_send_lock_expired,
    spec_send_unlock, spec_send_unlock_defined, spec_unlock_reachable,
};
use crate::channel::validators::{is_lock_expired, spec_lock_expired};
use crate::channel::views::{get_lock, spec_get_lock};
use crate::errors::StateTransitionError;
use crate::primitives::{u256_max, Address, U256};
use crate::types::event::{
    canonical_identifier_unordered_queue, ErrorInvalidSecretRequest, ErrorPaymentSentFailed,
    ErrorRouteFailed, ErrorUnlockFailed, Event,
    PaymentSentSuccess, SendLockedTransfer,
    SendMessageEventInner, SendSecretReveal, UnlockSuccess,
};
use crate::types::random::Random;
use crate::types::state::{
    AddressMetadata, BlockNumber, ChainState, ChannelState, ChannelStatus, FeeAmount,
    InitiatorTransferState, RouteState, Secret, SecretHash, TokenAmount,
    TransferDescriptionWithSecretState, TransferState,
};
use crate::types::state_change::{
    Block, ContractReceiveSecretReveal, ReceiveSecretRequest, ReceiveSecretReveal, StateChange,
};
use crate::views::{
    get_address_metadata, get_channel_by_token_network_and_partner, spec_address_metadata,
    spec_channel_by_token_network_and_partner, spec_distributable_defined,
};
use crate::routes::{
    copy_addresses, copy_route, lemma_positions_in_range, prune_route_table, spec_hop_after,
    spec_route_copy, spec_same_hop_positions,
};
use crate::chain::channels::{spec_channel_updated, update_channel};
use crate::chain::machine::spec_network_position;
use crate::channel::views::{get_safe_initial_expiration, spec_safe_initial_expiration};
use crate::copies::{
    copy_channel, copy_routes, copy_transfer, lemma_copies_same_hop_positions, lemma_copy_sends_alike,
    spec_channel_copy, spec_routes_copy, spec_transfer_copy,
};

verus! {

/// The margin on top of the estimated fee: 3% of the fee and 0.05% of the
/// payment, each rounded down, or nothing when no fee is expected.
pub open spec fn spec_fee_margin(payment_amount: nat, estimated_fee: nat) -> nat {
    if estimated_fee == 0 {
        0
    } else {
        estimated_fee * 3 / 100 + payment_amount * 5 / 10000
    }
}

/// The margin can be computed in 256 bits.
pub open spec fn spec_fee_margin_defined(payment_amount: nat, estimated_fee: nat) -> bool {
    estimated_fee != 0 ==> {
        &&& estimated_fee * 3 <= u256_max()
        &&& payment_amount * 5 <= u256_max()
        &&& estimated_fee * 3 / 100 + payment_amount * 5 / 10000 <= u256_max()
    }
}

/// Returns the margin added to the estimated fee of a payment.
pub fn calculate_fee_margin(payment_amount: TokenAmount, estimated_fee: FeeAmount) -> (r: FeeAmount)
    requires
        spec_fee_margin_defined(payment_amount@, estimated_fee@),
    ensures
        r@ == spec_fee_margin(payment_amount@, estimated_fee@),
{
    if estimated_fee.is_zero() {
        return U256::zero();
    }
    let fee_part = estimated_fee.mul(U256::from_u64(3)).div(U256::from_u64(100));
    let payment_part = payment_amount.mul(U256::from_u64(5)).div(U256::from_u64(10000));
    fee_part.add(payment_part)
}

/// The amount to send so that the payment arrives despite mediation fees.
pub open spec fn spec_safe_amount_with_fee(payment_amount: nat, estimated_fee: nat) -> nat {
    payment_amount + estimated_fee + spec_fee_margin(payment_amount, estimated_fee)
}

/// Returns the payment amount plus the estimated fee and its margin.
pub fn calculate_safe_amount_with_fee(payment_amount: TokenAmount, estimated_fee: FeeAmount) -> (r:
    TokenAmount)
    requires
        spec_fee_margin_defined(payment_amount@, estimated_fee@),
        spec_safe_amount_with_fee(payment_amount@, estimated_fee@) <= u256_max(),
    ensures
        r@ == spec_safe_amount_with_fee(payment_amount@, estimated_fee@),
{
    payment_amount.add(estimated_fee).add(calculate_fee_margin(payment_amount, estimated_fee))
}


/// The outcome of an initiator's transition: its transfer, if it is still
/// followed, the channel it went through, and the events to act on.
pub struct InitiatorTransition {
    pub new_state: Option<InitiatorTransferState>,
    pub channel_state: Option<ChannelState>,
    pub events: Vec<Event>,
}

pub type TransitionResult = Result<InitiatorTransition, StateTransitionError>;

/// The blocks that a lock is kept after its expiration before it is
/// removed.
pub open spec fn spec_wait_before_lock_removal() -> u64 {
    10
}

/// The metadata of `address` that the initiator's route carries.
pub open spec fn spec_route_metadata(initiator_state: &InitiatorTransferState, address: Address) -> Option<
    AddressMetadata,
> {
    spec_address_metadata(address, seq![initiator_state.route])
}

fn route_metadata(initiator_state: &InitiatorTransferState, address: Address) -> (r: Option<
    AddressMetadata,
>)
    ensures
        r == spec_route_metadata(initiator_state, address),
{
    proof {
        let routes = seq![initiator_state.route];
        assert(routes.drop_first() =~= Seq::<crate::types::state::RouteState>::empty());
        assert(routes[0] == initiator_state.route);
        assert(spec_address_metadata(address, routes.drop_first()) == None::<AddressMetadata>);
    }
    match initiator_state.route.address_to_metadata.get(&address) {
        Some(metadata) => Some(metadata.clone()),
        None => None,
    }
}

/// The outcome of `events_for_unlock_lock` from channel `old` to `new`: the
/// unlock of our lock fails as `send_unlock` fails, or it succeeds and the
/// events are the unlock, the payment's success and the unlock's success;
/// on failure the channel is left as it was.
pub open spec fn spec_unlock_lock_events(
    old: ChannelState,
    new: ChannelState,
    initiator_state: &InitiatorTransferState,
    secret: Secret,
    secrethash: SecretHash,
    block_number: BlockNumber,
    r: Result<Vec<Event>, String>,
) -> bool {
    let desc = initiator_state.transfer_description;
    let metadata = spec_route_metadata(initiator_state, old.partner_state.address);
    match r {
        Err(_) => {
            &&& new == old
            &&& match spec_get_lock(&old.our_state, secrethash) {
                None => true,
                Some(lock) => !(spec_unlock_reachable(&old, &lock, block_number)
                    && old.our_state.pending_locks.locks@.contains(lock.encoded)),
            }
        },
        Ok(events) => {
            &&& events@.len() == 3
            &&& events@[0] matches Event::SendUnlock(unlock) && spec_send_unlock(
                old,
                new,
                unlock.inner.message_identifier,
                desc.payment_identifier,
                secret,
                secrethash,
                block_number,
                metadata,
                Ok(unlock),
            )
            &&& events@[1] matches Event::PaymentSentSuccess(success) && {
                &&& success.secret == secret
                &&& success.token_network_registry_address == new.token_network_registry_address
                &&& success.token_network_address
                    == new.canonical_identifier.token_network_address
                &&& success.identifier == desc.payment_identifier
                &&& success.amount == desc.amount
                &&& success.target == desc.target
                &&& success.route@ == initiator_state.route.route@
            }
            &&& events@[2] == Event::UnlockSuccess(
                UnlockSuccess { identifier: desc.payment_identifier, secrethash },
            )
        },
    }
}

/// Unlocks our lock of the payment with `secret` and reports the payment's
/// success.
fn events_for_unlock_lock(
    initiator_state: &InitiatorTransferState,
    channel_state: &mut ChannelState,
    secret: Secret,
    secrethash: SecretHash,
    pseudo_random_number_generator: &mut Random,
    block_number: BlockNumber,
) -> (r: Result<Vec<Event>, String>)
    requires
        spec_send_unlock_defined(old(channel_state), secrethash, block_number),
    ensures
        spec_unlock_lock_events(
            *old(channel_state),
            *final(channel_state),
            initiator_state,
            secret,
            secrethash,
            block_number,
            r,
        ),
{
    let transfer_description = &initiator_state.transfer_description;
    let message_identifier = pseudo_random_number_generator.next();
    let recipient_address = channel_state.partner_state.address;
    let recipient_metadata = route_metadata(initiator_state, recipient_address);
    let unlock_lock = send_unlock(
        channel_state,
        message_identifier,
        transfer_description.payment_identifier,
        secret,
        secrethash,
        block_number,
        recipient_metadata,
    );
    let unlock_lock = match unlock_lock {
        Ok(unlock) => unlock,
        Err(e) => {
            return Err(e);
        },
    };
    let payment_sent_success = PaymentSentSuccess {
        secret,
        token_network_registry_address: channel_state.token_network_registry_address,
        token_network_address: channel_state.canonical_identifier.token_network_address,
        identifier: transfer_description.payment_identifier,
        amount: transfer_description.amount,
        target: transfer_description.target,
        route: copy_addresses(&initiator_state.route.route),
    };
    let unlock_success = UnlockSuccess {
        identifier: transfer_description.payment_identifier,
        secrethash,
    };
    let mut events: Vec<Event> = Vec::new();
    events.push(Event::SendUnlock(unlock_lock));
    events.push(Event::PaymentSentSuccess(payment_sent_success));
    events.push(Event::UnlockSuccess(unlock_success));
    Ok(events)
}

/// What the initiator's `handle_block` needs: the wait after our lock's
/// expiration fits in a block number, and expiring it on an open channel is
/// defined.
pub open spec fn spec_initiator_block_defined(
    initiator_state: &InitiatorTransferState,
    channel_state: &ChannelState,
) -> bool {
    let secrethash = initiator_state.transfer.lock.secrethash;
    let locks = channel_state.our_state.secrethashes_to_lockedlocks@;
    locks.contains_key(secrethash) ==> {
        &&& locks[secrethash].expiration + spec_wait_before_lock_removal() <= u64::MAX
        &&& channel_state.spec_status() == ChannelStatus::Opened ==> spec_send_expired_lock_defined(
            &channel_state.our_state,
            &locks[secrethash],
        )
    }
}

/// The outcome of the initiator's `handle_block`. Without our lock the
/// transfer is followed while the partner still holds a lock of it; a lock
/// that expired (and was not yet marked so) is expired on an open channel,
/// the transfer is marked expired and followed while a lock of it remains,
/// and the events say so: the lock's expiry, where it was sent, then the
/// failures of the payment, the route and the unlock.
pub open spec fn spec_initiator_block(
    initiator_state: InitiatorTransferState,
    state_change: Block,
    channel_state: ChannelState,
    r: TransitionResult,
) -> bool {
    let secrethash = initiator_state.transfer.lock.secrethash;
    let locks = channel_state.our_state.secrethashes_to_lockedlocks@;
    &&& r.is_ok()
    &&& if !locks.contains_key(secrethash) {
        &&& r.unwrap().events@.len() == 0
        &&& r.unwrap().channel_state == Some(channel_state)
        &&& r.unwrap().new_state == if channel_state.partner_state.secrethashes_to_lockedlocks@.contains_key(
            secrethash,
        ) {
            Some(initiator_state)
        } else {
            None
        }
    } else {
        let lock = locks[secrethash];
        let threshold = lock.expiration + spec_wait_before_lock_removal();
        if spec_lock_expired(&channel_state.our_state, &lock, state_change.block_number, threshold as u64)
            && initiator_state.transfer_state != TransferState::Expired {
            let expired = InitiatorTransferState { transfer_state: TransferState::Expired, ..initiator_state };
            let c = r.unwrap().channel_state.unwrap();
            &&& r.unwrap().channel_state.is_some()
            &&& if channel_state.spec_status() == ChannelStatus::Opened {
                exists|sent: Result<(ChannelState, Vec<crate::types::event::SendLockExpired>), String>|
                    #[trigger] spec_send_lock_expired(
                        channel_state,
                        lock,
                        spec_route_metadata(&initiator_state, channel_state.partner_state.address),
                        sent,
                    ) && c == sent.unwrap().0 && spec_expiry_events(
                        r.unwrap().events@,
                        sent.unwrap().1@,
                        &initiator_state,
                    )
            } else {
                &&& c == channel_state
                &&& spec_expiry_events(r.unwrap().events@, Seq::empty(), &initiator_state)
            }
            &&& r.unwrap().new_state == if c.our_state.spec_has_lock(secrethash)
                || c.partner_state.spec_has_lock(secrethash) {
                Some(expired)
            } else {
                None
            }
        } else {
            &&& r.unwrap().events@.len() == 0
            &&& r.unwrap().channel_state == Some(channel_state)
            &&& r.unwrap().new_state == Some(initiator_state)
        }
    }
}

/// The reason given when the lock of a transfer expired.
pub open spec fn spec_expiry_reason(initiator_state: &InitiatorTransferState) -> Seq<char> {
    if initiator_state.received_secret_request {
        "Lock expired, despite receiving secret request"@
    } else {
        "Lock expired"@
    }
}

/// `events` are the expiry messages `sent`, then the failures of the
/// payment, of its route and of the unlock.
pub open spec fn spec_expiry_events(
    events: Seq<Event>,
    sent: Seq<crate::types::event::SendLockExpired>,
    initiator_state: &InitiatorTransferState,
) -> bool {
    let n = sent.len() as int;
    let d = initiator_state.transfer_description;
    let reason = spec_expiry_reason(initiator_state);
    &&& events.len() == n + 3
    &&& forall|i: int| 0 <= i < n ==> #[trigger] events[i] == Event::SendLockExpired(sent[i])
    &&& events[n] is ErrorPaymentSentFailed
    &&& events[n]->ErrorPaymentSentFailed_0.token_network_registry_address
        == d.token_network_registry_address
    &&& events[n]->ErrorPaymentSentFailed_0.token_network_address == d.token_network_address
    &&& events[n]->ErrorPaymentSentFailed_0.identifier == d.payment_identifier
    &&& events[n]->ErrorPaymentSentFailed_0.target == d.target
    &&& events[n]->ErrorPaymentSentFailed_0.reason@ == reason
    &&& events[n + 1] is ErrorRouteFailed
    &&& events[n + 1]->ErrorRouteFailed_0.secrethash == initiator_state.transfer.lock.secrethash
    &&& events[n + 1]->ErrorRouteFailed_0.route@ == initiator_state.route.route@
    &&& events[n + 1]->ErrorRouteFailed_0.token_network_address == d.token_network_address
    &&& events[n + 2] is ErrorUnlockFailed
    &&& events[n + 2]->ErrorUnlockFailed_0.identifier == d.payment_identifier
    &&& events[n + 2]->ErrorUnlockFailed_0.secrethash == initiator_state.transfer.lock.secrethash
    &&& events[n + 2]->ErrorUnlockFailed_0.reason@ == reason
}

fn expiry_events(
    sent: Vec<crate::types::event::SendLockExpired>,
    initiator_state: &InitiatorTransferState,
) -> (r: Vec<Event>)
    ensures
        spec_expiry_events(r@, sent@, initiator_state),
{
    let ghost s = sent@;
    let mut events: Vec<Event> = Vec::new();
    let mut remaining = sent;
    let n = remaining.len();
    let mut i: usize = 0;
    while i < n
        invariant
            i <= n,
            n == s.len(),
            remaining@ == s.subrange(i as int, n as int),
            events@.len() == i,
            forall|j: int| 0 <= j < i ==> #[trigger] events@[j] == Event::SendLockExpired(s[j]),
        decreases n - i,
    {
        let e = remaining.remove(0);
        assert(e == s[i as int]);
        assert(remaining@ =~= s.subrange(i + 1, n as int));
        events.push(Event::SendLockExpired(e));
        i = i + 1;
    }
    let d = &initiator_state.transfer_description;
    let secrethash = initiator_state.transfer.lock.secrethash;
    let reason = if initiator_state.received_secret_request {
        "Lock expired, despite receiving secret request"
    } else {
        "Lock expired"
    };
    events.push(
        Event::ErrorPaymentSentFailed(
            ErrorPaymentSentFailed {
                token_network_registry_address: d.token_network_registry_address,
                token_network_address: d.token_network_address,
                identifier: d.payment_identifier,
                target: d.target,
                reason: reason.to_string(),
            },
        ),
    );
    events.push(
        Event::ErrorRouteFailed(
            ErrorRouteFailed {
                secrethash,
                route: copy_addresses(&initiator_state.route.route),
                token_network_address: d.token_network_address,
            },
        ),
    );
    events.push(
        Event::ErrorUnlockFailed(
            ErrorUnlockFailed { identifier: d.payment_identifier, secrethash, reason: reason.to_string() },
        ),
    );
    events
}

/// Handles a new block for a transfer we initiated: our lock is expired
/// once the wait after its expiration is over.
pub fn handle_block(
    initiator_state: InitiatorTransferState,
    state_change: Block,
    channel_state: ChannelState,
    pseudo_random_number_generator: &mut Random,
) -> (r: TransitionResult)
    requires
        spec_initiator_block_defined(&initiator_state, &channel_state),
    ensures
        spec_initiator_block(initiator_state, state_change, channel_state, r),
{
    let mut initiator_state = initiator_state;
    let secrethash = initiator_state.transfer.lock.secrethash;
    let locked_lock = match channel_state.our_state.secrethashes_to_lockedlocks.get(&secrethash) {
        Some(locked_lock) => *locked_lock,
        None => {
            if channel_state.partner_state.secrethashes_to_lockedlocks.get(&secrethash).is_some() {
                return Ok(
                    InitiatorTransition {
                        new_state: Some(initiator_state),
                        channel_state: Some(channel_state),
                        events: Vec::new(),
                    },
                );
            } else {
                return Ok(
                    InitiatorTransition {
                        new_state: None,
                        channel_state: Some(channel_state),
                        events: Vec::new(),
                    },
                );
            }
        },
    };
    let lock_expiration_threshold = locked_lock.expiration + 10;
    let lock_has_expired = is_lock_expired(
        &channel_state.our_state,
        &locked_lock,
        state_change.block_number,
        lock_expiration_threshold,
    );
    if lock_has_expired.is_ok() && initiator_state.transfer_state != TransferState::Expired {
        let ghost old_channel = channel_state;
        let channel_state = if channel_state.status() == ChannelStatus::Opened {
            let recipient_address = channel_state.partner_state.address;
            let recipient_metadata = route_metadata(&initiator_state, recipient_address);
            let sent = send_lock_expired(
                channel_state,
                locked_lock,
                pseudo_random_number_generator,
                recipient_metadata,
            );
            let ghost g = sent;
            match sent {
                Ok((channel_state, expired_lock_events)) => {
                    assert(spec_send_lock_expired(
                        old_channel,
                        locked_lock,
                        spec_route_metadata(&initiator_state, old_channel.partner_state.address),
                        g,
                    ));
                    (channel_state, expiry_events(expired_lock_events, &initiator_state))
                },
                Err(e) => {
                    return Err(StateTransitionError::from_message(e));
                },
            }
        } else {
            (channel_state, expiry_events(Vec::new(), &initiator_state))
        };
        let (channel_state, events) = channel_state;
        initiator_state.transfer_state = TransferState::Expired;
        let lock_exists = lock_exists_in_either_channel_side(&channel_state, secrethash);
        let new_state = if lock_exists {
            Some(initiator_state)
        } else {
            None
        };
        Ok(InitiatorTransition { new_state, channel_state: Some(channel_state), events })
    } else {
        Ok(
            InitiatorTransition {
                new_state: Some(initiator_state),
                channel_state: Some(channel_state),
                events: Vec::new(),
            },
        )
    }
}


/// The secret request comes from the payment's target and is about the
/// payment.
pub open spec fn spec_from_target(initiator_state: &InitiatorTransferState, state_change: &ReceiveSecretRequest) -> bool {
    let desc = initiator_state.transfer_description;
    &&& state_change.sender == desc.target
    &&& state_change.secrethash == desc.secrethash
    &&& state_change.payment_identifier == desc.payment_identifier
}

/// The outcome of `handle_receive_secret_request`. A request that is not
/// the target's is ignored; without our lock of the payment the request
/// fails; a second request is ignored; a request for at least the amount
/// and with the lock's expiration gets the secret revealed to the target,
/// any other is reported as invalid; either way the request is recorded.
pub open spec fn spec_initiator_secret_request(
    initiator_state: InitiatorTransferState,
    state_change: ReceiveSecretRequest,
    channel_state: ChannelState,
    r: TransitionResult,
) -> bool {
    let desc = initiator_state.transfer_description;
    let unchanged = r.is_ok() && r.unwrap().new_state == Some(initiator_state)
        && r.unwrap().channel_state == Some(channel_state) && r.unwrap().events@.len() == 0;
    if !spec_from_target(&initiator_state, &state_change) {
        unchanged
    } else {
        match spec_get_lock(&channel_state.our_state, desc.secrethash) {
            None => match r {
                Err(e) => e.msg@ == "Channel does not have the transfer's lock"@,
                Ok(_) => false,
            },
            Some(lock) => if initiator_state.received_secret_request {
                unchanged
            } else {
                let t = r.unwrap();
                &&& r.is_ok()
                &&& t.channel_state == Some(channel_state)
                &&& t.events@.len() == 1
                &&& if state_change.amount@ >= desc.amount@ && state_change.expiration
                    == lock.expiration {
                    &&& t.new_state == Some(
                        InitiatorTransferState {
                            transfer_state: TransferState::SecretRevealed,
                            received_secret_request: true,
                            ..initiator_state
                        },
                    )
                    &&& t.events@[0] matches Event::SendSecretReveal(reveal) && {
                        &&& reveal.inner.recipient == desc.target
                        &&& reveal.inner.recipient_metadata == spec_route_metadata(
                            &initiator_state,
                            desc.target,
                        )
                        &&& reveal.inner.canonical_identifier.chain_identifier == 0
                        &&& reveal.inner.canonical_identifier.token_network_address@ == Seq::new(
                            20,
                            |i: int| 0u8,
                        )
                        &&& reveal.inner.canonical_identifier.channel_identifier@ == 0
                        &&& reveal.secret == desc.secret
                        &&& reveal.secrethash == desc.secrethash
                    }
                } else {
                    &&& t.new_state == Some(
                        InitiatorTransferState { received_secret_request: true, ..initiator_state },
                    )
                    &&& t.events@[0] == Event::ErrorInvalidSecretRequest(
                        ErrorInvalidSecretRequest {
                            payment_identifier: state_change.payment_identifier,
                            intended_amount: desc.amount,
                            actual_amount: state_change.amount,
                        },
                    )
                }
            },
        }
    }
}

/// Handles the target's request for the secret of a transfer we initiated.
/// A secret of this library always has its 32 bytes, so it is never the
/// absent (empty) secret.
pub fn handle_receive_secret_request(
    initiator_state: InitiatorTransferState,
    state_change: ReceiveSecretRequest,
    channel_state: ChannelState,
    pseudo_random_number_generator: &mut Random,
) -> (r: TransitionResult)
    ensures
        spec_initiator_secret_request(initiator_state, state_change, channel_state, r),
{
    let mut initiator_state = initiator_state;
    let is_message_from_target = state_change.sender.equals(
        &initiator_state.transfer_description.target,
    ) && state_change.secrethash.equals(&initiator_state.transfer_description.secrethash)
        && state_change.payment_identifier
        == initiator_state.transfer_description.payment_identifier;
    if !is_message_from_target {
        return Ok(
            InitiatorTransition {
                new_state: Some(initiator_state),
                channel_state: Some(channel_state),
                events: Vec::new(),
            },
        );
    }
    let lock = match get_lock(&channel_state.our_state, initiator_state.transfer_description.secrethash) {
        Some(lock) => lock,
        None => {
            return Err(
                StateTransitionError::from_message(
                    "Channel does not have the transfer's lock".to_string(),
                ),
            );
        },
    };
    if initiator_state.received_secret_request {
        return Ok(
            InitiatorTransition {
                new_state: Some(initiator_state),
                channel_state: Some(channel_state),
                events: Vec::new(),
            },
        );
    }
    let is_valid_secret_request = initiator_state.transfer_description.amount.at_most(
        &state_change.amount,
    ) && state_change.expiration == lock.expiration;
    let mut events: Vec<Event> = Vec::new();
    if is_valid_secret_request {
        let message_identifier = pseudo_random_number_generator.next();
        let recipient = initiator_state.transfer_description.target;
        let recipient_metadata = route_metadata(&initiator_state, recipient);
        let secret_reveal = SendSecretReveal {
            inner: SendMessageEventInner {
                recipient,
                recipient_metadata,
                canonical_identifier: canonical_identifier_unordered_queue(),
                message_identifier,
            },
            secret: initiator_state.transfer_description.secret,
            secrethash: initiator_state.transfer_description.secrethash,
        };
        initiator_state.transfer_state = TransferState::SecretRevealed;
        initiator_state.received_secret_request = true;
        events.push(Event::SendSecretReveal(secret_reveal));
    } else {
        initiator_state.received_secret_request = true;
        let invalid_request = ErrorInvalidSecretRequest {
            payment_identifier: state_change.payment_identifier,
            intended_amount: initiator_state.transfer_description.amount,
            actual_amount: state_change.amount,
        };
        events.push(Event::ErrorInvalidSecretRequest(invalid_request));
    }
    Ok(
        InitiatorTransition {
            new_state: Some(initiator_state),
            channel_state: Some(channel_state),
            events,
        },
    )
}


/// `r` is the transition that follows the unlock outcome `unlocked`, which
/// went from channel `old` to `new`: the unlock's failure, or the transfer
/// done (no longer followed), the channel `new` and the unlock's events.
pub open spec fn spec_after_unlock(
    initiator_state: InitiatorTransferState,
    old: ChannelState,
    new: ChannelState,
    secret: Secret,
    secrethash: SecretHash,
    block_number: BlockNumber,
    unlocked: Result<Vec<Event>, String>,
    r: TransitionResult,
) -> bool {
    &&& spec_unlock_lock_events(old, new, &initiator_state, secret, secrethash, block_number, unlocked)
    &&& match unlocked {
        Err(e) => match r {
            Err(err) => err.msg == e,
            Ok(_) => false,
        },
        Ok(events) => {
            &&& r.is_ok()
            &&& r.unwrap().new_state.is_none()
            &&& r.unwrap().channel_state == Some(new)
            &&& r.unwrap().events@ == events@
        },
    }
}

/// Our lock of the transfer has expired at `block_number` by its own
/// expiration.
pub open spec fn spec_transfer_lock_expired(
    initiator_state: &InitiatorTransferState,
    channel_state: &ChannelState,
    block_number: BlockNumber,
) -> bool {
    let lock = initiator_state.transfer.lock;
    spec_lock_expired(&channel_state.our_state, &lock, block_number, lock.expiration)
}

/// The outcome of `handle_receive_offchain_secret_reveal`: the secret of
/// the payment revealed by the partner of an open channel, before our lock
/// expired, unlocks the lock; anything else changes nothing.
pub open spec fn spec_initiator_offchain_reveal(
    initiator_state: InitiatorTransferState,
    state_change: ReceiveSecretReveal,
    channel_state: ChannelState,
    block_number: BlockNumber,
    r: TransitionResult,
) -> bool {
    if state_change.secrethash == initiator_state.transfer_description.secrethash
        && state_change.sender == channel_state.partner_state.address
        && channel_state.spec_status() == ChannelStatus::Opened && !spec_transfer_lock_expired(
        &initiator_state,
        &channel_state,
        block_number,
    ) {
        exists|new: ChannelState, unlocked: Result<Vec<Event>, String>|
            #[trigger] spec_after_unlock(
                initiator_state,
                channel_state,
                new,
                state_change.secret,
                state_change.secrethash,
                block_number,
                unlocked,
                r,
            )
    } else {
        &&& r.is_ok()
        &&& r.unwrap().new_state == Some(initiator_state)
        &&& r.unwrap().channel_state == Some(channel_state)
        &&& r.unwrap().events@.len() == 0
    }
}

/// Handles the secret of a transfer we initiated, revealed off chain.
pub fn handle_receive_offchain_secret_reveal(
    initiator_state: InitiatorTransferState,
    state_change: ReceiveSecretReveal,
    channel_state: ChannelState,
    pseudo_random_number_generator: &mut Random,
    block_number: BlockNumber,
) -> (r: TransitionResult)
    requires
        spec_send_unlock_defined(&channel_state, state_change.secrethash, block_number),
    ensures
        spec_initiator_offchain_reveal(initiator_state, state_change, channel_state, block_number, r),
{
    let ghost old_channel = channel_state;
    let mut channel_state = channel_state;
    let valid_reveal = state_change.secrethash.equals(&initiator_state.transfer_description.secrethash);
    let sent_by_partner = state_change.sender.equals(&channel_state.partner_state.address);
    let is_channel_open = channel_state.status() == ChannelStatus::Opened;
    let lock = initiator_state.transfer.lock;
    let expired = is_lock_expired(&channel_state.our_state, &lock, block_number, lock.expiration).is_ok();
    if valid_reveal && is_channel_open && sent_by_partner && !expired {
        let unlocked = events_for_unlock_lock(
            &initiator_state,
            &mut channel_state,
            state_change.secret,
            state_change.secrethash,
            pseudo_random_number_generator,
            block_number,
        );
        let ghost u = unlocked;
        let ghost new_channel = channel_state;
        let r = match unlocked {
            Err(e) => Err(StateTransitionError::from_message(e)),
            Ok(events) => Ok(
                InitiatorTransition {
                    new_state: None,
                    channel_state: Some(channel_state),
                    events,
                },
            ),
        };
        assert(spec_after_unlock(
            initiator_state,
            old_channel,
            new_channel,
            state_change.secret,
            state_change.secrethash,
            block_number,
            u,
            r,
        ));
        return r;
    }
    Ok(
        InitiatorTransition {
            new_state: Some(initiator_state),
            channel_state: Some(channel_state),
            events: Vec::new(),
        },
    )
}

/// The outcome of `handle_receive_onchain_secret_reveal`: the secret of the
/// payment, registered on chain before our lock expired, is registered in
/// the channel; if the channel is open and the lock has not expired at
/// `block_number`, the lock is unlocked.
pub open spec fn spec_initiator_onchain_reveal(
    initiator_state: InitiatorTransferState,
    state_change: ContractReceiveSecretReveal,
    channel_state: ChannelState,
    block_number: BlockNumber,
    r: TransitionResult,
) -> bool {
    let secrethash = initiator_state.transfer_description.secrethash;
    let unlocked = spec_reveal_unlocks(&initiator_state, &state_change);
    exists|registered: ChannelState|
        #[trigger] spec_onchain_step(
            channel_state,
            registered,
            state_change,
            unlocked,
        ) && if unlocked && channel_state.spec_status() == ChannelStatus::Opened
            && !spec_transfer_lock_expired(&initiator_state, &registered, block_number) {
            exists|new: ChannelState, result: Result<Vec<Event>, String>|
                #[trigger] spec_after_unlock(
                    initiator_state,
                    registered,
                    new,
                    state_change.secret,
                    secrethash,
                    block_number,
                    result,
                    r,
                )
        } else {
            &&& r.is_ok()
            &&& r.unwrap().new_state == Some(initiator_state)
            &&& r.unwrap().channel_state == Some(registered)
            &&& r.unwrap().events@.len() == 0
        }
}

/// The secret registered on chain is the payment's, in time for our lock.
pub open spec fn spec_reveal_unlocks(
    initiator_state: &InitiatorTransferState,
    state_change: &ContractReceiveSecretReveal,
) -> bool {
    &&& state_change.secrethash == initiator_state.transfer_description.secrethash
    &&& !(state_change.block_number > initiator_state.transfer.lock.expiration)
}

/// `registered` is `channel_state` with the on-chain secret registered
/// where `unlocked`, and unchanged otherwise.
pub open spec fn spec_onchain_step(
    channel_state: ChannelState,
    registered: ChannelState,
    state_change: ContractReceiveSecretReveal,
    unlocked: bool,
) -> bool {
    if unlocked {
        spec_onchain_secret_registered_channel(
            registered,
            channel_state,
            state_change.secret,
            state_change.secrethash,
            state_change.block_number,
            true,
        )
    } else {
        registered == channel_state
    }
}

/// What `handle_receive_onchain_secret_reveal` needs: the unlock of our
/// lock, after the registration, is defined.
pub open spec fn spec_initiator_onchain_reveal_defined(
    initiator_state: &InitiatorTransferState,
    state_change: &ContractReceiveSecretReveal,
    channel_state: &ChannelState,
    block_number: BlockNumber,
) -> bool {
    let secrethash = initiator_state.transfer_description.secrethash;
    let unlocked = spec_reveal_unlocks(initiator_state, state_change);
    forall|registered: ChannelState|
        #[trigger] spec_onchain_step(*channel_state, registered, *state_change, unlocked)
            ==> spec_send_unlock_defined(&registered, secrethash, block_number)
}

/// Handles the secret of a transfer we initiated, registered on chain.
pub fn handle_receive_onchain_secret_reveal(
    initiator_state: InitiatorTransferState,
    state_change: ContractReceiveSecretReveal,
    channel_state: ChannelState,
    pseudo_random_number_generator: &mut Random,
    block_number: BlockNumber,
) -> (r: TransitionResult)
    requires
        spec_initiator_onchain_reveal_defined(&initiator_state, &state_change, &channel_state, block_number),
    ensures
        spec_initiator_onchain_reveal(initiator_state, state_change, channel_state, block_number, r),
{
    let ghost old_channel = channel_state;
    let mut channel_state = channel_state;
    let secrethash = initiator_state.transfer_description.secrethash;
    let is_valid_secret = state_change.secrethash.equals(&secrethash);
    let is_channel_open = channel_state.status() == ChannelStatus::Opened;
    let is_lock_expired_on_chain = state_change.block_number > initiator_state.transfer.lock.expiration;
    let is_lock_unlocked = is_valid_secret && !is_lock_expired_on_chain;
    if is_lock_unlocked {
        register_onchain_secret(
            &mut channel_state,
            state_change.secret,
            state_change.secrethash,
            state_change.block_number,
            true,
        );
    }
    let ghost registered = channel_state;
    assert(is_lock_unlocked == spec_reveal_unlocks(&initiator_state, &state_change));
    assert(spec_onchain_step(
        old_channel,
        registered,
        state_change,
        spec_reveal_unlocks(&initiator_state, &state_change),
    ));
    let lock = initiator_state.transfer.lock;
    let expired = is_lock_expired(&channel_state.our_state, &lock, block_number, lock.expiration).is_ok();
    if is_lock_unlocked && is_channel_open && !expired {
        let unlocked = events_for_unlock_lock(
            &initiator_state,
            &mut channel_state,
            state_change.secret,
            secrethash,
            pseudo_random_number_generator,
            block_number,
        );
        let ghost u = unlocked;
        let ghost new_channel = channel_state;
        let r = match unlocked {
            Err(e) => Err(StateTransitionError::from_message(e)),
            Ok(events) => Ok(
                InitiatorTransition {
                    new_state: None,
                    channel_state: Some(channel_state),
                    events,
                },
            ),
        };
        assert(spec_after_unlock(
            initiator_state,
            registered,
            new_channel,
            state_change.secret,
            secrethash,
            block_number,
            u,
            r,
        ));
        return r;
    }
    Ok(
        InitiatorTransition {
            new_state: Some(initiator_state),
            channel_state: Some(channel_state),
            events: Vec::new(),
        },
    )
}

/// What the initiator's `state_transition` needs.
pub open spec fn spec_initiator_transition_defined(
    initiator_state: &InitiatorTransferState,
    state_change: &StateChange,
    channel_state: &ChannelState,
    block_number: BlockNumber,
) -> bool {
    match *state_change {
        StateChange::Block(_) => spec_initiator_block_defined(initiator_state, channel_state),
        StateChange::ReceiveSecretReveal(inner) => spec_send_unlock_defined(
            channel_state,
            inner.secrethash,
            block_number,
        ),
        StateChange::ContractReceiveSecretReveal(inner) => spec_initiator_onchain_reveal_defined(
            initiator_state,
            &inner,
            channel_state,
            block_number,
        ),
        _ => true,
    }
}

/// The outcome of the initiator's `state_transition`: blocks, secret
/// reveals and secret requests go to their handlers; other state changes
/// leave the transfer and the channel as they are.
pub open spec fn spec_initiator_transition(
    initiator_state: InitiatorTransferState,
    state_change: StateChange,
    channel_state: ChannelState,
    block_number: BlockNumber,
    r: TransitionResult,
) -> bool {
    match state_change {
        StateChange::Block(inner) => spec_initiator_block(initiator_state, inner, channel_state, r),
        StateChange::ReceiveSecretReveal(inner) => spec_initiator_offchain_reveal(
            initiator_state,
            inner,
            channel_state,
            block_number,
            r,
        ),
        StateChange::ReceiveSecretRequest(inner) => spec_initiator_secret_request(
            initiator_state,
            inner,
            channel_state,
            r,
        ),
        StateChange::ContractReceiveSecretReveal(inner) => spec_initiator_onchain_reveal(
            initiator_state,
            inner,
            channel_state,
            block_number,
            r,
        ),
        _ => {
            &&& r.is_ok()
            &&& r.unwrap().new_state == Some(initiator_state)
            &&& r.unwrap().channel_state == Some(channel_state)
            &&& r.unwrap().events@.len() == 0
        },
    }
}

/// Applies a state change to a transfer we initiated, over its channel.
pub fn state_transition(
    initiator_state: InitiatorTransferState,
    state_change: StateChange,
    channel_state: ChannelState,
    pseudo_random_number_generator: &mut Random,
    block_number: BlockNumber,
) -> (r: TransitionResult)
    requires
        spec_initiator_transition_defined(&initiator_state, &state_change, &channel_state, block_number),
    ensures
        spec_initiator_transition(initiator_state, state_change, channel_state, block_number, r),
{
    match state_change {
        StateChange::Block(inner) => handle_block(
            initiator_state,
            inner,
            channel_state,
            pseudo_random_number_generator,
        ),
        StateChange::ReceiveSecretReveal(inner) => handle_receive_offchain_secret_reveal(
            initiator_state,
            inner,
            channel_state,
            pseudo_random_number_generator,
            block_number,
        ),
        StateChange::ReceiveSecretRequest(inner) => handle_receive_secret_request(
            initiator_state,
            inner,
            channel_state,
            pseudo_random_number_generator,
        ),
        StateChange::ContractReceiveSecretReveal(inner) => handle_receive_onchain_secret_reveal(
            initiator_state,
            inner,
            channel_state,
            pseudo_random_number_generator,
            block_number,
        ),
        _ => Ok(
            InitiatorTransition {
                new_state: Some(initiator_state),
                channel_state: Some(channel_state),
                events: Vec::new(),
            },
        ),
    }
}

/// The most that a payment of `amount` may cost with fees: the amount and
/// a fifth of it, the fifth taken of the product capped at the largest
/// `U256`.
pub open spec fn spec_max_amount_limit(amount: nat) -> nat {
    amount + (if amount * 20 <= u256_max() {
        amount * 20
    } else {
        u256_max()
    }) / 100
}

/// The channel through which `route` continues from us: the channel with
/// the hop after us, in the token network of the payment.
pub open spec fn spec_route_channel(
    chain_state: &ChainState,
    route: RouteState,
    description: &TransferDescriptionWithSecretState,
) -> Option<ChannelState> {
    match spec_hop_after(route.route@, chain_state.our_address) {
        Some(hop) => spec_channel_by_token_network_and_partner(
            chain_state,
            description.token_network_address,
            hop,
        ),
        None => None,
    }
}

/// What the payment costs over `route`, with the fee and its margin.
pub open spec fn spec_route_amount(
    route: RouteState,
    description: &TransferDescriptionWithSecretState,
) -> nat {
    spec_safe_amount_with_fee(description.amount@, route.estimated_fee@)
}

/// The route has a channel but costs more than the payment may.
pub open spec fn spec_route_too_expensive(
    chain_state: &ChainState,
    route: RouteState,
    description: &TransferDescriptionWithSecretState,
) -> bool {
    &&& spec_route_channel(chain_state, route, description).is_some()
    &&& spec_route_amount(route, description) > spec_max_amount_limit(description.amount@)
}

/// The route can carry the payment: its channel takes a new transfer of
/// what the payment costs over it, within the fee limit.
pub open spec fn spec_route_usable(
    chain_state: &ChainState,
    route: RouteState,
    description: &TransferDescriptionWithSecretState,
) -> bool {
    match spec_route_channel(chain_state, route, description) {
        Some(channel_state) => {
            &&& spec_route_amount(route, description) <= spec_max_amount_limit(
                description.amount@,
            )
            &&& channel_state.spec_is_usable_for_new_transfer(
                spec_route_amount(route, description),
                description.lock_timeout,
            )
        },
        None => false,
    }
}

/// The checks of a route compute without overflow.
pub open spec fn spec_route_check_defined(
    chain_state: &ChainState,
    route: RouteState,
    description: &TransferDescriptionWithSecretState,
) -> bool {
    match spec_route_channel(chain_state, route, description) {
        Some(channel_state) => {
            &&& spec_fee_margin_defined(description.amount@, route.estimated_fee@)
            &&& spec_route_amount(route, description) <= u256_max()
            &&& spec_max_amount_limit(description.amount@) <= u256_max()
            &&& spec_route_amount(route, description) <= spec_max_amount_limit(
                description.amount@,
            ) ==> {
                &&& spec_distributable_defined(
                    &channel_state.our_state,
                    &channel_state.partner_state,
                )
                &&& channel_state.reveal_timeout * 2 <= u64::MAX
            }
        },
        None => true,
    }
}

/// The position of the first usable route among the first `n` routes.
pub open spec fn spec_first_usable(
    chain_state: &ChainState,
    routes: Seq<RouteState>,
    description: &TransferDescriptionWithSecretState,
    n: int,
) -> Option<int>
    decreases n,
{
    if n <= 0 {
        None
    } else {
        match spec_first_usable(chain_state, routes, description, n - 1) {
            Some(k) => Some(k),
            None => if spec_route_usable(chain_state, routes[n - 1], description) {
                Some(n - 1)
            } else {
                None
            },
        }
    }
}

/// Some route among the first `n` has a channel but costs too much.
pub open spec fn spec_some_too_expensive(
    chain_state: &ChainState,
    routes: Seq<RouteState>,
    description: &TransferDescriptionWithSecretState,
    n: int,
) -> bool {
    exists|m: int| 0 <= m < n && spec_route_too_expensive(chain_state, #[trigger] routes[m], description)
}

/// The lock expiration of a transfer over `channel_state`.
pub open spec fn spec_route_expiration(
    chain_state: &ChainState,
    channel_state: ChannelState,
    description: &TransferDescriptionWithSecretState,
) -> int {
    spec_safe_initial_expiration(
        chain_state.block_number,
        channel_state.reveal_timeout,
        description.lock_timeout,
    )
}

/// What `try_new_route` needs: the checks of every route it looks at
/// compute without overflow, and over the route it picks the lock
/// expiration fits a block number, the lock can be sent without overflow
/// and the channel's token network is one of the node's.
pub open spec fn spec_try_new_route_defined(
    chain_state: &ChainState,
    routes: Seq<RouteState>,
    description: &TransferDescriptionWithSecretState,
) -> bool {
    &&& forall|n: int|
        0 <= n < routes.len() && spec_first_usable(chain_state, routes, description, n).is_none()
            ==> spec_route_check_defined(chain_state, #[trigger] routes[n], description)
    &&& match spec_first_usable(chain_state, routes, description, routes.len() as int) {
        Some(k) => {
            let channel_state = spec_route_channel(chain_state, routes[k], description).unwrap();
            let expiration = spec_route_expiration(chain_state, channel_state, description);
            &&& expiration <= u64::MAX
            &&& spec_lock_send_defined(
                &channel_state,
                spec_route_amount(routes[k], description),
                expiration as u64,
                description.secrethash,
            )
            &&& spec_network_position(
                chain_state,
                channel_state.canonical_identifier.token_network_address,
            ).is_some()
        },
        None => true,
    }
}

/// `new` is a copy of `old` without its first node.
pub open spec fn spec_route_advanced_copy(new: RouteState, old: RouteState) -> bool {
    &&& new.route@ == old.route@.drop_first()
    &&& new.address_to_metadata@ == old.address_to_metadata@
    &&& new.swaps@ == old.swaps@
    &&& new.estimated_fee == old.estimated_fee
}

/// `pruned` holds, in order and each without its first node, copies of the
/// routes that continue through the same hop as `selected`.
pub open spec fn spec_pruned_routes(
    pruned: Seq<RouteState>,
    routes: Seq<RouteState>,
    selected: RouteState,
    our_address: Address,
) -> bool {
    let positions = spec_same_hop_positions(
        routes,
        spec_hop_after(selected.route@, our_address),
        our_address,
    );
    &&& pruned.len() == positions.len()
    &&& forall|k: int|
        0 <= k < pruned.len() ==> spec_route_advanced_copy(#[trigger] pruned[k], routes[positions[k]])
}

/// The failure of a payment for which no route could be used.
pub open spec fn spec_no_route_failure(
    description: &TransferDescriptionWithSecretState,
    too_expensive: bool,
    e: Event,
) -> bool {
    &&& e is ErrorPaymentSentFailed
    &&& e->ErrorPaymentSentFailed_0.token_network_registry_address
        == description.token_network_registry_address
    &&& e->ErrorPaymentSentFailed_0.token_network_address == description.token_network_address
    &&& e->ErrorPaymentSentFailed_0.identifier == description.payment_identifier
    &&& e->ErrorPaymentSentFailed_0.target == description.target
    &&& e->ErrorPaymentSentFailed_0.reason@ == if too_expensive {
        "None of the available routes could be used"@
            + " and at least one of them exceeded the maximum fee limit"@
    } else {
        "None of the available routes could be used"@
    }
}

/// The outcome of `try_new_route` over route `k`: the transfer is sent over
/// a copy of the route's channel, which takes the lock and goes back into
/// the node; the initiator follows the transfer over the route.
pub open spec fn spec_route_taken(
    chain_state: ChainState,
    routes: Seq<RouteState>,
    description: TransferDescriptionWithSecretState,
    k: int,
    r: (Option<InitiatorTransferState>, ChainState, Vec<Event>),
) -> bool {
    let route = routes[k];
    let channel_state = spec_route_channel(&chain_state, route, &description).unwrap();
    let expiration = spec_route_expiration(&chain_state, channel_state, &description);
    let (initiator, new_chain, events) = r;
    &&& initiator.is_some()
    &&& events@.len() == 1
    &&& events@[0] is SendLockedTransfer
    &&& {
        let e = events@[0]->SendLockedTransfer_0;
        let s = initiator.unwrap();
        &&& e.transfer.lock.amount@ == spec_route_amount(route, &description)
        &&& exists|copy: ChannelState, sent: ChannelState, pruned: Vec<RouteState>|
            #[trigger] spec_locked_transfer_sent(
                copy,
                description.initiator,
                description.target,
                e.transfer.lock.amount,
                expiration as u64,
                description.secrethash,
                e.inner.message_identifier,
                description.payment_identifier,
                pruned,
                spec_address_metadata(channel_state.partner_state.address, routes),
                sent,
                e,
            ) && spec_channel_copy(copy, channel_state) && spec_pruned_routes(
                pruned@,
                routes,
                route,
                chain_state.our_address,
            ) && spec_channel_updated(
                new_chain,
                ChainState {
                    pseudo_random_number_generator: new_chain.pseudo_random_number_generator,
                    ..chain_state
                },
                sent,
            )
        &&& spec_route_copy(s.route, route)
        &&& s.transfer_description == description
        &&& s.channel_identifier == channel_state.canonical_identifier.channel_identifier
        &&& spec_transfer_copy(s.transfer, e.transfer)
        &&& !s.received_secret_request
        &&& s.transfer_state == TransferState::Pending
    }
}

/// The outcome of `try_new_route`: over the first usable route the
/// transfer is sent, where its channel can send the lock; without a usable
/// route the payment fails, and the reason says whether a route cost too
/// much.
pub open spec fn spec_try_new_route(
    chain_state: ChainState,
    routes: Seq<RouteState>,
    description: TransferDescriptionWithSecretState,
    r: Result<(Option<InitiatorTransferState>, ChainState, Vec<Event>), String>,
) -> bool {
    match spec_first_usable(&chain_state, routes, &description, routes.len() as int) {
        None => {
            &&& r is Ok
            &&& r->Ok_0.0.is_none()
            &&& r->Ok_0.1 == chain_state
            &&& r->Ok_0.2@.len() == 1
            &&& spec_no_route_failure(
                &description,
                spec_some_too_expensive(&chain_state, routes, &description, routes.len() as int),
                r->Ok_0.2@[0],
            )
        },
        Some(k) => {
            let channel_state = spec_route_channel(&chain_state, routes[k], &description).unwrap();
            let expiration = spec_route_expiration(&chain_state, channel_state, &description);
            &&& r.is_ok() == spec_lock_sendable(
                &channel_state,
                spec_route_amount(routes[k], &description),
                expiration as u64,
                description.secrethash,
            )
            &&& r.is_ok() ==> spec_route_taken(chain_state, routes, description, k, r->Ok_0)
        },
    }
}

proof fn lemma_hop_needs_nodes(route: Seq<Address>, address: Address)
    ensures
        spec_hop_after(route, address).is_some() ==> route.len() > 0,
{
}

/// Looks at one route: whether it can carry the payment, whether it costs
/// too much, and what the payment costs over it.
fn examine_route(
    chain_state: &ChainState,
    route_state: &RouteState,
    transfer_description: &TransferDescriptionWithSecretState,
) -> (r: (bool, bool, TokenAmount))
    requires
        spec_route_check_defined(chain_state, *route_state, transfer_description),
    ensures
        r.0 == spec_route_usable(chain_state, *route_state, transfer_description),
        r.1 == spec_route_too_expensive(chain_state, *route_state, transfer_description),
        r.0 ==> r.2@ == spec_route_amount(*route_state, transfer_description),
{
    let hop = route_state.hop_after(chain_state.our_address);
    if let Some(next_hop) = hop {
        if let Some(channel_state) = get_channel_by_token_network_and_partner(
            chain_state,
            transfer_description.token_network_address,
            next_hop,
        ) {
            let amount_with_fee = calculate_safe_amount_with_fee(
                transfer_description.amount,
                route_state.estimated_fee,
            );
            let fee_cap = transfer_description.amount.saturating_mul(U256::from_u64(20)).div(
                U256::from_u64(100),
            );
            let max_amount_limit = transfer_description.amount.add(fee_cap);
            if max_amount_limit.less_than(&amount_with_fee) {
                return (false, true, amount_with_fee);
            }
            let usable = channel_state.is_usable_for_new_transfer(
                amount_with_fee,
                transfer_description.lock_timeout,
            );
            return (usable, false, amount_with_fee);
        }
    }
    (false, false, U256::zero())
}

/// The first route that can carry the payment, with what the payment costs
/// over it; and whether a route looked at cost too much.
#[verifier::rlimit(40)]
fn select_route(
    chain_state: &ChainState,
    routes: &Vec<RouteState>,
    transfer_description: &TransferDescriptionWithSecretState,
) -> (r: (Option<(usize, TokenAmount)>, bool))
    requires
        spec_try_new_route_defined(chain_state, routes@, transfer_description),
    ensures
        match r.0 {
            Some((k, amount)) => {
                &&& spec_first_usable(chain_state, routes@, transfer_description, routes@.len() as int)
                    == Some(k as int)
                &&& amount@ == spec_route_amount(routes@[k as int], transfer_description)
            },
            None => {
                &&& spec_first_usable(
                    chain_state,
                    routes@,
                    transfer_description,
                    routes@.len() as int,
                ).is_none()
                &&& r.1 == spec_some_too_expensive(
                    chain_state,
                    routes@,
                    transfer_description,
                    routes@.len() as int,
                )
            },
        },
{
    let ghost s = routes@;
    let mut too_expensive_seen = false;
    let n = routes.len();
    let mut i: usize = 0;
    while i < n
        invariant
            i <= n,
            n == s.len(),
            s == routes@,
            spec_try_new_route_defined(chain_state, s, transfer_description),
            spec_first_usable(chain_state, s, transfer_description, i as int).is_none(),
            too_expensive_seen == spec_some_too_expensive(
                chain_state,
                s,
                transfer_description,
                i as int,
            ),
        decreases n - i,
    {
        proof {
            assert(spec_route_check_defined(chain_state, s[i as int], transfer_description));
        }
        let (usable, too_expensive, amount) = examine_route(
            chain_state,
            &routes[i],
            transfer_description,
        );
        if usable {
            proof {
                let k = i as int;
                assert(spec_first_usable(chain_state, s, transfer_description, k + 1) == Some(k));
                lemma_first_usable_stays(chain_state, s, transfer_description, k, n as int);
            }
            return (Some((i, amount)), too_expensive_seen);
        }
        proof {
            let before = spec_some_too_expensive(chain_state, s, transfer_description, i as int);
            let after = spec_some_too_expensive(chain_state, s, transfer_description, i + 1);
            if after {
                let m = choose|m: int|
                    0 <= m < i + 1 && spec_route_too_expensive(
                        chain_state,
                        #[trigger] s[m],
                        transfer_description,
                    );
                if m < i {
                    assert(before);
                } else {
                    assert(too_expensive);
                }
            }
            if too_expensive {
                assert(spec_route_too_expensive(chain_state, s[i as int], transfer_description));
                assert(after);
            }
            if before {
                let m = choose|m: int|
                    0 <= m < i && spec_route_too_expensive(
                        chain_state,
                        #[trigger] s[m],
                        transfer_description,
                    );
                assert(spec_route_too_expensive(chain_state, s[m], transfer_description));
                assert(after);
            }
        }
        too_expensive_seen = too_expensive_seen || too_expensive;
        i = i + 1;
    }
    (None, too_expensive_seen)
}

/// The failure of a payment for which no route could be used.
fn no_route_failure(
    transfer_description: &TransferDescriptionWithSecretState,
    too_expensive: bool,
) -> (r: Event)
    ensures
        spec_no_route_failure(transfer_description, too_expensive, r),
{
    let mut reason = String::from_str("None of the available routes could be used");
    if too_expensive {
        reason.append(" and at least one of them exceeded the maximum fee limit");
    }
    Event::ErrorPaymentSentFailed(
        ErrorPaymentSentFailed {
            token_network_registry_address: transfer_description.token_network_registry_address,
            token_network_address: transfer_description.token_network_address,
            identifier: transfer_description.payment_identifier,
            target: transfer_description.target,
            reason,
        },
    )
}

/// A copy of the channel through which `route_state` continues.
fn route_channel_copy(
    chain_state: &ChainState,
    route_state: &RouteState,
    transfer_description: &TransferDescriptionWithSecretState,
) -> (r: Option<ChannelState>)
    ensures
        r.is_some() == spec_route_channel(chain_state, *route_state, transfer_description).is_some(),
        r.is_some() ==> spec_channel_copy(
            r.unwrap(),
            spec_route_channel(chain_state, *route_state, transfer_description).unwrap(),
        ),
{
    match route_state.hop_after(chain_state.our_address) {
        Some(next_hop) => match get_channel_by_token_network_and_partner(
            chain_state,
            transfer_description.token_network_address,
            next_hop,
        ) {
            Some(c) => Some(copy_channel(c)),
            None => None,
        },
        None => None,
    }
}

/// Copies of the routes that continue through the same hop as
/// `route_state`, each without its first node.
fn pruned_routes(routes: &Vec<RouteState>, route_state: &RouteState, our_address: Address) -> (r: Vec<
    RouteState,
>)
    requires
        spec_hop_after(route_state.route@, our_address).is_some(),
    ensures
        spec_pruned_routes(r@, routes@, *route_state, our_address),
{
    let route_copies = copy_routes(routes);
    let selected_copy = copy_route(route_state);
    proof {
        assert forall|m: int|
            0 <= m < route_copies@.len() && spec_hop_after(
                #[trigger] route_copies@[m].route@,
                our_address,
            ) == spec_hop_after(selected_copy.route@, our_address) implies route_copies@[m].route@.len()
            > 0 by {
            lemma_hop_needs_nodes(route_copies@[m].route@, our_address);
        }
        lemma_copies_same_hop_positions(
            route_copies@,
            routes@,
            spec_hop_after(route_state.route@, our_address),
            our_address,
        );
    }
    let ghost copies = route_copies@;
    let pruned = prune_route_table(route_copies, selected_copy, our_address);
    proof {
        let positions = spec_same_hop_positions(
            routes@,
            spec_hop_after(route_state.route@, our_address),
            our_address,
        );
        lemma_positions_in_range(routes@, spec_hop_after(route_state.route@, our_address), our_address);
        assert forall|j: int| 0 <= j < pruned@.len() implies spec_route_advanced_copy(
            #[trigger] pruned@[j],
            routes@[positions[j]],
        ) by {
            assert(0 <= positions[j] < routes@.len());
            assert(spec_route_copy(copies[positions[j]], routes@[positions[j]]));
        }
    }
    pruned
}

/// Sends the transfer over route `k`, the first usable one.
#[verifier::rlimit(40)]
fn send_over_route(
    chain_state: ChainState,
    routes: &Vec<RouteState>,
    transfer_description: TransferDescriptionWithSecretState,
    k: usize,
    amount: TokenAmount,
) -> (r: Result<(Option<InitiatorTransferState>, ChainState, Vec<Event>), String>)
    requires
        spec_try_new_route_defined(&chain_state, routes@, &transfer_description),
        spec_first_usable(&chain_state, routes@, &transfer_description, routes@.len() as int)
            == Some(k as int),
        amount@ == spec_route_amount(routes@[k as int], &transfer_description),
    ensures
        ({
            let channel_state = spec_route_channel(
                &chain_state,
                routes@[k as int],
                &transfer_description,
            ).unwrap();
            let expiration = spec_route_expiration(&chain_state, channel_state, &transfer_description);
            &&& r.is_ok() == spec_lock_sendable(
                &channel_state,
                spec_route_amount(routes@[k as int], &transfer_description),
                expiration as u64,
                transfer_description.secrethash,
            )
            &&& r.is_ok() ==> spec_route_taken(
                chain_state,
                routes@,
                transfer_description,
                k as int,
                r->Ok_0,
            )
        }),
{
    let ghost initial = chain_state;
    let ghost routes_view = routes@;
    let mut chain_state = chain_state;
    let our_address = chain_state.our_address;
    proof {
        lemma_first_usable_is_usable(&initial, routes_view, &transfer_description, routes_view.len() as int);
    }
    let route_state = &routes[k];
    let ghost route = routes_view[k as int];
    let ghost chosen = spec_route_channel(&initial, route, &transfer_description).unwrap();
    let channel_state = match route_channel_copy(&chain_state, route_state, &transfer_description) {
        Some(c) => c,
        None => {
            return Err(String::new());
        },
    };
    let ghost copy = channel_state;
    let message_identifier = chain_state.pseudo_random_number_generator.next();
    let lock_expiration = get_safe_initial_expiration(
        chain_state.block_number,
        channel_state.reveal_timeout,
        transfer_description.lock_timeout,
    );
    let recipient_metadata = get_address_metadata(channel_state.partner_state.address, routes);
    let pruned = pruned_routes(routes, route_state, our_address);
    let ghost pruned_routes_value = pruned;
    proof {
        lemma_copy_sends_alike(
            channel_state,
            chosen,
            amount@,
            lock_expiration,
            transfer_description.secrethash,
        );
    }
    let sent = send_lock_to_partner(
        channel_state,
        transfer_description.initiator,
        transfer_description.target,
        amount,
        lock_expiration,
        transfer_description.secrethash,
        message_identifier,
        transfer_description.payment_identifier,
        pruned,
        recipient_metadata,
    );
    let (new_channel, event) = match sent {
        Ok(p) => p,
        Err(e) => {
            return Err(e);
        },
    };
    let ghost sent_channel = new_channel;
    let ghost sent_event = event;
    let channel_identifier = new_channel.canonical_identifier.channel_identifier;
    let transfer = copy_transfer(&event.transfer);
    let ghost description = transfer_description;
    let initiator_state = InitiatorTransferState {
        route: copy_route(route_state),
        transfer_description,
        channel_identifier,
        transfer,
        received_secret_request: false,
        transfer_state: TransferState::Pending,
    };
    let ghost before_update = chain_state;
    update_channel(&mut chain_state, new_channel);
    let events = vec![Event::SendLockedTransfer(event)];
    let r = (Some(initiator_state), chain_state, events);
    proof {
        assert(before_update == ChainState {
            pseudo_random_number_generator: chain_state.pseudo_random_number_generator,
            ..initial
        });
        assert(spec_locked_transfer_sent(
            copy,
            description.initiator,
            description.target,
            sent_event.transfer.lock.amount,
            lock_expiration,
            description.secrethash,
            sent_event.inner.message_identifier,
            description.payment_identifier,
            pruned_routes_value,
            spec_address_metadata(chosen.partner_state.address, routes_view),
            sent_channel,
            sent_event,
        ));
    }
    Ok(r)
}

/// Tries the routes in order and sends the transfer over the first one
/// whose channel can carry it within the fee limit; without one the
/// payment fails.
pub fn try_new_route(
    chain_state: ChainState,
    candidate_route_states: Vec<RouteState>,
    transfer_description: TransferDescriptionWithSecretState,
) -> (r: Result<(Option<InitiatorTransferState>, ChainState, Vec<Event>), String>)
    requires
        spec_try_new_route_defined(&chain_state, candidate_route_states@, &transfer_description),
    ensures
        spec_try_new_route(chain_state, candidate_route_states@, transfer_description, r),
{
    let (selected, too_expensive) = select_route(
        &chain_state,
        &candidate_route_states,
        &transfer_description,
    );
    match selected {
        None => {
            let failure = no_route_failure(&transfer_description, too_expensive);
            Ok((None, chain_state, vec![failure]))
        },
        Some((k, amount)) => send_over_route(
            chain_state,
            &candidate_route_states,
            transfer_description,
            k,
            amount,
        ),
    }
}

proof fn lemma_first_usable_is_usable(
    chain_state: &ChainState,
    routes: Seq<RouteState>,
    description: &TransferDescriptionWithSecretState,
    n: int,
)
    ensures
        match spec_first_usable(chain_state, routes, description, n) {
            Some(k) => 0 <= k < n && spec_route_usable(chain_state, routes[k], description)
                && spec_first_usable(chain_state, routes, description, k).is_none(),
            None => true,
        },
    decreases n,
{
    if n > 0 {
        lemma_first_usable_is_usable(chain_state, routes, description, n - 1);
    }
}

proof fn lemma_first_usable_stays(
    chain_state: &ChainState,
    routes: Seq<RouteState>,
    description: &TransferDescriptionWithSecretState,
    k: int,
    m: int,
)
    requires
        spec_first_usable(chain_state, routes, description, k + 1) == Some(k),
        k + 1 <= m,
    ensures
        spec_first_usable(chain_state, routes, description, m) == Some(k),
    decreases m - k,
{
    if m > k + 1 {
        lemma_first_usable_stays(chain_state, routes, description, k, m - 1);
    }
}

} // verus!
