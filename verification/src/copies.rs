//! Copies of the parts of the state that own vectors. A copy holds the same
//! values: the same fields, the same elements in order, the same entries
//! in order.
use vstd::prelude::*;

use crate::channel::locks::{spec_lock_send_defined, spec_lock_sendable};
use crate::map::{keys_distinct, LinearMap};
use crate::primitives::U256;
use crate::primitives::Address;
use crate::routes::{copy_route, spec_route_copy, spec_same_hop_positions};
use crate::types::state::{
    ChannelEndState, ChannelState, ExpiredWithdrawState, FeeScheduleState, LockedTransferState,
    PendingLocksState, PendingWithdrawState, RouteState, SecretHash, InitiatorPaymentState, InitiatorTransferState,
    TransferDescriptionWithSecretState,
};

verus! {

/// A copy of a vector of copyable values.
pub fn copy_vec<T: Copy>(v: &Vec<T>) -> (r: Vec<T>)
    ensures
        r@ == v@,
{
    let mut r: Vec<T> = Vec::new();
    let n = v.len();
    let mut i: usize = 0;
    while i < n
        invariant
            i <= n,
            n == v@.len(),
            r@ == v@.take(i as int),
        decreases n - i,
    {
        r.push(v[i]);
        i = i + 1;
        assert(r@ =~= v@.take(i as int));
    }
    assert(v@.take(n as int) =~= v@);
    r
}

fn copy_expired_withdraws(v: &Vec<ExpiredWithdrawState>) -> (r: Vec<ExpiredWithdrawState>)
    ensures
        r@ == v@,
{
    let mut r: Vec<ExpiredWithdrawState> = Vec::new();
    let n = v.len();
    let mut i: usize = 0;
    while i < n
        invariant
            i <= n,
            n == v@.len(),
            r@ == v@.take(i as int),
        decreases n - i,
    {
        r.push(v[i].clone());
        i = i + 1;
        assert(r@ =~= v@.take(i as int));
    }
    assert(v@.take(n as int) =~= v@);
    r
}

fn copy_pending_withdraws(m: &LinearMap<U256, PendingWithdrawState>) -> (r: LinearMap<
    U256,
    PendingWithdrawState,
>)
    ensures
        r.entries() == m.entries(),
{
    proof {
        use_type_invariant(m);
    }
    let ghost e = m.entries();
    let mut r = LinearMap::new();
    let n = m.len();
    let mut i: usize = 0;
    while i < n
        invariant
            i <= n,
            n == e.len(),
            e == m.entries(),
            keys_distinct(e),
            r.entries() == e.take(i as int),
        decreases n - i,
    {
        let (k, v) = m.entry_at(i);
        let k = *k;
        let v = v.clone();
        proof {
            if r@.contains_key(k) {
                let p = crate::map::key_pos(r.entries(), k);
                assert(e[p].0 == k);
                assert(e[i as int].0 == k);
            }
        }
        r.insert(k, v);
        i = i + 1;
        assert(r.entries() =~= e.take(i as int));
    }
    assert(e.take(n as int) =~= e);
    r
}

/// `a` is a copy of the end `b`.
pub open spec fn spec_end_copy(a: ChannelEndState, b: ChannelEndState) -> bool {
    &&& a.address == b.address
    &&& a.contract_balance == b.contract_balance
    &&& a.onchain_total_withdraw == b.onchain_total_withdraw
    &&& a.withdraws_pending.entries() == b.withdraws_pending.entries()
    &&& a.withdraws_expired@ == b.withdraws_expired@
    &&& a.initiated_coop_settle == b.initiated_coop_settle
    &&& a.expired_coop_settles@ == b.expired_coop_settles@
    &&& a.secrethashes_to_lockedlocks.entries() == b.secrethashes_to_lockedlocks.entries()
    &&& a.secrethashes_to_unlockedlocks.entries() == b.secrethashes_to_unlockedlocks.entries()
    &&& a.secrethashes_to_onchain_unlockedlocks.entries()
        == b.secrethashes_to_onchain_unlockedlocks.entries()
    &&& a.balance_proof == b.balance_proof
    &&& a.pending_locks.locks@ == b.pending_locks.locks@
    &&& a.onchain_locksroot == b.onchain_locksroot
    &&& a.nonce == b.nonce
}

/// A copy of an end of a channel.
pub fn copy_end(end: &ChannelEndState) -> (r: ChannelEndState)
    ensures
        spec_end_copy(r, *end),
{
    ChannelEndState {
        address: end.address,
        contract_balance: end.contract_balance,
        onchain_total_withdraw: end.onchain_total_withdraw,
        withdraws_pending: copy_pending_withdraws(&end.withdraws_pending),
        withdraws_expired: copy_expired_withdraws(&end.withdraws_expired),
        initiated_coop_settle: end.initiated_coop_settle,
        expired_coop_settles: copy_vec(&end.expired_coop_settles),
        secrethashes_to_lockedlocks: end.secrethashes_to_lockedlocks.copy(),
        secrethashes_to_unlockedlocks: end.secrethashes_to_unlockedlocks.copy(),
        secrethashes_to_onchain_unlockedlocks: end.secrethashes_to_onchain_unlockedlocks.copy(),
        balance_proof: end.balance_proof,
        pending_locks: PendingLocksState { locks: copy_vec(&end.pending_locks.locks) },
        onchain_locksroot: end.onchain_locksroot,
        nonce: end.nonce,
    }
}

/// `a` is a copy of the fee schedule `b`.
pub open spec fn spec_fee_schedule_copy(a: FeeScheduleState, b: FeeScheduleState) -> bool {
    &&& a.cap_fees == b.cap_fees
    &&& a.flat == b.flat
    &&& a.proportional == b.proportional
    &&& match (a.imbalance_penalty, b.imbalance_penalty) {
        (Some(x), Some(y)) => x@ == y@,
        (None, None) => true,
        _ => false,
    }
}

/// A copy of a fee schedule.
pub fn copy_fee_schedule(fees: &FeeScheduleState) -> (r: FeeScheduleState)
    ensures
        spec_fee_schedule_copy(r, *fees),
{
    FeeScheduleState {
        cap_fees: fees.cap_fees,
        flat: fees.flat,
        proportional: fees.proportional,
        imbalance_penalty: match &fees.imbalance_penalty {
            Some(points) => Some(copy_vec(points)),
            None => None,
        },
    }
}

/// `a` is a copy of the channel `b`: the same values everywhere.
pub open spec fn spec_channel_copy(a: ChannelState, b: ChannelState) -> bool {
    &&& a.canonical_identifier == b.canonical_identifier
    &&& a.token_address == b.token_address
    &&& a.token_network_registry_address == b.token_network_registry_address
    &&& a.reveal_timeout == b.reveal_timeout
    &&& a.settle_timeout == b.settle_timeout
    &&& spec_fee_schedule_copy(a.fee_schedule, b.fee_schedule)
    &&& spec_end_copy(a.our_state, b.our_state)
    &&& spec_end_copy(a.partner_state, b.partner_state)
    &&& a.open_transaction == b.open_transaction
    &&& a.close_transaction == b.close_transaction
    &&& a.settle_transaction == b.settle_transaction
    &&& a.update_transaction == b.update_transaction
}

/// A copy of a channel.
pub fn copy_channel(channel_state: &ChannelState) -> (r: ChannelState)
    ensures
        spec_channel_copy(r, *channel_state),
{
    ChannelState {
        canonical_identifier: channel_state.canonical_identifier,
        token_address: channel_state.token_address,
        token_network_registry_address: channel_state.token_network_registry_address,
        reveal_timeout: channel_state.reveal_timeout,
        settle_timeout: channel_state.settle_timeout,
        fee_schedule: copy_fee_schedule(&channel_state.fee_schedule),
        our_state: copy_end(&channel_state.our_state),
        partner_state: copy_end(&channel_state.partner_state),
        open_transaction: channel_state.open_transaction,
        close_transaction: channel_state.close_transaction,
        settle_transaction: channel_state.settle_transaction,
        update_transaction: channel_state.update_transaction,
    }
}

/// `a` holds copies of the routes of `b`, in order.
pub open spec fn spec_routes_copy(a: Seq<RouteState>, b: Seq<RouteState>) -> bool {
    &&& a.len() == b.len()
    &&& forall|i: int| 0 <= i < a.len() ==> spec_route_copy(#[trigger] a[i], b[i])
}

/// Copies of routes, in order.
pub fn copy_routes(routes: &Vec<RouteState>) -> (r: Vec<RouteState>)
    ensures
        spec_routes_copy(r@, routes@),
{
    let mut r: Vec<RouteState> = Vec::new();
    let n = routes.len();
    let mut i: usize = 0;
    while i < n
        invariant
            i <= n,
            n == routes@.len(),
            r@.len() == i,
            forall|j: int| 0 <= j < i ==> spec_route_copy(#[trigger] r@[j], routes@[j]),
        decreases n - i,
    {
        r.push(copy_route(&routes[i]));
        i = i + 1;
    }
    r
}

/// `a` is a copy of the transfer `b`.
pub open spec fn spec_transfer_copy(a: LockedTransferState, b: LockedTransferState) -> bool {
    &&& a == LockedTransferState { route_states: a.route_states, ..b }
    &&& spec_routes_copy(a.route_states@, b.route_states@)
}

/// A copy of a transfer.
pub fn copy_transfer(transfer: &LockedTransferState) -> (r: LockedTransferState)
    ensures
        spec_transfer_copy(r, *transfer),
{
    LockedTransferState {
        payment_identifier: transfer.payment_identifier,
        token: transfer.token,
        lock: transfer.lock,
        initiator: transfer.initiator,
        target: transfer.target,
        message_identifier: transfer.message_identifier,
        route_states: copy_routes(&transfer.route_states),
        balance_proof: transfer.balance_proof,
        secret: transfer.secret,
    }
}

/// A copy of a channel can send a lock exactly when the channel can, and
/// does so without overflow exactly when the channel does.
pub proof fn lemma_copy_sends_alike(
    a: ChannelState,
    b: ChannelState,
    amount: nat,
    expiration: u64,
    secrethash: SecretHash,
)
    requires
        spec_channel_copy(a, b),
    ensures
        spec_lock_sendable(&a, amount, expiration, secrethash) == spec_lock_sendable(
            &b,
            amount,
            expiration,
            secrethash,
        ),
        spec_lock_send_defined(&a, amount, expiration, secrethash) == spec_lock_send_defined(
            &b,
            amount,
            expiration,
            secrethash,
        ),
{
}

/// Copies of routes continue through the same hops as the routes.
pub proof fn lemma_copies_same_hop_positions(
    a: Seq<RouteState>,
    b: Seq<RouteState>,
    hop: Option<Address>,
    our_address: Address,
)
    requires
        spec_routes_copy(a, b),
    ensures
        spec_same_hop_positions(a, hop, our_address) == spec_same_hop_positions(b, hop, our_address),
    decreases a.len(),
{
    if a.len() > 0 {
        assert(spec_route_copy(a[a.len() - 1], b[b.len() - 1]));
        assert(spec_routes_copy(a.drop_last(), b.drop_last())) by {
            assert forall|i: int| 0 <= i < a.drop_last().len() implies spec_route_copy(
                #[trigger] a.drop_last()[i],
                b.drop_last()[i],
            ) by {
                assert(spec_route_copy(a[i], b[i]));
            }
        }
        lemma_copies_same_hop_positions(a.drop_last(), b.drop_last(), hop, our_address);
    }
}

/// A copy of a payment's description.
pub fn copy_description(d: &TransferDescriptionWithSecretState) -> (r: TransferDescriptionWithSecretState)
    ensures
        r == *d,
{
    TransferDescriptionWithSecretState {
        token_network_registry_address: d.token_network_registry_address,
        payment_identifier: d.payment_identifier,
        amount: d.amount,
        token_network_address: d.token_network_address,
        initiator: d.initiator,
        target: d.target,
        secret: d.secret,
        secrethash: d.secrethash,
        lock_timeout: d.lock_timeout,
    }
}

/// `a` is a copy of the initiator's transfer `b`.
pub open spec fn spec_initiator_copy(a: InitiatorTransferState, b: InitiatorTransferState) -> bool {
    &&& spec_route_copy(a.route, b.route)
    &&& a.transfer_description == b.transfer_description
    &&& a.channel_identifier == b.channel_identifier
    &&& spec_transfer_copy(a.transfer, b.transfer)
    &&& a.received_secret_request == b.received_secret_request
    &&& a.transfer_state == b.transfer_state
}

/// A copy of an initiator's transfer.
pub fn copy_initiator(s: &InitiatorTransferState) -> (r: InitiatorTransferState)
    ensures
        spec_initiator_copy(r, *s),
{
    InitiatorTransferState {
        route: copy_route(&s.route),
        transfer_description: copy_description(&s.transfer_description),
        channel_identifier: s.channel_identifier,
        transfer: copy_transfer(&s.transfer),
        received_secret_request: s.received_secret_request,
        transfer_state: s.transfer_state,
    }
}

/// A copy of a copy of an initiator's transfer is a copy of it.
pub proof fn lemma_initiator_copy_trans(
    a: InitiatorTransferState,
    b: InitiatorTransferState,
    c: InitiatorTransferState,
)
    requires
        spec_initiator_copy(a, b),
        spec_initiator_copy(b, c),
    ensures
        spec_initiator_copy(a, c),
{
    assert(spec_routes_copy(a.transfer.route_states@, c.transfer.route_states@)) by {
        assert forall|i: int| 0 <= i < a.transfer.route_states@.len() implies spec_route_copy(
            #[trigger] a.transfer.route_states@[i],
            c.transfer.route_states@[i],
        ) by {
            assert(spec_route_copy(a.transfer.route_states@[i], b.transfer.route_states@[i]));
            assert(spec_route_copy(b.transfer.route_states@[i], c.transfer.route_states@[i]));
        }
    }
}


/// `a` holds, in the same order and under the same keys, copies of the
/// transfers of `b`.
pub open spec fn spec_transfers_copy(
    a: LinearMap<SecretHash, InitiatorTransferState>,
    b: LinearMap<SecretHash, InitiatorTransferState>,
) -> bool {
    &&& a.entries().len() == b.entries().len()
    &&& forall|i: int|
        0 <= i < a.entries().len() ==> #[trigger] a.entries()[i].0 == b.entries()[i].0 && spec_initiator_copy(
            a.entries()[i].1,
            b.entries()[i].1,
        )
}

/// A copy of the transfers of a payment.
pub fn copy_transfers_map(m: &LinearMap<SecretHash, InitiatorTransferState>) -> (r: LinearMap<
    SecretHash,
    InitiatorTransferState,
>)
    ensures
        spec_transfers_copy(r, *m),
{
    proof {
        use_type_invariant(m);
    }
    let ghost src = m.entries();
    let mut r: LinearMap<SecretHash, InitiatorTransferState> = LinearMap::new();
    let n = m.len();
    let mut i: usize = 0;
    while i < n
        invariant
            i <= n,
            n == src.len(),
            src == m.entries(),
            keys_distinct(src),
            r.entries().len() == i,
            forall|j: int|
                0 <= j < i ==> #[trigger] r.entries()[j].0 == src[j].0 && spec_initiator_copy(
                    r.entries()[j].1,
                    src[j].1,
                ),
        decreases n - i,
    {
        let (k, v) = m.entry_at(i);
        proof {
            if r@.contains_key(*k) {
                crate::map::lemma_view_entry(r, *k);
                let j = crate::map::key_pos(r.entries(), *k);
                assert(r.entries()[j].0 == src[j].0);
                assert(false);
            }
        }
        let ghost before = r.entries();
        r.insert(*k, copy_initiator(v));
        proof {
            assert forall|j: int| 0 <= j < i + 1 implies #[trigger] r.entries()[j].0 == src[j].0
                && spec_initiator_copy(r.entries()[j].1, src[j].1) by {
                if j < i {
                    assert(r.entries()[j] == before[j]);
                }
            }
        }
        i = i + 1;
    }
    r
}

/// `a` is a copy of the payment `b`.
pub open spec fn spec_payment_copy(a: InitiatorPaymentState, b: InitiatorPaymentState) -> bool {
    &&& spec_routes_copy(a.routes@, b.routes@)
    &&& spec_transfers_copy(a.initiator_transfers, b.initiator_transfers)
    &&& a.cancelled_channels@ == b.cancelled_channels@
}

/// A copy of a payment.
pub fn copy_payment(p: &InitiatorPaymentState) -> (r: InitiatorPaymentState)
    ensures
        spec_payment_copy(r, *p),
{
    InitiatorPaymentState {
        routes: copy_routes(&p.routes),
        initiator_transfers: copy_transfers_map(&p.initiator_transfers),
        cancelled_channels: copy_vec(&p.cancelled_channels),
    }
}

} // verus!
