//! What the node hands to the channel contracts when a contract event asks
//! for a transaction: the arguments of a close, of an update of the
//! partner's transfer, of a settle, of a cooperative settle, and whether
//! an unlock after settlement gains anything.
use vstd::prelude::*;

use crate::map::{entries_map, keys_distinct, lemma_entries_map_push, lemma_prefix_distinct, LinearMap};
use crate::hashing::{
    compute_locksroot_of_no_locks, extend_bytes, locksroot_of_no_locks, pack_withdraw,
    spec_pack_withdraw,
};
use crate::primitives::{H256, U256};
use crate::types::event::{
    ContractSendChannelClose, ContractSendChannelCoopSettle, ContractSendChannelUpdateTransfer,
    Event,
};
use crate::types::state::{
    BalanceHash, BalanceProofState, CanonicalIdentifier, ChainState, ChannelEndState, ChannelState,
    HashTimeLockState, LockedAmount, Locksroot, MessageHash, Nonce, SecretHash, TokenAmount,
    PendingLocksState, UnlockPartialProofState, sum_inner_lock_amounts, sum_lock_amounts,
};
use crate::types::state_change::StateChange;
use crate::channel::views::saturate;
use crate::primitives::Signature;

verus! {

/// The arguments of a close transaction besides the partner's address.
pub struct CloseArguments {
    pub nonce: Nonce,
    pub balance_hash: BalanceHash,
    pub signature: Vec<u8>,
    pub message_hash: MessageHash,
    pub canonical_identifier: CanonicalIdentifier,
}

/// Thirty-two zero bytes.
pub open spec fn zero_hash() -> Seq<u8> {
    Seq::new(32, |i: int| 0u8)
}

/// The close arguments of `event`: those of the partner's balance proof,
/// where there is one (an absent signature gives no bytes, an absent
/// message hash the zero hash); else zeros, a signature of 65 zero bytes
/// and the channel of the event.
pub open spec fn spec_close_arguments(event: ContractSendChannelClose, r: CloseArguments) -> bool {
    match event.balance_proof {
        Some(bp) => {
            &&& r.nonce == bp.nonce
            &&& r.balance_hash == bp.balance_hash
            &&& r.signature@ == match bp.signature {
                Some(sig) => sig@,
                None => Seq::<u8>::empty(),
            }
            &&& match bp.message_hash {
                Some(h) => r.message_hash == h,
                None => r.message_hash@ == zero_hash(),
            }
            &&& r.canonical_identifier == bp.canonical_identifier
        },
        None => {
            &&& r.nonce@ == 0
            &&& r.balance_hash@ == zero_hash()
            &&& r.signature@ == Seq::new(65, |i: int| 0u8)
            &&& r.message_hash@ == zero_hash()
            &&& r.canonical_identifier == event.canonical_identifier
        },
    }
}

/// The arguments with which the node closes the channel of `event`.
pub fn close_arguments(event: &ContractSendChannelClose) -> (r: CloseArguments)
    ensures
        spec_close_arguments(*event, r),
{
    match event.balance_proof {
        Some(bp) => {
            let mut signature: Vec<u8> = Vec::new();
            if let Some(sig) = bp.signature {
                extend_bytes(&mut signature, sig.bytes.as_slice());
            }
            assert(signature@ =~= match bp.signature {
                Some(sig) => sig@,
                None => Seq::<u8>::empty(),
            });
            let message_hash = match bp.message_hash {
                Some(h) => h,
                None => H256::zero(),
            };
            CloseArguments {
                nonce: bp.nonce,
                balance_hash: bp.balance_hash,
                signature,
                message_hash,
                canonical_identifier: bp.canonical_identifier,
            }
        },
        None => {
            let zeros = [0u8; 65];
            let mut signature: Vec<u8> = Vec::new();
            extend_bytes(&mut signature, zeros.as_slice());
            assert(signature@ =~= Seq::new(65, |i: int| 0u8));
            CloseArguments {
                nonce: U256::zero(),
                balance_hash: H256::zero(),
                signature,
                message_hash: H256::zero(),
                canonical_identifier: event.canonical_identifier,
            }
        },
    }
}

/// The update of the partner's transfer needs the partner's signature and
/// the message hash of its balance proof.
pub open spec fn spec_update_transfer_arguments(
    event: ContractSendChannelUpdateTransfer,
    r: Result<(Signature, MessageHash), String>,
) -> bool {
    match (event.balance_proof.signature, event.balance_proof.message_hash) {
        (Some(sig), Some(h)) => r == Ok::<(Signature, MessageHash), String>((sig, h)),
        (None, _) => r is Err && r->Err_0@ == "Channel update transfer: Partner signature is not set"@,
        (Some(_), None) => r is Err && r->Err_0@ == "Channel update transfer: Message hash is not set"@,
    }
}

/// The partner's signature and the message hash with which the node
/// updates the partner's transfer on chain, or why it cannot.
pub fn update_transfer_arguments(event: &ContractSendChannelUpdateTransfer) -> (r: Result<
    (Signature, MessageHash),
    String,
>)
    ensures
        spec_update_transfer_arguments(*event, r),
{
    let signature = match event.balance_proof.signature {
        Some(sig) => sig,
        None => {
            return Err("Channel update transfer: Partner signature is not set".to_string());
        },
    };
    let message_hash = match event.balance_proof.message_hash {
        Some(h) => h,
        None => {
            return Err("Channel update transfer: Message hash is not set".to_string());
        },
    };
    Ok((signature, message_hash))
}

/// The data that the two withdraw signatures of a cooperative settle sign:
/// ours first, then the partner's.
pub fn coop_settle_withdraw_data(
    event: &ContractSendChannelCoopSettle,
    channel_state: &ChannelState,
) -> (r: (Vec<u8>, Vec<u8>))
    ensures
        r.0@ == spec_pack_withdraw(
            event.canonical_identifier,
            channel_state.our_state.address,
            event.our_total_withdraw@,
            event.expiration,
        ),
        r.1@ == spec_pack_withdraw(
            event.canonical_identifier,
            channel_state.partner_state.address,
            event.partner_total_withdraw@,
            event.expiration,
        ),
{
    let ours = pack_withdraw(
        event.canonical_identifier,
        channel_state.our_state.address,
        event.our_total_withdraw,
        event.expiration,
    );
    let partners = pack_withdraw(
        event.canonical_identifier,
        channel_state.partner_state.address,
        event.partner_total_withdraw,
        event.expiration,
    );
    (ours, partners)
}

/// What a settle transaction says of one end of the channel.
#[derive(Clone, Copy, Debug)]
pub struct SettleAmounts {
    pub transferred_amount: TokenAmount,
    pub locked_amount: LockedAmount,
    pub locksroot: Locksroot,
}

/// The balance proof that an event the node emitted carries, if any.
pub open spec fn spec_event_balance_proof(event: &Event) -> Option<BalanceProofState> {
    match event {
        Event::SendLockedTransfer(inner) => Some(inner.transfer.balance_proof),
        Event::SendLockExpired(inner) => Some(inner.balance_proof),
        Event::SendUnlock(inner) => Some(inner.balance_proof),
        Event::ContractSendChannelClose(inner) => inner.balance_proof,
        Event::ContractSendChannelUpdateTransfer(inner) => Some(inner.balance_proof),
        _ => None,
    }
}

/// An event that the node stores with a balance proof: a close event
/// always has one.
pub open spec fn spec_event_record_valid(event: &Event) -> bool {
    event matches Event::ContractSendChannelClose(inner) ==> inner.balance_proof.is_some()
}

/// The balance proof that an event the node emitted carries, if any.
pub fn event_balance_proof(event: &Event) -> (r: Option<BalanceProofState>)
    ensures
        r == spec_event_balance_proof(event),
{
    match event {
        Event::SendLockedTransfer(inner) => Some(inner.transfer.balance_proof),
        Event::SendLockExpired(inner) => Some(inner.balance_proof),
        Event::SendUnlock(inner) => Some(inner.balance_proof),
        Event::ContractSendChannelClose(inner) => inner.balance_proof,
        Event::ContractSendChannelUpdateTransfer(inner) => Some(inner.balance_proof),
        _ => None,
    }
}

/// The balance proof that a state change the node received carries, if any.
pub open spec fn spec_state_change_balance_proof(state_change: &StateChange) -> Option<
    BalanceProofState,
> {
    match state_change {
        StateChange::ActionInitMediator(inner) => Some(inner.balance_proof),
        StateChange::ActionInitTarget(inner) => Some(inner.balance_proof),
        StateChange::ActionTransferReroute(inner) => Some(inner.transfer.balance_proof),
        StateChange::ReceiveTransferCancelRoute(inner) => Some(inner.transfer.balance_proof),
        StateChange::ReceiveLockExpired(inner) => Some(inner.balance_proof),
        StateChange::ReceiveTransferRefund(inner) => Some(inner.balance_proof),
        StateChange::ReceiveUnlock(inner) => Some(inner.balance_proof),
        _ => None,
    }
}

/// The balance proof that a state change the node received carries, if any.
pub fn state_change_balance_proof(state_change: &StateChange) -> (r: Option<BalanceProofState>)
    ensures
        r == spec_state_change_balance_proof(state_change),
{
    match state_change {
        StateChange::ActionInitMediator(inner) => Some(inner.balance_proof),
        StateChange::ActionInitTarget(inner) => Some(inner.balance_proof),
        StateChange::ActionTransferReroute(inner) => Some(inner.transfer.balance_proof),
        StateChange::ReceiveTransferCancelRoute(inner) => Some(inner.transfer.balance_proof),
        StateChange::ReceiveLockExpired(inner) => Some(inner.balance_proof),
        StateChange::ReceiveTransferRefund(inner) => Some(inner.balance_proof),
        StateChange::ReceiveUnlock(inner) => Some(inner.balance_proof),
        _ => None,
    }
}

/// The settle amounts of a balance proof.
pub open spec fn spec_settle_amounts_of(bp: BalanceProofState, r: SettleAmounts) -> bool {
    &&& r.transferred_amount == bp.transferred_amount
    &&& r.locked_amount == bp.locked_amount
    &&& r.locksroot == bp.locksroot
}

/// The settle amounts of an end that never sent a balance proof.
pub open spec fn spec_no_settle_amounts(r: SettleAmounts) -> bool {
    &&& r.transferred_amount@ == 0
    &&& r.locked_amount@ == 0
    &&& r.locksroot@ == locksroot_of_no_locks()
}

/// The settle amounts of an end whose balance hash on chain is
/// `onchain_balance_hash`, given what the lookup of the balance proof with
/// that hash found (`found`, looked at only where the hash is not zero).
pub open spec fn spec_settle_amounts(
    onchain_balance_hash: BalanceHash,
    found: Option<BalanceProofState>,
    found_any: bool,
    not_found: Seq<char>,
    r: Result<SettleAmounts, String>,
) -> bool {
    if onchain_balance_hash@ == zero_hash() {
        r is Ok && spec_no_settle_amounts(r->Ok_0)
    } else if !found_any {
        r is Err && r->Err_0@ == not_found
    } else {
        match found {
            Some(bp) => r is Ok && spec_settle_amounts_of(bp, r->Ok_0),
            None => r is Err && r->Err_0@
                == "Channel settle: found participant event does not contain balance proof"@,
        }
    }
}

fn settle_amounts_from(bp: Option<BalanceProofState>) -> (r: Result<SettleAmounts, String>)
    ensures
        match bp {
            Some(bp) => r is Ok && spec_settle_amounts_of(bp, r->Ok_0),
            None => r is Err && r->Err_0@
                == "Channel settle: found participant event does not contain balance proof"@,
        },
{
    match bp {
        Some(bp) => Ok(
            SettleAmounts {
                transferred_amount: bp.transferred_amount,
                locked_amount: bp.locked_amount,
                locksroot: bp.locksroot,
            },
        ),
        None => Err("Channel settle: found participant event does not contain balance proof".to_string()),
    }
}

fn no_settle_amounts() -> (r: SettleAmounts)
    ensures
        spec_no_settle_amounts(r),
{
    SettleAmounts {
        transferred_amount: U256::zero(),
        locked_amount: U256::zero(),
        locksroot: compute_locksroot_of_no_locks(),
    }
}

/// Our settle amounts: zero where no balance proof of ours is on chain,
/// else those of the stored event that carries it (`stored`, what the
/// lookup by the balance hash found).
pub fn our_settle_amounts(onchain_balance_hash: BalanceHash, stored: Option<&Event>) -> (r: Result<
    SettleAmounts,
    String,
>)
    requires
        stored matches Some(event) ==> spec_event_record_valid(event),
    ensures
        spec_settle_amounts(
            onchain_balance_hash,
            match stored {
                Some(event) => spec_event_balance_proof(event),
                None => None,
            },
            stored.is_some(),
            "Channel settle: Our balance proof could not be found in the database"@,
            r,
        ),
{
    let zero = H256::zero();
    if onchain_balance_hash.equals(&zero) {
        return Ok(no_settle_amounts());
    }
    proof {
        if onchain_balance_hash@ == zero_hash() {
            assert(onchain_balance_hash.bytes =~= zero.bytes);
        }
    }
    match stored {
        None => Err("Channel settle: Our balance proof could not be found in the database".to_string()),
        Some(event) => settle_amounts_from(event_balance_proof(event)),
    }
}

/// The partner's settle amounts: zero where no balance proof of the
/// partner is on chain, else those of the stored state change that carries
/// it (`stored`, what the lookup by the balance hash found).
pub fn partner_settle_amounts(
    onchain_balance_hash: BalanceHash,
    stored: Option<&StateChange>,
) -> (r: Result<SettleAmounts, String>)
    ensures
        spec_settle_amounts(
            onchain_balance_hash,
            match stored {
                Some(state_change) => spec_state_change_balance_proof(state_change),
                None => None,
            },
            stored.is_some(),
            "Channel settle: Partner balance proof could not be found in the database"@,
            r,
        ),
{
    let zero = H256::zero();
    if onchain_balance_hash.equals(&zero) {
        return Ok(no_settle_amounts());
    }
    proof {
        if onchain_balance_hash@ == zero_hash() {
            assert(onchain_balance_hash.bytes =~= zero.bytes);
        }
    }
    match stored {
        None => Err("Channel settle: Partner balance proof could not be found in the database".to_string()),
        Some(state_change) => settle_amounts_from(state_change_balance_proof(state_change)),
    }
}

/// Which stored records a batch unlock looks up: our events where our
/// locksroot on chain has locks, the partner's state changes where the
/// partner's has.
pub fn batch_unlock_lookups(channel_state: &ChannelState) -> (r: (bool, bool))
    ensures
        r.0 == (channel_state.our_state.onchain_locksroot@ != locksroot_of_no_locks()),
        r.1 == (channel_state.partner_state.onchain_locksroot@ != locksroot_of_no_locks()),
{
    let no_locks = compute_locksroot_of_no_locks();
    let search_events = !channel_state.our_state.onchain_locksroot.equals(&no_locks);
    let search_state_changes = !channel_state.partner_state.onchain_locksroot.equals(&no_locks);
    proof {
        if channel_state.our_state.onchain_locksroot@ == locksroot_of_no_locks() {
            assert(channel_state.our_state.onchain_locksroot.bytes =~= no_locks.bytes);
        }
        if channel_state.partner_state.onchain_locksroot@ == locksroot_of_no_locks() {
            assert(channel_state.partner_state.onchain_locksroot.bytes =~= no_locks.bytes);
        }
    }
    (search_events, search_state_changes)
}

/// The locks inside unlocked locks, by secret hash.
pub open spec fn spec_inner_locks(m: Map<SecretHash, UnlockPartialProofState>) -> Map<
    SecretHash,
    HashTimeLockState,
> {
    Map::new(|s: SecretHash| m.contains_key(s), |s: SecretHash| m[s].lock)
}

/// Sets the lock of every unlocked lock of `onchain` as locked.
fn add_inner_locks(
    locked: &mut LinearMap<SecretHash, HashTimeLockState>,
    onchain: &LinearMap<SecretHash, UnlockPartialProofState>,
)
    ensures
        final(locked)@ == old(locked)@.union_prefer_right(spec_inner_locks(onchain@)),
{
    proof {
        use_type_invariant(onchain);
    }
    let ghost start = locked@;
    let ghost e = onchain.entries();
    let n = onchain.len();
    let mut i: usize = 0;
    while i < n
        invariant
            i <= n,
            n == e.len(),
            e == onchain.entries(),
            keys_distinct(e),
            locked@ == start.union_prefer_right(spec_inner_locks(entries_map(e.subrange(0, i as int)))),
        decreases n - i,
    {
        let (k, u) = onchain.entry_at(i);
        let k = *k;
        let lock = u.lock;
        proof {
            assert(e.subrange(0, i + 1).drop_last() =~= e.subrange(0, i as int));
            lemma_prefix_distinct(e, i + 1);
            lemma_entries_map_push(e.subrange(0, i + 1));
        }
        locked.insert(k, lock);
        i = i + 1;
        proof {
            assert(locked@ =~= start.union_prefer_right(
                spec_inner_locks(entries_map(e.subrange(0, i as int))),
            ));
        }
    }
    proof {
        assert(e.subrange(0, n as int) =~= e);
    }
}

/// The locked locks of an end after settlement: the locks still locked or
/// unlocked on chain in the older state, but for those that the newer
/// state has since unlocked on chain and those of payments the node no
/// longer takes part in.
pub open spec fn spec_locked_after_settlement(
    old_end: ChannelEndState,
    new_end: ChannelEndState,
    tasks: Set<SecretHash>,
) -> Map<SecretHash, HashTimeLockState> {
    old_end.secrethashes_to_lockedlocks@.union_prefer_right(
        spec_inner_locks(old_end.secrethashes_to_onchain_unlockedlocks@),
    ).remove_keys(new_end.secrethashes_to_onchain_unlockedlocks@.dom()).restrict(tasks)
}

/// Brings an older state of an end up to date with the locks of a newer
/// one, for an unlock on chain after the channel was settled with an
/// outdated balance proof: once settled, every lock of the older balance
/// proof is locked unless its secret is registered on chain; locks
/// unlocked on chain since then count as such; and locks of payments the
/// node no longer takes part in are dropped.
pub fn update_lock_info(
    old_state: &mut ChannelEndState,
    new_state: &ChannelEndState,
    chain_state: &ChainState,
)
    ensures
        final(old_state).secrethashes_to_lockedlocks@ == spec_locked_after_settlement(
            *old(old_state),
            *new_state,
            chain_state.payment_mapping.secrethashes_to_task@.dom(),
        ),
        final(old_state).secrethashes_to_unlockedlocks@ == Map::<
            SecretHash,
            UnlockPartialProofState,
        >::empty(),
        final(old_state).secrethashes_to_onchain_unlockedlocks@ == old(old_state).secrethashes_to_onchain_unlockedlocks@.union_prefer_right(
            new_state.secrethashes_to_onchain_unlockedlocks@,
        ),
        *final(old_state) == (ChannelEndState {
            secrethashes_to_lockedlocks: final(old_state).secrethashes_to_lockedlocks,
            secrethashes_to_unlockedlocks: final(old_state).secrethashes_to_unlockedlocks,
            secrethashes_to_onchain_unlockedlocks: final(old_state).secrethashes_to_onchain_unlockedlocks,
            ..*old(old_state)
        }),
{
    let mut locked = LinearMap::new();
    core::mem::swap(&mut locked, &mut old_state.secrethashes_to_lockedlocks);
    let mut onchain = LinearMap::new();
    core::mem::swap(&mut onchain, &mut old_state.secrethashes_to_onchain_unlockedlocks);
    add_inner_locks(&mut locked, &onchain);
    locked.remove_keys_of(&new_state.secrethashes_to_onchain_unlockedlocks);
    onchain.insert_all(&new_state.secrethashes_to_onchain_unlockedlocks);
    let kept = locked.restricted_to(&chain_state.payment_mapping.secrethashes_to_task);
    old_state.secrethashes_to_lockedlocks = kept;
    old_state.secrethashes_to_unlockedlocks = LinearMap::new();
    old_state.secrethashes_to_onchain_unlockedlocks = onchain;
}

/// Some lock of `m` has a positive amount.
pub open spec fn spec_gains(m: Map<SecretHash, HashTimeLockState>) -> bool {
    exists|s: SecretHash| #[trigger] m.contains_key(s) && m[s].amount@ > 0
}

proof fn lemma_lock_sum_positive(e: Seq<(SecretHash, HashTimeLockState)>)
    ensures
        sum_lock_amounts(e) > 0 <==> exists|j: int| 0 <= j < e.len() && #[trigger] e[j].1.amount@ > 0,
    decreases e.len(),
{
    if e.len() > 0 {
        let d = e.drop_last();
        lemma_lock_sum_positive(d);
        if exists|j: int| 0 <= j < d.len() && #[trigger] d[j].1.amount@ > 0 {
            let j = choose|j: int| 0 <= j < d.len() && #[trigger] d[j].1.amount@ > 0;
            assert(e[j] == d[j]);
        }
        if exists|j: int| 0 <= j < e.len() && #[trigger] e[j].1.amount@ > 0 {
            let j = choose|j: int| 0 <= j < e.len() && #[trigger] e[j].1.amount@ > 0;
            if j < e.len() - 1 {
                assert(d[j] == e[j]);
            }
        }
    }
}

proof fn lemma_inner_sum_positive(e: Seq<(SecretHash, UnlockPartialProofState)>)
    ensures
        sum_inner_lock_amounts(e) > 0 <==> exists|j: int|
            0 <= j < e.len() && #[trigger] e[j].1.lock.amount@ > 0,
    decreases e.len(),
{
    if e.len() > 0 {
        let d = e.drop_last();
        lemma_inner_sum_positive(d);
        if exists|j: int| 0 <= j < d.len() && #[trigger] d[j].1.lock.amount@ > 0 {
            let j = choose|j: int| 0 <= j < d.len() && #[trigger] d[j].1.lock.amount@ > 0;
            assert(e[j] == d[j]);
        }
        if exists|j: int| 0 <= j < e.len() && #[trigger] e[j].1.lock.amount@ > 0 {
            let j = choose|j: int| 0 <= j < e.len() && #[trigger] e[j].1.lock.amount@ > 0;
            if j < e.len() - 1 {
                assert(d[j] == e[j]);
            }
        }
    }
}

/// The saturating sum of the amounts of the locked locks of `m` is
/// positive exactly when some lock of `m` has a positive amount.
fn locked_gain(m: &LinearMap<SecretHash, HashTimeLockState>) -> (r: bool)
    ensures
        r == spec_gains(m@),
{
    proof {
        use_type_invariant(m);
    }
    let ghost e = m.entries();
    let mut acc = U256::zero();
    let n = m.len();
    let mut i: usize = 0;
    while i < n
        invariant
            i <= n,
            n == e.len(),
            e == m.entries(),
            acc@ == saturate(sum_lock_amounts(e.subrange(0, i as int))),
        decreases n - i,
    {
        let (_, lock) = m.entry_at(i);
        proof {
            assert(e.subrange(0, i + 1).drop_last() =~= e.subrange(0, i as int));
        }
        acc = acc.saturating_add(lock.amount);
        i = i + 1;
    }
    proof {
        assert(e.subrange(0, n as int) =~= e);
        lemma_lock_sum_positive(e);
        if exists|j: int| 0 <= j < e.len() && #[trigger] e[j].1.amount@ > 0 {
            let j = choose|j: int| 0 <= j < e.len() && #[trigger] e[j].1.amount@ > 0;
            let s = e[j].0;
            assert(crate::map::has_key(e, s));
            let p = crate::map::key_pos(e, s);
            assert(e[p].0 == s);
            assert(p == j);
            assert(m@.contains_key(s) && m@[s].amount@ > 0);
        }
        if spec_gains(m@) {
            let s = choose|s: SecretHash| #[trigger] m@.contains_key(s) && m@[s].amount@ > 0;
            let p = crate::map::key_pos(e, s);
            assert(e[p].1.amount@ > 0);
        }
    }
    !acc.is_zero()
}

/// The saturating sum of the amounts of the locks inside the unlocked
/// locks of `m` is positive exactly when one of them has a positive amount.
fn unlocked_gain(m: &LinearMap<SecretHash, UnlockPartialProofState>) -> (r: bool)
    ensures
        r == spec_gains(spec_inner_locks(m@)),
{
    proof {
        use_type_invariant(m);
    }
    let ghost e = m.entries();
    let mut acc = U256::zero();
    let n = m.len();
    let mut i: usize = 0;
    while i < n
        invariant
            i <= n,
            n == e.len(),
            e == m.entries(),
            acc@ == saturate(sum_inner_lock_amounts(e.subrange(0, i as int))),
        decreases n - i,
    {
        let (_, unlock) = m.entry_at(i);
        proof {
            assert(e.subrange(0, i + 1).drop_last() =~= e.subrange(0, i as int));
        }
        acc = acc.saturating_add(unlock.lock.amount);
        i = i + 1;
    }
    proof {
        assert(e.subrange(0, n as int) =~= e);
        lemma_inner_sum_positive(e);
        let locks = spec_inner_locks(m@);
        if exists|j: int| 0 <= j < e.len() && #[trigger] e[j].1.lock.amount@ > 0 {
            let j = choose|j: int| 0 <= j < e.len() && #[trigger] e[j].1.lock.amount@ > 0;
            let s = e[j].0;
            assert(crate::map::has_key(e, s));
            let p = crate::map::key_pos(e, s);
            assert(e[p].0 == s);
            assert(p == j);
            assert(locks.contains_key(s) && locks[s].amount@ > 0);
        }
        if spec_gains(locks) {
            let s = choose|s: SecretHash| #[trigger] locks.contains_key(s) && locks[s].amount@ > 0;
            let p = crate::map::key_pos(e, s);
            assert(e[p].1.lock.amount@ > 0);
        }
    }
    !acc.is_zero()
}

/// After settlement, the pending locks with which the node unlocks on
/// chain what its partner locked to it: the partner's end of `restored`
/// (the channel as it was when the partner's settled balance proof
/// arrived) is brought up to date with `current`, and the unlock is worth
/// it where some lock among those unlocked on chain has a positive amount.
pub fn partner_unlock(
    restored: ChannelState,
    current: &ChannelState,
    chain_state: &ChainState,
) -> (r: Option<PendingLocksState>)
    ensures
        r == (if spec_gains(
            spec_inner_locks(
                restored.partner_state.secrethashes_to_onchain_unlockedlocks@.union_prefer_right(
                    current.partner_state.secrethashes_to_onchain_unlockedlocks@,
                ),
            ),
        ) {
            Some(restored.partner_state.pending_locks)
        } else {
            None
        }),
{
    let mut restored = restored;
    update_lock_info(&mut restored.partner_state, &current.partner_state, chain_state);
    if unlocked_gain(&restored.partner_state.secrethashes_to_onchain_unlockedlocks) {
        Some(restored.partner_state.pending_locks)
    } else {
        None
    }
}

/// After settlement, the pending locks with which the node unlocks on
/// chain what it locked to its partner and still holds: our end of
/// `restored` (the channel as it was when our settled balance proof was
/// sent) is brought up to date with `current`, and the unlock is worth it
/// where some lock left locked has a positive amount.
pub fn our_unlock(
    restored: ChannelState,
    current: &ChannelState,
    chain_state: &ChainState,
) -> (r: Option<PendingLocksState>)
    ensures
        r == (if spec_gains(
            spec_locked_after_settlement(
                restored.our_state,
                current.our_state,
                chain_state.payment_mapping.secrethashes_to_task@.dom(),
            ),
        ) {
            Some(restored.our_state.pending_locks)
        } else {
            None
        }),
{
    let mut restored = restored;
    update_lock_info(&mut restored.our_state, &current.our_state, chain_state);
    if locked_gain(&restored.our_state.secrethashes_to_lockedlocks) {
        Some(restored.our_state.pending_locks)
    } else {
        None
    }
}

/// How a payment we sent ended, as the node's registry of payments records
/// it.
pub enum PaymentStatus {
    Success(crate::primitives::Address, crate::types::state::PaymentIdentifier),
    Error(crate::primitives::Address, crate::types::state::PaymentIdentifier, String),
}

/// The outcome of a payment that an event reports, if it reports one: a
/// payment sent reports success to its target, a failed payment its
/// failure with the reason.
pub open spec fn spec_payment_status(e: &Event, r: Option<PaymentStatus>) -> bool {
    match e {
        Event::PaymentSentSuccess(inner) => r == Some(PaymentStatus::Success(inner.target, inner.identifier)),
        Event::ErrorPaymentSentFailed(inner) => r matches Some(PaymentStatus::Error(t, id, reason))
            && t == inner.target && id == inner.identifier && reason@ == inner.reason@,
        _ => r is None,
    }
}

/// The outcome of a payment that an event reports.
pub fn payment_status(e: &Event) -> (r: Option<PaymentStatus>)
    ensures
        spec_payment_status(e, r),
{
    match e {
        Event::PaymentSentSuccess(inner) => Some(PaymentStatus::Success(inner.target, inner.identifier)),
        Event::ErrorPaymentSentFailed(inner) => Some(
            PaymentStatus::Error(inner.target, inner.identifier, inner.reason.clone()),
        ),
        _ => None,
    }
}

} // verus!
