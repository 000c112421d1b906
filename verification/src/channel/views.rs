//! Views over one end of a channel: nonces, balances, locks and expirations.
use vstd::prelude::*;

use crate::hashing::{compute_locksroot_of_no_locks, locksroot_of_no_locks};
use crate::map::LinearMap;
use crate::primitives::{u256_max, U256};
use crate::types::state::{
    sum_lock_amounts, sum_unlock_amounts, BlockExpiration, BlockNumber, BlockTimeout,
    ChannelEndState, HashTimeLockState, LockedAmount, Locksroot, Nonce, RevealTimeout,
    SecretHash, TokenAmount, UnlockPartialProofState,
};

verus! {

/// `x`, or the largest `U256` when `x` exceeds it.
pub open spec fn saturate(x: nat) -> nat {
    if x <= u256_max() {
        x
    } else {
        u256_max()
    }
}

/// Returns the next usable nonce.
pub fn get_next_nonce(end_state: &ChannelEndState) -> (r: Nonce)
    requires
        end_state.nonce@ < u256_max(),
    ensures
        r@ == end_state.nonce@ + 1,
{
    end_state.nonce.add(U256::one())
}

/// The sender's balance, counting its withdraws or not.
pub open spec fn spec_balance(
    sender: &ChannelEndState,
    receiver: &ChannelEndState,
    subtract_withdraw: bool,
) -> int {
    sender.contract_balance@ + receiver.spec_transferred() - (if subtract_withdraw {
        sender.spec_total_withdraw()
    } else {
        0
    }) - sender.spec_transferred()
}

/// The computation of `balance` neither overflows nor goes negative.
pub open spec fn spec_balance_with_defined(
    sender: &ChannelEndState,
    receiver: &ChannelEndState,
    subtract_withdraw: bool,
) -> bool {
    &&& sender.contract_balance@ + receiver.spec_transferred() <= u256_max()
    &&& spec_balance(sender, receiver, subtract_withdraw) >= 0
}

/// Returns the sender's total balance in the channel state.
pub fn balance(sender: &ChannelEndState, receiver: &ChannelEndState, subtract_withdraw: bool) -> (r:
    TokenAmount)
    requires
        spec_balance_with_defined(sender, receiver, subtract_withdraw),
    ensures
        r@ == spec_balance(sender, receiver, subtract_withdraw),
{
    let mut sender_transferred_amount = U256::zero();
    let mut receiver_transferred_amount = U256::zero();
    if let Some(sender_balance_proof) = &sender.balance_proof {
        sender_transferred_amount = sender_balance_proof.transferred_amount;
    }
    if let Some(receiver_balance_proof) = &receiver.balance_proof {
        receiver_transferred_amount = receiver_balance_proof.transferred_amount;
    }
    let max_withdraw = sender.offchain_total_withdraw().max(sender.onchain_total_withdraw);
    let withdraw = if subtract_withdraw {
        max_withdraw
    } else {
        U256::zero()
    };
    sender.contract_balance.add(receiver_transferred_amount).sub(withdraw).sub(
        sender_transferred_amount,
    )
}

/// The largest total withdraw of `sender`: everything it holds.
pub open spec fn spec_max_withdraw_amount(
    sender: &ChannelEndState,
    receiver: &ChannelEndState,
) -> int {
    spec_balance(sender, receiver, false)
}

/// Calculates the maximum "total_withdraw_amount" for a channel.
pub fn get_max_withdraw_amount(sender_state: &ChannelEndState, receiver_state: &ChannelEndState) -> (r:
    TokenAmount)
    requires
        spec_balance_with_defined(sender_state, receiver_state, false),
    ensures
        r@ == spec_max_withdraw_amount(sender_state, receiver_state),
{
    balance(sender_state, receiver_state, false)
}

/// The expiration of a new lock or withdraw.
pub open spec fn spec_safe_initial_expiration(
    block_number: BlockNumber,
    reveal_timeout: RevealTimeout,
    lock_timeout: Option<BlockTimeout>,
) -> int {
    match lock_timeout {
        Some(t) => block_number + t,
        None => block_number + reveal_timeout * 2,
    }
}

/// Returns the number of blocks that is safe to wait for lock expiration.
pub fn get_safe_initial_expiration(
    block_number: BlockNumber,
    reveal_timeout: RevealTimeout,
    lock_timeout: Option<BlockTimeout>,
) -> (r: BlockNumber)
    requires
        spec_safe_initial_expiration(block_number, reveal_timeout, lock_timeout) <= u64::MAX,
    ensures
        r == spec_safe_initial_expiration(block_number, reveal_timeout, lock_timeout),
{
    if let Some(lock_timeout) = lock_timeout {
        return block_number + lock_timeout;
    }
    block_number + (reveal_timeout * 2)
}

/// The locked amount of an end, each kind of lock summed with saturation.
pub open spec fn spec_amount_locked(e: &ChannelEndState) -> nat {
    saturate(sum_lock_amounts(e.secrethashes_to_lockedlocks.entries())) + saturate(
        sum_unlock_amounts(e.secrethashes_to_unlockedlocks.entries()),
    ) + saturate(sum_unlock_amounts(e.secrethashes_to_onchain_unlockedlocks.entries()))
}

fn saturating_sum_locked(m: &LinearMap<SecretHash, HashTimeLockState>) -> (r: U256)
    ensures
        r@ == saturate(sum_lock_amounts(m.entries())),
{
    let mut acc = U256::zero();
    let mut i: usize = 0;
    let n = m.len();
    while i < n
        invariant
            i <= n,
            n == m.entries().len(),
            acc@ == saturate(sum_lock_amounts(m.entries().subrange(0, i as int))),
        decreases n - i,
    {
        let (_, l) = m.entry_at(i);
        proof {
            let s = m.entries();
            assert(s.subrange(0, i + 1).drop_last() =~= s.subrange(0, i as int));
        }
        acc = acc.saturating_add(l.amount);
        i = i + 1;
    }
    assert(m.entries().subrange(0, n as int) =~= m.entries());
    acc
}

fn saturating_sum_unlocked(m: &LinearMap<SecretHash, UnlockPartialProofState>) -> (r: U256)
    ensures
        r@ == saturate(sum_unlock_amounts(m.entries())),
{
    let mut acc = U256::zero();
    let mut i: usize = 0;
    let n = m.len();
    while i < n
        invariant
            i <= n,
            n == m.entries().len(),
            acc@ == saturate(sum_unlock_amounts(m.entries().subrange(0, i as int))),
        decreases n - i,
    {
        let (_, l) = m.entry_at(i);
        proof {
            let s = m.entries();
            assert(s.subrange(0, i + 1).drop_last() =~= s.subrange(0, i as int));
        }
        acc = acc.saturating_add(l.amount);
        i = i + 1;
    }
    assert(m.entries().subrange(0, n as int) =~= m.entries());
    acc
}

/// Returns the total amount locked of one side of the channel.
pub fn get_amount_locked(end_state: &ChannelEndState) -> (r: LockedAmount)
    requires
        spec_amount_locked(end_state) <= u256_max(),
    ensures
        r@ == spec_amount_locked(end_state),
{
    let total_pending = saturating_sum_locked(&end_state.secrethashes_to_lockedlocks);
    let total_unclaimed = saturating_sum_unlocked(&end_state.secrethashes_to_unlockedlocks);
    let total_unclaimed_onchain = saturating_sum_unlocked(
        &end_state.secrethashes_to_onchain_unlockedlocks,
    );
    total_pending.add(total_unclaimed).add(total_unclaimed_onchain)
}

/// The locksroot, nonce, transferred and locked amounts of an end.
pub open spec fn spec_current_balance_proof(e: &ChannelEndState) -> (Seq<u8>, nat, nat, nat) {
    match e.balance_proof {
        Some(bp) => (bp.locksroot@, e.nonce@, bp.transferred_amount@, spec_amount_locked(e)),
        None => (locksroot_of_no_locks(), 0, 0, 0),
    }
}

/// The computation of the current balance proof does not overflow.
pub open spec fn spec_current_balance_proof_defined(e: &ChannelEndState) -> bool {
    e.balance_proof.is_some() ==> spec_amount_locked(e) <= u256_max()
}

/// Returns the latest balance proof of one side of the channel.
pub fn get_current_balance_proof(end_state: &ChannelEndState) -> (r: (
    Locksroot,
    Nonce,
    TokenAmount,
    LockedAmount,
))
    requires
        spec_current_balance_proof_defined(end_state),
    ensures
        (r.0@, r.1@, r.2@, r.3@) == spec_current_balance_proof(end_state),
{
    if let Some(balance_proof) = &end_state.balance_proof {
        (
            balance_proof.locksroot,
            end_state.nonce,
            balance_proof.transferred_amount,
            get_amount_locked(end_state),
        )
    } else {
        (compute_locksroot_of_no_locks(), U256::zero(), U256::zero(), U256::zero())
    }
}

/// Returns the sender's expiration threshold.
pub fn get_sender_expiration_threshold(expiration: BlockExpiration) -> (r: BlockExpiration)
    requires
        expiration + 10 <= u64::MAX,
    ensures
        r == expiration + 10,
{
    expiration + 10
}

/// Returns the receiver's expiration threshold.
pub fn get_receiver_expiration_threshold(expiration: BlockExpiration) -> (r: BlockExpiration)
    requires
        expiration + 5 <= u64::MAX,
    ensures
        r == expiration + 5,
{
    expiration + 5
}

/// The lock of `secrethash`: locked first, then unlocked off-chain, then
/// unlocked on-chain.
pub open spec fn spec_get_lock(e: &ChannelEndState, secrethash: SecretHash) -> Option<
    HashTimeLockState,
> {
    if e.secrethashes_to_lockedlocks@.contains_key(secrethash) {
        Some(e.secrethashes_to_lockedlocks@[secrethash])
    } else if e.secrethashes_to_unlockedlocks@.contains_key(secrethash) {
        Some(e.secrethashes_to_unlockedlocks@[secrethash].lock)
    } else if e.secrethashes_to_onchain_unlockedlocks@.contains_key(secrethash) {
        Some(e.secrethashes_to_onchain_unlockedlocks@[secrethash].lock)
    } else {
        None
    }
}

/// Returns the lock for a secrethash.
pub fn get_lock(end_state: &ChannelEndState, secrethash: SecretHash) -> (r: Option<HashTimeLockState>)
    ensures
        r == spec_get_lock(end_state, secrethash),
{
    if let Some(lock) = end_state.secrethashes_to_lockedlocks.get(&secrethash) {
        return Some(*lock);
    }
    if let Some(lock) = end_state.secrethashes_to_unlockedlocks.get(&secrethash) {
        return Some(lock.lock);
    }
    if let Some(lock) = end_state.secrethashes_to_onchain_unlockedlocks.get(&secrethash) {
        return Some(lock.lock);
    }
    None
}

} // verus!
