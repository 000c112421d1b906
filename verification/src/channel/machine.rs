//! The channel state machine: a state change is dispatched to its handler
//! and the resulting channel is checked for consistency.
use vstd::prelude::*;

use crate::channel::transitions::{
    handle_action_close, handle_action_coop_settle, handle_action_set_channel_reveal_timeout,
    handle_action_withdraw, handle_block, handle_channel_batch_unlock, handle_channel_closed,
    handle_channel_deposit, handle_channel_settled, handle_channel_update_transfer,
    handle_channel_withdraw, handle_receive_withdraw_confirmation, handle_receive_withdraw_expired,
    handle_receive_withdraw_request, spec_action_coop_settle_defined, spec_action_withdraw_defined,
    spec_handle_action_close, spec_handle_action_coop_settle,
    spec_handle_action_set_channel_reveal_timeout, spec_handle_action_withdraw, spec_handle_block,
    spec_handle_channel_batch_unlock, spec_handle_channel_closed, spec_handle_channel_deposit,
    spec_handle_channel_settled, spec_handle_channel_update_transfer, spec_handle_channel_withdraw,
    spec_handle_receive_withdraw_confirmation, spec_handle_receive_withdraw_expired,
    spec_handle_receive_withdraw_request, spec_withdraw_confirmation_defined,
    spec_withdraw_expired_defined, spec_withdraw_request_defined_for, expired_withdraws,
    ChannelTransition, TransitionResult,
};
use crate::channel::utils::{compute_locksroot, locks_contain, spec_locksroot};
use crate::channel::views::{
    get_amount_locked, get_current_balance_proof, spec_amount_locked, spec_current_balance_proof,
};
use crate::errors::StateTransitionError;
use crate::map::LinearMap;
use crate::primitives::{u256_max, U256};
use crate::types::random::Random;
use crate::types::state::{
    BlockHash, BlockNumber, ChannelEndState, ChannelState, ChannelStatus, EncodedLock,
    HashTimeLockState, PendingWithdrawState, SecretHash, UnlockPartialProofState,
};
use crate::types::state_change::StateChange;
use crate::views::{
    channel_balance, channel_distributable, spec_balance_defined, spec_channel_balance,
    spec_channel_distributable, spec_distributable_defined,
};

verus! {

/// The total withdraw before entry `i`: zero for the first entry.
pub open spec fn spec_previous_total(s: Seq<(U256, PendingWithdrawState)>, i: int) -> nat {
    if i == 0 {
        0
    } else {
        s[i - 1].1.total_withdraw@
    }
}

/// The pending withdraws are keyed by their total withdraw, which grows
/// strictly from one entry to the next and starts above zero.
pub open spec fn spec_withdraws_ordered(s: Seq<(U256, PendingWithdrawState)>) -> bool {
    forall|i: int|
        #![trigger s[i]]
        0 <= i < s.len() ==> {
            &&& s[i].1.total_withdraw@ > spec_previous_total(s, i)
            &&& s[i].0 == s[i].1.total_withdraw
        }
}

/// Every lock that an end keeps in its maps is among its pending locks.
pub open spec fn spec_locks_synced(e: &ChannelEndState) -> bool {
    let locks = e.pending_locks.locks@;
    &&& forall|i: int|
        0 <= i < e.secrethashes_to_lockedlocks.entries().len() ==> locks.contains(
            #[trigger] e.secrethashes_to_lockedlocks.entries()[i].1.encoded,
        )
    &&& forall|i: int|
        0 <= i < e.secrethashes_to_unlockedlocks.entries().len() ==> locks.contains(
            #[trigger] e.secrethashes_to_unlockedlocks.entries()[i].1.encoded,
        )
    &&& forall|i: int|
        0 <= i < e.secrethashes_to_onchain_unlockedlocks.entries().len() ==> locks.contains(
            #[trigger] e.secrethashes_to_onchain_unlockedlocks.entries()[i].1.encoded,
        )
}

/// Neither end has started a cooperative settlement.
pub open spec fn spec_no_coop_settle(c: &ChannelState) -> bool {
    c.our_state.initiated_coop_settle.is_none() && c.partner_state.initiated_coop_settle.is_none()
}

/// The consistency of a channel: ordered withdraws (outside a cooperative
/// settlement), the whole deposit accounted for by the two balances, locked
/// amounts and locksroots that match the balance proofs, distributable
/// amounts within the balances, and every lock among the pending locks.
pub open spec fn spec_channel_sane(c: &ChannelState) -> bool {
    let our = &c.our_state;
    let partner = &c.partner_state;
    &&& spec_no_coop_settle(c) ==> spec_withdraws_ordered(our.withdraws_pending.entries())
    &&& spec_channel_balance(our, partner) + spec_channel_balance(partner, our) == c.spec_capacity()
    &&& spec_amount_locked(partner) == spec_current_balance_proof(partner).3
    &&& spec_amount_locked(our) == spec_current_balance_proof(our).3
    &&& spec_channel_distributable(our, partner) + spec_amount_locked(our) <= spec_channel_balance(
        our,
        partner,
    )
    &&& spec_channel_distributable(partner, our) + spec_amount_locked(partner)
        <= spec_channel_balance(partner, our)
    &&& spec_locksroot(our.pending_locks.locks@) == spec_current_balance_proof(our).0
    &&& spec_locksroot(partner.pending_locks.locks@) == spec_current_balance_proof(partner).0
    &&& spec_locks_synced(partner)
    &&& spec_locks_synced(our)
}

/// The consistency checks of a channel can be computed in 256 bits; each
/// computation is asked for only where the checks before it passed.
pub open spec fn spec_sanity_defined(c: &ChannelState) -> bool {
    let our = &c.our_state;
    let partner = &c.partner_state;
    let our_balance = spec_channel_balance(our, partner);
    let partner_balance = spec_channel_balance(partner, our);
    let our_locked = spec_amount_locked(our);
    let partner_locked = spec_amount_locked(partner);
    (spec_no_coop_settle(c) ==> spec_withdraws_ordered(our.withdraws_pending.entries())) ==> {
        &&& spec_balance_defined(our, partner)
        &&& spec_balance_defined(partner, our)
        &&& our_balance + partner_balance <= u256_max()
        &&& c.spec_capacity_defined()
        &&& our_balance + partner_balance == c.spec_capacity() ==> {
            &&& our_locked <= u256_max()
            &&& partner_locked <= u256_max()
            &&& partner_locked == spec_current_balance_proof(partner).3 && our_locked
                == spec_current_balance_proof(our).3 ==> {
                &&& spec_distributable_defined(our, partner)
                &&& spec_distributable_defined(partner, our)
                &&& spec_channel_distributable(our, partner) + our_locked <= u256_max()
                &&& spec_channel_distributable(our, partner) + our_locked <= our_balance
                    ==> spec_channel_distributable(partner, our) + partner_locked <= u256_max()
            }
        }
    }
}

/// The transition leaves no channel, or a consistent one.
pub open spec fn spec_transition_sane(t: &ChannelTransition) -> bool {
    match t.new_state {
        Some(c) => spec_channel_sane(&c),
        None => true,
    }
}

/// The consistency checks of the transition's channel can be computed.
pub open spec fn spec_transition_sanity_defined(t: &ChannelTransition) -> bool {
    match t.new_state {
        Some(c) => spec_sanity_defined(&c),
        None => true,
    }
}

fn check_withdraws_ordered(m: &LinearMap<U256, PendingWithdrawState>) -> (r: Result<(), String>)
    ensures
        r.is_ok() == spec_withdraws_ordered(m.entries()),
{
    let mut previous = U256::zero();
    let mut i: usize = 0;
    let n = m.len();
    while i < n
        invariant
            i <= n,
            n == m.entries().len(),
            previous@ == spec_previous_total(m.entries(), i as int),
            forall|k: int|
                #![trigger m.entries()[k]]
                0 <= k < i ==> {
                    &&& m.entries()[k].1.total_withdraw@ > spec_previous_total(m.entries(), k)
                    &&& m.entries()[k].0 == m.entries()[k].1.total_withdraw
                },
        decreases n - i,
    {
        let (total_withdraw, withdraw_state) = m.entry_at(i);
        if withdraw_state.total_withdraw.at_most(&previous) {
            assert(!(m.entries()[i as int].1.total_withdraw@ > spec_previous_total(
                m.entries(),
                i as int,
            )));
            return Err("Total withdraws must be ordered".to_string());
        }
        if !total_withdraw.equals(&withdraw_state.total_withdraw) {
            return Err("Total withdraw mismatch".to_string());
        }
        previous = withdraw_state.total_withdraw;
        i = i + 1;
    }
    Ok(())
}

fn locked_locks_synced(m: &LinearMap<SecretHash, HashTimeLockState>, locks: &Vec<EncodedLock>) -> (r:
    bool)
    ensures
        r == forall|i: int|
            0 <= i < m.entries().len() ==> locks@.contains(#[trigger] m.entries()[i].1.encoded),
{
    let mut i: usize = 0;
    let n = m.len();
    while i < n
        invariant
            i <= n,
            n == m.entries().len(),
            forall|k: int| 0 <= k < i ==> locks@.contains(#[trigger] m.entries()[k].1.encoded),
        decreases n - i,
    {
        let (_, lock) = m.entry_at(i);
        if !locks_contain(locks, &lock.encoded) {
            return false;
        }
        i = i + 1;
    }
    true
}

fn unlocked_locks_synced(
    m: &LinearMap<SecretHash, UnlockPartialProofState>,
    locks: &Vec<EncodedLock>,
) -> (r: bool)
    ensures
        r == forall|i: int|
            0 <= i < m.entries().len() ==> locks@.contains(#[trigger] m.entries()[i].1.encoded),
{
    let mut i: usize = 0;
    let n = m.len();
    while i < n
        invariant
            i <= n,
            n == m.entries().len(),
            forall|k: int| 0 <= k < i ==> locks@.contains(#[trigger] m.entries()[k].1.encoded),
        decreases n - i,
    {
        let (_, lock) = m.entry_at(i);
        if !locks_contain(locks, &lock.encoded) {
            return false;
        }
        i = i + 1;
    }
    true
}

fn locks_synced(e: &ChannelEndState) -> (r: bool)
    ensures
        r == spec_locks_synced(e),
{
    locked_locks_synced(&e.secrethashes_to_lockedlocks, &e.pending_locks.locks)
        && unlocked_locks_synced(&e.secrethashes_to_unlockedlocks, &e.pending_locks.locks)
        && unlocked_locks_synced(&e.secrethashes_to_onchain_unlockedlocks, &e.pending_locks.locks)
}

fn check_channel(channel_state: &ChannelState) -> (r: Result<(), String>)
    requires
        spec_sanity_defined(channel_state),
    ensures
        r.is_ok() == spec_channel_sane(channel_state),
{
    let partner_state = &channel_state.partner_state;
    let our_state = &channel_state.our_state;
    let coop_settle = our_state.initiated_coop_settle.is_some()
        || partner_state.initiated_coop_settle.is_some();
    if !coop_settle {
        check_withdraws_ordered(&our_state.withdraws_pending)?;
    }
    let our_balance = channel_balance(our_state, partner_state);
    let partner_balance = channel_balance(partner_state, our_state);
    let channel_capacity = channel_state.capacity();
    if !our_balance.add(partner_balance).equals(&channel_capacity) {
        return Err("The whole deposit of the channel has to be accounted for.".to_string());
    }
    let our_locked = get_amount_locked(our_state);
    let partner_locked = get_amount_locked(partner_state);
    let (our_bp_locksroot, _, _, our_bp_locked_amount) = get_current_balance_proof(our_state);
    let (partner_bp_locksroot, _, _, partner_bp_locked_amount) = get_current_balance_proof(
        partner_state,
    );
    if !partner_locked.equals(&partner_bp_locked_amount) || !our_locked.equals(
        &our_bp_locked_amount,
    ) {
        return Err(
            "The sum of the lock's amounts, and the value of the balance proof locked_amount must be equal, otherwise settle will not reserve the proper amount of tokens.".to_string(),
        );
    }
    let our_distributable = channel_distributable(our_state, partner_state);
    let partner_distributable = channel_distributable(partner_state, our_state);
    if our_balance.less_than(&our_distributable.add(our_locked)) {
        return Err("Distributable + locked must not exceed balance (own)".to_string());
    }
    if partner_balance.less_than(&partner_distributable.add(partner_locked)) {
        return Err("Distributable + locked must not exceed balance (partner)".to_string());
    }
    let our_locksroot = compute_locksroot(&our_state.pending_locks);
    let partner_locksroot = compute_locksroot(&partner_state.pending_locks);
    proof {
        if our_locksroot@ == our_bp_locksroot@ {
            assert(our_locksroot.bytes =~= our_bp_locksroot.bytes);
        }
        if partner_locksroot@ == partner_bp_locksroot@ {
            assert(partner_locksroot.bytes =~= partner_bp_locksroot.bytes);
        }
    }
    if !our_locksroot.equals(&our_bp_locksroot) || !partner_locksroot.equals(&partner_bp_locksroot) {
        return Err(
            "The balance proof locks root must match the existing locks. Otherwise it is not possible to prove on-chain that a given lock was pending.".to_string(),
        );
    }
    if !locks_synced(partner_state) || !locks_synced(our_state) {
        return Err(
            "The lock mappings and the pending locks must be synchronised. Otherwise there is a bug.".to_string(),
        );
    }
    Ok(())
}

/// Checks the consistency of the channel that a transition leaves; a
/// transition that clears the channel passes.
pub fn sanity_check(transition: ChannelTransition) -> (r: TransitionResult)
    requires
        spec_transition_sanity_defined(&transition),
    ensures
        r.is_ok() == spec_transition_sane(&transition),
        r.is_ok() ==> r.unwrap() == transition,
{
    let checked = match &transition.new_state {
        Some(channel_state) => check_channel(channel_state),
        None => Ok(()),
    };
    match checked {
        Ok(()) => Ok(transition),
        Err(msg) => Err(StateTransitionError::from_message(msg)),
    }
}

/// What the handler of `state_change` needs to run without overflow.
pub open spec fn spec_dispatch_defined(
    channel_state: &ChannelState,
    state_change: &StateChange,
    block_number: BlockNumber,
) -> bool {
    match state_change {
        StateChange::ActionChannelWithdraw(inner) => spec_action_withdraw_defined(
            channel_state,
            inner,
            block_number,
        ),
        StateChange::ActionChannelCoopSettle(_) => spec_action_coop_settle_defined(
            channel_state,
            block_number,
        ),
        StateChange::ActionChannelSetRevealTimeout(inner) => inner.reveal_timeout * 2 <= u64::MAX,
        StateChange::Block(_) => channel_state.spec_status() == ChannelStatus::Opened
            ==> channel_state.our_state.nonce@ + expired_withdraws(
            channel_state.our_state.withdraws_pending.entries(),
            block_number,
        ).len() <= u256_max(),
        StateChange::ReceiveWithdrawRequest(inner) => spec_withdraw_request_defined_for(
            channel_state,
            inner,
            block_number,
        ),
        StateChange::ReceiveWithdrawConfirmation(inner) => spec_withdraw_confirmation_defined(
            channel_state,
            inner,
            block_number,
        ),
        StateChange::ReceiveWithdrawExpired(inner) => spec_withdraw_expired_defined(
            channel_state,
            inner,
        ),
        _ => true,
    }
}

/// The outcome of the handler of `state_change`; the state changes that a
/// channel does not handle fail.
pub open spec fn spec_dispatch(
    channel_state: ChannelState,
    state_change: StateChange,
    block_number: BlockNumber,
    block_hash: BlockHash,
    r: TransitionResult,
) -> bool {
    match state_change {
        StateChange::ActionChannelClose(inner) => spec_handle_action_close(
            channel_state,
            inner,
            block_number,
            block_hash,
            r,
        ),
        StateChange::ActionChannelWithdraw(inner) => spec_handle_action_withdraw(
            channel_state,
            inner,
            block_number,
            r,
        ),
        StateChange::ActionChannelCoopSettle(inner) => spec_handle_action_coop_settle(
            channel_state,
            inner,
            block_number,
            r,
        ),
        StateChange::ActionChannelSetRevealTimeout(inner) =>
            spec_handle_action_set_channel_reveal_timeout(channel_state, inner, r),
        StateChange::Block(inner) => spec_handle_block(channel_state, inner, block_number, r),
        StateChange::ContractReceiveChannelClosed(inner) => spec_handle_channel_closed(
            channel_state,
            inner,
            r,
        ),
        StateChange::ContractReceiveChannelSettled(inner) => spec_handle_channel_settled(
            channel_state,
            inner,
            r,
        ),
        StateChange::ContractReceiveChannelDeposit(inner) => spec_handle_channel_deposit(
            channel_state,
            inner,
            r,
        ),
        StateChange::ContractReceiveChannelWithdraw(inner) => spec_handle_channel_withdraw(
            channel_state,
            inner,
            r,
        ),
        StateChange::ContractReceiveChannelBatchUnlock(inner) => spec_handle_channel_batch_unlock(
            channel_state,
            inner,
            r,
        ),
        StateChange::ContractReceiveUpdateTransfer(inner) => spec_handle_channel_update_transfer(
            channel_state,
            inner,
            block_number,
            r,
        ),
        StateChange::ReceiveWithdrawRequest(inner) => spec_handle_receive_withdraw_request(
            channel_state,
            inner,
            block_number,
            block_hash,
            r,
        ),
        StateChange::ReceiveWithdrawConfirmation(inner) => spec_handle_receive_withdraw_confirmation(
            channel_state,
            inner,
            block_number,
            block_hash,
            r,
        ),
        StateChange::ReceiveWithdrawExpired(inner) => spec_handle_receive_withdraw_expired(
            channel_state,
            inner,
            block_number,
            r,
        ),
        _ => r.is_err(),
    }
}

/// `r` is what the consistency check makes of the handler's outcome `t`: a
/// failure stays, a consistent transition passes, another one fails.
pub open spec fn spec_checked_outcome(t: TransitionResult, r: TransitionResult) -> bool {
    match t {
        Err(_) => r == t,
        Ok(tr) => {
            &&& r.is_ok() == spec_transition_sane(&tr)
            &&& r.is_ok() ==> r == t
        },
    }
}

fn dispatch(
    channel_state: ChannelState,
    state_change: StateChange,
    block_number: BlockNumber,
    block_hash: BlockHash,
    pseudo_random_number_generator: &mut Random,
) -> (r: TransitionResult)
    requires
        spec_dispatch_defined(&channel_state, &state_change, block_number),
    ensures
        spec_dispatch(channel_state, state_change, block_number, block_hash, r),
{
    match state_change {
        StateChange::ActionChannelClose(inner) => handle_action_close(
            channel_state,
            inner,
            block_number,
            block_hash,
        ),
        StateChange::ActionChannelWithdraw(inner) => handle_action_withdraw(
            channel_state,
            inner,
            block_number,
            pseudo_random_number_generator,
        ),
        StateChange::ActionChannelCoopSettle(inner) => handle_action_coop_settle(
            channel_state,
            inner,
            block_number,
            pseudo_random_number_generator,
        ),
        StateChange::ActionChannelSetRevealTimeout(inner) => handle_action_set_channel_reveal_timeout(
            channel_state,
            inner,
        ),
        StateChange::Block(inner) => handle_block(
            channel_state,
            inner,
            block_number,
            pseudo_random_number_generator,
        ),
        StateChange::ContractReceiveChannelClosed(inner) => handle_channel_closed(
            channel_state,
            inner,
        ),
        StateChange::ContractReceiveChannelSettled(inner) => handle_channel_settled(
            channel_state,
            inner,
        ),
        StateChange::ContractReceiveChannelDeposit(inner) => handle_channel_deposit(
            channel_state,
            inner,
        ),
        StateChange::ContractReceiveChannelWithdraw(inner) => handle_channel_withdraw(
            channel_state,
            inner,
        ),
        StateChange::ContractReceiveChannelBatchUnlock(inner) => handle_channel_batch_unlock(
            channel_state,
            inner,
        ),
        StateChange::ContractReceiveUpdateTransfer(inner) => handle_channel_update_transfer(
            channel_state,
            inner,
            block_number,
        ),
        StateChange::ReceiveWithdrawRequest(inner) => handle_receive_withdraw_request(
            channel_state,
            inner,
            block_number,
            block_hash,
            pseudo_random_number_generator,
        ),
        StateChange::ReceiveWithdrawConfirmation(inner) => handle_receive_withdraw_confirmation(
            channel_state,
            inner,
            block_number,
            block_hash,
        ),
        StateChange::ReceiveWithdrawExpired(inner) => handle_receive_withdraw_expired(
            channel_state,
            inner,
            block_number,
        ),
        _ => Err(StateTransitionError::from_message("Could not transition channel".to_string())),
    }
}

/// What `state_transition` needs: the handler runs without overflow, and
/// the consistency of every channel it may leave can be computed.
pub open spec fn spec_state_transition_defined(
    channel_state: ChannelState,
    state_change: StateChange,
    block_number: BlockNumber,
    block_hash: BlockHash,
) -> bool {
    &&& spec_dispatch_defined(&channel_state, &state_change, block_number)
    &&& forall|t: TransitionResult|
        #[trigger] spec_dispatch(channel_state, state_change, block_number, block_hash, t)
            && t.is_ok() ==> spec_transition_sanity_defined(&t.unwrap())
}

/// The outcome of `state_transition`: the handler's outcome, passed through
/// the consistency check.
pub open spec fn spec_state_transition(
    channel_state: ChannelState,
    state_change: StateChange,
    block_number: BlockNumber,
    block_hash: BlockHash,
    r: TransitionResult,
) -> bool {
    exists|t: TransitionResult|
        #[trigger] spec_dispatch(channel_state, state_change, block_number, block_hash, t)
            && spec_checked_outcome(t, r)
}

/// Applies a state change to a channel and checks the consistency of the
/// channel it leaves.
pub fn state_transition(
    channel_state: ChannelState,
    state_change: StateChange,
    block_number: BlockNumber,
    block_hash: BlockHash,
    pseudo_random_number_generator: &mut Random,
) -> (r: TransitionResult)
    requires
        spec_state_transition_defined(channel_state, state_change, block_number, block_hash),
    ensures
        spec_state_transition(channel_state, state_change, block_number, block_hash, r),
{
    let ghost cs = channel_state;
    let ghost sc = state_change;
    let transition = dispatch(
        channel_state,
        state_change,
        block_number,
        block_hash,
        pseudo_random_number_generator,
    );
    let ghost t = transition;
    assert(spec_dispatch(cs, sc, block_number, block_hash, t));
    let r = match transition {
        Ok(transition) => sanity_check(transition),
        Err(e) => Err(e),
    };
    assert(spec_checked_outcome(t, r));
    r
}

} // verus!
