//! Transitions of a channel on on-chain events, blocks and our own actions.
use vstd::prelude::*;

use crate::errors::StateTransitionError;
use crate::text::with_amount;
use crate::hashing::{compute_locksroot_of_no_locks, locksroot_of_no_locks};
use crate::primitives::{u256_max, Address, H256, U256};
use crate::types::event::{
    ContractSendChannelBatchUnlock, ContractSendChannelClose, ContractSendChannelCoopSettle,
    ContractSendChannelSettle, ContractSendChannelUpdateTransfer, ContractSendEventInner,
    ErrorInvalidActionCoopSettle, ErrorInvalidActionSetRevealTimeout, ErrorInvalidActionWithdraw,
    ErrorInvalidReceivedWithdrawConfirmation, ErrorInvalidReceivedWithdrawExpired,
    ErrorInvalidReceivedWithdrawRequest, Event, SendMessageEventInner, SendProcessed,
    SendWithdrawConfirmation, SendWithdrawExpired, SendWithdrawRequest,
    canonical_identifier_unordered_queue, ContractSendChannelWithdraw,
};
use crate::channel::validators::{
    is_valid_action_coop_settle, is_valid_action_withdraw, is_valid_withdraw_confirmation,
    is_valid_withdraw_expired, is_valid_withdraw_request, spec_valid_action_coop_settle,
    spec_valid_action_withdraw, spec_valid_withdraw_confirmation, spec_valid_withdraw_expired,
    spec_valid_withdraw_request, spec_withdraw_expiration, spec_action_withdraw_refusal,
    spec_withdraw_request_refusal,
};
use crate::channel::views::{
    get_max_withdraw_amount, get_safe_initial_expiration, spec_balance_with_defined,
    spec_max_withdraw_amount,
};
use crate::types::random::Random;
use crate::types::state::{
    clone_metadata, AddressMetadata, BlockHash, BlockNumber, ChannelEndState,
    ChannelState, ChannelStatus, CoopSettleState, PendingWithdrawState, TokenAmount,
    TransactionExecutionStatus, TransactionResult,
};
use crate::types::state_change::{
    ActionChannelClose, ActionChannelCoopSettle, ActionChannelSetRevealTimeout,
    ActionChannelWithdraw, Block, ContractReceiveChannelBatchUnlock, ReceiveWithdrawConfirmation,
    ReceiveWithdrawExpired, ReceiveWithdrawRequest,
    ContractReceiveChannelClosed, ContractReceiveChannelDeposit, ContractReceiveChannelSettled,
    ContractReceiveChannelWithdraw, ContractReceiveUpdateTransfer,
};

verus! {

/// The outcome of a channel transition: the channel, unless it was
/// cleared, and the events to act on.
pub struct ChannelTransition {
    pub new_state: Option<ChannelState>,
    pub events: Vec<Event>,
}

pub type TransitionResult = Result<ChannelTransition, StateTransitionError>;

/// A transaction that finished successfully at `block_number`.
pub open spec fn spec_finished(block_number: BlockNumber) -> TransactionExecutionStatus {
    TransactionExecutionStatus {
        started_block_number: None,
        finished_block_number: Some(block_number),
        result: Some(TransactionResult::Success),
    }
}

/// A transaction that was started at `block_number`.
pub open spec fn spec_started(block_number: BlockNumber) -> TransactionExecutionStatus {
    TransactionExecutionStatus {
        started_block_number: Some(block_number),
        finished_block_number: None,
        result: None,
    }
}

/// A transaction marked as finished at `block_number`, unless it already was.
pub open spec fn spec_mark_finished(
    t: Option<TransactionExecutionStatus>,
    block_number: BlockNumber,
) -> Option<TransactionExecutionStatus> {
    match t {
        None => Some(spec_finished(block_number)),
        Some(t) => if t.finished_block_number.is_none() {
            Some(
                TransactionExecutionStatus {
                    finished_block_number: Some(block_number),
                    result: Some(TransactionResult::Success),
                    ..t
                },
            )
        } else {
            Some(t)
        },
    }
}

fn mark_finished(t: Option<TransactionExecutionStatus>, block_number: BlockNumber) -> (r: Option<
    TransactionExecutionStatus,
>)
    ensures
        r == spec_mark_finished(t, block_number),
{
    match t {
        None => Some(
            TransactionExecutionStatus {
                started_block_number: None,
                finished_block_number: Some(block_number),
                result: Some(TransactionResult::Success),
            },
        ),
        Some(t) => {
            if t.finished_block_number.is_none() {
                Some(
                    TransactionExecutionStatus {
                        started_block_number: t.started_block_number,
                        finished_block_number: Some(block_number),
                        result: Some(TransactionResult::Success),
                    },
                )
            } else {
                Some(t)
            }
        },
    }
}

/// Records the close of the channel at `block_number`.
pub fn set_closed(channel_state: ChannelState, block_number: BlockNumber) -> (r: ChannelState)
    ensures
        r == (ChannelState {
            close_transaction: spec_mark_finished(channel_state.close_transaction, block_number),
            ..channel_state
        }),
{
    let mut channel_state = channel_state;
    channel_state.close_transaction = mark_finished(channel_state.close_transaction, block_number);
    channel_state
}

/// Records the settlement of the channel at `block_number`.
pub fn set_settled(channel_state: ChannelState, block_number: BlockNumber) -> (r: ChannelState)
    ensures
        r == (ChannelState {
            settle_transaction: spec_mark_finished(channel_state.settle_transaction, block_number),
            ..channel_state
        }),
{
    let mut channel_state = channel_state;
    channel_state.settle_transaction = mark_finished(channel_state.settle_transaction, block_number);
    channel_state
}

/// Raises the deposit of an end to `contract_balance`; deposits never go down.
pub fn update_contract_balance(end_state: &mut ChannelEndState, contract_balance: TokenAmount)
    ensures
        *final(end_state) == (ChannelEndState {
            contract_balance: if contract_balance@ > old(end_state).contract_balance@ {
                contract_balance
            } else {
                old(end_state).contract_balance
            },
            ..*old(end_state)
        }),
{
    if end_state.contract_balance.less_than(&contract_balance) {
        end_state.contract_balance = contract_balance;
    }
}

/// The status is open or closing: the channel has not been closed yet.
pub open spec fn spec_prior_to_close(status: ChannelStatus) -> bool {
    status == ChannelStatus::Opened || status == ChannelStatus::Closing
}

/// The outcome of `handle_channel_closed`.
pub open spec fn spec_handle_channel_closed(
    channel_state: ChannelState,
    state_change: ContractReceiveChannelClosed,
    r: TransitionResult,
) -> bool {
    &&& r.is_ok()
    &&& ({
        let t = r.unwrap();
        let just_closed = state_change.canonical_identifier == channel_state.canonical_identifier
            && spec_prior_to_close(channel_state.spec_status());
        let closed = ChannelState {
            close_transaction: spec_mark_finished(
                channel_state.close_transaction,
                state_change.block_number,
            ),
            ..channel_state
        };
        if !just_closed {
            t.new_state == Some(channel_state) && t.events@.len() == 0
        } else {
            match channel_state.partner_state.balance_proof {
                None => t.new_state == Some(closed) && t.events@.len() == 0,
                Some(bp) => if state_change.transaction_from != channel_state.our_state.address
                    && channel_state.update_transaction.is_none() {
                    let expiration = if channel_state.settle_timeout + state_change.block_number
                        <= u64::MAX {
                        (channel_state.settle_timeout + state_change.block_number) as u64
                    } else {
                        u64::MAX
                    };
                    &&& t.new_state == Some(
                        ChannelState {
                            update_transaction: Some(spec_started(state_change.block_number)),
                            ..closed
                        },
                    )
                    &&& t.events@ == seq![
                        Event::ContractSendChannelUpdateTransfer(
                            ContractSendChannelUpdateTransfer {
                                inner: ContractSendEventInner {
                                    triggered_by_blockhash: state_change.block_hash,
                                },
                                balance_proof: bp,
                                expiration,
                            },
                        ),
                    ]
                } else {
                    t.new_state == Some(closed) && t.events@.len() == 0
                },
            }
        }
    })
}

/// The on-chain event tells that the channel was closed at `block_number`;
/// when the partner closed it and we hold a balance proof of theirs, we
/// update the transfer on chain before the settle timeout.
pub fn handle_channel_closed(channel_state: ChannelState, state_change: ContractReceiveChannelClosed) -> (r:
    TransitionResult)
    ensures
        spec_handle_channel_closed(channel_state, state_change, r),

{
    let mut events: Vec<Event> = Vec::new();
    let status = channel_state.status();
    let just_closed = state_change.canonical_identifier.equals(&channel_state.canonical_identifier)
        && (status == ChannelStatus::Opened || status == ChannelStatus::Closing);
    if just_closed {
        let mut channel_state = set_closed(channel_state, state_change.block_number);
        let balance_proof = match channel_state.partner_state.balance_proof {
            Some(bp) => bp,
            None => return Ok(ChannelTransition { new_state: Some(channel_state), events: Vec::new() }),
        };
        let call_update = !state_change.transaction_from.equals(&channel_state.our_state.address)
            && channel_state.update_transaction.is_none();
        if call_update {
            let expiration = channel_state.settle_timeout.saturating_add(state_change.block_number);
            let update = ContractSendChannelUpdateTransfer {
                inner: ContractSendEventInner { triggered_by_blockhash: state_change.block_hash },
                balance_proof,
                expiration,
            };
            channel_state.update_transaction = Some(
                TransactionExecutionStatus {
                    started_block_number: Some(state_change.block_number),
                    finished_block_number: None,
                    result: None,
                },
            );
            events.push(Event::ContractSendChannelUpdateTransfer(update));
            assert(events@ =~= seq![
                Event::ContractSendChannelUpdateTransfer(
                    ContractSendChannelUpdateTransfer {
                        inner: ContractSendEventInner {
                            triggered_by_blockhash: state_change.block_hash,
                        },
                        balance_proof,
                        expiration,
                    },
                ),
            ]);
        }
        return Ok(ChannelTransition { new_state: Some(channel_state), events });
    }
    Ok(ChannelTransition { new_state: Some(channel_state), events })
}

/// Whether `h` is the locksroot of an end without locks.
fn is_root_of_no_locks(h: &H256) -> (r: bool)
    ensures
        r == (h@ == locksroot_of_no_locks()),
{
    let empty = compute_locksroot_of_no_locks();
    proof {
        if h@ == empty@ {
            assert(h.bytes =~= empty.bytes);
        }
    }
    h.equals(&empty)
}

/// The outcome of `handle_channel_settled`.
pub open spec fn spec_handle_channel_settled(
    channel_state: ChannelState,
    state_change: ContractReceiveChannelSettled,
    r: TransitionResult,
) -> bool {
    &&& r.is_ok()
    &&& ({
        let t = r.unwrap();
        let settled = ChannelState {
            settle_transaction: spec_mark_finished(
                channel_state.settle_transaction,
                state_change.block_number,
            ),
            ..channel_state
        };
        let root = state_change.our_onchain_locksroot;
        if state_change.canonical_identifier != channel_state.canonical_identifier {
            t.new_state == Some(channel_state) && t.events@.len() == 0
        } else if root@ == locksroot_of_no_locks() {
            t.new_state.is_none() && t.events@.len() == 0
        } else {
            &&& t.new_state == Some(
                ChannelState {
                    our_state: ChannelEndState { onchain_locksroot: root, ..settled.our_state },
                    partner_state: ChannelEndState {
                        onchain_locksroot: root,
                        ..settled.partner_state
                    },
                    ..settled
                },
            )
            &&& t.events@ == seq![
                Event::ContractSendChannelBatchUnlock(
                    ContractSendChannelBatchUnlock {
                        inner: ContractSendEventInner {
                            triggered_by_blockhash: state_change.block_hash,
                        },
                        canonical_identifier: channel_state.canonical_identifier,
                        sender: channel_state.partner_state.address,
                    },
                ),
            ]
        }
    })
}

/// The on-chain event tells that the channel was settled; unless both
/// locksroots are empty, the locks still have to be unlocked on chain.
pub fn handle_channel_settled(channel_state: ChannelState, state_change: ContractReceiveChannelSettled) -> (r:
    TransitionResult)
    ensures
        spec_handle_channel_settled(channel_state, state_change, r),

{
    let mut events: Vec<Event> = Vec::new();
    if state_change.canonical_identifier.equals(&channel_state.canonical_identifier) {
        let mut channel_state = set_settled(channel_state, state_change.block_number);
        let our_locksroot = state_change.our_onchain_locksroot;
        let partner_locksroot = state_change.our_onchain_locksroot;
        let should_clear_channel = is_root_of_no_locks(&our_locksroot) && is_root_of_no_locks(&partner_locksroot);
        if should_clear_channel {
            return Ok(ChannelTransition { new_state: None, events });
        }
        channel_state.our_state.onchain_locksroot = our_locksroot;
        channel_state.partner_state.onchain_locksroot = partner_locksroot;
        events.push(
            Event::ContractSendChannelBatchUnlock(
                ContractSendChannelBatchUnlock {
                    inner: ContractSendEventInner {
                        triggered_by_blockhash: state_change.block_hash,
                    },
                    canonical_identifier: channel_state.canonical_identifier,
                    sender: channel_state.partner_state.address,
                },
            ),
        );
        return Ok(ChannelTransition { new_state: Some(channel_state), events });
    }
    Ok(ChannelTransition { new_state: Some(channel_state), events })
}

/// The deposit of the end that `participant` owns, raised to `contract_balance`.
pub open spec fn spec_after_deposit(
    channel_state: ChannelState,
    participant: Address,
    contract_balance: TokenAmount,
) -> ChannelState {
    let raise = |e: ChannelEndState|
        ChannelEndState {
            contract_balance: if contract_balance@ > e.contract_balance@ {
                contract_balance
            } else {
                e.contract_balance
            },
            ..e
        };
    if participant == channel_state.our_state.address {
        ChannelState { our_state: raise(channel_state.our_state), ..channel_state }
    } else if participant == channel_state.partner_state.address {
        ChannelState { partner_state: raise(channel_state.partner_state), ..channel_state }
    } else {
        channel_state
    }
}

/// The outcome of `handle_channel_deposit`.
pub open spec fn spec_handle_channel_deposit(
    channel_state: ChannelState,
    state_change: ContractReceiveChannelDeposit,
    r: TransitionResult,
) -> bool {
    &&& r.is_ok()
    &&& r.unwrap().new_state == Some(
        spec_after_deposit(
            channel_state,
            state_change.deposit_transaction.participant_address,
            state_change.deposit_transaction.contract_balance,
        ),
    )
    &&& r.unwrap().events@.len() == 0
}

/// The on-chain event tells the new deposit of a participant.
pub fn handle_channel_deposit(channel_state: ChannelState, state_change: ContractReceiveChannelDeposit) -> (r:
    TransitionResult)
    ensures
        spec_handle_channel_deposit(channel_state, state_change, r),

{
    let mut channel_state = channel_state;
    let participant_address = state_change.deposit_transaction.participant_address;
    let contract_balance = state_change.deposit_transaction.contract_balance;
    if participant_address.equals(&channel_state.our_state.address) {
        update_contract_balance(&mut channel_state.our_state, contract_balance);
    } else if participant_address.equals(&channel_state.partner_state.address) {
        update_contract_balance(&mut channel_state.partner_state, contract_balance);
    }
    Ok(ChannelTransition { new_state: Some(channel_state), events: Vec::new() })
}

/// `new` is `old` after an on-chain withdraw of `total_withdraw`: the
/// pending withdraw of that amount is gone and the on-chain total is set.
pub open spec fn spec_end_after_onchain_withdraw(
    new: ChannelEndState,
    old: ChannelEndState,
    total_withdraw: TokenAmount,
) -> bool {
    &&& new == ChannelEndState {
        withdraws_pending: new.withdraws_pending,
        onchain_total_withdraw: total_withdraw,
        ..old
    }
    &&& crate::map::spec_removed(new.withdraws_pending, old.withdraws_pending, total_withdraw)
}

/// The outcome of `handle_channel_withdraw`.
pub open spec fn spec_handle_channel_withdraw(
    channel_state: ChannelState,
    state_change: ContractReceiveChannelWithdraw,
    r: TransitionResult,
) -> bool {
    &&& r.is_ok()
    &&& r.unwrap().events@.len() == 0
    &&& r.unwrap().new_state.is_some()
    &&& ({
        let c = r.unwrap().new_state.unwrap();
        if state_change.participant == channel_state.our_state.address {
            &&& c == ChannelState { our_state: c.our_state, ..channel_state }
            &&& spec_end_after_onchain_withdraw(
                c.our_state,
                channel_state.our_state,
                state_change.total_withdraw,
            )
        } else if state_change.participant == channel_state.partner_state.address {
            &&& c == ChannelState { partner_state: c.partner_state, ..channel_state }
            &&& spec_end_after_onchain_withdraw(
                c.partner_state,
                channel_state.partner_state,
                state_change.total_withdraw,
            )
        } else {
            c == channel_state
        }
    })
}

/// The on-chain event tells that a participant withdrew.
pub fn handle_channel_withdraw(channel_state: ChannelState, state_change: ContractReceiveChannelWithdraw) -> (r:
    TransitionResult)
    ensures
        spec_handle_channel_withdraw(channel_state, state_change, r),

{
    let mut channel_state = channel_state;
    if !state_change.participant.equals(&channel_state.our_state.address)
        && !state_change.participant.equals(&channel_state.partner_state.address) {
        return Ok(ChannelTransition { new_state: Some(channel_state), events: Vec::new() });
    }
    if state_change.participant.equals(&channel_state.our_state.address) {
        channel_state.our_state.withdraws_pending.remove(&state_change.total_withdraw);
        channel_state.our_state.onchain_total_withdraw = state_change.total_withdraw;
    } else {
        channel_state.partner_state.withdraws_pending.remove(&state_change.total_withdraw);
        channel_state.partner_state.onchain_total_withdraw = state_change.total_withdraw;
    }
    Ok(ChannelTransition { new_state: Some(channel_state), events: Vec::new() })
}

/// The outcome of `handle_channel_batch_unlock`.
pub open spec fn spec_handle_channel_batch_unlock(
    channel_state: ChannelState,
    state_change: ContractReceiveChannelBatchUnlock,
    r: TransitionResult,
) -> bool {
    &&& r.is_ok()
    &&& r.unwrap().events@.len() == 0
    &&& ({
        let t = r.unwrap();
        if channel_state.spec_status() != ChannelStatus::Settled {
            t.new_state == Some(channel_state)
        } else {
            let our_root = if state_change.sender == channel_state.our_state.address {
                locksroot_of_no_locks()
            } else {
                channel_state.our_state.onchain_locksroot@
            };
            let partner_root = if state_change.sender != channel_state.our_state.address
                && state_change.sender == channel_state.partner_state.address {
                locksroot_of_no_locks()
            } else {
                channel_state.partner_state.onchain_locksroot@
            };
            if our_root == locksroot_of_no_locks() && partner_root == locksroot_of_no_locks() {
                t.new_state.is_none()
            } else {
                let c = t.new_state.unwrap();
                &&& t.new_state.is_some()
                &&& c == ChannelState {
                    our_state: ChannelEndState {
                        onchain_locksroot: c.our_state.onchain_locksroot,
                        ..channel_state.our_state
                    },
                    partner_state: ChannelEndState {
                        onchain_locksroot: c.partner_state.onchain_locksroot,
                        ..channel_state.partner_state
                    },
                    ..channel_state
                }
                &&& c.our_state.onchain_locksroot@ == our_root
                &&& c.partner_state.onchain_locksroot@ == partner_root
            }
        }
    })
}

/// The on-chain event tells that `sender` unlocked its locks; once both ends
/// are unlocked in a settled channel, the channel is cleared.
pub fn handle_channel_batch_unlock(
    channel_state: ChannelState,
    state_change: ContractReceiveChannelBatchUnlock,
) -> (r: TransitionResult)
    ensures
        spec_handle_channel_batch_unlock(channel_state, state_change, r),

{
    let mut channel_state = channel_state;
    if channel_state.status() == ChannelStatus::Settled {
        if state_change.sender.equals(&channel_state.our_state.address) {
            channel_state.our_state.onchain_locksroot = compute_locksroot_of_no_locks();
        } else if state_change.sender.equals(&channel_state.partner_state.address) {
            channel_state.partner_state.onchain_locksroot = compute_locksroot_of_no_locks();
        }
        let no_unlocks_left_to_do = is_root_of_no_locks(&channel_state.our_state.onchain_locksroot)
            && is_root_of_no_locks(&channel_state.partner_state.onchain_locksroot);
        if no_unlocks_left_to_do {
            return Ok(ChannelTransition { new_state: None, events: Vec::new() });
        }
    }
    Ok(ChannelTransition { new_state: Some(channel_state), events: Vec::new() })
}

/// The outcome of `handle_channel_update_transfer`.
pub open spec fn spec_handle_channel_update_transfer(
    channel_state: ChannelState,
    state_change: ContractReceiveUpdateTransfer,
    block_number: BlockNumber,
    r: TransitionResult,
) -> bool {
    &&& r.is_ok()
    &&& r.unwrap().events@.len() == 0
    &&& r.unwrap().new_state == Some(
        if state_change.canonical_identifier == channel_state.canonical_identifier {
            ChannelState { update_transaction: Some(spec_finished(block_number)), ..channel_state }
        } else {
            channel_state
        },
    )
}

/// The on-chain event tells that the partner's balance proof was registered.
pub fn handle_channel_update_transfer(
    channel_state: ChannelState,
    state_change: ContractReceiveUpdateTransfer,
    block_number: BlockNumber,
) -> (r: TransitionResult)
    ensures
        spec_handle_channel_update_transfer(channel_state, state_change, block_number, r),

{
    let mut channel_state = channel_state;
    if state_change.canonical_identifier.equals(&channel_state.canonical_identifier) {
        channel_state.update_transaction = Some(
            TransactionExecutionStatus {
                started_block_number: None,
                finished_block_number: Some(block_number),
                result: Some(TransactionResult::Success),
            },
        );
    }
    Ok(ChannelTransition { new_state: Some(channel_state), events: Vec::new() })
}

/// The outcome of `handle_action_set_channel_reveal_timeout`.
pub open spec fn spec_handle_action_set_channel_reveal_timeout(
    channel_state: ChannelState,
    state_change: ActionChannelSetRevealTimeout,
    r: TransitionResult,
) -> bool {
    &&& r.is_ok()
    &&& ({
        let t = r.unwrap();
        if state_change.reveal_timeout >= 7 && channel_state.settle_timeout
            >= state_change.reveal_timeout * 2 {
            &&& t.new_state == Some(
                ChannelState { reveal_timeout: state_change.reveal_timeout, ..channel_state },
            )
            &&& t.events@.len() == 0
        } else {
            &&& t.new_state == Some(channel_state)
            &&& t.events@.len() == 1
            &&& t.events@[0] matches Event::ErrorInvalidActionSetRevealTimeout(e)
                && e.reveal_timeout == state_change.reveal_timeout
                && e.reason@ == "Settle timeout should be at least twice as large as reveal timeout"@
        }
    })
}

/// Our request to change the reveal timeout: accepted when it is at least 7
/// and at most half the settle timeout.
pub fn handle_action_set_channel_reveal_timeout(
    channel_state: ChannelState,
    state_change: ActionChannelSetRevealTimeout,
) -> (r: TransitionResult)
    requires
        state_change.reveal_timeout * 2 <= u64::MAX,
    ensures
        spec_handle_action_set_channel_reveal_timeout(channel_state, state_change, r),

{
    let mut channel_state = channel_state;
    let double_reveal_timeout = state_change.reveal_timeout * 2;
    let is_valid_reveal_timeout = state_change.reveal_timeout >= 7 && channel_state.settle_timeout
        >= double_reveal_timeout;
    if !is_valid_reveal_timeout {
        let reason = "Settle timeout should be at least twice as large as reveal timeout";
        proof {
            reveal_strlit("Settle timeout should be at least twice as large as reveal timeout");
        }
        let mut events: Vec<Event> = Vec::new();
        events.push(
            Event::ErrorInvalidActionSetRevealTimeout(
                ErrorInvalidActionSetRevealTimeout {
                    reveal_timeout: state_change.reveal_timeout,
                    reason: reason.to_string(),
                },
            ),
        );
        return Ok(ChannelTransition { new_state: Some(channel_state), events });
    }
    channel_state.reveal_timeout = state_change.reveal_timeout;
    Ok(ChannelTransition { new_state: Some(channel_state), events: Vec::new() })
}

/// Closing fails when the channel is still to be closed and the partner's
/// latest balance proof is not signed.
pub open spec fn spec_close_fails(channel_state: &ChannelState) -> bool {
    spec_prior_to_close(channel_state.spec_status()) && match channel_state.partner_state.balance_proof {
        Some(bp) => bp.signature.is_none(),
        None => false,
    }
}

/// Starts the close of the channel with the partner's latest balance proof,
/// or with none where the partner has sent none.
pub fn events_for_close(
    channel_state: &mut ChannelState,
    block_number: BlockNumber,
    block_hash: BlockHash,
) -> (r: Result<Vec<Event>, String>)
    ensures
        r.is_err() == spec_close_fails(old(channel_state)),
        r.is_ok() ==> if spec_prior_to_close(old(channel_state).spec_status()) {
            &&& *final(channel_state) == ChannelState {
                close_transaction: Some(spec_started(block_number)),
                ..*old(channel_state)
            }
            &&& r.unwrap()@ == seq![
                Event::ContractSendChannelClose(
                    ContractSendChannelClose {
                        inner: ContractSendEventInner { triggered_by_blockhash: block_hash },
                        canonical_identifier: old(channel_state).canonical_identifier,
                        balance_proof: old(channel_state).partner_state.balance_proof,
                    },
                ),
            ]
        } else {
            &&& *final(channel_state) == *old(channel_state)
            &&& r.unwrap()@.len() == 0
        },
{
    let status = channel_state.status();
    if !(status == ChannelStatus::Opened || status == ChannelStatus::Closing) {
        return Ok(Vec::new());
    }
    channel_state.close_transaction = Some(
        TransactionExecutionStatus {
            started_block_number: Some(block_number),
            finished_block_number: None,
            result: None,
        },
    );
    let balance_proof = match channel_state.partner_state.balance_proof {
        Some(balance_proof) => {
            if balance_proof.signature.is_none() {
                return Err("Balance proof is not signed".to_string());
            }
            Some(balance_proof)
        },
        None => None,
    };
    let mut events: Vec<Event> = Vec::new();
    events.push(
        Event::ContractSendChannelClose(
            ContractSendChannelClose {
                inner: ContractSendEventInner { triggered_by_blockhash: block_hash },
                canonical_identifier: channel_state.canonical_identifier,
                balance_proof,
            },
        ),
    );
    Ok(events)
}

/// The outcome of `handle_action_close`.
pub open spec fn spec_handle_action_close(
    channel_state: ChannelState,
    state_change: ActionChannelClose,
    block_number: BlockNumber,
    block_hash: BlockHash,
    r: TransitionResult,
) -> bool {
    &&& r.is_err() == (channel_state.canonical_identifier != state_change.canonical_identifier
        || spec_close_fails(&channel_state))
    &&& r.is_ok() ==> if spec_prior_to_close(channel_state.spec_status()) {
        &&& r.unwrap().new_state == Some(
            ChannelState { close_transaction: Some(spec_started(block_number)), ..channel_state },
        )
        &&& r.unwrap().events@ == seq![
            Event::ContractSendChannelClose(
                ContractSendChannelClose {
                    inner: ContractSendEventInner { triggered_by_blockhash: block_hash },
                    canonical_identifier: channel_state.canonical_identifier,
                    balance_proof: channel_state.partner_state.balance_proof,
                },
            ),
        ]
    } else {
        &&& r.unwrap().new_state == Some(channel_state)
        &&& r.unwrap().events@.len() == 0
    }
}

/// Our request to close the channel.
pub fn handle_action_close(
    channel_state: ChannelState,
    state_change: ActionChannelClose,
    block_number: BlockNumber,
    block_hash: BlockHash,
) -> (r: TransitionResult)
    ensures
        spec_handle_action_close(channel_state, state_change, block_number, block_hash, r),

{
    let mut channel_state = channel_state;
    if !channel_state.canonical_identifier.equals(&state_change.canonical_identifier) {
        return Err(StateTransitionError::from_message("Caller must ensure the canonical IDs match".to_string()));
    }
    match events_for_close(&mut channel_state, block_number, block_hash) {
        Ok(events) => Ok(ChannelTransition { new_state: Some(channel_state), events }),
        Err(msg) => Err(StateTransitionError::from_message(msg)),
    }
}

/// The pending withdraws of `s` that have expired at `block_number`, in order.
pub open spec fn expired_withdraws(s: Seq<(U256, PendingWithdrawState)>, block_number: BlockNumber) -> Seq<
    PendingWithdrawState,
>
    decreases s.len(),
{
    if s.len() == 0 {
        Seq::empty()
    } else {
        let rest = expired_withdraws(s.drop_last(), block_number);
        if block_number >= s.last().1.spec_expiration_threshold() {
            rest.push(s.last().1)
        } else {
            rest
        }
    }
}

/// `e` tells the partner that our withdraw `w` expired, with `nonce`.
pub open spec fn spec_withdraw_expired_event(
    channel_state: &ChannelState,
    w: PendingWithdrawState,
    nonce: int,
    e: Event,
) -> bool {
    e matches Event::SendWithdrawExpired(x) && {
        &&& x.inner.recipient == channel_state.partner_state.address
        &&& x.inner.recipient_metadata == w.recipient_metadata
        &&& x.inner.canonical_identifier == channel_state.canonical_identifier
        &&& x.participant == channel_state.our_state.address
        &&& x.total_withdraw == w.total_withdraw
        &&& x.nonce@ == nonce
        &&& x.expiration == w.expiration
    }
}

/// The messages that tell the partner which of our withdraws expired; each
/// takes the next nonce.
pub fn send_expired_withdraws(
    channel_state: &ChannelState,
    block_number: BlockNumber,
    pseudo_random_number_generator: &mut Random,
) -> (r: Vec<Event>)
    requires
        channel_state.our_state.nonce@ + expired_withdraws(
            channel_state.our_state.withdraws_pending.entries(),
            block_number,
        ).len() <= u256_max(),
    ensures
        ({
            let ew = expired_withdraws(channel_state.our_state.withdraws_pending.entries(), block_number);
            &&& r@.len() == ew.len()
            &&& forall|k: int|
                0 <= k < ew.len() ==> spec_withdraw_expired_event(
                    channel_state,
                    ew[k],
                    channel_state.our_state.nonce@ + k + 1,
                    #[trigger] r@[k],
                )
        }),
{
    let mut events: Vec<Event> = Vec::new();
    let mut nonce = channel_state.our_state.nonce;
    let pending = &channel_state.our_state.withdraws_pending;
    let ghost entries = pending.entries();
    let n = pending.len();
    let mut i: usize = 0;
    while i < n
        invariant
            i <= n,
            n == entries.len(),
            entries == pending.entries(),
            pending == &channel_state.our_state.withdraws_pending,
            channel_state.our_state.nonce@ + expired_withdraws(entries, block_number).len() <= u256_max(),
            ({
                let ew = expired_withdraws(entries.subrange(0, i as int), block_number);
                &&& events@.len() == ew.len()
                &&& nonce@ == channel_state.our_state.nonce@ + ew.len()
                &&& forall|k: int|
                    0 <= k < ew.len() ==> spec_withdraw_expired_event(
                        channel_state,
                        ew[k],
                        channel_state.our_state.nonce@ + k + 1,
                        #[trigger] events@[k],
                    )
            }),
        decreases n - i,
    {
        let (_, withdraw_state) = pending.entry_at(i);
        proof {
            assert(entries.subrange(0, i + 1).drop_last() =~= entries.subrange(0, i as int));
            lemma_expired_prefix(entries, block_number, i + 1);
        }
        if withdraw_state.has_expired(block_number) {
            nonce = nonce.add(U256::one());
            let message_identifier = pseudo_random_number_generator.next();
            events.push(
                Event::SendWithdrawExpired(
                    SendWithdrawExpired {
                        inner: SendMessageEventInner {
                            recipient: channel_state.partner_state.address,
                            recipient_metadata: clone_metadata(&withdraw_state.recipient_metadata),
                            canonical_identifier: channel_state.canonical_identifier,
                            message_identifier,
                        },
                        participant: channel_state.our_state.address,
                        total_withdraw: withdraw_state.total_withdraw,
                        nonce,
                        expiration: withdraw_state.expiration,
                    },
                ),
            );
        }
        i = i + 1;
    }
    assert(entries.subrange(0, n as int) =~= entries);
    events
}

/// The expired withdraws of a prefix are no more than those of the whole.
pub proof fn lemma_expired_prefix(s: Seq<(U256, PendingWithdrawState)>, block_number: BlockNumber, k: int)
    requires
        0 <= k <= s.len(),
    ensures
        expired_withdraws(s.subrange(0, k), block_number).len() <= expired_withdraws(
            s,
            block_number,
        ).len(),
    decreases s.len(),
{
    if k < s.len() {
        assert(s.drop_last().subrange(0, k) =~= s.subrange(0, k));
        lemma_expired_prefix(s.drop_last(), block_number, k);
    } else {
        assert(s.subrange(0, k) =~= s);
    }
}

/// Handling a block fails when the channel counts as closed but the close
/// transaction has no finishing block.
pub open spec fn spec_block_fails(channel_state: &ChannelState) -> bool {
    channel_state.spec_status() == ChannelStatus::Closed && match channel_state.close_transaction {
        Some(t) => t.finished_block_number.is_none(),
        None => true,
    }
}

/// The block after which a closed channel may be settled.
pub open spec fn spec_settlement_end(channel_state: &ChannelState) -> u64 {
    let closed = channel_state.close_transaction.unwrap().finished_block_number.unwrap();
    if channel_state.settle_timeout + closed <= u64::MAX {
        (channel_state.settle_timeout + closed) as u64
    } else {
        u64::MAX
    }
}

/// The outcome of `handle_block`.
pub open spec fn spec_handle_block(
    channel_state: ChannelState,
    state_change: Block,
    block_number: BlockNumber,
    r: TransitionResult,
) -> bool {
    &&& r.is_err() == spec_block_fails(&channel_state)
    &&& r.is_ok() ==> {
        let t = r.unwrap();
        if channel_state.spec_status() == ChannelStatus::Opened {
            let ew = expired_withdraws(channel_state.our_state.withdraws_pending.entries(), block_number);
            &&& t.new_state == Some(channel_state)
            &&& t.events@.len() == ew.len()
            &&& forall|k: int|
                0 <= k < ew.len() ==> spec_withdraw_expired_event(
                    &channel_state,
                    ew[k],
                    channel_state.our_state.nonce@ + k + 1,
                    #[trigger] t.events@[k],
                )
        } else if channel_state.spec_status() == ChannelStatus::Closed
            && state_change.block_number > spec_settlement_end(&channel_state) {
            &&& t.new_state == Some(
                ChannelState {
                    settle_transaction: Some(spec_started(state_change.block_number)),
                    ..channel_state
                },
            )
            &&& t.events@ == seq![
                Event::ContractSendChannelSettle(
                    ContractSendChannelSettle {
                        inner: ContractSendEventInner {
                            triggered_by_blockhash: state_change.block_hash,
                        },
                        canonical_identifier: channel_state.canonical_identifier,
                    },
                ),
            ]
        } else {
            &&& t.new_state == Some(channel_state)
            &&& t.events@.len() == 0
        }
    }
}

/// A new block: an open channel reports our expired withdraws; a closed
/// channel whose settle timeout has passed is settled.
pub fn handle_block(
    channel_state: ChannelState,
    state_change: Block,
    block_number: BlockNumber,
    pseudo_random_number_generator: &mut Random,
) -> (r: TransitionResult)
    requires
        channel_state.spec_status() == ChannelStatus::Opened ==> channel_state.our_state.nonce@
            + expired_withdraws(channel_state.our_state.withdraws_pending.entries(), block_number).len()
            <= u256_max(),
    ensures
        spec_handle_block(channel_state, state_change, block_number, r),

{
    let mut channel_state = channel_state;
    let mut events: Vec<Event> = Vec::new();
    if channel_state.status() == ChannelStatus::Opened {
        events = send_expired_withdraws(&channel_state, block_number, pseudo_random_number_generator);
    }
    if channel_state.status() == ChannelStatus::Closed {
        let close_transaction = match channel_state.close_transaction {
            Some(transaction) => transaction,
            None => return Err(StateTransitionError::from_message("Channel is Closed but close_transaction is not set".to_string())),
        };
        let closed_block_number = match close_transaction.finished_block_number {
            Some(number) => number,
            None => return Err(StateTransitionError::from_message("Channel is Closed but close_transaction block number is missing".to_string())),
        };
        let settlement_end = channel_state.settle_timeout.saturating_add(closed_block_number);
        if state_change.block_number > settlement_end {
            channel_state.settle_transaction = Some(
                TransactionExecutionStatus {
                    started_block_number: Some(state_change.block_number),
                    finished_block_number: None,
                    result: None,
                },
            );
            events.push(
                Event::ContractSendChannelSettle(
                    ContractSendChannelSettle {
                        inner: ContractSendEventInner {
                            triggered_by_blockhash: state_change.block_hash,
                        },
                        canonical_identifier: channel_state.canonical_identifier,
                    },
                ),
            );
        }
    }
    Ok(ChannelTransition { new_state: Some(channel_state), events })
}

/// `new` is `old` after we requested a withdraw of `total_withdraw`: our
/// nonce went up by one and the withdraw is pending with that nonce.
pub open spec fn spec_withdraw_requested(
    new: &ChannelState,
    old: &ChannelState,
    total_withdraw: TokenAmount,
    expiration: int,
    recipient_metadata: Option<AddressMetadata>,
) -> bool {
    &&& *new == ChannelState {
        our_state: ChannelEndState {
            withdraws_pending: new.our_state.withdraws_pending,
            nonce: new.our_state.nonce,
            ..old.our_state
        },
        ..*old
    }
    &&& new.our_state.nonce@ == old.our_state.nonce@ + 1
    &&& crate::map::spec_inserted(
        new.our_state.withdraws_pending,
        old.our_state.withdraws_pending,
        total_withdraw,
        PendingWithdrawState {
            total_withdraw,
            expiration: expiration as u64,
            nonce: new.our_state.nonce,
            recipient_metadata,
        },
    )
}

/// `e` asks the partner to confirm our withdraw of `total_withdraw`, made in `c`.
pub open spec fn spec_withdraw_request_event(
    c: &ChannelState,
    total_withdraw: TokenAmount,
    expiration: int,
    recipient_metadata: Option<AddressMetadata>,
    coop_settle: bool,
    e: Event,
) -> bool {
    e matches Event::SendWithdrawRequest(x) && {
        &&& x.inner.recipient == c.partner_state.address
        &&& x.inner.recipient_metadata == recipient_metadata
        &&& x.inner.canonical_identifier == c.canonical_identifier
        &&& x.total_withdraw == total_withdraw
        &&& x.participant == c.our_state.address
        &&& x.nonce == c.our_state.nonce
        &&& x.expiration == expiration
        &&& x.coop_settle == coop_settle
    }
}

/// What `send_withdraw_request` needs to run without overflow.
pub open spec fn spec_withdraw_request_defined(c: &ChannelState, block_number: BlockNumber) -> bool {
    spec_prior_to_close(c.spec_status()) ==> {
        &&& c.our_state.nonce@ < u256_max()
        &&& block_number + c.reveal_timeout * 2 <= u64::MAX
    }
}

/// Records a withdraw request of ours and tells the partner, unless the
/// channel is already closed.
pub fn send_withdraw_request(
    channel_state: &mut ChannelState,
    total_withdraw: TokenAmount,
    block_number: BlockNumber,
    pseudo_random_number_generator: &mut Random,
    recipient_metadata: Option<AddressMetadata>,
    coop_settle: bool,
) -> (r: Vec<Event>)
    requires
        spec_withdraw_request_defined(old(channel_state), block_number),
    ensures
        if spec_prior_to_close(old(channel_state).spec_status()) {
            let expiration = block_number + old(channel_state).reveal_timeout * 2;
            &&& spec_withdraw_requested(
                final(channel_state),
                old(channel_state),
                total_withdraw,
                expiration,
                recipient_metadata,
            )
            &&& r@.len() == 1
            &&& spec_withdraw_request_event(
                final(channel_state),
                total_withdraw,
                expiration,
                recipient_metadata,
                coop_settle,
                r@[0],
            )
        } else {
            &&& *final(channel_state) == *old(channel_state)
            &&& r@.len() == 0
        },
{
    let status = channel_state.status();
    if !(status == ChannelStatus::Opened || status == ChannelStatus::Closing) {
        return Vec::new();
    }
    let nonce = channel_state.our_state.next_nonce();
    let expiration = get_safe_initial_expiration(block_number, channel_state.reveal_timeout, None);
    let withdraw_state = PendingWithdrawState {
        total_withdraw,
        expiration,
        nonce,
        recipient_metadata,
    };
    channel_state.our_state.nonce = nonce;
    let metadata = clone_metadata(&withdraw_state.recipient_metadata);
    channel_state.our_state.withdraws_pending.insert(withdraw_state.total_withdraw, withdraw_state);
    let message_identifier = pseudo_random_number_generator.next();
    let mut events: Vec<Event> = Vec::new();
    events.push(
        Event::SendWithdrawRequest(
            SendWithdrawRequest {
                inner: SendMessageEventInner {
                    recipient: channel_state.partner_state.address,
                    recipient_metadata: metadata,
                    canonical_identifier: channel_state.canonical_identifier,
                    message_identifier,
                },
                total_withdraw,
                participant: channel_state.our_state.address,
                nonce: channel_state.our_state.nonce,
                expiration,
                coop_settle,
            },
        ),
    );
    events
}

/// What `handle_action_withdraw` needs to run without overflow.
pub open spec fn spec_action_withdraw_defined(
    channel_state: &ChannelState,
    state_change: &ActionChannelWithdraw,
    block_number: BlockNumber,
) -> bool {
    &&& crate::views::spec_balance_defined(&channel_state.our_state, &channel_state.partner_state)
    &&& state_change.total_withdraw@ >= channel_state.our_state.spec_total_withdraw()
    &&& spec_valid_action_withdraw(channel_state, state_change) ==> spec_withdraw_request_defined(
        channel_state,
        block_number,
    )
}

/// The outcome of `handle_action_withdraw`.
pub open spec fn spec_handle_action_withdraw(
    channel_state: ChannelState,
    state_change: ActionChannelWithdraw,
    block_number: BlockNumber,
    r: TransitionResult,
) -> bool {
    &&& r.is_ok()
    &&& r.unwrap().new_state.is_some()
    &&& ({
        let t = r.unwrap();
        let c = t.new_state.unwrap();
        if spec_valid_action_withdraw(&channel_state, &state_change) {
            let expiration = block_number + channel_state.reveal_timeout * 2;
            &&& spec_withdraw_requested(
                &c,
                &channel_state,
                state_change.total_withdraw,
                expiration,
                state_change.recipient_metadata,
            )
            &&& t.events@.len() == 1
            &&& spec_withdraw_request_event(
                &c,
                state_change.total_withdraw,
                expiration,
                state_change.recipient_metadata,
                false,
                t.events@[0],
            )
        } else {
            &&& c == channel_state
            &&& t.events@.len() == 1
            &&& t.events@[0] matches Event::ErrorInvalidActionWithdraw(e)
                && e.attemped_withdraw == state_change.total_withdraw
                && e.reason@ == spec_action_withdraw_refusal(&channel_state, &state_change)
        }
    })
}

/// Our request to withdraw up to `total_withdraw`.
pub fn handle_action_withdraw(
    channel_state: ChannelState,
    state_change: ActionChannelWithdraw,
    block_number: BlockNumber,
    pseudo_random_number_generator: &mut Random,
) -> (r: TransitionResult)
    requires
        spec_action_withdraw_defined(&channel_state, &state_change, block_number),
    ensures
        spec_handle_action_withdraw(channel_state, state_change, block_number, r),

{
    let mut channel_state = channel_state;
    let mut events: Vec<Event> = Vec::new();
    match is_valid_action_withdraw(&channel_state, &state_change) {
        Ok(_) => {
            events = send_withdraw_request(
                &mut channel_state,
                state_change.total_withdraw,
                block_number,
                pseudo_random_number_generator,
                state_change.recipient_metadata,
                false,
            );
        },
        Err(e) => {
            events.push(
                Event::ErrorInvalidActionWithdraw(
                    ErrorInvalidActionWithdraw {
                        attemped_withdraw: state_change.total_withdraw,
                        reason: e,
                    },
                ),
            );
        },
    }
    Ok(ChannelTransition { new_state: Some(channel_state), events })
}

/// The cooperative settle transaction, once both signatures are in and it
/// is not too late.
pub open spec fn spec_coop_settle_ready(
    coop_settle_state: &CoopSettleState,
    reveal_timeout: u64,
    block_number: BlockNumber,
) -> bool {
    &&& coop_settle_state.partner_signature_request.is_some()
    &&& coop_settle_state.partner_signature_confirmation.is_some()
    &&& coop_settle_state.expiration >= block_number - reveal_timeout
}

/// Sends the cooperative settle transaction once both signatures are in.
pub fn events_for_coop_settle(
    channel_state: &ChannelState,
    coop_settle_state: &mut CoopSettleState,
    block_number: BlockNumber,
    block_hash: BlockHash,
) -> (r: Vec<Event>)
    requires
        old(coop_settle_state).partner_signature_request.is_some()
            && old(coop_settle_state).partner_signature_confirmation.is_some() ==> block_number
            >= channel_state.reveal_timeout,
    ensures
        if spec_coop_settle_ready(old(coop_settle_state), channel_state.reveal_timeout, block_number) {
            let c = *old(coop_settle_state);
            &&& *final(coop_settle_state) == CoopSettleState {
                transaction: Some(spec_started(block_number)),
                ..c
            }
            &&& r@ == seq![
                Event::ContractSendChannelCoopSettle(
                    ContractSendChannelCoopSettle {
                        inner: ContractSendEventInner { triggered_by_blockhash: block_hash },
                        canonical_identifier: channel_state.canonical_identifier,
                        our_total_withdraw: c.total_withdraw_initiator,
                        partner_total_withdraw: c.total_withdraw_partner,
                        expiration: c.expiration,
                        signature_our_withdraw: c.partner_signature_confirmation.unwrap(),
                        signature_partner_withdraw: c.partner_signature_request.unwrap(),
                    },
                ),
            ]
        } else {
            &&& *final(coop_settle_state) == *old(coop_settle_state)
            &&& r@.len() == 0
        },
{
    if let Some(partner_signature_request) = coop_settle_state.partner_signature_request {
        if let Some(partner_signature_confirmation) = coop_settle_state.partner_signature_confirmation {
            if coop_settle_state.expiration >= block_number - channel_state.reveal_timeout {
                let send_coop_settle = ContractSendChannelCoopSettle {
                    inner: ContractSendEventInner { triggered_by_blockhash: block_hash },
                    canonical_identifier: channel_state.canonical_identifier,
                    our_total_withdraw: coop_settle_state.total_withdraw_initiator,
                    partner_total_withdraw: coop_settle_state.total_withdraw_partner,
                    expiration: coop_settle_state.expiration,
                    signature_our_withdraw: partner_signature_confirmation,
                    signature_partner_withdraw: partner_signature_request,
                };
                coop_settle_state.transaction = Some(
                    TransactionExecutionStatus {
                        started_block_number: Some(block_number),
                        finished_block_number: None,
                        result: None,
                    },
                );
                let mut events: Vec<Event> = Vec::new();
                events.push(Event::ContractSendChannelCoopSettle(send_coop_settle));
                return events;
            }
        }
    }
    Vec::new()
}

/// What `handle_action_coop_settle` needs to run without overflow.
pub open spec fn spec_action_coop_settle_defined(
    channel_state: &ChannelState,
    block_number: BlockNumber,
) -> bool {
    &&& crate::views::spec_balance_defined(&channel_state.our_state, &channel_state.partner_state)
    &&& spec_balance_with_defined(&channel_state.partner_state, &channel_state.our_state, false)
    &&& spec_valid_action_coop_settle(
        channel_state,
        spec_max_withdraw_amount(&channel_state.our_state, &channel_state.partner_state) as nat,
    ) ==> {
        &&& block_number + channel_state.reveal_timeout * 2 <= u64::MAX
        &&& channel_state.our_state.nonce@ < u256_max()
    }
}

/// The outcome of `handle_action_coop_settle`.
pub open spec fn spec_handle_action_coop_settle(
    channel_state: ChannelState,
    state_change: ActionChannelCoopSettle,
    block_number: BlockNumber,
    r: TransitionResult,
) -> bool {
    &&& r.is_ok()
    &&& r.unwrap().new_state.is_some()
    &&& ({
        let t = r.unwrap();
        let c = t.new_state.unwrap();
        let our_max = spec_max_withdraw_amount(&channel_state.our_state, &channel_state.partner_state);
        let partner_max = spec_max_withdraw_amount(
            &channel_state.partner_state,
            &channel_state.our_state,
        );
        if spec_valid_action_coop_settle(&channel_state, our_max as nat) {
            let expiration = block_number + channel_state.reveal_timeout * 2;
            let coop = CoopSettleState {
                total_withdraw_initiator: c.our_state.initiated_coop_settle.unwrap().total_withdraw_initiator,
                total_withdraw_partner: c.our_state.initiated_coop_settle.unwrap().total_withdraw_partner,
                expiration: expiration as u64,
                partner_signature_request: None,
                partner_signature_confirmation: None,
                transaction: None,
            };
            let started = ChannelState {
                our_state: ChannelEndState {
                    initiated_coop_settle: Some(coop),
                    ..channel_state.our_state
                },
                ..channel_state
            };
            &&& c.our_state.initiated_coop_settle == Some(coop)
            &&& coop.total_withdraw_initiator@ == our_max
            &&& coop.total_withdraw_partner@ == partner_max
            &&& spec_withdraw_requested(
                &c,
                &started,
                coop.total_withdraw_initiator,
                expiration,
                state_change.recipient_metadata,
            )
            &&& t.events@.len() == 1
            &&& spec_withdraw_request_event(
                &c,
                coop.total_withdraw_initiator,
                expiration,
                state_change.recipient_metadata,
                false,
                t.events@[0],
            )
        } else {
            &&& c == channel_state
            &&& t.events@.len() == 1
            &&& t.events@[0] matches Event::ErrorInvalidActionCoopSettle(e)
                && e.attempted_withdraw@ == our_max
        }
    })
}

/// Our request to settle the channel cooperatively: both ends withdraw
/// everything they hold.
pub fn handle_action_coop_settle(
    channel_state: ChannelState,
    state_change: ActionChannelCoopSettle,
    block_number: BlockNumber,
    pseudo_random_number_generator: &mut Random,
) -> (r: TransitionResult)
    requires
        spec_action_coop_settle_defined(&channel_state, block_number),
    ensures
        spec_handle_action_coop_settle(channel_state, state_change, block_number, r),

{
    let mut channel_state = channel_state;
    let our_max_total_withdraw = get_max_withdraw_amount(&channel_state.our_state, &channel_state.partner_state);
    let partner_max_total_withdraw = get_max_withdraw_amount(
        &channel_state.partner_state,
        &channel_state.our_state,
    );
    let mut events: Vec<Event> = Vec::new();
    match is_valid_action_coop_settle(&channel_state, our_max_total_withdraw) {
        Ok(_) => {
            let expiration = get_safe_initial_expiration(block_number, channel_state.reveal_timeout, None);
            let coop_settle = CoopSettleState {
                total_withdraw_initiator: our_max_total_withdraw,
                total_withdraw_partner: partner_max_total_withdraw,
                expiration,
                partner_signature_request: None,
                partner_signature_confirmation: None,
                transaction: None,
            };
            channel_state.our_state.initiated_coop_settle = Some(coop_settle);
            events = send_withdraw_request(
                &mut channel_state,
                our_max_total_withdraw,
                block_number,
                pseudo_random_number_generator,
                state_change.recipient_metadata,
                false,
            );
        },
        Err(e) => {
            events.push(
                Event::ErrorInvalidActionCoopSettle(
                    ErrorInvalidActionCoopSettle { attempted_withdraw: our_max_total_withdraw, reason: e },
                ),
            );
        },
    }
    Ok(ChannelTransition { new_state: Some(channel_state), events })
}

/// `e` acknowledges a message with `message_identifier` to `recipient`.
pub open spec fn spec_processed_event(
    recipient: Address,
    recipient_metadata: Option<AddressMetadata>,
    message_identifier: u64,
    e: Event,
) -> bool {
    e matches Event::SendProcessed(x) && {
        &&& x.inner.recipient == recipient
        &&& x.inner.recipient_metadata == recipient_metadata
        &&& x.inner.canonical_identifier.chain_identifier == 0
        &&& x.inner.canonical_identifier.token_network_address@ == Seq::new(20, |i: int| 0u8)
        &&& x.inner.canonical_identifier.channel_identifier@ == 0
        &&& x.inner.message_identifier == message_identifier
    }
}

pub(crate) fn processed(
    recipient: Address,
    recipient_metadata: Option<AddressMetadata>,
    message_identifier: u64,
) -> (r: Event)
    ensures
        spec_processed_event(recipient, recipient_metadata, message_identifier, r),
{
    Event::SendProcessed(
        SendProcessed {
            inner: SendMessageEventInner {
                recipient,
                recipient_metadata,
                canonical_identifier: canonical_identifier_unordered_queue(),
                message_identifier,
            },
        },
    )
}

/// The partner's coop settle ends with its withdraw `w`: same amount and
/// expiration.
pub open spec fn spec_coop_settle_of(coop: Option<CoopSettleState>, w: PendingWithdrawState) -> bool {
    match coop {
        Some(c) => c.total_withdraw_initiator == w.total_withdraw && c.expiration == w.expiration,
        None => false,
    }
}

/// What `handle_receive_withdraw_expired` needs to run without overflow.
pub open spec fn spec_withdraw_expired_defined(
    channel_state: &ChannelState,
    state_change: &ReceiveWithdrawExpired,
) -> bool {
    channel_state.partner_state.withdraws_pending@.contains_key(state_change.total_withdraw) ==> {
        &&& channel_state.partner_state.nonce@ < u256_max()
        &&& channel_state.partner_state.withdraws_pending@[state_change.total_withdraw].expiration
            + 5 <= u64::MAX
    }
}

/// The outcome of `handle_receive_withdraw_expired`.
pub open spec fn spec_handle_receive_withdraw_expired(
    channel_state: ChannelState,
    state_change: ReceiveWithdrawExpired,
    block_number: BlockNumber,
    r: TransitionResult,
) -> bool {
    &&& r.is_ok()
    &&& r.unwrap().new_state.is_some()
    &&& ({
        let t = r.unwrap();
        let c = t.new_state.unwrap();
        let p = channel_state.partner_state;
        if !p.withdraws_pending@.contains_key(state_change.total_withdraw) {
            &&& c == channel_state
            &&& t.events@.len() == 1
            &&& t.events@[0] matches Event::ErrorInvalidReceivedWithdrawExpired(e)
                && e.attemped_withdraw == state_change.total_withdraw
        } else {
            let w = p.withdraws_pending@[state_change.total_withdraw];
            if spec_valid_withdraw_expired(&channel_state, &state_change, &w, block_number) {
                &&& c == ChannelState {
                    partner_state: ChannelEndState {
                        withdraws_pending: c.partner_state.withdraws_pending,
                        nonce: state_change.nonce,
                        initiated_coop_settle: if spec_coop_settle_of(p.initiated_coop_settle, w) {
                            None
                        } else {
                            p.initiated_coop_settle
                        },
                        ..p
                    },
                    ..channel_state
                }
                &&& crate::map::spec_removed(
                    c.partner_state.withdraws_pending,
                    p.withdraws_pending,
                    state_change.total_withdraw,
                )
                &&& t.events@.len() == 1
                &&& spec_processed_event(
                    p.address,
                    w.recipient_metadata,
                    state_change.message_identifier,
                    t.events@[0],
                )
            } else {
                &&& c == channel_state
                &&& t.events@.len() == 1
                &&& t.events@[0] matches Event::ErrorInvalidReceivedWithdrawExpired(e)
                    && e.attemped_withdraw == state_change.total_withdraw
            }
        }
    })
}

/// The partner tells that its withdraw expired: it is dropped, and so is the
/// coop settle it belonged to.
pub fn handle_receive_withdraw_expired(
    channel_state: ChannelState,
    state_change: ReceiveWithdrawExpired,
    block_number: BlockNumber,
) -> (r: TransitionResult)
    requires
        spec_withdraw_expired_defined(&channel_state, &state_change),
    ensures
        spec_handle_receive_withdraw_expired(channel_state, state_change, block_number, r),

{
    let mut channel_state = channel_state;
    let mut events: Vec<Event> = Vec::new();
    let withdraw_state = match channel_state.partner_state.withdraws_pending.get(&state_change.total_withdraw) {
        Some(withdraw_state) => withdraw_state.clone(),
        None => {
            events.push(
                Event::ErrorInvalidReceivedWithdrawExpired(
                    ErrorInvalidReceivedWithdrawExpired {
                        attemped_withdraw: state_change.total_withdraw,
                        reason: with_amount(
                            "Withdraw expired of ",
                            state_change.total_withdraw,
                            " did not correspond to a previous withdraw request",
                        ),
                    },
                ),
            );
            return Ok(ChannelTransition { new_state: Some(channel_state), events });
        },
    };
    let is_valid = is_valid_withdraw_expired(&channel_state, &state_change, &withdraw_state, block_number);
    match is_valid {
        Ok(_) => {
            channel_state.partner_state.withdraws_pending.remove(&state_change.total_withdraw);
            channel_state.partner_state.nonce = state_change.nonce;
            let clear = match &channel_state.partner_state.initiated_coop_settle {
                Some(coop_settle) => coop_settle.total_withdraw_initiator.equals(&withdraw_state.total_withdraw)
                    && coop_settle.expiration == withdraw_state.expiration,
                None => false,
            };
            if clear {
                channel_state.partner_state.initiated_coop_settle = None;
            }
            events.push(
                processed(
                    channel_state.partner_state.address,
                    clone_metadata(&withdraw_state.recipient_metadata),
                    state_change.message_identifier,
                ),
            );
        },
        Err(e) => {
            events.push(
                Event::ErrorInvalidReceivedWithdrawExpired(
                    ErrorInvalidReceivedWithdrawExpired {
                        attemped_withdraw: state_change.total_withdraw,
                        reason: e,
                    },
                ),
            );
        },
    }
    Ok(ChannelTransition { new_state: Some(channel_state), events })
}

/// What `handle_receive_withdraw_confirmation` needs to run without overflow.
pub open spec fn spec_withdraw_confirmation_defined(
    channel_state: &ChannelState,
    state_change: &ReceiveWithdrawConfirmation,
    block_number: BlockNumber,
) -> bool {
    &&& spec_withdraw_expiration(&channel_state.our_state, state_change.total_withdraw).is_some()
        ==> channel_state.partner_state.nonce@ < u256_max()
    &&& spec_valid_withdraw_confirmation(channel_state, state_change)
        && channel_state.partner_state.initiated_coop_settle.is_none() ==> match channel_state.our_state.initiated_coop_settle {
        Some(coop) => coop.partner_signature_request.is_some() ==> block_number
            >= channel_state.reveal_timeout,
        None => block_number >= channel_state.reveal_timeout,
    }
}

/// The outcome of `handle_receive_withdraw_confirmation`.
pub open spec fn spec_handle_receive_withdraw_confirmation(
    channel_state: ChannelState,
    state_change: ReceiveWithdrawConfirmation,
    block_number: BlockNumber,
    block_hash: BlockHash,
    r: TransitionResult,
) -> bool {
    &&& r.is_err() == (spec_valid_withdraw_confirmation(&channel_state, &state_change)
        && channel_state.our_state.initiated_coop_settle.is_some()
        && channel_state.partner_state.initiated_coop_settle.is_some())
    &&& r.is_ok() ==> r.unwrap().new_state.is_some()
    &&& r.is_ok() ==> ({
        let t = r.unwrap();
        let c = t.new_state.unwrap();
        let o = channel_state.our_state;
        let p = channel_state.partner_state;
        let metadata = if o.withdraws_pending@.contains_key(state_change.total_withdraw) {
            o.withdraws_pending@[state_change.total_withdraw].recipient_metadata
        } else {
            None
        };
        let confirmed = ChannelState {
            partner_state: ChannelEndState { nonce: state_change.nonce, ..p },
            ..channel_state
        };
        if !spec_valid_withdraw_confirmation(&channel_state, &state_change) {
            &&& c == channel_state
            &&& t.events@.len() == 1
            &&& t.events@[0] matches Event::ErrorInvalidReceivedWithdrawConfirmation(e)
                && e.attemped_withdraw == state_change.total_withdraw
        } else {
            &&& t.events@.len() >= 1
            &&& spec_processed_event(p.address, metadata, state_change.message_identifier, t.events@[0])
            &&& match o.initiated_coop_settle {
                Some(coop) => {
                    let coop1 = CoopSettleState {
                        partner_signature_confirmation: Some(state_change.signature),
                        ..coop
                    };
                    if spec_coop_settle_ready(&coop1, channel_state.reveal_timeout, block_number) {
                        let coop2 = CoopSettleState {
                            transaction: Some(spec_started(block_number)),
                            ..coop1
                        };
                        &&& c == ChannelState {
                            our_state: ChannelEndState { initiated_coop_settle: Some(coop2), ..o },
                            ..confirmed
                        }
                        &&& t.events@.len() == 2
                        &&& t.events@[1] == Event::ContractSendChannelCoopSettle(
                            ContractSendChannelCoopSettle {
                                inner: ContractSendEventInner { triggered_by_blockhash: block_hash },
                                canonical_identifier: channel_state.canonical_identifier,
                                our_total_withdraw: coop1.total_withdraw_initiator,
                                partner_total_withdraw: coop1.total_withdraw_partner,
                                expiration: coop1.expiration,
                                signature_our_withdraw: state_change.signature,
                                signature_partner_withdraw: coop1.partner_signature_request.unwrap(),
                            },
                        )
                    } else {
                        &&& c == ChannelState {
                            our_state: ChannelEndState { initiated_coop_settle: Some(coop1), ..o },
                            ..confirmed
                        }
                        &&& t.events@.len() == 1
                    }
                },
                None => {
                    &&& c == confirmed
                    &&& if p.initiated_coop_settle.is_none() && state_change.expiration
                        >= block_number - channel_state.reveal_timeout {
                        &&& t.events@.len() == 2
                        &&& t.events@[1] == Event::ContractSendChannelWithdraw(
                            ContractSendChannelWithdraw {
                                inner: ContractSendEventInner { triggered_by_blockhash: block_hash },
                                canonical_identifier: state_change.canonical_identifier,
                                total_withdraw: state_change.total_withdraw,
                                expiration: state_change.expiration,
                                partner_signature: state_change.signature,
                            },
                        )
                    } else {
                        t.events@.len() == 1
                    }
                },
            }
        }
    })
}

/// The partner confirms our withdraw: in a coop settle we initiated this
/// completes the signatures, otherwise we withdraw on chain while there is
/// time to mine the transaction.
pub fn handle_receive_withdraw_confirmation(
    channel_state: ChannelState,
    state_change: ReceiveWithdrawConfirmation,
    block_number: BlockNumber,
    block_hash: BlockHash,
) -> (r: TransitionResult)
    requires
        spec_withdraw_confirmation_defined(&channel_state, &state_change, block_number),
    ensures
        spec_handle_receive_withdraw_confirmation(channel_state, state_change, block_number, block_hash, r),

{
    let mut channel_state = channel_state;
    let is_valid = is_valid_withdraw_confirmation(&channel_state, &state_change);
    let recipient_metadata = match channel_state.our_state.withdraws_pending.get(&state_change.total_withdraw) {
        Some(withdraw_state) => clone_metadata(&withdraw_state.recipient_metadata),
        None => None,
    };
    let mut events: Vec<Event> = Vec::new();
    match is_valid {
        Ok(_) => {
            channel_state.partner_state.nonce = state_change.nonce;
            events.push(
                processed(
                    channel_state.partner_state.address,
                    recipient_metadata,
                    state_change.message_identifier,
                ),
            );
            match channel_state.our_state.initiated_coop_settle {
                Some(coop) => {
                    if channel_state.partner_state.initiated_coop_settle.is_some() {
                        return Err(StateTransitionError::from_message("Only one party can initiate a coop settle".to_string()));
                    }
                    let mut our_initiated_coop_settle = coop;
                    our_initiated_coop_settle.partner_signature_confirmation = Some(state_change.signature);
                    let coop_settle_events = events_for_coop_settle(
                        &channel_state,
                        &mut our_initiated_coop_settle,
                        block_number,
                        block_hash,
                    );
                    channel_state.our_state.initiated_coop_settle = Some(our_initiated_coop_settle);
                    let mut coop_settle_events = coop_settle_events;
                    events.append(&mut coop_settle_events);
                },
                None => {
                    if channel_state.partner_state.initiated_coop_settle.is_none() {
                        if state_change.expiration >= block_number - channel_state.reveal_timeout {
                            events.push(
                                Event::ContractSendChannelWithdraw(
                                    ContractSendChannelWithdraw {
                                        inner: ContractSendEventInner { triggered_by_blockhash: block_hash },
                                        canonical_identifier: state_change.canonical_identifier,
                                        total_withdraw: state_change.total_withdraw,
                                        expiration: state_change.expiration,
                                        partner_signature: state_change.signature,
                                    },
                                ),
                            );
                        }
                    }
                },
            }
        },
        Err(e) => {
            events.push(
                Event::ErrorInvalidReceivedWithdrawConfirmation(
                    ErrorInvalidReceivedWithdrawConfirmation {
                        attemped_withdraw: state_change.total_withdraw,
                        reason: e,
                    },
                ),
            );
        },
    }
    Ok(ChannelTransition { new_state: Some(channel_state), events })
}

/// How a withdraw request of the partner is handled: 0 rejected as invalid;
/// 1 confirmed as a plain withdraw; 2 recorded but refused for a coop
/// settle; 3 completing a coop settle that we started; 4 starting a coop
/// settle of the partner's, to which we answer with our own withdraw.
pub open spec fn spec_withdraw_request_path(
    channel_state: &ChannelState,
    state_change: &ReceiveWithdrawRequest,
) -> int {
    let o = channel_state.our_state;
    let p = channel_state.partner_state;
    if !spec_valid_withdraw_request(channel_state, state_change) {
        0
    } else if !(o.initiated_coop_settle.is_none() || state_change.coop_settle) {
        1
    } else if spec_max_withdraw_amount(&p, &o) != state_change.total_withdraw@ {
        2
    } else if p.pending_locks.locks@.len() > 0 {
        2
    } else {
        match o.initiated_coop_settle {
            Some(coop) => if coop.expiration != state_change.expiration
                || coop.total_withdraw_partner != state_change.total_withdraw {
                2
            } else {
                3
            },
            None => if o.pending_locks.locks@.len() > 0 {
                2
            } else {
                4
            },
        }
    }
}

/// What `handle_receive_withdraw_request` needs to run without overflow.
pub open spec fn spec_withdraw_request_defined_for(
    channel_state: &ChannelState,
    state_change: &ReceiveWithdrawRequest,
    block_number: BlockNumber,
) -> bool {
    let o = channel_state.our_state;
    let path = spec_withdraw_request_path(channel_state, state_change);
    &&& channel_state.partner_state.nonce@ < u256_max()
    &&& crate::views::spec_balance_defined(&channel_state.partner_state, &o)
    &&& state_change.total_withdraw@ >= channel_state.partner_state.spec_total_withdraw()
    &&& (path == 1 || path == 3) ==> o.nonce@ + 1 <= u256_max()
    &&& path == 3 ==> (o.initiated_coop_settle.unwrap().partner_signature_confirmation.is_some()
        ==> block_number >= channel_state.reveal_timeout)
    &&& (spec_valid_withdraw_request(channel_state, state_change) && o.initiated_coop_settle.is_none()
        && spec_max_withdraw_amount(&channel_state.partner_state, &o) == state_change.total_withdraw@
        && channel_state.partner_state.pending_locks.locks@.len() == 0)
        ==> spec_balance_with_defined(&o, &channel_state.partner_state, false)
    &&& path == 4 ==> {
        &&& if spec_prior_to_close(channel_state.spec_status()) {
            &&& o.nonce@ + 2 <= u256_max()
            &&& state_change.expiration + channel_state.reveal_timeout * 2 <= u64::MAX
        } else {
            o.nonce@ + 1 <= u256_max()
        }
    }
}

/// `e` confirms the partner's withdraw request, with the nonce of `c`.
pub open spec fn spec_withdraw_confirmation_event(
    c: &ChannelState,
    state_change: &ReceiveWithdrawRequest,
    e: Event,
) -> bool {
    e == Event::SendWithdrawConfirmation(
        SendWithdrawConfirmation {
            inner: SendMessageEventInner {
                recipient: c.partner_state.address,
                recipient_metadata: state_change.sender_metadata,
                canonical_identifier: c.canonical_identifier,
                message_identifier: state_change.message_identifier,
            },
            participant: c.partner_state.address,
            total_withdraw: state_change.total_withdraw,
            nonce: c.our_state.nonce,
            expiration: state_change.expiration,
        },
    )
}

/// The partner's end after its withdraw request is recorded.
pub open spec fn spec_request_recorded(
    new: ChannelEndState,
    old: ChannelEndState,
    state_change: &ReceiveWithdrawRequest,
) -> bool {
    &&& new == ChannelEndState {
        withdraws_pending: new.withdraws_pending,
        nonce: state_change.nonce,
        initiated_coop_settle: new.initiated_coop_settle,
        ..old
    }
    &&& crate::map::spec_inserted(
        new.withdraws_pending,
        old.withdraws_pending,
        state_change.total_withdraw,
        PendingWithdrawState {
            total_withdraw: state_change.total_withdraw,
            expiration: state_change.expiration,
            nonce: state_change.nonce,
            recipient_metadata: state_change.sender_metadata,
        },
    )
}

fn confirmation(channel_state: &ChannelState, state_change: &ReceiveWithdrawRequest) -> (r: Event)
    ensures
        spec_withdraw_confirmation_event(channel_state, state_change, r),
{
    Event::SendWithdrawConfirmation(
        SendWithdrawConfirmation {
            inner: SendMessageEventInner {
                recipient: channel_state.partner_state.address,
                recipient_metadata: clone_metadata(&state_change.sender_metadata),
                canonical_identifier: channel_state.canonical_identifier,
                message_identifier: state_change.message_identifier,
            },
            participant: channel_state.partner_state.address,
            total_withdraw: state_change.total_withdraw,
            nonce: channel_state.our_state.nonce,
            expiration: state_change.expiration,
        },
    )
}

fn request_refused(state_change: &ReceiveWithdrawRequest, reason: String) -> (r: Vec<Event>)
    ensures
        r@.len() == 1,
        r@[0] matches Event::ErrorInvalidReceivedWithdrawRequest(e) && e.attemped_withdraw
            == state_change.total_withdraw && e.reason == reason,
{
    let mut events: Vec<Event> = Vec::new();
    events.push(
        Event::ErrorInvalidReceivedWithdrawRequest(
            ErrorInvalidReceivedWithdrawRequest { attemped_withdraw: state_change.total_withdraw, reason },
        ),
    );
    events
}

/// Which coop settle answer a recorded withdraw request gets, read on the
/// state `b` in which it is recorded: 2 refused, 3 completing our coop
/// settle, 4 starting the partner's.
pub open spec fn spec_coop_path(b: &ChannelState, state_change: &ReceiveWithdrawRequest) -> int {
    let o = b.our_state;
    let p = b.partner_state;
    if spec_max_withdraw_amount(&p, &o) != state_change.total_withdraw@ {
        2
    } else if p.pending_locks.locks@.len() > 0 {
        2
    } else {
        match o.initiated_coop_settle {
            Some(coop) => if coop.expiration != state_change.expiration
                || coop.total_withdraw_partner != state_change.total_withdraw {
                2
            } else {
                3
            },
            None => if o.pending_locks.locks@.len() > 0 {
                2
            } else {
                4
            },
        }
    }
}

/// Why a recorded withdraw request for all the partner holds is refused:
/// the first of its checks that fails, in order.
pub open spec fn spec_coop_refusal(b: &ChannelState, state_change: &ReceiveWithdrawRequest) -> Seq<char> {
    let o = b.our_state;
    let p = b.partner_state;
    if spec_max_withdraw_amount(&p, &o) != state_change.total_withdraw@ {
        "Partner did not withdraw with maximum balance. Should be "@ + crate::text::spec_decimal(
            spec_max_withdraw_amount(&p, &o) as nat,
        ) + ""@
    } else if p.pending_locks.locks@.len() > 0 {
        "Partner has pending transfers"@
    } else {
        match o.initiated_coop_settle {
            Some(coop) => if coop.expiration != state_change.expiration {
                "Partner requested withdraw while we initiated a coop-settle: Partner's withdraw has differing expiration."@
            } else {
                "The expected total withdraw of the partner does not match the withdraw request"@
            },
            None => "Partner initiated coop-settle but we have pending transfers"@,
        }
    }
}

/// The coop settle part of answering a recorded withdraw request: `b`
/// before, `a` after, `evs` the events before the confirmation.
pub open spec fn spec_coop_answer(
    b: &ChannelState,
    state_change: &ReceiveWithdrawRequest,
    block_number: BlockNumber,
    block_hash: BlockHash,
    a: &ChannelState,
    evs: Seq<Event>,
) -> bool {
    let o = b.our_state;
    let p = b.partner_state;
    let path = spec_coop_path(b, state_change);
    if path == 2 {
        *a == *b
    } else if path == 3 {
        let coop1 = CoopSettleState {
            partner_signature_request: Some(state_change.signature),
            ..o.initiated_coop_settle.unwrap()
        };
        let ready = spec_coop_settle_ready(&coop1, b.reveal_timeout, block_number);
        let coop2 = if ready {
            CoopSettleState { transaction: Some(spec_started(block_number)), ..coop1 }
        } else {
            coop1
        };
        &&& *a == ChannelState {
            our_state: ChannelEndState { initiated_coop_settle: Some(coop2), ..o },
            ..*b
        }
        &&& evs == if ready {
            seq![
                Event::ContractSendChannelCoopSettle(
                    ContractSendChannelCoopSettle {
                        inner: ContractSendEventInner { triggered_by_blockhash: block_hash },
                        canonical_identifier: b.canonical_identifier,
                        our_total_withdraw: coop1.total_withdraw_initiator,
                        partner_total_withdraw: coop1.total_withdraw_partner,
                        expiration: coop1.expiration,
                        signature_our_withdraw: coop1.partner_signature_confirmation.unwrap(),
                        signature_partner_withdraw: state_change.signature,
                    },
                ),
            ]
        } else {
            Seq::empty()
        }
    } else {
        let our_max = a.partner_state.initiated_coop_settle.unwrap().total_withdraw_partner;
        let b2 = ChannelState {
            partner_state: ChannelEndState {
                initiated_coop_settle: Some(
                    CoopSettleState {
                        total_withdraw_initiator: state_change.total_withdraw,
                        total_withdraw_partner: our_max,
                        expiration: state_change.expiration,
                        partner_signature_request: Some(state_change.signature),
                        partner_signature_confirmation: None,
                        transaction: None,
                    },
                ),
                ..p
            },
            ..*b
        };
        let expiration = state_change.expiration + b.reveal_timeout * 2;
        &&& our_max@ == spec_max_withdraw_amount(&o, &p)
        &&& if spec_prior_to_close(b.spec_status()) {
            &&& spec_withdraw_requested(a, &b2, our_max, expiration, state_change.sender_metadata)
            &&& evs.len() == 1
            &&& spec_withdraw_request_event(
                a,
                our_max,
                expiration,
                state_change.sender_metadata,
                false,
                evs[0],
            )
        } else {
            &&& *a == b2
            &&& evs.len() == 0
        }
    }
}

/// What `answer_coop_request` needs to run without overflow.
pub open spec fn spec_coop_answer_defined(
    b: &ChannelState,
    state_change: &ReceiveWithdrawRequest,
    block_number: BlockNumber,
) -> bool {
    let o = b.our_state;
    let path = spec_coop_path(b, state_change);
    &&& spec_balance_with_defined(&b.partner_state, &o, false)
    &&& path == 3 ==> (o.initiated_coop_settle.unwrap().partner_signature_confirmation.is_some()
        ==> block_number >= b.reveal_timeout)
    &&& (o.initiated_coop_settle.is_none() && spec_max_withdraw_amount(&b.partner_state, &o)
        == state_change.total_withdraw@ && b.partner_state.pending_locks.locks@.len() == 0)
        ==> spec_balance_with_defined(&o, &b.partner_state, false)
    &&& path == 4 ==> {
        &&& spec_prior_to_close(b.spec_status()) ==> {
            &&& o.nonce@ < u256_max()
            &&& state_change.expiration + b.reveal_timeout * 2 <= u64::MAX
        }
    }
}

/// Answers a recorded withdraw request of the partner for all it holds: it
/// completes our coop settle or starts the partner's, or it is refused.
fn answer_coop_request(
    channel_state: &mut ChannelState,
    state_change: &ReceiveWithdrawRequest,
    block_number: BlockNumber,
    block_hash: BlockHash,
    pseudo_random_number_generator: &mut Random,
) -> (r: Result<Vec<Event>, String>)
    requires
        spec_coop_answer_defined(old(channel_state), state_change, block_number),
    ensures
        r.is_err() == (spec_coop_path(old(channel_state), state_change) == 2),
        r matches Err(m) ==> m@ == spec_coop_refusal(old(channel_state), state_change),
        spec_coop_answer(
            old(channel_state),
            state_change,
            block_number,
            block_hash,
            final(channel_state),
            match r {
                Ok(evs) => evs@,
                Err(_) => Seq::empty(),
            },
        ),
{
    proof {
        reveal_strlit("Partner has pending transfers");
        reveal_strlit("Partner requested withdraw while we initiated a coop-settle: Partner's withdraw has differing expiration.");
        reveal_strlit("The expected total withdraw of the partner does not match the withdraw request");
        reveal_strlit("Partner initiated coop-settle but we have pending transfers");
    }
    let partner_max_total_withdraw = get_max_withdraw_amount(
        &channel_state.partner_state,
        &channel_state.our_state,
    );
    if !partner_max_total_withdraw.equals(&state_change.total_withdraw) {
        return Err(
            with_amount(
                "Partner did not withdraw with maximum balance. Should be ",
                partner_max_total_withdraw,
                "",
            ),
        );
    }
    if channel_state.partner_state.pending_locks.locks.len() > 0 {
        return Err("Partner has pending transfers".to_string());
    }
    match channel_state.our_state.initiated_coop_settle {
        Some(coop) => {
            if coop.expiration != state_change.expiration {
                return Err("Partner requested withdraw while we initiated a coop-settle: Partner's withdraw has differing expiration.".to_string());
            }
            if !coop.total_withdraw_partner.equals(&state_change.total_withdraw) {
                return Err("The expected total withdraw of the partner does not match the withdraw request".to_string());
            }
            let mut our_initiated_coop_settle = coop;
            our_initiated_coop_settle.partner_signature_request = Some(state_change.signature);
            let coop_settle_events = events_for_coop_settle(
                channel_state,
                &mut our_initiated_coop_settle,
                block_number,
                block_hash,
            );
            channel_state.our_state.initiated_coop_settle = Some(our_initiated_coop_settle);
            proof {
                let b = *old(channel_state);
                assert(spec_coop_path(&b, state_change) == 3);
                let coop1 = CoopSettleState {
                    partner_signature_request: Some(state_change.signature),
                    ..b.our_state.initiated_coop_settle.unwrap()
                };
                assert(coop1 == CoopSettleState { partner_signature_request: Some(state_change.signature), ..coop });
                let ready = spec_coop_settle_ready(&coop1, b.reveal_timeout, block_number);
                if ready {
                    assert(coop_settle_events@.len() == 1);
                } else {
                    assert(coop_settle_events@.len() == 0);
                    assert(coop_settle_events@ =~= Seq::<Event>::empty());
                }
            }
            Ok(coop_settle_events)
        },
        None => {
            let our_max_total_withdraw = get_max_withdraw_amount(
                &channel_state.our_state,
                &channel_state.partner_state,
            );
            if channel_state.our_state.pending_locks.locks.len() > 0 {
                return Err("Partner initiated coop-settle but we have pending transfers".to_string());
            }
            channel_state.partner_state.initiated_coop_settle = Some(
                CoopSettleState {
                    total_withdraw_initiator: state_change.total_withdraw,
                    total_withdraw_partner: our_max_total_withdraw,
                    expiration: state_change.expiration,
                    partner_signature_request: Some(state_change.signature),
                    partner_signature_confirmation: None,
                    transaction: None,
                },
            );
            let events = send_withdraw_request(
                channel_state,
                our_max_total_withdraw,
                state_change.expiration,
                pseudo_random_number_generator,
                clone_metadata(&state_change.sender_metadata),
                false,
            );
            Ok(events)
        },
    }
}

/// Records the partner's withdraw request and nonce.
fn record_withdraw_request(channel_state: &mut ChannelState, state_change: &ReceiveWithdrawRequest)
    ensures
        *final(channel_state) == (ChannelState {
            partner_state: final(channel_state).partner_state,
            ..*old(channel_state)
        }),
        spec_request_recorded(final(channel_state).partner_state, old(channel_state).partner_state, state_change),
        final(channel_state).partner_state.initiated_coop_settle == old(channel_state).partner_state.initiated_coop_settle,
{
    let withdraw_state = PendingWithdrawState {
        total_withdraw: state_change.total_withdraw,
        expiration: state_change.expiration,
        nonce: state_change.nonce,
        recipient_metadata: clone_metadata(&state_change.sender_metadata),
    };
    channel_state.partner_state.withdraws_pending.insert(withdraw_state.total_withdraw, withdraw_state);
    channel_state.partner_state.nonce = state_change.nonce;
}

/// The outcome of `handle_receive_withdraw_request`.
pub open spec fn spec_handle_receive_withdraw_request(
    channel_state: ChannelState,
    state_change: ReceiveWithdrawRequest,
    block_number: BlockNumber,
    block_hash: BlockHash,
    r: TransitionResult,
) -> bool {
    &&& r.is_ok()
    &&& r.unwrap().new_state.is_some()
    &&& ({
        let t = r.unwrap();
        let c = t.new_state.unwrap();
        let o = channel_state.our_state;
        let p = channel_state.partner_state;
        let path = spec_withdraw_request_path(&channel_state, &state_change);
        if path == 0 {
            &&& c == channel_state
            &&& t.events@.len() == 1
            &&& t.events@[0] matches Event::ErrorInvalidReceivedWithdrawRequest(e)
                && e.attemped_withdraw == state_change.total_withdraw
                && e.reason@ == spec_withdraw_request_refusal(&channel_state, &state_change)
        } else if path == 1 {
            &&& c == ChannelState {
                our_state: ChannelEndState { nonce: c.our_state.nonce, ..o },
                partner_state: c.partner_state,
                ..channel_state
            }
            &&& spec_request_recorded(c.partner_state, p, &state_change)
            &&& c.partner_state.initiated_coop_settle == p.initiated_coop_settle
            &&& c.our_state.nonce@ == o.nonce@ + 1
            &&& t.events@.len() == 1
            &&& spec_withdraw_confirmation_event(&c, &state_change, t.events@[0])
        } else {
            exists|b: ChannelState, a: ChannelState, evs: Seq<Event>|
                {
                    &&& b == ChannelState { partner_state: b.partner_state, ..channel_state }
                    &&& spec_request_recorded(b.partner_state, p, &state_change)
                    &&& b.partner_state.initiated_coop_settle == p.initiated_coop_settle
                    &&& #[trigger] spec_coop_answer(
                        &b,
                        &state_change,
                        block_number,
                        block_hash,
                        &a,
                        evs,
                    )
                    &&& if path == 2 {
                        &&& c == a
                        &&& t.events@.len() == 1
                        &&& t.events@[0] matches Event::ErrorInvalidReceivedWithdrawRequest(e)
                            && e.attemped_withdraw == state_change.total_withdraw
                            && e.reason@ == spec_coop_refusal(&b, &state_change)
                    } else {
                        &&& c == ChannelState {
                            our_state: ChannelEndState { nonce: c.our_state.nonce, ..a.our_state },
                            ..a
                        }
                        &&& c.our_state.nonce@ == a.our_state.nonce@ + 1
                        &&& t.events@ == evs.push(t.events@.last())
                        &&& spec_withdraw_confirmation_event(&c, &state_change, t.events@.last())
                    }
                }
        }
    })
}

/// The partner asks us to confirm its withdraw; a request for all it holds
/// may also start or complete a cooperative settlement.
pub fn handle_receive_withdraw_request(
    channel_state: ChannelState,
    state_change: ReceiveWithdrawRequest,
    block_number: BlockNumber,
    block_hash: BlockHash,
    pseudo_random_number_generator: &mut Random,
) -> (r: TransitionResult)
    requires
        spec_withdraw_request_defined_for(&channel_state, &state_change, block_number),
    ensures
        spec_handle_receive_withdraw_request(channel_state, state_change, block_number, block_hash, r),

{
    let mut channel_state = channel_state;
    if let Err(msg) = is_valid_withdraw_request(&channel_state, &state_change) {
        return Ok(ChannelTransition {
            new_state: Some(channel_state),
            events: request_refused(&state_change, msg),
        });
    }
    record_withdraw_request(&mut channel_state, &state_change);
    let ghost b = channel_state;
    let mut events: Vec<Event> = Vec::new();
    if channel_state.our_state.initiated_coop_settle.is_none() || state_change.coop_settle {
        match answer_coop_request(
            &mut channel_state,
            &state_change,
            block_number,
            block_hash,
            pseudo_random_number_generator,
        ) {
            Ok(evs) => {
                events = evs;
            },
            Err(reason) => {
                let ghost a = channel_state;
                assert(spec_coop_answer(&b, &state_change, block_number, block_hash, &a, Seq::empty()));
                return Ok(ChannelTransition {
                    new_state: Some(channel_state),
                    events: request_refused(&state_change, reason),
                });
            },
        }
    }
    let ghost a = channel_state;
    let ghost evs = events@;
    channel_state.our_state.nonce = crate::channel::views::get_next_nonce(&channel_state.our_state);
    events.push(confirmation(&channel_state, &state_change));
    proof {
        if !(b.our_state.initiated_coop_settle.is_none() || state_change.coop_settle) {
        } else {
            assert(spec_coop_answer(&b, &state_change, block_number, block_hash, &a, evs));
        }
    }
    Ok(ChannelTransition { new_state: Some(channel_state), events })
}

} // verus!
