//! Locks of a channel: registering secrets, removing locks, and the
//! messages that add, claim or expire a lock.
use vstd::prelude::*;

use crate::channel::transitions::{
    processed, spec_processed_event, ChannelTransition, TransitionResult,
};
use crate::errors::StateTransitionError;
use crate::types::event::{
    ErrorInvalidReceivedLockedTransfer, ErrorInvalidReceivedLockExpired,
    ErrorInvalidReceivedTransferRefund,
};
use crate::types::state_change::{ReceiveLockExpired, ReceiveTransferRefund};
use crate::channel::utils::{
    compute_locks_with, compute_locks_without, compute_locksroot, spec_encode_lock,
    spec_locksroot, without_lock,
};
use crate::channel::validators::{
    is_lock_expired, is_lock_locked, is_lock_pending, is_valid_lock_expired,
    is_valid_locked_transfer, is_valid_refund, is_valid_unlock, spec_expired_lock_candidate,
    spec_lock_expired, spec_lock_expired_defined, spec_locked_transfer_check_defined,
    spec_refund_matches, spec_unlock_defined, spec_valid_lock_expired,
    spec_valid_locked_transfer_check, spec_valid_unlock,
};
use crate::channel::views::{
    get_amount_locked, get_lock, get_next_nonce, spec_amount_locked, spec_current_balance_proof,
    spec_get_lock,
};
use crate::hashing::{hash_balance_data, spec_hash_balance_data};
use crate::map::{spec_inserted, spec_removed};
use crate::primitives::{u256_max, Address, U256};
use crate::types::event::{
    ErrorInvalidReceivedUnlock, Event, SendLockedTransfer, SendLockExpired, SendMessageEventInner,
    SendUnlock,
};
use crate::types::random::Random;
use crate::types::state::{
    AddressMetadata, BalanceProofState, BlockExpiration, BlockNumber, CanonicalIdentifier,
    ChannelEndState, ChannelState, ChannelStatus, EncodedLock, HashTimeLockState,
    LockedTransferState, MessageIdentifier, PaymentIdentifier, PendingLocksState, RouteState,
    Secret, SecretHash, TokenAmount, UnlockPartialProofState, sum_lock_amounts,
};
use crate::types::state_change::ReceiveUnlock;
use crate::views::{
    channel_distributable, get_address_metadata, spec_address_metadata,
    spec_channel_distributable, spec_distributable_defined,
};

verus! {

/// `new` is `old` with the locked and the off-chain unlocked lock of
/// `secrethash` taken out.
pub open spec fn spec_unclaimed_lock_deleted(
    new: ChannelEndState,
    old: ChannelEndState,
    secrethash: SecretHash,
) -> bool {
    &&& spec_removed(new.secrethashes_to_lockedlocks, old.secrethashes_to_lockedlocks, secrethash)
    &&& spec_removed(
        new.secrethashes_to_unlockedlocks,
        old.secrethashes_to_unlockedlocks,
        secrethash,
    )
    &&& new == ChannelEndState {
        secrethashes_to_lockedlocks: new.secrethashes_to_lockedlocks,
        secrethashes_to_unlockedlocks: new.secrethashes_to_unlockedlocks,
        ..old
    }
}

/// `new` is `old` with every lock of `secrethash` taken out.
pub open spec fn spec_lock_deleted(
    new: ChannelEndState,
    old: ChannelEndState,
    secrethash: SecretHash,
) -> bool {
    &&& spec_removed(new.secrethashes_to_lockedlocks, old.secrethashes_to_lockedlocks, secrethash)
    &&& spec_removed(
        new.secrethashes_to_unlockedlocks,
        old.secrethashes_to_unlockedlocks,
        secrethash,
    )
    &&& spec_removed(
        new.secrethashes_to_onchain_unlockedlocks,
        old.secrethashes_to_onchain_unlockedlocks,
        secrethash,
    )
    &&& new == ChannelEndState {
        secrethashes_to_lockedlocks: new.secrethashes_to_lockedlocks,
        secrethashes_to_unlockedlocks: new.secrethashes_to_unlockedlocks,
        secrethashes_to_onchain_unlockedlocks: new.secrethashes_to_onchain_unlockedlocks,
        ..old
    }
}

/// Removes the lock of `secrethash` that was not claimed on chain.
pub fn delete_unclaimed_lock(end_state: &mut ChannelEndState, secrethash: SecretHash)
    ensures
        spec_unclaimed_lock_deleted(*final(end_state), *old(end_state), secrethash),
{
    end_state.secrethashes_to_lockedlocks.remove(&secrethash);
    end_state.secrethashes_to_unlockedlocks.remove(&secrethash);
}

/// Removes the lock of `secrethash`, whatever its state.
pub fn delete_lock(end_state: &mut ChannelEndState, secrethash: SecretHash)
    ensures
        spec_lock_deleted(*final(end_state), *old(end_state), secrethash),
{
    delete_unclaimed_lock(end_state, secrethash);
    end_state.secrethashes_to_onchain_unlockedlocks.remove(&secrethash);
}

/// Check if the lock with `secrethash` exists in either our state or the
/// partner's state.
pub fn lock_exists_in_either_channel_side(channel_state: &ChannelState, secrethash: SecretHash) -> (r:
    bool)
    ensures
        r == (channel_state.our_state.spec_has_lock(secrethash)
            || channel_state.partner_state.spec_has_lock(secrethash)),
{
    crate::channel::validators::is_lock_pending(&channel_state.our_state, secrethash)
        || crate::channel::validators::is_lock_pending(&channel_state.partner_state, secrethash)
}

/// The state of a lock once its secret is known off chain.
pub open spec fn spec_unlocked(
    lock: crate::types::state::HashTimeLockState,
    secret: Secret,
) -> UnlockPartialProofState {
    UnlockPartialProofState {
        lock,
        secret,
        amount: lock.amount,
        expiration: lock.expiration,
        secrethash: lock.secrethash,
        encoded: lock.encoded,
    }
}

/// `new` is `old` after the secret of `secrethash` was learnt off chain: a
/// locked lock moves to the unlocked ones.
pub open spec fn spec_secret_registered(
    new: ChannelEndState,
    old: ChannelEndState,
    secret: Secret,
    secrethash: SecretHash,
) -> bool {
    if old.secrethashes_to_lockedlocks@.contains_key(secrethash) {
        let lock = old.secrethashes_to_lockedlocks@[secrethash];
        &&& spec_removed(
            new.secrethashes_to_lockedlocks,
            old.secrethashes_to_lockedlocks,
            secrethash,
        )
        &&& spec_inserted(
            new.secrethashes_to_unlockedlocks,
            old.secrethashes_to_unlockedlocks,
            secrethash,
            UnlockPartialProofState { secrethash, ..spec_unlocked(lock, secret) },
        )
        &&& new == ChannelEndState {
            secrethashes_to_lockedlocks: new.secrethashes_to_lockedlocks,
            secrethashes_to_unlockedlocks: new.secrethashes_to_unlockedlocks,
            ..old
        }
    } else {
        new == old
    }
}

/// This will register the secret and set the lock to the unlocked state.
///
/// Even though the lock is unlocked it is *not* claimed. The capacity will
/// increase once the next balance proof is received.
pub fn register_secret_endstate(end_state: &mut ChannelEndState, secret: Secret, secrethash: SecretHash)
    ensures
        spec_secret_registered(*final(end_state), *old(end_state), secret, secrethash),
{
    if is_lock_locked(end_state, secrethash) {
        let pending_lock = match end_state.secrethashes_to_lockedlocks.get(&secrethash) {
            Some(lock) => *lock,
            None => return ,
        };
        end_state.secrethashes_to_lockedlocks.remove(&secrethash);
        end_state.secrethashes_to_unlockedlocks.insert(
            secrethash,
            UnlockPartialProofState {
                lock: pending_lock,
                secret,
                amount: pending_lock.amount,
                expiration: pending_lock.expiration,
                secrethash,
                encoded: pending_lock.encoded,
            },
        );
    }
}

/// Registers a secret learnt off chain on both ends of the channel.
pub fn register_offchain_secret(channel_state: &mut ChannelState, secret: Secret, secrethash: SecretHash)
    ensures
        spec_secret_registered(
            final(channel_state).our_state,
            old(channel_state).our_state,
            secret,
            secrethash,
        ),
        spec_secret_registered(
            final(channel_state).partner_state,
            old(channel_state).partner_state,
            secret,
            secrethash,
        ),
        *final(channel_state) == (ChannelState {
            our_state: final(channel_state).our_state,
            partner_state: final(channel_state).partner_state,
            ..*old(channel_state)
        }),
{
    register_secret_endstate(&mut channel_state.our_state, secret, secrethash);
    register_secret_endstate(&mut channel_state.partner_state, secret, secrethash);
}

/// The lock whose secret was revealed on chain: an off-chain unlocked one
/// first, else a locked one.
pub open spec fn spec_onchain_candidate(
    end_state: ChannelEndState,
    secrethash: SecretHash,
) -> Option<crate::types::state::HashTimeLockState> {
    if end_state.secrethashes_to_unlockedlocks@.contains_key(secrethash) {
        Some(end_state.secrethashes_to_unlockedlocks@[secrethash].lock)
    } else if end_state.secrethashes_to_lockedlocks@.contains_key(secrethash) {
        Some(end_state.secrethashes_to_lockedlocks@[secrethash])
    } else {
        None
    }
}

/// `new` is `old` after the secret of `secrethash` was registered on chain
/// at `block`: a lock that had not expired by then is recorded as unlocked
/// on chain, and all its entries are dropped where `delete` is set.
pub open spec fn spec_onchain_secret_registered(
    new: ChannelEndState,
    old: ChannelEndState,
    secret: Secret,
    secrethash: SecretHash,
    block: BlockNumber,
    delete: bool,
) -> bool {
    match spec_onchain_candidate(old, secrethash) {
        Some(lock) => if lock.expiration < block {
            new == old
        } else {
            let unlocked = UnlockPartialProofState { secrethash, ..spec_unlocked(lock, secret) };
            if delete {
                &&& spec_removed(
                    new.secrethashes_to_lockedlocks,
                    old.secrethashes_to_lockedlocks,
                    secrethash,
                )
                &&& spec_removed(
                    new.secrethashes_to_unlockedlocks,
                    old.secrethashes_to_unlockedlocks,
                    secrethash,
                )
                &&& new.secrethashes_to_onchain_unlockedlocks@
                    == old.secrethashes_to_onchain_unlockedlocks@.remove(secrethash)
                &&& new == ChannelEndState {
                    secrethashes_to_lockedlocks: new.secrethashes_to_lockedlocks,
                    secrethashes_to_unlockedlocks: new.secrethashes_to_unlockedlocks,
                    secrethashes_to_onchain_unlockedlocks: new.secrethashes_to_onchain_unlockedlocks,
                    ..old
                }
            } else {
                &&& spec_inserted(
                    new.secrethashes_to_onchain_unlockedlocks,
                    old.secrethashes_to_onchain_unlockedlocks,
                    secrethash,
                    unlocked,
                )
                &&& new == ChannelEndState {
                    secrethashes_to_onchain_unlockedlocks: new.secrethashes_to_onchain_unlockedlocks,
                    ..old
                }
            }
        },
        None => new == old,
    }
}

/// Records that the secret of `secrethash` was registered on chain at
/// `secret_reveal_block_number`.
pub fn register_onchain_secret_endstate(
    end_state: &mut ChannelEndState,
    secret: Secret,
    secrethash: SecretHash,
    secret_reveal_block_number: BlockNumber,
    should_delete_lock: bool,
)
    ensures
        spec_onchain_secret_registered(
            *final(end_state),
            *old(end_state),
            secret,
            secrethash,
            secret_reveal_block_number,
            should_delete_lock,
        ),
{
    let mut pending_lock = None;
    if is_lock_locked(end_state, secrethash) {
        pending_lock = match end_state.secrethashes_to_lockedlocks.get(&secrethash) {
            Some(lock) => Some(*lock),
            None => None,
        };
    }
    if let Some(unlocked) = end_state.secrethashes_to_unlockedlocks.get(&secrethash) {
        pending_lock = Some(unlocked.lock);
    }
    if let Some(lock) = pending_lock {
        if lock.expiration < secret_reveal_block_number {
            return ;
        }
        end_state.secrethashes_to_onchain_unlockedlocks.insert(
            secrethash,
            UnlockPartialProofState {
                secret,
                secrethash,
                lock,
                amount: lock.amount,
                expiration: lock.expiration,
                encoded: lock.encoded,
            },
        );
        if should_delete_lock {
            delete_lock(end_state, secrethash);
            assert(end_state.secrethashes_to_onchain_unlockedlocks@
                =~= old(end_state).secrethashes_to_onchain_unlockedlocks@.remove(secrethash));
        }
    }
}

/// `new` is the channel `old` after the secret of `secrethash` was
/// registered on chain at `block`: both ends take it, nothing else changes.
pub open spec fn spec_onchain_secret_registered_channel(
    new: ChannelState,
    old: ChannelState,
    secret: Secret,
    secrethash: SecretHash,
    block: BlockNumber,
    delete: bool,
) -> bool {
    &&& spec_onchain_secret_registered(new.our_state, old.our_state, secret, secrethash, block, delete)
    &&& spec_onchain_secret_registered(
        new.partner_state,
        old.partner_state,
        secret,
        secrethash,
        block,
        delete,
    )
    &&& new == (ChannelState { our_state: new.our_state, partner_state: new.partner_state, ..old })
}

/// Records an on-chain secret registration on both ends of the channel.
pub fn register_onchain_secret(
    channel_state: &mut ChannelState,
    secret: Secret,
    secrethash: SecretHash,
    secret_reveal_block_number: BlockNumber,
    should_delete_lock: bool,
)
    ensures
        spec_onchain_secret_registered_channel(
            *final(channel_state),
            *old(channel_state),
            secret,
            secrethash,
            secret_reveal_block_number,
            should_delete_lock,
        ),
{
    register_onchain_secret_endstate(
        &mut channel_state.our_state,
        secret,
        secrethash,
        secret_reveal_block_number,
        should_delete_lock,
    );
    register_onchain_secret_endstate(
        &mut channel_state.partner_state,
        secret,
        secrethash,
        secret_reveal_block_number,
        should_delete_lock,
    );
}

/// `bp` is a fresh balance proof of ours: the given nonce, amounts and
/// locks, the balance hash over `hash_transferred`, `hash_locked` and the
/// root of `locks`, and neither message hash, signature nor sender yet.
pub open spec fn spec_new_balance_proof(
    bp: BalanceProofState,
    nonce: nat,
    transferred: nat,
    locked: nat,
    hash_transferred: nat,
    hash_locked: nat,
    locks: Seq<EncodedLock>,
    canonical_identifier: CanonicalIdentifier,
) -> bool {
    &&& bp.nonce@ == nonce
    &&& bp.transferred_amount@ == transferred
    &&& bp.locked_amount@ == locked
    &&& bp.locksroot@ == spec_locksroot(locks)
    &&& bp.balance_hash@ == spec_hash_balance_data(hash_transferred, hash_locked, spec_locksroot(locks))
    &&& bp.canonical_identifier == canonical_identifier
    &&& bp.message_hash.is_none()
    &&& bp.signature.is_none()
    &&& bp.sender.is_none()
}

/// The end's balance proof carries the root of its pending locks.
pub open spec fn spec_proof_commits_to_locks(e: ChannelEndState) -> bool {
    match e.balance_proof {
        Some(bp) => bp.locksroot@ == spec_locksroot(e.pending_locks.locks@),
        None => false,
    }
}

/// What `create_send_expired_lock` needs to run without overflow.
pub open spec fn spec_send_expired_lock_defined(sender: &ChannelEndState, lock: &HashTimeLockState) -> bool {
    &&& spec_amount_locked(sender) <= u256_max()
    &&& sender.balance_proof.is_some() ==> spec_amount_locked(sender) >= lock.amount@
    &&& sender.balance_proof.is_some() && sender.pending_locks.locks@.contains(lock.encoded)
        ==> sender.nonce@ < u256_max()
}

/// The lock can be expired by a message: there is a balance proof and the
/// lock is among the pending ones.
pub open spec fn spec_lock_can_expire(sender: &ChannelEndState, lock: &HashTimeLockState) -> bool {
    sender.balance_proof.is_some() && sender.pending_locks.locks@.contains(lock.encoded)
}

/// `e` tells the partner that `lock` of `sender` expired.
pub open spec fn spec_lock_expired_message(
    e: SendLockExpired,
    sender: &ChannelEndState,
    lock: HashTimeLockState,
    canonical_identifier: CanonicalIdentifier,
    recipient: Address,
    recipient_metadata: Option<AddressMetadata>,
) -> bool {
    let bp = sender.balance_proof.unwrap();
    let locked = spec_amount_locked(sender);
    &&& spec_new_balance_proof(
        e.balance_proof,
        sender.nonce@ + 1,
        bp.transferred_amount@,
        (locked - lock.amount@) as nat,
        bp.transferred_amount@,
        locked,
        without_lock(sender.pending_locks.locks@, lock.encoded),
        canonical_identifier,
    )
    &&& e.secrethash == lock.secrethash
    &&& e.inner.recipient == recipient
    &&& e.inner.recipient_metadata == recipient_metadata
    &&& e.inner.canonical_identifier == canonical_identifier
}

/// Builds the message that expires `locked_lock`, with the pending locks
/// that remain; nothing when there is no balance proof or the lock is not
/// pending.
pub fn create_send_expired_lock(
    sender_end_state: &ChannelEndState,
    locked_lock: HashTimeLockState,
    pseudo_random_number_generator: &mut Random,
    canonical_identifier: CanonicalIdentifier,
    recipient: Address,
    recipient_metadata: Option<AddressMetadata>,
) -> (r: Result<(Option<SendLockExpired>, Option<PendingLocksState>), String>)
    requires
        spec_send_expired_lock_defined(sender_end_state, &locked_lock),
    ensures
        r.is_ok(),
        r.unwrap().0.is_some() == spec_lock_can_expire(sender_end_state, &locked_lock),
        r.unwrap().1.is_some() == r.unwrap().0.is_some(),
        r.unwrap().0.is_some() ==> {
            &&& spec_lock_expired_message(
                r.unwrap().0.unwrap(),
                sender_end_state,
                locked_lock,
                canonical_identifier,
                recipient,
                recipient_metadata,
            )
            &&& r.unwrap().1.unwrap().locks@ == without_lock(
                sender_end_state.pending_locks.locks@,
                locked_lock.encoded,
            )
        },
{
    let locked_amount = get_amount_locked(sender_end_state);
    let balance_proof = match &sender_end_state.balance_proof {
        Some(bp) => *bp,
        None => return Ok((None, None)),
    };
    let updated_locked_amount = locked_amount.sub(locked_lock.amount);
    let transferred_amount = balance_proof.transferred_amount;
    let secrethash = locked_lock.secrethash;
    let pending_locks = match compute_locks_without(&sender_end_state.pending_locks, &locked_lock) {
        Some(locks) => locks,
        None => return Ok((None, None)),
    };
    let nonce = get_next_nonce(sender_end_state);
    let locksroot = compute_locksroot(&pending_locks);
    let balance_hash = hash_balance_data(transferred_amount, locked_amount, locksroot);
    let balance_proof = BalanceProofState {
        nonce,
        transferred_amount,
        locksroot,
        balance_hash,
        canonical_identifier,
        locked_amount: updated_locked_amount,
        message_hash: None,
        signature: None,
        sender: None,
    };
    let send_lock_expired = SendLockExpired {
        inner: SendMessageEventInner {
            recipient,
            recipient_metadata,
            canonical_identifier,
            message_identifier: pseudo_random_number_generator.next(),
        },
        balance_proof,
        secrethash,
    };
    Ok((Some(send_lock_expired), Some(pending_locks)))
}

/// `new` is our end after sending `e`, which expired our lock of
/// `secrethash`: the message's balance proof, nonce and remaining locks,
/// without the unclaimed lock.
pub open spec fn spec_expiry_sent(
    new: ChannelEndState,
    old: ChannelEndState,
    bp: BalanceProofState,
    locks: Seq<EncodedLock>,
    secrethash: SecretHash,
) -> bool {
    &&& new.pending_locks.locks@ == locks
    &&& spec_unclaimed_lock_deleted(
        new,
        ChannelEndState {
            pending_locks: new.pending_locks,
            balance_proof: Some(bp),
            nonce: bp.nonce,
            ..old
        },
        secrethash,
    )
}

/// The outcome of `send_lock_expired`: on an open channel where the lock can
/// expire, one message expires it and our end drops it; otherwise nothing
/// changes.
pub open spec fn spec_send_lock_expired(
    channel_state: ChannelState,
    locked_lock: HashTimeLockState,
    recipient_metadata: Option<AddressMetadata>,
    r: Result<(ChannelState, Vec<SendLockExpired>), String>,
) -> bool {
    &&& r.is_ok()
    &&& ({
        let (c, events) = r.unwrap();
        if channel_state.spec_status() == ChannelStatus::Opened && spec_lock_can_expire(
            &channel_state.our_state,
            &locked_lock,
        ) {
            &&& events@.len() == 1
            &&& spec_lock_expired_message(
                events@[0],
                &channel_state.our_state,
                locked_lock,
                channel_state.canonical_identifier,
                channel_state.partner_state.address,
                recipient_metadata,
            )
            &&& spec_expiry_sent(
                c.our_state,
                channel_state.our_state,
                events@[0].balance_proof,
                without_lock(channel_state.our_state.pending_locks.locks@, locked_lock.encoded),
                locked_lock.secrethash,
            )
            &&& c == ChannelState { our_state: c.our_state, ..channel_state }
        } else {
            &&& events@.len() == 0
            &&& c == channel_state
        }
    })
    &&& r.unwrap().1@.len() > 0 ==> {
        &&& spec_proof_commits_to_locks(r.unwrap().0.our_state)
        &&& r.unwrap().0.our_state.nonce@ == channel_state.our_state.nonce@ + 1
    }
}

/// Expires our lock `locked_lock` on an open channel: the message goes to
/// the partner and our end drops the lock.
pub fn send_lock_expired(
    channel_state: ChannelState,
    locked_lock: HashTimeLockState,
    pseudo_random_number_generator: &mut Random,
    recipient_metadata: Option<AddressMetadata>,
) -> (r: Result<(ChannelState, Vec<SendLockExpired>), String>)
    requires
        channel_state.spec_status() == ChannelStatus::Opened ==> spec_send_expired_lock_defined(
            &channel_state.our_state,
            &locked_lock,
        ),
    ensures
        spec_send_lock_expired(channel_state, locked_lock, recipient_metadata, r),
{
    let mut channel_state = channel_state;
    if channel_state.status() != ChannelStatus::Opened {
        return Ok((channel_state, Vec::new()));
    }
    let secrethash = locked_lock.secrethash;
    let (send_lock_expired, pending_locks) = create_send_expired_lock(
        &channel_state.our_state,
        locked_lock,
        pseudo_random_number_generator,
        channel_state.canonical_identifier,
        channel_state.partner_state.address,
        recipient_metadata,
    )?;
    let mut events: Vec<SendLockExpired> = Vec::new();
    match (send_lock_expired, pending_locks) {
        (Some(send_lock_expired), Some(pending_locks)) => {
            channel_state.our_state.pending_locks = pending_locks;
            channel_state.our_state.balance_proof = Some(send_lock_expired.balance_proof);
            channel_state.our_state.nonce = send_lock_expired.balance_proof.nonce;
            delete_unclaimed_lock(&mut channel_state.our_state, secrethash);
            events.push(send_lock_expired);
        },
        _ => {},
    }
    Ok((channel_state, events))
}

/// An unlock of `lock` may be built: the channel is open, the lock is ours
/// and has not expired at `block_number`, and we have a balance proof.
pub open spec fn spec_unlock_reachable(
    channel_state: &ChannelState,
    lock: &HashTimeLockState,
    block_number: BlockNumber,
) -> bool {
    let our = &channel_state.our_state;
    &&& channel_state.spec_status() == ChannelStatus::Opened
    &&& our.spec_has_lock(lock.secrethash)
    &&& !spec_lock_expired(our, lock, block_number, lock.expiration)
    &&& our.balance_proof.is_some()
}

/// What `create_unlock` needs to run without overflow.
pub open spec fn spec_create_unlock_defined(
    channel_state: &ChannelState,
    lock: &HashTimeLockState,
    block_number: BlockNumber,
) -> bool {
    let our = &channel_state.our_state;
    spec_unlock_reachable(channel_state, lock, block_number) ==> {
        &&& lock.amount@ + our.balance_proof.unwrap().transferred_amount@ <= u256_max()
        &&& our.pending_locks.locks@.contains(lock.encoded) ==> {
            &&& spec_amount_locked(our) <= u256_max()
            &&& spec_amount_locked(our) >= lock.amount@
            &&& our.nonce@ < u256_max()
        }
    }
}

/// `e` claims our `lock` with `secret`: the transferred amount grows by the
/// lock's amount, which leaves the locked amount and the pending locks.
pub open spec fn spec_unlock_message(
    e: SendUnlock,
    channel_state: &ChannelState,
    lock: HashTimeLockState,
    message_identifier: MessageIdentifier,
    payment_identifier: PaymentIdentifier,
    secret: Secret,
    recipient_metadata: Option<AddressMetadata>,
) -> bool {
    let our = &channel_state.our_state;
    let transferred = lock.amount@ + our.balance_proof.unwrap().transferred_amount@;
    let locked = (spec_amount_locked(our) - lock.amount@) as nat;
    &&& spec_new_balance_proof(
        e.balance_proof,
        our.nonce@ + 1,
        transferred,
        locked,
        transferred,
        locked,
        without_lock(our.pending_locks.locks@, lock.encoded),
        channel_state.canonical_identifier,
    )
    &&& e.inner.recipient == channel_state.partner_state.address
    &&& e.inner.recipient_metadata == recipient_metadata
    &&& e.inner.message_identifier == message_identifier
    &&& e.inner.canonical_identifier == channel_state.canonical_identifier
    &&& e.payment_identifier == payment_identifier
    &&& e.token_address == channel_state.token_address
    &&& e.secret == secret
    &&& e.secrethash == lock.secrethash
}

/// Why an unlock of our `lock` cannot be built: the first of its checks
/// that fails, in order.
pub open spec fn spec_unlock_refusal(
    channel_state: &ChannelState,
    lock: &HashTimeLockState,
    block_number: BlockNumber,
) -> Seq<char> {
    let our = &channel_state.our_state;
    if channel_state.spec_status() != ChannelStatus::Opened {
        "Channel is not open"@
    } else if !our.spec_has_lock(lock.secrethash) || spec_lock_expired(our, lock, block_number, lock.expiration) {
        "Lock expired"@
    } else if our.balance_proof.is_none() {
        "No transfers exist on our state"@
    } else {
        "Lock is pending, it must be in the pending locks"@
    }
}

/// Builds the unlock of our `lock` and the pending locks without it; our
/// nonce moves on to the unlock's.
pub fn create_unlock(
    channel_state: &mut ChannelState,
    message_identifier: MessageIdentifier,
    payment_identifier: PaymentIdentifier,
    secret: Secret,
    lock: &HashTimeLockState,
    block_number: BlockNumber,
    recipient_metadata: Option<AddressMetadata>,
) -> (r: Result<(SendUnlock, PendingLocksState), String>)
    requires
        spec_create_unlock_defined(old(channel_state), lock, block_number),
    ensures
        r.is_ok() == (spec_unlock_reachable(old(channel_state), lock, block_number)
            && old(channel_state).our_state.pending_locks.locks@.contains(lock.encoded)),
        r.is_err() ==> *final(channel_state) == *old(channel_state),
        r matches Err(m) ==> m@ == spec_unlock_refusal(old(channel_state), lock, block_number),
        r.is_ok() ==> {
            let (e, locks) = r.unwrap();
            &&& spec_unlock_message(
                e,
                old(channel_state),
                *lock,
                message_identifier,
                payment_identifier,
                secret,
                recipient_metadata,
            )
            &&& locks.locks@ == without_lock(
                old(channel_state).our_state.pending_locks.locks@,
                lock.encoded,
            )
            &&& *final(channel_state) == (ChannelState {
                our_state: ChannelEndState {
                    nonce: e.balance_proof.nonce,
                    ..old(channel_state).our_state
                },
                ..*old(channel_state)
            })
        },
{
    proof {
        reveal_strlit("Channel is not open");
        reveal_strlit("Lock expired");
        reveal_strlit("No transfers exist on our state");
        reveal_strlit("Lock is pending, it must be in the pending locks");
    }
    if channel_state.status() != ChannelStatus::Opened {
        return Err("Channel is not open".to_string());
    }
    if !is_lock_pending(&channel_state.our_state, lock.secrethash) {
        return Err("Lock expired".to_string());
    }
    let expired = is_lock_expired(&channel_state.our_state, lock, block_number, lock.expiration).is_ok();
    if expired {
        return Err("Lock expired".to_string());
    }
    let our_balance_proof = match &channel_state.our_state.balance_proof {
        Some(balance_proof) => *balance_proof,
        None => return Err("No transfers exist on our state".to_string()),
    };
    let transferred_amount = lock.amount.add(our_balance_proof.transferred_amount);
    let pending_locks = match compute_locks_without(&channel_state.our_state.pending_locks, lock) {
        Some(pending_locks) => pending_locks,
        None => return Err("Lock is pending, it must be in the pending locks".to_string()),
    };
    let locksroot = compute_locksroot(&pending_locks);
    let token_address = channel_state.token_address;
    let recipient = channel_state.partner_state.address;
    let locked_amount = get_amount_locked(&channel_state.our_state).sub(lock.amount);
    let nonce = get_next_nonce(&channel_state.our_state);
    channel_state.our_state.nonce = nonce;
    let balance_hash = hash_balance_data(transferred_amount, locked_amount, locksroot);
    let balance_proof = BalanceProofState {
        nonce,
        transferred_amount,
        locked_amount,
        locksroot,
        balance_hash,
        canonical_identifier: channel_state.canonical_identifier,
        message_hash: None,
        signature: None,
        sender: None,
    };
    let unlock_lock = SendUnlock {
        inner: SendMessageEventInner {
            recipient,
            recipient_metadata,
            message_identifier,
            canonical_identifier: channel_state.canonical_identifier,
        },
        payment_identifier,
        token_address,
        balance_proof,
        secret,
        secrethash: lock.secrethash,
    };
    Ok((unlock_lock, pending_locks))
}

/// What `send_unlock` needs to run without overflow.
pub open spec fn spec_send_unlock_defined(
    channel_state: &ChannelState,
    secrethash: SecretHash,
    block_number: BlockNumber,
) -> bool {
    match spec_get_lock(&channel_state.our_state, secrethash) {
        Some(lock) => spec_create_unlock_defined(channel_state, &lock, block_number),
        None => true,
    }
}

/// The outcome of `send_unlock` from `old_cs` to `new_cs`: without our lock
/// of `secrethash` it fails; otherwise it succeeds when the lock can still
/// be unlocked and is pending, and then the unlock message takes the lock
/// out of our end, whose nonce grows by one.
pub open spec fn spec_send_unlock(
    old_cs: ChannelState,
    new_cs: ChannelState,
    message_identifier: MessageIdentifier,
    payment_identifier: PaymentIdentifier,
    secret: Secret,
    secrethash: SecretHash,
    block_number: BlockNumber,
    recipient_metadata: Option<AddressMetadata>,
    r: Result<SendUnlock, String>,
) -> bool {
    &&& match spec_get_lock(&old_cs.our_state, secrethash) {
        None => r.is_err() && new_cs == old_cs,
        Some(lock) => {
            &&& r.is_ok() == (spec_unlock_reachable(&old_cs, &lock, block_number)
                && old_cs.our_state.pending_locks.locks@.contains(lock.encoded))
            &&& r.is_err() ==> new_cs == old_cs
            &&& r.is_ok() ==> {
                let e = r.unwrap();
                &&& spec_unlock_message(
                    e,
                    &old_cs,
                    lock,
                    message_identifier,
                    payment_identifier,
                    secret,
                    recipient_metadata,
                )
                &&& new_cs.our_state.pending_locks.locks@ == without_lock(
                    old_cs.our_state.pending_locks.locks@,
                    lock.encoded,
                )
                &&& spec_lock_deleted(
                    new_cs.our_state,
                    ChannelEndState {
                        nonce: e.balance_proof.nonce,
                        balance_proof: Some(e.balance_proof),
                        pending_locks: new_cs.our_state.pending_locks,
                        ..old_cs.our_state
                    },
                    lock.secrethash,
                )
                &&& new_cs == (ChannelState { our_state: new_cs.our_state, ..old_cs })
            }
        },
    }
    &&& r.is_ok() ==> {
        &&& spec_proof_commits_to_locks(new_cs.our_state)
        &&& new_cs.our_state.nonce@ == old_cs.our_state.nonce@ + 1
    }
}

/// Sends the unlock of our lock of `secrethash`: our end takes the new
/// balance proof and pending locks and drops the lock.
pub fn send_unlock(
    channel_state: &mut ChannelState,
    message_identifier: MessageIdentifier,
    payment_identifier: PaymentIdentifier,
    secret: Secret,
    secrethash: SecretHash,
    block_number: BlockNumber,
    recipient_metadata: Option<AddressMetadata>,
) -> (r: Result<SendUnlock, String>)
    requires
        spec_send_unlock_defined(old(channel_state), secrethash, block_number),
    ensures
        spec_send_unlock(
            *old(channel_state),
            *final(channel_state),
            message_identifier,
            payment_identifier,
            secret,
            secrethash,
            block_number,
            recipient_metadata,
            r,
        ),
{
    let lock = match get_lock(&channel_state.our_state, secrethash) {
        Some(lock) => lock,
        None => return Err("Caller must ensure the lock exists".to_string()),
    };
    let (unlock, pending_locks) = create_unlock(
        channel_state,
        message_identifier,
        payment_identifier,
        secret,
        &lock,
        block_number,
        recipient_metadata,
    )?;
    channel_state.our_state.balance_proof = Some(unlock.balance_proof);
    channel_state.our_state.pending_locks = pending_locks;
    delete_lock(&mut channel_state.our_state, lock.secrethash);
    Ok(unlock)
}

/// `new` is the partner's end after it sent the balance proof `bp`, with
/// `locks` pending.
pub open spec fn spec_partner_proof_taken(
    new: ChannelEndState,
    old: ChannelEndState,
    bp: BalanceProofState,
    locks: Seq<EncodedLock>,
) -> bool {
    &&& new.pending_locks.locks@ == locks
    &&& new == ChannelEndState {
        balance_proof: Some(bp),
        nonce: bp.nonce,
        pending_locks: new.pending_locks,
        ..old
    }
}

/// Handles the partner's unlock: a valid one is taken and the lock is
/// dropped, an invalid one is reported.
pub fn handle_unlock(
    channel_state: &mut ChannelState,
    unlock: ReceiveUnlock,
    recipient_metadata: Option<AddressMetadata>,
) -> (r: Result<Event, String>)
    requires
        spec_unlock_defined(&old(channel_state).partner_state, &unlock),
        spec_valid_unlock(old(channel_state), &old(channel_state).partner_state, &unlock)
            ==> unlock.balance_proof.sender.is_some(),
    ensures
        r.is_ok(),
        ({
            let old_cs = old(channel_state);
            let p = old_cs.partner_state;
            if spec_valid_unlock(old_cs, &p, &unlock) {
                let lock = spec_get_lock(&p, unlock.secrethash).unwrap();
                &&& spec_processed_event(
                    unlock.balance_proof.sender.unwrap(),
                    recipient_metadata,
                    unlock.message_identifier,
                    r.unwrap(),
                )
                &&& final(channel_state).partner_state.pending_locks.locks@ == without_lock(
                    p.pending_locks.locks@,
                    lock.encoded,
                )
                &&& spec_lock_deleted(
                    final(channel_state).partner_state,
                    ChannelEndState {
                        balance_proof: Some(unlock.balance_proof),
                        nonce: unlock.balance_proof.nonce,
                        pending_locks: final(channel_state).partner_state.pending_locks,
                        ..p
                    },
                    unlock.secrethash,
                )
                &&& *final(channel_state) == (ChannelState {
                    partner_state: final(channel_state).partner_state,
                    ..*old_cs
                })
            } else {
                &&& r.unwrap() matches Event::ErrorInvalidReceivedUnlock(e) && e.secrethash
                    == unlock.secrethash
                &&& *final(channel_state) == *old_cs
            }
        }),
        spec_valid_unlock(old(channel_state), &old(channel_state).partner_state, &unlock)
            ==> spec_proof_commits_to_locks(final(channel_state).partner_state),
{
    let validated = is_valid_unlock(channel_state, &channel_state.partner_state, &unlock);
    let event = match validated {
        Ok(pending_locks) => {
            channel_state.partner_state.balance_proof = Some(unlock.balance_proof);
            channel_state.partner_state.nonce = unlock.balance_proof.nonce;
            channel_state.partner_state.pending_locks = pending_locks;
            delete_lock(&mut channel_state.partner_state, unlock.secrethash);
            let sender = match unlock.balance_proof.sender {
                Some(sender) => sender,
                None => Address::zero(),
            };
            processed(sender, recipient_metadata, unlock.message_identifier)
        },
        Err(e) => Event::ErrorInvalidReceivedUnlock(
            ErrorInvalidReceivedUnlock { secrethash: unlock.secrethash, reason: e },
        ),
    };
    Ok(event)
}

/// Some lock of `locks` has the encoding `encoded`.
pub open spec fn spec_holds_encoding(locks: Seq<EncodedLock>, encoded: Seq<u8>) -> bool {
    exists|i: int| 0 <= i < locks.len() && #[trigger] locks[i]@ == encoded
}

pub proof fn lemma_holds_encoding(locks: Seq<EncodedLock>, x: EncodedLock)
    ensures
        locks.contains(x) == spec_holds_encoding(locks, x@),
{
    if spec_holds_encoding(locks, x@) {
        let i = choose|i: int| 0 <= i < locks.len() && #[trigger] locks[i]@ == x@;
        assert(locks[i].bytes =~= x.bytes);
        assert(locks[i] == x);
    }
    if locks.contains(x) {
        let i = choose|i: int| 0 <= i < locks.len() && locks[i] == x;
        assert(locks[i]@ == x@);
    }
}

/// A locked transfer of `amount` can be built: it is within what we can
/// distribute, the channel is open, the lock is new and the transferred
/// amount cannot overflow.
pub open spec fn spec_locked_transfer_ok(
    channel_state: &ChannelState,
    amount: TokenAmount,
    expiration: BlockExpiration,
    secrethash: SecretHash,
) -> bool {
    spec_lock_sendable(channel_state, amount@, expiration, secrethash)
}

/// A lock of `amount` can be sent: it is within what we can distribute,
/// the channel is open, the lock is new and the transferred amount cannot
/// overflow.
pub open spec fn spec_lock_sendable(
    channel_state: &ChannelState,
    amount: nat,
    expiration: BlockExpiration,
    secrethash: SecretHash,
) -> bool {
    let our = &channel_state.our_state;
    &&& amount <= spec_channel_distributable(our, &channel_state.partner_state)
    &&& channel_state.spec_status() == ChannelStatus::Opened
    &&& !spec_holds_encoding(
        our.pending_locks.locks@,
        spec_encode_lock(amount, expiration, secrethash@),
    )
    &&& our.spec_transferred() + amount <= u256_max()
}

/// What `create_locked_transfer` needs to run without overflow.
pub open spec fn spec_create_locked_transfer_defined(
    channel_state: &ChannelState,
    amount: TokenAmount,
    expiration: BlockExpiration,
    secrethash: SecretHash,
) -> bool {
    spec_lock_send_defined(channel_state, amount@, expiration, secrethash)
}

/// Sending a lock of `amount` runs without overflow.
pub open spec fn spec_lock_send_defined(
    channel_state: &ChannelState,
    amount: nat,
    expiration: BlockExpiration,
    secrethash: SecretHash,
) -> bool {
    let our = &channel_state.our_state;
    &&& spec_distributable_defined(our, &channel_state.partner_state)
    &&& spec_lock_sendable(channel_state, amount, expiration, secrethash) ==> {
        &&& spec_amount_locked(our) + amount <= u256_max()
        &&& our.nonce@ < u256_max()
    }
}

/// `e` sends a new lock of `amount` to the partner, on top of our balance
/// proof.
pub open spec fn spec_locked_transfer_message(
    e: SendLockedTransfer,
    channel_state: &ChannelState,
    initiator: Address,
    target: Address,
    amount: TokenAmount,
    expiration: BlockExpiration,
    secrethash: SecretHash,
    message_identifier: MessageIdentifier,
    payment_identifier: PaymentIdentifier,
    route_states: Vec<RouteState>,
    recipient_metadata: Option<AddressMetadata>,
) -> bool {
    let our = &channel_state.our_state;
    let t = e.transfer;
    let locked = spec_amount_locked(our) + amount@;
    let partner = channel_state.partner_state.address;
    &&& t.lock.amount == amount
    &&& t.lock.expiration == expiration
    &&& t.lock.secrethash == secrethash
    &&& t.lock.encoded@ == spec_encode_lock(amount@, expiration, secrethash@)
    &&& spec_new_balance_proof(
        t.balance_proof,
        our.nonce@ + 1,
        our.spec_transferred(),
        locked,
        amount@,
        locked,
        our.pending_locks.locks@.push(t.lock.encoded),
        channel_state.canonical_identifier,
    )
    &&& t.payment_identifier == payment_identifier
    &&& t.token == channel_state.token_address
    &&& t.initiator == initiator
    &&& t.target == target
    &&& t.message_identifier == message_identifier
    &&& t.route_states == route_states
    &&& t.secret.is_none()
    &&& e.inner.recipient == partner
    &&& e.inner.recipient_metadata == match recipient_metadata {
        Some(m) => Some(m),
        None => spec_address_metadata(partner, route_states@),
    }
    &&& e.inner.canonical_identifier == channel_state.canonical_identifier
    &&& e.inner.message_identifier == message_identifier
}

/// Builds a locked transfer to the partner and the pending locks with its
/// lock.
pub fn create_locked_transfer(
    channel_state: &ChannelState,
    initiator: Address,
    target: Address,
    amount: TokenAmount,
    expiration: BlockExpiration,
    secrethash: SecretHash,
    message_identifier: MessageIdentifier,
    payment_identifier: PaymentIdentifier,
    route_states: Vec<RouteState>,
    recipient_metadata: Option<AddressMetadata>,
) -> (r: Result<(SendLockedTransfer, PendingLocksState), String>)
    requires
        spec_create_locked_transfer_defined(channel_state, amount, expiration, secrethash),
    ensures
        r.is_ok() == spec_locked_transfer_ok(channel_state, amount, expiration, secrethash),
        r.is_ok() ==> {
            let (e, locks) = r.unwrap();
            &&& spec_locked_transfer_message(
                e,
                channel_state,
                initiator,
                target,
                amount,
                expiration,
                secrethash,
                message_identifier,
                payment_identifier,
                route_states,
                recipient_metadata,
            )
            &&& locks.locks@ == channel_state.our_state.pending_locks.locks@.push(
                e.transfer.lock.encoded,
            )
        },
{
    if channel_distributable(&channel_state.our_state, &channel_state.partner_state).less_than(
        &amount,
    ) {
        return Err("Caller must make sure there is enough balance".to_string());
    }
    if channel_state.status() != ChannelStatus::Opened {
        return Err("Caller must make sure the channel is open".to_string());
    }
    let lock = HashTimeLockState::create(amount, expiration, secrethash);
    proof {
        lemma_holds_encoding(channel_state.our_state.pending_locks.locks@, lock.encoded);
    }
    let pending_locks = match compute_locks_with(&channel_state.our_state.pending_locks, lock) {
        Some(pending_locks) => pending_locks,
        None => return Err("Caller must make sure the lock isn't used twice".to_string()),
    };
    let locksroot = compute_locksroot(&pending_locks);
    let transferred_amount = match &channel_state.our_state.balance_proof {
        Some(our_balance_proof) => our_balance_proof.transferred_amount,
        None => U256::zero(),
    };
    if transferred_amount.checked_add(amount).is_none() {
        return Err("Caller must make sure the result wont overflow".to_string());
    }
    let token = channel_state.token_address;
    let locked_amount = get_amount_locked(&channel_state.our_state).add(amount);
    let nonce = get_next_nonce(&channel_state.our_state);
    let balance_hash = hash_balance_data(amount, locked_amount, locksroot);
    let balance_proof = BalanceProofState {
        nonce,
        transferred_amount,
        locked_amount,
        locksroot,
        balance_hash,
        canonical_identifier: channel_state.canonical_identifier,
        message_hash: None,
        signature: None,
        sender: None,
    };
    let recipient = channel_state.partner_state.address;
    let recipient_metadata = match recipient_metadata {
        Some(metadata) => Some(metadata),
        None => get_address_metadata(recipient, &route_states),
    };
    let locked_transfer = LockedTransferState {
        payment_identifier,
        token,
        lock,
        initiator,
        target,
        message_identifier,
        route_states,
        balance_proof,
        secret: None,
    };
    let locked_transfer_event = SendLockedTransfer {
        inner: SendMessageEventInner {
            recipient,
            recipient_metadata,
            canonical_identifier: channel_state.canonical_identifier,
            message_identifier,
        },
        transfer: locked_transfer,
    };
    Ok((locked_transfer_event, pending_locks))
}

/// `c` and `e` are the channel and the message after a locked transfer of
/// `amount` was sent: the message holds the lock on top of our balance
/// proof, and our end takes the balance proof, the pending lock and the
/// locked lock.
pub open spec fn spec_locked_transfer_sent(
    channel_state: ChannelState,
    initiator: Address,
    target: Address,
    amount: TokenAmount,
    expiration: BlockExpiration,
    secrethash: SecretHash,
    message_identifier: MessageIdentifier,
    payment_identifier: PaymentIdentifier,
    route_states: Vec<RouteState>,
    recipient_metadata: Option<AddressMetadata>,
    c: ChannelState,
    e: SendLockedTransfer,
) -> bool {
    let our = channel_state.our_state;
    let t = e.transfer;
    &&& spec_locked_transfer_message(
        e,
        &channel_state,
        initiator,
        target,
        amount,
        expiration,
        secrethash,
        message_identifier,
        payment_identifier,
        route_states,
        recipient_metadata,
    )
    &&& c.our_state.pending_locks.locks@ == our.pending_locks.locks@.push(t.lock.encoded)
    &&& spec_inserted(
        c.our_state.secrethashes_to_lockedlocks,
        our.secrethashes_to_lockedlocks,
        t.lock.secrethash,
        t.lock,
    )
    &&& c.our_state == ChannelEndState {
        balance_proof: Some(t.balance_proof),
        nonce: t.balance_proof.nonce,
        pending_locks: c.our_state.pending_locks,
        secrethashes_to_lockedlocks: c.our_state.secrethashes_to_lockedlocks,
        ..our
    }
    &&& c == ChannelState { our_state: c.our_state, ..channel_state }
}

/// Sends a locked transfer to the partner: our end takes its balance proof,
/// pending locks and lock.
pub fn send_locked_transfer(
    channel_state: ChannelState,
    initiator: Address,
    target: Address,
    amount: TokenAmount,
    expiration: BlockExpiration,
    secrethash: SecretHash,
    message_identifier: MessageIdentifier,
    payment_identifier: PaymentIdentifier,
    route_states: Vec<RouteState>,
    recipient_metadata: Option<AddressMetadata>,
) -> (r: Result<(ChannelState, SendLockedTransfer), String>)
    requires
        spec_create_locked_transfer_defined(&channel_state, amount, expiration, secrethash),
    ensures
        r.is_ok() == spec_locked_transfer_ok(&channel_state, amount, expiration, secrethash),
        r.is_ok() ==> spec_locked_transfer_sent(
            channel_state,
            initiator,
            target,
            amount,
            expiration,
            secrethash,
            message_identifier,
            payment_identifier,
            route_states,
            recipient_metadata,
            r.unwrap().0,
            r.unwrap().1,
        ),
        r.is_ok() ==> {
            &&& spec_proof_commits_to_locks(r.unwrap().0.our_state)
            &&& r.unwrap().0.our_state.nonce@ == channel_state.our_state.nonce@ + 1
        },
        r.is_ok() && !channel_state.our_state.secrethashes_to_lockedlocks@.contains_key(secrethash)
            && sum_lock_amounts(channel_state.our_state.secrethashes_to_lockedlocks.entries())
            + amount@ <= u256_max() ==> {
            let our = r.unwrap().0.our_state;
            &&& spec_amount_locked(&our) == spec_amount_locked(&channel_state.our_state) + amount@
            &&& spec_amount_locked(&our) == our.balance_proof.unwrap().locked_amount@
        },
{
    let ghost initial = channel_state;
    let mut channel_state = channel_state;
    let (locked_transfer, pending_locks) = create_locked_transfer(
        &channel_state,
        initiator,
        target,
        amount,
        expiration,
        secrethash,
        message_identifier,
        payment_identifier,
        route_states,
        recipient_metadata,
    )?;
    let lock = locked_transfer.transfer.lock;
    channel_state.our_state.balance_proof = Some(locked_transfer.transfer.balance_proof);
    channel_state.our_state.nonce = locked_transfer.transfer.balance_proof.nonce;
    channel_state.our_state.pending_locks = pending_locks;
    let ghost old_locked = channel_state.our_state.secrethashes_to_lockedlocks.entries();
    channel_state.our_state.secrethashes_to_lockedlocks.insert(lock.secrethash, lock);
    proof {
        let new_locked = channel_state.our_state.secrethashes_to_lockedlocks.entries();
        if !initial.our_state.secrethashes_to_lockedlocks@.contains_key(secrethash) {
            assert(new_locked.drop_last() =~= old_locked);
        }
    }
    Ok((channel_state, locked_transfer))
}

/// The outcome of the partner's message that one of its locks expired:
/// refused without a sender; a valid one is taken and the unclaimed lock
/// dropped; an invalid one reported.
pub open spec fn spec_channel_lock_expired(
    channel_state: ChannelState,
    state_change: ReceiveLockExpired,
    block_number: BlockNumber,
    recipient_metadata: Option<AddressMetadata>,
    r: TransitionResult,
) -> bool {
    &&& r.is_ok() == state_change.balance_proof.sender.is_some()
    &&& r.is_ok() ==> {
        let t = r.unwrap();
        let c = t.new_state.unwrap();
        let p = channel_state.partner_state;
        &&& t.new_state.is_some()
        &&& t.events@.len() == 1
        &&& if spec_valid_lock_expired(
            &channel_state,
            &state_change,
            &p,
            &channel_state.our_state,
            block_number,
        ) {
            let lock = spec_expired_lock_candidate(&channel_state, state_change.secrethash).unwrap();
            &&& c.partner_state.pending_locks.locks@ == without_lock(
                p.pending_locks.locks@,
                lock.encoded,
            )
            &&& spec_unclaimed_lock_deleted(
                c.partner_state,
                ChannelEndState {
                    balance_proof: Some(state_change.balance_proof),
                    nonce: state_change.balance_proof.nonce,
                    pending_locks: c.partner_state.pending_locks,
                    ..p
                },
                state_change.secrethash,
            )
            &&& c == ChannelState { partner_state: c.partner_state, ..channel_state }
            &&& spec_processed_event(
                state_change.balance_proof.sender.unwrap(),
                recipient_metadata,
                state_change.message_identifier,
                t.events@[0],
            )
        } else {
            &&& c == channel_state
            &&& t.events@[0] matches Event::ErrorInvalidReceivedLockExpired(e) && e.secrethash
                == state_change.secrethash
        }
    }
    &&& r.is_ok() && spec_valid_lock_expired(
        &channel_state,
        &state_change,
        &channel_state.partner_state,
        &channel_state.our_state,
        block_number,
    ) ==> spec_proof_commits_to_locks(r.unwrap().new_state.unwrap().partner_state)
}

/// Handles the partner's message that one of its locks expired: a valid
/// one is taken and the unclaimed lock dropped, an invalid one reported.
pub fn handle_receive_lock_expired(
    channel_state: ChannelState,
    state_change: ReceiveLockExpired,
    block_number: BlockNumber,
    recipient_metadata: Option<AddressMetadata>,
) -> (r: TransitionResult)
    requires
        spec_lock_expired_defined(&channel_state, &state_change, &channel_state.partner_state),
    ensures
        spec_channel_lock_expired(channel_state, state_change, block_number, recipient_metadata, r),
{
    let mut channel_state = channel_state;
    let sender = match state_change.balance_proof.sender {
        Some(sender) => sender,
        None => {
            return Err(StateTransitionError::from_message("The transfer's sender is None".to_string()));
        },
    };
    let validate_pending_locks = is_valid_lock_expired(
        &channel_state,
        &state_change,
        &channel_state.partner_state,
        &channel_state.our_state,
        block_number,
    );
    let mut events: Vec<Event> = Vec::new();
    match validate_pending_locks {
        Ok(pending_locks) => {
            let nonce = state_change.balance_proof.nonce;
            channel_state.partner_state.balance_proof = Some(state_change.balance_proof);
            channel_state.partner_state.nonce = nonce;
            channel_state.partner_state.pending_locks = pending_locks;
            delete_unclaimed_lock(&mut channel_state.partner_state, state_change.secrethash);
            events.push(processed(sender, recipient_metadata, state_change.message_identifier));
        },
        Err(e) => {
            events.push(
                Event::ErrorInvalidReceivedLockExpired(
                    ErrorInvalidReceivedLockExpired { secrethash: state_change.secrethash, reason: e },
                ),
            );
        },
    }
    Ok(ChannelTransition { new_state: Some(channel_state), events })
}

/// The outcome of a locked transfer from the partner on the channel
/// `old_cs_arg`, which becomes `new_cs`: refused without a sender; a valid
/// one is taken and its lock recorded; an invalid one reported.
pub open spec fn spec_locked_transfer_received(
    old_cs_arg: ChannelState,
    mediated_transfer: LockedTransferState,
    recipient_metadata: Option<AddressMetadata>,
    new_cs: ChannelState,
    r: Result<Event, String>,
) -> bool {
    &&& r.is_ok() == mediated_transfer.balance_proof.sender.is_some()
    &&& r.is_err() ==> new_cs == old_cs_arg
    &&& r.is_ok() ==> {
        let old_cs = &old_cs_arg;
        let p = old_cs.partner_state;
        let c = new_cs;
        if spec_valid_locked_transfer_check(
            old_cs,
            &p,
            &old_cs.our_state,
            &mediated_transfer.balance_proof,
            &mediated_transfer.lock,
        ) {
            let lock = mediated_transfer.lock;
            &&& c.partner_state.pending_locks.locks@ == p.pending_locks.locks@.push(lock.encoded)
            &&& spec_inserted(
                c.partner_state.secrethashes_to_lockedlocks,
                p.secrethashes_to_lockedlocks,
                lock.secrethash,
                lock,
            )
            &&& c.partner_state == ChannelEndState {
                balance_proof: Some(mediated_transfer.balance_proof),
                nonce: mediated_transfer.balance_proof.nonce,
                pending_locks: c.partner_state.pending_locks,
                secrethashes_to_lockedlocks: c.partner_state.secrethashes_to_lockedlocks,
                ..p
            }
            &&& c == ChannelState { partner_state: c.partner_state, ..*old_cs }
            &&& spec_processed_event(
                mediated_transfer.balance_proof.sender.unwrap(),
                recipient_metadata,
                mediated_transfer.message_identifier,
                r.unwrap(),
            )
        } else {
            &&& c == *old_cs
            &&& r.unwrap() matches Event::ErrorInvalidReceivedLockedTransfer(e)
                && e.payment_identifier == mediated_transfer.payment_identifier
        }
    }
    &&& r.is_ok() && spec_valid_locked_transfer_check(
        &old_cs_arg,
        &old_cs_arg.partner_state,
        &old_cs_arg.our_state,
        &mediated_transfer.balance_proof,
        &mediated_transfer.lock,
    ) ==> spec_proof_commits_to_locks(new_cs.partner_state)
    &&& ({
        let p = old_cs_arg.partner_state;
        let lock = mediated_transfer.lock;
        r.is_ok() && spec_valid_locked_transfer_check(
            &old_cs_arg,
            &p,
            &old_cs_arg.our_state,
            &mediated_transfer.balance_proof,
            &lock,
        ) && !p.secrethashes_to_lockedlocks@.contains_key(lock.secrethash) && sum_lock_amounts(
            p.secrethashes_to_lockedlocks.entries(),
        ) + lock.amount@ <= u256_max() && spec_current_balance_proof(&p).3 == spec_amount_locked(
            &p,
        ) ==> spec_amount_locked(&new_cs.partner_state)
            == mediated_transfer.balance_proof.locked_amount@
    })
}

/// Handles a locked transfer from the partner: a valid one is taken and its
/// lock recorded, an invalid one reported.
pub fn handle_receive_locked_transfer(
    channel_state: &mut ChannelState,
    mediated_transfer: LockedTransferState,
    recipient_metadata: Option<AddressMetadata>,
) -> (r: Result<Event, String>)
    requires
        spec_locked_transfer_check_defined(
            &old(channel_state).partner_state,
            &old(channel_state).our_state,
            &mediated_transfer.lock,
        ),
    ensures
        spec_locked_transfer_received(*old(channel_state), mediated_transfer, recipient_metadata, *final(channel_state), r),
{
    let sender = match mediated_transfer.balance_proof.sender {
        Some(sender) => sender,
        None => return Err("The transfer's sender is None".to_string()),
    };
    let validated = is_valid_locked_transfer(
        &mediated_transfer,
        channel_state,
        &channel_state.partner_state,
        &channel_state.our_state,
    );
    match validated {
        Ok(pending_locks) => {
            channel_state.partner_state.balance_proof = Some(mediated_transfer.balance_proof);
            channel_state.partner_state.nonce = mediated_transfer.balance_proof.nonce;
            channel_state.partner_state.pending_locks = pending_locks;
            let lock = mediated_transfer.lock;
            let ghost old_locked = channel_state.partner_state.secrethashes_to_lockedlocks;
            channel_state.partner_state.secrethashes_to_lockedlocks.insert(lock.secrethash, lock);
            proof {
                if !old_locked@.contains_key(lock.secrethash) {
                    assert(channel_state.partner_state.secrethashes_to_lockedlocks.entries().drop_last()
                        =~= old_locked.entries());
                }
            }
            Ok(processed(sender, recipient_metadata, mediated_transfer.message_identifier))
        },
        Err(e) => Ok(
            Event::ErrorInvalidReceivedLockedTransfer(
                ErrorInvalidReceivedLockedTransfer {
                    payment_identifier: mediated_transfer.payment_identifier,
                    reason: e,
                },
            ),
        ),
    }
}

/// Handles a refund of a transfer we received: a valid one is taken and its
/// lock recorded, an invalid one reported.
pub fn handle_refund_transfer(
    channel_state: &mut ChannelState,
    received_transfer: LockedTransferState,
    refund: ReceiveTransferRefund,
) -> (r: Result<Event, String>)
    requires
        spec_locked_transfer_check_defined(
            &old(channel_state).partner_state,
            &old(channel_state).our_state,
            &refund.transfer.lock,
        ),
    ensures
        r.is_ok(),
        ({
            let old_cs = old(channel_state);
            let p = old_cs.partner_state;
            let c = *final(channel_state);
            let bp = refund.transfer.balance_proof;
            if spec_valid_locked_transfer_check(
                old_cs,
                &p,
                &old_cs.our_state,
                &bp,
                &refund.transfer.lock,
            ) && spec_refund_matches(&refund.transfer, &received_transfer) {
                let lock = refund.transfer.lock;
                &&& c.partner_state.pending_locks.locks@ == p.pending_locks.locks@.push(lock.encoded)
                &&& spec_inserted(
                    c.partner_state.secrethashes_to_lockedlocks,
                    p.secrethashes_to_lockedlocks,
                    lock.secrethash,
                    lock,
                )
                &&& c.partner_state == ChannelEndState {
                    balance_proof: Some(bp),
                    nonce: bp.nonce,
                    pending_locks: c.partner_state.pending_locks,
                    secrethashes_to_lockedlocks: c.partner_state.secrethashes_to_lockedlocks,
                    ..p
                }
                &&& c == ChannelState { partner_state: c.partner_state, ..*old_cs }
                &&& spec_processed_event(
                    p.address,
                    spec_address_metadata(p.address, received_transfer.route_states@),
                    refund.transfer.message_identifier,
                    r.unwrap(),
                )
            } else {
                &&& c == *old_cs
                &&& r.unwrap() matches Event::ErrorInvalidReceivedTransferRefund(e)
                    && e.payment_identifier == received_transfer.payment_identifier
            }
        }),
        spec_valid_locked_transfer_check(
            old(channel_state),
            &old(channel_state).partner_state,
            &old(channel_state).our_state,
            &refund.transfer.balance_proof,
            &refund.transfer.lock,
        ) && spec_refund_matches(&refund.transfer, &received_transfer)
            ==> spec_proof_commits_to_locks(final(channel_state).partner_state),
{
    let validated = is_valid_refund(
        channel_state,
        &refund,
        &channel_state.partner_state,
        &channel_state.our_state,
        &received_transfer,
    );
    let event = match validated {
        Ok(pending_locks) => {
            channel_state.partner_state.balance_proof = Some(refund.transfer.balance_proof);
            channel_state.partner_state.nonce = refund.transfer.balance_proof.nonce;
            channel_state.partner_state.pending_locks = pending_locks;
            let lock = refund.transfer.lock;
            channel_state.partner_state.secrethashes_to_lockedlocks.insert(lock.secrethash, lock);
            let recipient_address = channel_state.partner_state.address;
            let recipient_metadata = get_address_metadata(
                recipient_address,
                &received_transfer.route_states,
            );
            processed(recipient_address, recipient_metadata, refund.transfer.message_identifier)
        },
        Err(msg) => Event::ErrorInvalidReceivedTransferRefund(
            ErrorInvalidReceivedTransferRefund {
                payment_identifier: received_transfer.payment_identifier,
                reason: msg,
            },
        ),
    };
    Ok(event)
}

} // verus!
