//! Checks of received messages and requested actions against a channel.
use vstd::prelude::*;

use crate::hashing::{
    hash_balance_data, pack_balance_proof, pack_withdraw, recover_signer, spec_hash_balance_data,
    spec_pack_balance_proof, spec_pack_withdraw, spec_recover_signer,
};
use crate::primitives::{u256_max, Address, Signature, H256};
use crate::channel::utils::{
    compute_locks_with, compute_locks_without, compute_locksroot, spec_locksroot, without_lock,
};
use crate::channel::views::{
    get_current_balance_proof, get_lock, get_receiver_expiration_threshold,
    get_sender_expiration_threshold, spec_current_balance_proof,
    spec_current_balance_proof_defined, spec_get_lock,
};
use crate::types::state::{
    BalanceProofState, BlockExpiration, BlockNumber, CanonicalIdentifier, ChannelEndState,
    ChannelState, ChannelStatus, HashTimeLockState, LockedTransferState, PendingLocksState,
    PendingWithdrawState, SecretHash, TokenAmount,
};
use crate::types::state_change::{
    ActionChannelWithdraw, ReceiveLockExpired, ReceiveTransferRefund, ReceiveUnlock,
    ReceiveWithdrawConfirmation, ReceiveWithdrawExpired, ReceiveWithdrawRequest,
};
use crate::text::{spec_decimal, 
    prefixed, with_amount, with_amounts, with_hashes, with_number, with_numbers, with_short_hash,
};
use crate::views::{
    channel_balance, channel_distributable, spec_balance_defined, spec_channel_balance,
    spec_channel_distributable, spec_distributable_defined,
};

verus! {

/// True when `signature` over `data` recovers to `signer`.
pub open spec fn spec_signed_by(data: Seq<u8>, signature: Signature, signer: Address) -> bool {
    spec_recover_signer(data, signature@) == Some(signer@)
}

/// Why a signature is refused: no signer could be recovered, or another
/// one than expected.
pub open spec fn spec_signature_refusal(data: Seq<u8>, signature: Signature) -> Seq<char> {
    if spec_recover_signer(data, signature@) is None {
        "Error recovering signature"@
    } else {
        "Signature was valid but the expected address does not match"@
    }
}

/// Validates a signature based on provided data and sender's address.
pub fn is_valid_signature(data: &Vec<u8>, signature: &Signature, sender_address: Address) -> (r:
    Result<(), String>)
    ensures
        r.is_ok() == spec_signed_by(data@, *signature, sender_address),
        r matches Err(e) ==> e@ == spec_signature_refusal(data@, *signature),
{
    proof {
        reveal_strlit("Error recovering signature");
        reveal_strlit("Signature was valid but the expected address does not match");
    }
    match recover_signer(data, signature) {
        None => Err("Error recovering signature".to_string()),
        Some(signer_address) => {
            proof {
                if signer_address@ == sender_address@ {
                    assert(signer_address.bytes =~= sender_address.bytes);
                }
            }
            if signer_address.equals(&sender_address) {
                Ok(())
            } else {
                Err("Signature was valid but the expected address does not match".to_string())
            }
        },
    }
}

/// The 32 zero bytes that stand in for a missing message hash.
pub open spec fn zero_hash() -> Seq<u8> {
    Seq::new(32, |i: int| 0u8)
}

/// The data that the signature of a balance proof signs.
pub open spec fn spec_balance_proof_data(bp: BalanceProofState) -> Seq<u8> {
    spec_pack_balance_proof(
        bp.nonce@,
        spec_hash_balance_data(bp.transferred_amount@, bp.locked_amount@, bp.locksroot@),
        match bp.message_hash {
            Some(h) => h@,
            None => zero_hash(),
        },
        bp.canonical_identifier,
    )
}

/// The balance proof carries a signature of `sender` over its data.
pub open spec fn spec_valid_balance_proof_signature(bp: BalanceProofState, sender: Address) -> bool {
    match bp.signature {
        Some(sig) => spec_signed_by(spec_balance_proof_data(bp), sig, sender),
        None => false,
    }
}

/// Validates balance proof signature
pub fn is_valid_balance_proof_signature(balance_proof: &BalanceProofState, sender_address: Address) -> (r:
    Result<(), String>)
    ensures
        r.is_ok() == spec_valid_balance_proof_signature(*balance_proof, sender_address),
{
    let balance_hash = hash_balance_data(
        balance_proof.transferred_amount,
        balance_proof.locked_amount,
        balance_proof.locksroot,
    );
    let message_hash = match balance_proof.message_hash {
        Some(hash) => hash,
        None => H256::zero(),
    };
    let data_that_was_signed = pack_balance_proof(
        balance_proof.nonce,
        balance_hash,
        message_hash,
        balance_proof.canonical_identifier,
    );
    let signature = match &balance_proof.signature {
        Some(signature) => signature,
        None => return Err("Balance proof must be signed".to_string()),
    };
    is_valid_signature(&data_that_was_signed, signature, sender_address)
}

/// The balance proof's transferred and locked amounts add up below 2^256.
pub open spec fn spec_safe_for_onchain(bp: BalanceProofState) -> bool {
    bp.transferred_amount@ + bp.locked_amount@ <= u256_max()
}

/// Returns true if balance proof's amount is valid.
pub fn is_balance_proof_safe_for_onchain_operations(balance_proof: &BalanceProofState) -> (r: bool)
    ensures
        r == spec_safe_for_onchain(*balance_proof),
{
    balance_proof.transferred_amount.checked_add(balance_proof.locked_amount).is_some()
}

/// A received balance proof may be used on chain: the channel is open, the
/// proof is for it, its amounts cannot overflow, its nonce follows the
/// sender's and the sender signed it.
pub open spec fn spec_balance_proof_usable_onchain(
    bp: BalanceProofState,
    channel_state: &ChannelState,
    sender_state: &ChannelEndState,
) -> bool {
    &&& channel_state.spec_status() == ChannelStatus::Opened
    &&& bp.canonical_identifier == channel_state.canonical_identifier
    &&& spec_safe_for_onchain(bp)
    &&& bp.nonce@ == sender_state.nonce@ + 1
    &&& spec_valid_balance_proof_signature(bp, sender_state.address)
}

/// Validates if balance proof is still usable on-chain.
pub fn is_balance_proof_usable_onchain(
    received_balance_proof: &BalanceProofState,
    channel_state: &ChannelState,
    sender_state: &ChannelEndState,
) -> (r: Result<(), String>)
    requires
        sender_state.nonce@ < u256_max(),
    ensures
        r.is_ok() == spec_balance_proof_usable_onchain(
            *received_balance_proof,
            channel_state,
            sender_state,
        ),
{
    let expected_nonce = sender_state.next_nonce();
    let is_valid_signature = is_valid_balance_proof_signature(
        received_balance_proof,
        sender_state.address,
    );
    if channel_state.status() != ChannelStatus::Opened {
        return Err("The channel is already closed.".to_string());
    } else if !received_balance_proof.canonical_identifier.equals(
        &channel_state.canonical_identifier,
    ) {
        return Err("Canonical identifier does not match".to_string());
    } else if !is_balance_proof_safe_for_onchain_operations(received_balance_proof) {
        return Err("Balance proof total transferred amount would overflow onchain.".to_string());
    } else if !received_balance_proof.nonce.equals(&expected_nonce) {
        return Err(
            with_amounts(
                "Nonce did not change sequentially. Expected: ",
                expected_nonce,
                " got: ",
                received_balance_proof.nonce,
                "",
            ),
        );
    }
    is_valid_signature
}

/// The conditions under which a new total withdraw of ours is accepted.
pub open spec fn spec_valid_total_withdraw(
    channel_state: &ChannelState,
    our_total_withdraw: nat,
    allow_zero: bool,
) -> bool {
    let withdraw_amount = our_total_withdraw - channel_state.our_state.spec_total_withdraw();
    &&& our_total_withdraw + channel_state.partner_state.spec_total_withdraw() <= u256_max()
    &&& channel_state.spec_status() == ChannelStatus::Opened
    &&& (allow_zero || withdraw_amount != 0)
    &&& spec_channel_balance(&channel_state.our_state, &channel_state.partner_state)
        >= withdraw_amount
}

/// Returns true if withdraw amount is valid.
pub fn is_valid_total_withdraw(
    channel_state: &ChannelState,
    our_total_withdraw: TokenAmount,
    allow_zero: bool,
) -> (r: Result<(), String>)
    requires
        spec_balance_defined(&channel_state.our_state, &channel_state.partner_state),
        our_total_withdraw@ + channel_state.partner_state.spec_total_withdraw() <= u256_max()
            ==> our_total_withdraw@ >= channel_state.our_state.spec_total_withdraw(),
    ensures
        r.is_ok() == spec_valid_total_withdraw(channel_state, our_total_withdraw@, allow_zero),
{
    let balance = channel_balance(&channel_state.our_state, &channel_state.partner_state);
    if our_total_withdraw.checked_add(channel_state.partner_total_withdraw()).is_none() {
        return Err(
            with_amount("The new total_withdraw ", our_total_withdraw, " will cause an overflow"),
        );
    }
    let withdraw_amount = our_total_withdraw.sub(channel_state.our_total_withdraw());
    if channel_state.status() != ChannelStatus::Opened {
        return Err("Invalid withdraw, the channel is not opened".to_string());
    } else if !allow_zero && withdraw_amount.is_zero() {
        return Err(with_amount("Total withdraw ", our_total_withdraw, " did not increase"));
    } else if balance.less_than(&withdraw_amount) {
        return Err(
            with_amounts(
                "Insufficient balance: ",
                balance,
                ". Request ",
                our_total_withdraw,
                " for withdraw",
            ),
        );
    }
    Ok(())
}

/// True when `signature` is `sender`'s signature of the withdraw.
pub open spec fn spec_valid_withdraw_signature(
    canonical_identifier: CanonicalIdentifier,
    sender: Address,
    participant: Address,
    total_withdraw: nat,
    expiration_block: BlockExpiration,
    withdraw_signature: Signature,
) -> bool {
    spec_signed_by(
        spec_pack_withdraw(canonical_identifier, participant, total_withdraw, expiration_block),
        withdraw_signature,
        sender,
    )
}

/// Validates a withdraw signature.
pub fn is_valid_withdraw_signature(
    canonical_identifier: CanonicalIdentifier,
    sender: Address,
    participant: Address,
    total_withdraw: TokenAmount,
    expiration_block: BlockExpiration,
    withdraw_signature: Signature,
) -> (r: Result<(), String>)
    ensures
        r.is_ok() == spec_valid_withdraw_signature(
            canonical_identifier,
            sender,
            participant,
            total_withdraw@,
            expiration_block,
            withdraw_signature,
        ),
        r matches Err(e) ==> e@ == spec_signature_refusal(
            spec_pack_withdraw(canonical_identifier, participant, total_withdraw@, expiration_block),
            withdraw_signature,
        ),
{
    let packed = pack_withdraw(canonical_identifier, participant, total_withdraw, expiration_block);
    is_valid_signature(&packed, &withdraw_signature, sender)
}

/// Determine whether a withdraw has expired.
pub fn is_withdraw_expired(block_number: BlockNumber, expiration_threshold: BlockExpiration) -> (r:
    bool)
    ensures
        r == (block_number >= expiration_threshold),
{
    block_number >= expiration_threshold
}

/// The conditions under which the partner's withdraw expired message is accepted.
pub open spec fn spec_valid_withdraw_expired(
    channel_state: &ChannelState,
    state_change: &ReceiveWithdrawExpired,
    withdraw_state: &PendingWithdrawState,
    block_number: BlockNumber,
) -> bool {
    &&& block_number >= withdraw_state.expiration + 5
    &&& channel_state.canonical_identifier == state_change.canonical_identifier
    &&& state_change.sender == channel_state.partner_state.address
    &&& state_change.total_withdraw == withdraw_state.total_withdraw
    &&& state_change.nonce@ == channel_state.partner_state.nonce@ + 1
}

/// Validates withdraw expiry.
pub fn is_valid_withdraw_expired(
    channel_state: &ChannelState,
    state_change: &ReceiveWithdrawExpired,
    withdraw_state: &PendingWithdrawState,
    block_number: BlockNumber,
) -> (r: Result<(), String>)
    requires
        channel_state.partner_state.nonce@ < u256_max(),
        withdraw_state.expiration + 5 <= u64::MAX,
    ensures
        r.is_ok() == spec_valid_withdraw_expired(
            channel_state,
            state_change,
            withdraw_state,
            block_number,
        ),
{
    let expected_nonce = crate::channel::views::get_next_nonce(&channel_state.partner_state);
    let is_withdraw_expired = is_withdraw_expired(
        block_number,
        crate::channel::views::get_receiver_expiration_threshold(withdraw_state.expiration),
    );
    if !is_withdraw_expired {
        return Err(
            with_amount(
                "WithdrawExpired for withdraw that has not yet expired ",
                state_change.total_withdraw,
                "",
            ),
        );
    } else if !channel_state.canonical_identifier.equals(&state_change.canonical_identifier) {
        return Err("Invalid canonical identifier provided in withdraw request".to_string());
    } else if !state_change.sender.equals(&channel_state.partner_state.address) {
        return Err("Invalid sender. Request must be sent by the partner".to_string());
    } else if !state_change.total_withdraw.equals(&withdraw_state.total_withdraw) {
        return Err(
            with_amounts(
                "WithdrawExpired for local withdraw amounts do not match. Received ",
                state_change.total_withdraw,
                ", local amount ",
                withdraw_state.total_withdraw,
                "",
            ),
        );
    } else if !state_change.nonce.equals(&expected_nonce) {
        return Err(
            with_amounts(
                "Nonce did not change sequentially. Expected: ",
                expected_nonce,
                ", got ",
                state_change.nonce,
                "",
            ),
        );
    }
    Ok(())
}

/// The conditions under which the partner's withdraw request is accepted.
pub open spec fn spec_valid_withdraw_request(
    channel_state: &ChannelState,
    withdraw_request: &ReceiveWithdrawRequest,
) -> bool {
    let withdraw_amount = withdraw_request.total_withdraw@
        - channel_state.partner_state.spec_total_withdraw();
    &&& withdraw_request.total_withdraw@ + channel_state.our_state.spec_total_withdraw()
        <= u256_max()
    &&& channel_state.canonical_identifier == withdraw_request.canonical_identifier
    &&& withdraw_request.participant == channel_state.partner_state.address
    &&& withdraw_request.sender == channel_state.partner_state.address
    &&& spec_channel_balance(&channel_state.partner_state, &channel_state.our_state)
        >= withdraw_amount
    &&& withdraw_request.nonce@ == channel_state.partner_state.nonce@ + 1
    &&& spec_valid_withdraw_signature(
        withdraw_request.canonical_identifier,
        withdraw_request.sender,
        withdraw_request.participant,
        withdraw_request.total_withdraw@,
        withdraw_request.expiration,
        withdraw_request.signature,
    )
}

/// Why the partner's withdraw request is refused: the first of its checks
/// that fails, in order.
pub open spec fn spec_withdraw_request_refusal(
    channel_state: &ChannelState,
    withdraw_request: &ReceiveWithdrawRequest,
) -> Seq<char> {
    let withdraw_amount = withdraw_request.total_withdraw@
        - channel_state.partner_state.spec_total_withdraw();
    let balance = spec_channel_balance(&channel_state.partner_state, &channel_state.our_state);
    if withdraw_request.total_withdraw@ + channel_state.our_state.spec_total_withdraw() > u256_max() {
        "The new total_withdraw "@ + spec_decimal(withdraw_request.total_withdraw@)
            + " will cause an overflow"@
    } else if channel_state.canonical_identifier != withdraw_request.canonical_identifier {
        "Invalid canonical identifier provided in withdraw request"@
    } else if withdraw_request.participant != channel_state.partner_state.address {
        "Invalid participant. It must be the partner's address"@
    } else if withdraw_request.sender != channel_state.partner_state.address {
        "Invalid sender. Request must be sent by the partner"@
    } else if balance < withdraw_amount {
        "Insufficient balance: "@ + spec_decimal(balance as nat) + ". Request "@ + spec_decimal(
            withdraw_amount as nat,
        ) + " for withdraw"@
    } else if withdraw_request.nonce@ != channel_state.partner_state.nonce@ + 1 {
        "Nonce did not change sequentially. Expected: "@ + spec_decimal(
            (channel_state.partner_state.nonce@ + 1) as nat,
        ) + ", got "@ + spec_decimal(withdraw_request.nonce@) + ""@
    } else {
        spec_signature_refusal(
            spec_pack_withdraw(
                withdraw_request.canonical_identifier,
                withdraw_request.participant,
                withdraw_request.total_withdraw@,
                withdraw_request.expiration,
            ),
            withdraw_request.signature,
        )
    }
}

/// Validates a withdraw request state change.
pub fn is_valid_withdraw_request(
    channel_state: &ChannelState,
    withdraw_request: &ReceiveWithdrawRequest,
) -> (r: Result<(), String>)
    requires
        channel_state.partner_state.nonce@ < u256_max(),
        spec_balance_defined(&channel_state.partner_state, &channel_state.our_state),
        withdraw_request.total_withdraw@ >= channel_state.partner_state.spec_total_withdraw(),
    ensures
        r.is_ok() == spec_valid_withdraw_request(channel_state, withdraw_request),
        r matches Err(e) ==> e@ == spec_withdraw_request_refusal(channel_state, withdraw_request),
{
    proof {
        reveal_strlit("Invalid canonical identifier provided in withdraw request");
        reveal_strlit("Invalid participant. It must be the partner's address");
        reveal_strlit("Invalid sender. Request must be sent by the partner");
    }
    let expected_nonce = crate::channel::views::get_next_nonce(&channel_state.partner_state);
    let balance = channel_balance(&channel_state.partner_state, &channel_state.our_state);
    let is_valid = is_valid_withdraw_signature(
        withdraw_request.canonical_identifier,
        withdraw_request.sender,
        withdraw_request.participant,
        withdraw_request.total_withdraw,
        withdraw_request.expiration,
        withdraw_request.signature,
    );
    let withdraw_amount = withdraw_request.total_withdraw.sub(channel_state.partner_total_withdraw());
    if withdraw_request.total_withdraw.checked_add(channel_state.our_total_withdraw()).is_none() {
        return Err(
            with_amount(
                "The new total_withdraw ",
                withdraw_request.total_withdraw,
                " will cause an overflow",
            ),
        );
    }
    if !channel_state.canonical_identifier.equals(&withdraw_request.canonical_identifier) {
        return Err("Invalid canonical identifier provided in withdraw request".to_string());
    } else if !withdraw_request.participant.equals(&channel_state.partner_state.address) {
        return Err("Invalid participant. It must be the partner's address".to_string());
    } else if !withdraw_request.sender.equals(&channel_state.partner_state.address) {
        return Err("Invalid sender. Request must be sent by the partner".to_string());
    } else if balance.less_than(&withdraw_amount) {
        return Err(
            with_amounts(
                "Insufficient balance: ",
                balance,
                ". Request ",
                withdraw_amount,
                " for withdraw",
            ),
        );
    } else if !withdraw_request.nonce.equals(&expected_nonce) {
        return Err(
            with_amounts(
                "Nonce did not change sequentially. Expected: ",
                expected_nonce,
                ", got ",
                withdraw_request.nonce,
                "",
            ),
        );
    }
    is_valid
}

/// The expiration of our withdraw of `total_withdraw`: a pending one, else
/// the first expired one with that amount.
pub open spec fn spec_withdraw_expiration(end: &ChannelEndState, total_withdraw: TokenAmount) -> Option<
    BlockExpiration,
> {
    if end.withdraws_pending@.contains_key(total_withdraw) {
        Some(end.withdraws_pending@[total_withdraw].expiration)
    } else if exists|i: int|
        0 <= i < end.withdraws_expired@.len() && end.withdraws_expired@[i].total_withdraw
            == total_withdraw {
        let i = choose|i: int|
            0 <= i < end.withdraws_expired@.len() && end.withdraws_expired@[i].total_withdraw
                == total_withdraw && forall|j: int|
                0 <= j < i ==> end.withdraws_expired@[j].total_withdraw != total_withdraw;
        Some(end.withdraws_expired@[i].expiration)
    } else {
        None
    }
}

fn find_expired_withdraw(end: &ChannelEndState, total_withdraw: &TokenAmount) -> (r: Option<
    BlockExpiration,
>)
    ensures
        !end.withdraws_pending@.contains_key(*total_withdraw) ==> r == spec_withdraw_expiration(
            end,
            *total_withdraw,
        ),
{
    let mut i: usize = 0;
    while i < end.withdraws_expired.len()
        invariant
            i <= end.withdraws_expired@.len(),
            forall|j: int| 0 <= j < i ==> end.withdraws_expired@[j].total_withdraw != *total_withdraw,
        decreases end.withdraws_expired@.len() - i,
    {
        if end.withdraws_expired[i].total_withdraw.equals(total_withdraw) {
            proof {
                let s = end.withdraws_expired@;
                let k = choose|k: int|
                    0 <= k < s.len() && s[k].total_withdraw == *total_withdraw && forall|j: int|
                        0 <= j < k ==> s[j].total_withdraw != *total_withdraw;
                assert(0 <= i < s.len() && s[i as int].total_withdraw == *total_withdraw && forall|
                    j: int,
                | 0 <= j < i ==> s[j].total_withdraw != *total_withdraw);
                if k < i {
                } else if k > i {
                    assert(s[i as int].total_withdraw != *total_withdraw);
                }
            }
            return Some(end.withdraws_expired[i].expiration);
        }
        i = i + 1;
    }
    None
}

/// The conditions under which the partner's confirmation of our withdraw
/// is accepted.
pub open spec fn spec_valid_withdraw_confirmation(
    channel_state: &ChannelState,
    received_withdraw: &ReceiveWithdrawConfirmation,
) -> bool {
    match spec_withdraw_expiration(&channel_state.our_state, received_withdraw.total_withdraw) {
        None => false,
        Some(expiration) => {
            &&& received_withdraw.total_withdraw@ + channel_state.our_state.spec_total_withdraw()
                <= u256_max()
            &&& channel_state.canonical_identifier == received_withdraw.canonical_identifier
            &&& received_withdraw.participant == channel_state.our_state.address
            &&& received_withdraw.sender == channel_state.partner_state.address
            &&& received_withdraw.total_withdraw@ == channel_state.our_state.spec_total_withdraw()
            &&& received_withdraw.nonce@ == channel_state.partner_state.nonce@ + 1
            &&& expiration == received_withdraw.expiration
            &&& spec_valid_withdraw_signature(
                received_withdraw.canonical_identifier,
                received_withdraw.sender,
                received_withdraw.participant,
                received_withdraw.total_withdraw@,
                received_withdraw.expiration,
                received_withdraw.signature,
            )
        },
    }
}

/// Validates withdraw confirmation.
pub fn is_valid_withdraw_confirmation(
    channel_state: &ChannelState,
    received_withdraw: &ReceiveWithdrawConfirmation,
) -> (r: Result<(), String>)
    requires
        spec_withdraw_expiration(&channel_state.our_state, received_withdraw.total_withdraw).is_some()
            ==> channel_state.partner_state.nonce@ < u256_max(),
    ensures
        r.is_ok() == spec_valid_withdraw_confirmation(channel_state, received_withdraw),
{
    let expiration = match channel_state.our_state.withdraws_pending.get(
        &received_withdraw.total_withdraw,
    ) {
        Some(withdraw_state) => Some(withdraw_state.expiration),
        None => find_expired_withdraw(&channel_state.our_state, &received_withdraw.total_withdraw),
    };
    let expiration = match expiration {
        Some(expiration) => expiration,
        None => {
            return Err(
                with_amount(
                    "Received withdraw confirmation ",
                    received_withdraw.total_withdraw,
                    " was not found in withdraw states",
                ),
            )
        },
    };
    let expected_nonce = crate::channel::views::get_next_nonce(&channel_state.partner_state);
    let our_total_withdraw = channel_state.our_total_withdraw();
    if received_withdraw.total_withdraw.checked_add(our_total_withdraw).is_none() {
        return Err(
            with_amount(
                "The new total_withdraw ",
                received_withdraw.total_withdraw,
                " will cause an overflow",
            ),
        );
    } else if !channel_state.canonical_identifier.equals(&received_withdraw.canonical_identifier) {
        return Err("Invalid canonical identifier provided in withdraw request".to_string());
    } else if !received_withdraw.participant.equals(&channel_state.our_state.address) {
        return Err("Invalid participant. It must be our address".to_string());
    } else if !received_withdraw.sender.equals(&channel_state.partner_state.address) {
        return Err("Invalid sender. Request must be sent by the partner".to_string());
    } else if !received_withdraw.total_withdraw.equals(&our_total_withdraw) {
        return Err(
            with_amounts(
                "Total withdraw confirmation ",
                received_withdraw.total_withdraw,
                " does not match our total withdraw ",
                our_total_withdraw,
                "",
            ),
        );
    } else if !received_withdraw.nonce.equals(&expected_nonce) {
        return Err(
            with_amounts(
                "Nonce did not change sequentially. Expected: ",
                expected_nonce,
                ", got ",
                received_withdraw.nonce,
                "",
            ),
        );
    } else if expiration != received_withdraw.expiration {
        return Err(
            with_number(
                "Invalid expiration ",
                received_withdraw.expiration,
                ", withdraw confirmation must use the same confirmation as the request otherwise the signature will not match on-chain",
            ),
        );
    }
    is_valid_withdraw_signature(
        received_withdraw.canonical_identifier,
        received_withdraw.sender,
        received_withdraw.participant,
        received_withdraw.total_withdraw,
        received_withdraw.expiration,
        received_withdraw.signature,
    )
}

/// The conditions under which we may start a cooperative settlement.
pub open spec fn spec_valid_action_coop_settle(channel_state: &ChannelState, total_withdraw: nat) -> bool {
    &&& spec_valid_total_withdraw(channel_state, total_withdraw, true)
    &&& channel_state.our_state.pending_locks.locks@.len() == 0
    &&& channel_state.partner_state.pending_locks.locks@.len() == 0
    &&& channel_state.our_state.spec_offchain_total_withdraw() == 0
    &&& channel_state.partner_state.spec_offchain_total_withdraw() == 0
}

/// Validates a cooperative settle action.
pub fn is_valid_action_coop_settle(channel_state: &ChannelState, total_withdraw: TokenAmount) -> (r:
    Result<(), String>)
    requires
        spec_balance_defined(&channel_state.our_state, &channel_state.partner_state),
        total_withdraw@ + channel_state.partner_state.spec_total_withdraw() <= u256_max()
            ==> total_withdraw@ >= channel_state.our_state.spec_total_withdraw(),
    ensures
        r.is_ok() == spec_valid_action_coop_settle(channel_state, total_withdraw@),
{
    is_valid_total_withdraw(channel_state, total_withdraw, true)?;
    if !channel_state.our_state.pending_locks.locks.is_empty() {
        return Err("Coop-Settle not allowed: we still have pending locks".to_string());
    }
    if !channel_state.partner_state.pending_locks.locks.is_empty() {
        return Err("Coop-Settle not allowed: partner still has pending locks".to_string());
    }
    if !channel_state.our_state.offchain_total_withdraw().is_zero() {
        return Err("Coop-Settle not allowed: We still have pending withdraws".to_string());
    }
    if !channel_state.partner_state.offchain_total_withdraw().is_zero() {
        return Err("Coop-Settle not allowed: partner still has pending withdraws".to_string());
    }
    Ok(())
}

/// The conditions under which our withdraw action is accepted.
pub open spec fn spec_valid_action_withdraw(
    channel_state: &ChannelState,
    withdraw: &ActionChannelWithdraw,
) -> bool {
    let withdraw_amount = withdraw.total_withdraw@ - channel_state.our_state.spec_total_withdraw();
    &&& channel_state.spec_status() == ChannelStatus::Opened
    &&& withdraw_amount != 0
    &&& spec_channel_balance(&channel_state.our_state, &channel_state.partner_state)
        >= withdraw_amount
    &&& withdraw.total_withdraw@ + channel_state.partner_state.spec_total_withdraw() <= u256_max()
}

/// Why our withdraw action is refused: the first of its checks that fails,
/// in order.
pub open spec fn spec_action_withdraw_refusal(
    channel_state: &ChannelState,
    withdraw: &ActionChannelWithdraw,
) -> Seq<char> {
    let withdraw_amount = withdraw.total_withdraw@ - channel_state.our_state.spec_total_withdraw();
    let balance = spec_channel_balance(&channel_state.our_state, &channel_state.partner_state);
    if channel_state.spec_status() != ChannelStatus::Opened {
        "Invalid withdraw, the channel is not opened"@
    } else if withdraw_amount == 0 {
        "Total withdraw "@ + spec_decimal(withdraw.total_withdraw@) + " did not increase"@
    } else if balance < withdraw_amount {
        "Insufficient balance: "@ + spec_decimal(balance as nat) + ". Requested "@ + spec_decimal(
            withdraw_amount as nat,
        ) + " for withdraw"@
    } else {
        "The new total_withdraw "@ + spec_decimal(withdraw.total_withdraw@) + " will cause an overflow"@
    }
}

/// Validates a withdraw action.
pub fn is_valid_action_withdraw(channel_state: &ChannelState, withdraw: &ActionChannelWithdraw) -> (r:
    Result<(), String>)
    requires
        spec_balance_defined(&channel_state.our_state, &channel_state.partner_state),
        withdraw.total_withdraw@ >= channel_state.our_state.spec_total_withdraw(),
    ensures
        r.is_ok() == spec_valid_action_withdraw(channel_state, withdraw),
        r matches Err(e) ==> e@ == spec_action_withdraw_refusal(channel_state, withdraw),
{
    proof {
        reveal_strlit("Invalid withdraw, the channel is not opened");
    }
    let balance = channel_balance(&channel_state.our_state, &channel_state.partner_state);
    let overflow = withdraw.total_withdraw.checked_add(channel_state.partner_state.total_withdraw()).is_none();
    let withdraw_amount = withdraw.total_withdraw.sub(channel_state.our_state.total_withdraw());
    if channel_state.status() != ChannelStatus::Opened {
        return Err("Invalid withdraw, the channel is not opened".to_string());
    } else if withdraw_amount.is_zero() {
        return Err(with_amount("Total withdraw ", withdraw.total_withdraw, " did not increase"));
    } else if balance.less_than(&withdraw_amount) {
        return Err(
            with_amounts(
                "Insufficient balance: ",
                balance,
                ". Requested ",
                withdraw_amount,
                " for withdraw",
            ),
        );
    } else if overflow {
        return Err(
            with_amount(
                "The new total_withdraw ",
                withdraw.total_withdraw,
                " will cause an overflow",
            ),
        );
    }
    Ok(())
}

/// The lock may be removed: its secret was not registered on chain and the
/// threshold block was reached.
pub open spec fn spec_lock_expired(
    end_state: &ChannelEndState,
    lock: &HashTimeLockState,
    block_number: BlockNumber,
    lock_expiration_threshold: BlockExpiration,
) -> bool {
    &&& !end_state.secrethashes_to_onchain_unlockedlocks@.contains_key(lock.secrethash)
    &&& block_number >= lock_expiration_threshold
}

/// Returns `Ok` if the lock has already expired.
pub fn is_lock_expired(
    end_state: &ChannelEndState,
    lock: &HashTimeLockState,
    block_number: BlockNumber,
    lock_expiration_threshold: BlockExpiration,
) -> (r: Result<(), String>)
    ensures
        r.is_ok() == spec_lock_expired(end_state, lock, block_number, lock_expiration_threshold),
{
    if end_state.secrethashes_to_onchain_unlockedlocks.contains_key(&lock.secrethash) {
        return Err("Lock has been unlocked onchain".to_string());
    }
    if block_number < lock_expiration_threshold {
        return Err(
            with_numbers(
                "Current block number (",
                block_number,
                ") is not larger than lock.expiration + confirmation blocks (",
                lock_expiration_threshold,
                ")",
            ),
        );
    }
    Ok(())
}

/// Returns true if any pending lock with the provided `secrethash` is unclaimed.
pub fn is_lock_pending(end_state: &ChannelEndState, secrethash: SecretHash) -> (r: bool)
    ensures
        r == end_state.spec_has_lock(secrethash),
{
    end_state.secrethashes_to_lockedlocks.contains_key(&secrethash)
        || end_state.secrethashes_to_unlockedlocks.contains_key(&secrethash)
        || end_state.secrethashes_to_onchain_unlockedlocks.contains_key(&secrethash)
}

/// Returns true if the lock of `secrethash` is unclaimed and its secret unknown.
pub fn is_lock_locked(end_state: &ChannelEndState, secrethash: SecretHash) -> (r: bool)
    ensures
        r == end_state.secrethashes_to_lockedlocks@.contains_key(secrethash),
{
    end_state.secrethashes_to_lockedlocks.contains_key(&secrethash)
}

/// Checks if a transfer's lock has expired or not.
pub fn is_transfer_expired(
    transfer: &LockedTransferState,
    affected_channel: &ChannelState,
    block_number: BlockNumber,
) -> (r: bool)
    requires
        transfer.lock.expiration + 10 <= u64::MAX,
    ensures
        r == spec_lock_expired(
            &affected_channel.our_state,
            &transfer.lock,
            block_number,
            (transfer.lock.expiration + 10) as u64,
        ),
{
    let lock_expiration_threshold = get_sender_expiration_threshold(transfer.lock.expiration);
    is_lock_expired(
        &affected_channel.our_state,
        &transfer.lock,
        block_number,
        lock_expiration_threshold,
    ).is_ok()
}

/// The partner's lock that a lock expired message names: a locked one, else
/// an unlocked one.
pub open spec fn spec_expired_lock_candidate(channel_state: &ChannelState, secrethash: SecretHash) -> Option<
    HashTimeLockState,
> {
    let p = &channel_state.partner_state;
    if p.secrethashes_to_lockedlocks@.contains_key(secrethash) {
        Some(p.secrethashes_to_lockedlocks@[secrethash])
    } else if p.secrethashes_to_unlockedlocks@.contains_key(secrethash) {
        Some(p.secrethashes_to_unlockedlocks@[secrethash].lock)
    } else {
        None
    }
}

/// What `is_valid_lock_expired` needs to run without overflow.
pub open spec fn spec_lock_expired_defined(
    channel_state: &ChannelState,
    state_change: &ReceiveLockExpired,
    sender_state: &ChannelEndState,
) -> bool {
    &&& spec_current_balance_proof_defined(sender_state)
    &&& sender_state.nonce@ < u256_max()
    &&& match spec_expired_lock_candidate(channel_state, state_change.secrethash) {
        Some(lock) => spec_current_balance_proof(sender_state).3 >= lock.amount@
            && lock.expiration + 5 <= u64::MAX,
        None => true,
    }
}

/// The conditions under which the partner's lock expired message is accepted.
pub open spec fn spec_valid_lock_expired(
    channel_state: &ChannelState,
    state_change: &ReceiveLockExpired,
    sender_state: &ChannelEndState,
    receiver_state: &ChannelEndState,
    block_number: BlockNumber,
) -> bool {
    let bp = state_change.balance_proof;
    let current = spec_current_balance_proof(sender_state);
    match spec_expired_lock_candidate(channel_state, state_change.secrethash) {
        None => false,
        Some(lock) => {
            &&& sender_state.pending_locks.locks@.contains(lock.encoded)
            &&& !channel_state.partner_state.secrethashes_to_onchain_unlockedlocks@.contains_key(
                state_change.secrethash,
            )
            &&& spec_balance_proof_usable_onchain(bp, channel_state, sender_state)
            &&& spec_lock_expired(
                receiver_state,
                &lock,
                block_number,
                (lock.expiration + 5) as u64,
            )
            &&& bp.locksroot@ == spec_locksroot(
                without_lock(sender_state.pending_locks.locks@, lock.encoded),
            )
            &&& bp.transferred_amount@ == current.2
            &&& bp.locked_amount@ == current.3 - lock.amount@
        },
    }
}

/// Validates the expiry of a lock.
pub fn is_valid_lock_expired(
    channel_state: &ChannelState,
    state_change: &ReceiveLockExpired,
    sender_state: &ChannelEndState,
    receiver_state: &ChannelEndState,
    block_number: BlockNumber,
) -> (r: Result<PendingLocksState, String>)
    requires
        spec_lock_expired_defined(channel_state, state_change, sender_state),
    ensures
        r.is_ok() == spec_valid_lock_expired(
            channel_state,
            state_change,
            sender_state,
            receiver_state,
            block_number,
        ),
        r.is_ok() ==> r.unwrap().locks@ == without_lock(
            sender_state.pending_locks.locks@,
            spec_expired_lock_candidate(channel_state, state_change.secrethash).unwrap().encoded,
        ),
{
    let secrethash = state_change.secrethash;
    let received_balance_proof = &state_change.balance_proof;
    let lock = match channel_state.partner_state.secrethashes_to_lockedlocks.get(&secrethash) {
        Some(lock) => Some(*lock),
        None => match channel_state.partner_state.secrethashes_to_unlockedlocks.get(&secrethash) {
            Some(unlocked) => Some(unlocked.lock),
            None => None,
        },
    };
    let secret_registered_on_chain =
        channel_state.partner_state.secrethashes_to_onchain_unlockedlocks.contains_key(&secrethash);
    let (_, _, current_transferred_amount, current_locked_amount) = get_current_balance_proof(
        sender_state,
    );
    let is_valid_balance_proof = is_balance_proof_usable_onchain(
        received_balance_proof,
        channel_state,
        sender_state,
    );
    let (lock, expected_locked_amount) = match lock {
        Some(lock) => {
            let expected_locked_amount = current_locked_amount.sub(lock.amount);
            (lock, expected_locked_amount)
        },
        None => {
            return Err(
                with_short_hash(
                    "Invalid LockExpired message. Lock with secrethash ",
                    &secrethash,
                    " is not known",
                ),
            )
        },
    };
    let pending_locks = match compute_locks_without(&sender_state.pending_locks, &lock) {
        Some(pending_locks) => pending_locks,
        None => return Err("Invalid LockExpired message. Same lock handled twice.".to_string()),
    };
    if secret_registered_on_chain {
        return Err("Invalid LockExpired message. Lock was unlocked on-chain".to_string());
    } else if let Err(e) = is_valid_balance_proof {
        return Err(prefixed("Invalid LockExpired message. ", e.as_str()));
    }
    let locksroot_without_lock = compute_locksroot(&pending_locks);
    let check_lock_expired = is_lock_expired(
        receiver_state,
        &lock,
        block_number,
        get_receiver_expiration_threshold(lock.expiration),
    );
    proof {
        if received_balance_proof.locksroot@ == locksroot_without_lock@ {
            assert(received_balance_proof.locksroot.bytes =~= locksroot_without_lock.bytes);
        }
    }
    if let Err(e) = check_lock_expired {
        return Err(prefixed("Invalid LockExpired message. ", e.as_str()));
    } else if !received_balance_proof.locksroot.equals(&locksroot_without_lock) {
        return Err(
            with_hashes(
                "Invalid LockExpired message. Balance proof's locksroot didn't match. expected ",
                &locksroot_without_lock,
                " got ",
                &received_balance_proof.locksroot,
                "",
            ),
        );
    } else if !received_balance_proof.transferred_amount.equals(&current_transferred_amount) {
        return Err(
            with_amounts(
                "Invalid LockExpired message. Balance proof's transferred amount changed. expected ",
                current_transferred_amount,
                " got ",
                received_balance_proof.transferred_amount,
                "",
            ),
        );
    } else if !received_balance_proof.locked_amount.equals(&expected_locked_amount) {
        return Err(
            with_amounts(
                "Invalid LockExpired message. Balance proof's locked amount changed. expected ",
                expected_locked_amount,
                " got ",
                received_balance_proof.locked_amount,
                "",
            ),
        );
    }
    Ok(pending_locks)
}

/// What `valid_locked_transfer_check` needs to run without overflow.
pub open spec fn spec_locked_transfer_check_defined(
    sender_state: &ChannelEndState,
    receiver_state: &ChannelEndState,
    lock: &HashTimeLockState,
) -> bool {
    &&& spec_current_balance_proof_defined(sender_state)
    &&& spec_distributable_defined(sender_state, receiver_state)
    &&& spec_current_balance_proof(sender_state).3 + lock.amount@ <= u256_max()
    &&& sender_state.nonce@ < u256_max()
}

/// The conditions under which a received locked transfer (or refund) is accepted.
pub open spec fn spec_valid_locked_transfer_check(
    channel_state: &ChannelState,
    sender_state: &ChannelEndState,
    receiver_state: &ChannelEndState,
    received_balance_proof: &BalanceProofState,
    lock: &HashTimeLockState,
) -> bool {
    let current = spec_current_balance_proof(sender_state);
    let with_lock = sender_state.pending_locks.locks@.push(lock.encoded);
    &&& spec_balance_proof_usable_onchain(*received_balance_proof, channel_state, sender_state)
    &&& !sender_state.pending_locks.locks@.contains(lock.encoded)
    &&& with_lock.len() <= ChannelState::spec_maximum_pending_transfers()
    &&& received_balance_proof.locksroot@ == spec_locksroot(with_lock)
    &&& received_balance_proof.transferred_amount@ == current.2
    &&& received_balance_proof.locked_amount@ == current.3 + lock.amount@
    &&& lock.amount@ <= spec_channel_distributable(sender_state, receiver_state)
}

/// The head of the reasons for refusing a message of kind `message`.
fn message_head(message: &str) -> (r: String)
    ensures
        r@ == "Invalid "@ + message@ + " message. "@,
{
    let mut r = String::from_str("Invalid ");
    r.append(message);
    r.append(" message. ");
    r
}

/// Validates a locked transfer.
pub fn valid_locked_transfer_check(
    channel_state: &ChannelState,
    sender_state: &ChannelEndState,
    receiver_state: &ChannelEndState,
    message: &str,
    received_balance_proof: &BalanceProofState,
    lock: &HashTimeLockState,
) -> (r: Result<PendingLocksState, String>)
    requires
        spec_locked_transfer_check_defined(sender_state, receiver_state, lock),
    ensures
        r.is_ok() == spec_valid_locked_transfer_check(
            channel_state,
            sender_state,
            receiver_state,
            received_balance_proof,
            lock,
        ),
        r.is_ok() ==> r.unwrap().locks@ == sender_state.pending_locks.locks@.push(lock.encoded),
{
    let (_, _, current_transferred_amount, current_locked_amount) = get_current_balance_proof(
        sender_state,
    );
    let distributable = channel_distributable(sender_state, receiver_state);
    let expected_locked_amount = current_locked_amount.add(lock.amount);
    let head = message_head(message);
    if let Err(e) = is_balance_proof_usable_onchain(received_balance_proof, channel_state, sender_state) {
        return Err(prefixed(head.as_str(), e.as_str()));
    }
    let pending_locks = match compute_locks_with(&sender_state.pending_locks, *lock) {
        Some(pending_locks) => {
            if pending_locks.locks.len() > 160 {
                return Err(
                    with_number(
                        prefixed(
                            head.as_str(),
                            "Adding the transfer would exceed the allowed limit of ",
                        ).as_str(),
                        160,
                        " pending transfers per channel.",
                    ),
                );
            }
            pending_locks
        },
        None => return Err(prefixed(head.as_str(), "Same lock handled twice")),
    };
    let locksroot_with_lock = compute_locksroot(&pending_locks);
    proof {
        if received_balance_proof.locksroot@ == locksroot_with_lock@ {
            assert(received_balance_proof.locksroot.bytes =~= locksroot_with_lock.bytes);
        }
    }
    if !received_balance_proof.locksroot.equals(&locksroot_with_lock) {
        return Err(
            with_hashes(
                prefixed(head.as_str(), "Balance proof's lock didn't match. expected: ").as_str(),
                &locksroot_with_lock,
                " got: ",
                &received_balance_proof.locksroot,
                "",
            ),
        );
    } else if !received_balance_proof.transferred_amount.equals(&current_transferred_amount) {
        return Err(
            with_amounts(
                prefixed(head.as_str(), "Balance proof's transferred_amount changed. expected: ").as_str(),
                current_transferred_amount,
                " got: ",
                received_balance_proof.transferred_amount,
                "",
            ),
        );
    } else if !received_balance_proof.locked_amount.equals(&expected_locked_amount) {
        return Err(
            with_amounts(
                prefixed(head.as_str(), "Balance proof's locked_amount changed. expected: ").as_str(),
                expected_locked_amount,
                " got: ",
                received_balance_proof.locked_amount,
                "",
            ),
        );
    } else if distributable.less_than(&lock.amount) {
        return Err(
            with_amounts(
                prefixed(
                    head.as_str(),
                    "Lock amount larger than the available distributable. Lock amount: ",
                ).as_str(),
                lock.amount,
                ", maximum distributable: ",
                distributable,
                "",
            ),
        );
    }
    Ok(pending_locks)
}

/// Validates a locked transfer.
pub fn is_valid_locked_transfer(
    transfer_state: &LockedTransferState,
    channel_state: &ChannelState,
    sender_end_state: &ChannelEndState,
    receiver_end_state: &ChannelEndState,
) -> (r: Result<PendingLocksState, String>)
    requires
        spec_locked_transfer_check_defined(sender_end_state, receiver_end_state, &transfer_state.lock),
    ensures
        r.is_ok() == spec_valid_locked_transfer_check(
            channel_state,
            sender_end_state,
            receiver_end_state,
            &transfer_state.balance_proof,
            &transfer_state.lock,
        ),
        r.is_ok() ==> r.unwrap().locks@ == sender_end_state.pending_locks.locks@.push(
            transfer_state.lock.encoded,
        ),
{
    valid_locked_transfer_check(
        channel_state,
        sender_end_state,
        receiver_end_state,
        "LockedTransfer",
        &transfer_state.balance_proof,
        &transfer_state.lock,
    )
}

/// What `is_valid_unlock` needs to run without overflow.
pub open spec fn spec_unlock_defined(sender_state: &ChannelEndState, unlock: &ReceiveUnlock) -> bool {
    &&& spec_current_balance_proof_defined(sender_state)
    &&& sender_state.nonce@ < u256_max()
    &&& match spec_get_lock(sender_state, unlock.secrethash) {
        Some(lock) => {
            &&& spec_current_balance_proof(sender_state).2 + lock.amount@ <= u256_max()
            &&& spec_current_balance_proof(sender_state).3 >= lock.amount@
        },
        None => true,
    }
}

/// The conditions under which the partner's unlock message is accepted.
pub open spec fn spec_valid_unlock(
    channel_state: &ChannelState,
    sender_state: &ChannelEndState,
    unlock: &ReceiveUnlock,
) -> bool {
    let bp = unlock.balance_proof;
    let current = spec_current_balance_proof(sender_state);
    match spec_get_lock(sender_state, unlock.secrethash) {
        None => false,
        Some(lock) => {
            &&& sender_state.pending_locks.locks@.contains(lock.encoded)
            &&& spec_balance_proof_usable_onchain(bp, channel_state, sender_state)
            &&& bp.locksroot@ == spec_locksroot(
                without_lock(sender_state.pending_locks.locks@, lock.encoded),
            )
            &&& bp.transferred_amount@ == current.2 + lock.amount@
            &&& bp.locked_amount@ == current.3 - lock.amount@
        },
    }
}

/// Validates an unlock state change.
pub fn is_valid_unlock(
    channel_state: &ChannelState,
    sender_state: &ChannelEndState,
    unlock: &ReceiveUnlock,
) -> (r: Result<PendingLocksState, String>)
    requires
        spec_unlock_defined(sender_state, unlock),
    ensures
        r.is_ok() == spec_valid_unlock(channel_state, sender_state, unlock),
        r.is_ok() ==> r.unwrap().locks@ == without_lock(
            sender_state.pending_locks.locks@,
            spec_get_lock(sender_state, unlock.secrethash).unwrap().encoded,
        ),
{
    let received_balance_proof = &unlock.balance_proof;
    let (_, _, current_transferred_amount, current_locked_amount) = get_current_balance_proof(
        sender_state,
    );
    let lock = match get_lock(sender_state, unlock.secrethash) {
        Some(lock) => lock,
        None => {
            return Err(
                with_short_hash(
                    "Invalid unlock message. There is no corresponding lock for ",
                    &unlock.secrethash,
                    "",
                ),
            )
        },
    };
    let pending_locks = match compute_locks_without(&sender_state.pending_locks, &lock) {
        Some(pending_locks) => pending_locks,
        None => {
            return Err(
                with_short_hash("Invalid unlock message. The lock is unknown ", &unlock.secrethash, ""),
            )
        },
    };
    let locksroot_without_lock = compute_locksroot(&pending_locks);
    let expected_transferred_amount = current_transferred_amount.add(lock.amount);
    let expected_locked_amount = current_locked_amount.sub(lock.amount);
    let is_valid_balance_proof = is_balance_proof_usable_onchain(
        received_balance_proof,
        channel_state,
        sender_state,
    );
    proof {
        if received_balance_proof.locksroot@ == locksroot_without_lock@ {
            assert(received_balance_proof.locksroot.bytes =~= locksroot_without_lock.bytes);
        }
    }
    if let Err(e) = is_valid_balance_proof {
        return Err(prefixed("Invalid unlock message. ", e.as_str()));
    } else if !received_balance_proof.locksroot.equals(&locksroot_without_lock) {
        return Err(
            with_hashes(
                "Invalid unlock message. Balance proof's locksroot didn't match. expected ",
                &locksroot_without_lock,
                " got ",
                &received_balance_proof.locksroot,
                "",
            ),
        );
    } else if !received_balance_proof.transferred_amount.equals(&expected_transferred_amount) {
        return Err(
            with_amounts(
                "Invalid unlock message. Balance proof's wrong transferred_amount. expected ",
                expected_transferred_amount,
                " got ",
                received_balance_proof.transferred_amount,
                "",
            ),
        );
    } else if !received_balance_proof.locked_amount.equals(&expected_locked_amount) {
        return Err(
            with_amounts(
                "Invalid unlock message. Balance proof's wrong locked_amount. expected ",
                expected_locked_amount,
                " got ",
                received_balance_proof.locked_amount,
                "",
            ),
        );
    }
    Ok(pending_locks)
}

/// The refund answers the transfer: same payment, amount, secret hash,
/// target, expiration and token, and not sent by the target.
pub open spec fn spec_refund_matches(
    refund_transfer: &LockedTransferState,
    transfer: &LockedTransferState,
) -> bool {
    &&& !(refund_transfer.balance_proof.sender == Some(transfer.target))
    &&& transfer.payment_identifier == refund_transfer.payment_identifier
    &&& transfer.lock.amount == refund_transfer.lock.amount
    &&& transfer.lock.secrethash == refund_transfer.lock.secrethash
    &&& transfer.target == refund_transfer.target
    &&& transfer.lock.expiration == refund_transfer.lock.expiration
    &&& transfer.token == refund_transfer.token
}

/// Checks if the refund transfer matches the transfer it refunds.
pub fn refund_transfer_matches_transfer(
    refund_transfer: &LockedTransferState,
    transfer: &LockedTransferState,
) -> (r: bool)
    ensures
        r == spec_refund_matches(refund_transfer, transfer),
{
    if let Some(sender) = refund_transfer.balance_proof.sender {
        if sender.equals(&transfer.target) {
            return false;
        }
    }
    transfer.payment_identifier == refund_transfer.payment_identifier
        && transfer.lock.amount.equals(&refund_transfer.lock.amount)
        && transfer.lock.secrethash.equals(&refund_transfer.lock.secrethash)
        && transfer.target.equals(&refund_transfer.target)
        && transfer.lock.expiration == refund_transfer.lock.expiration
        && transfer.token.equals(&refund_transfer.token)
}

/// Validates a refund transfer.
pub fn is_valid_refund(
    channel_state: &ChannelState,
    refund: &ReceiveTransferRefund,
    sender_state: &ChannelEndState,
    receiver_state: &ChannelEndState,
    received_transfer: &LockedTransferState,
) -> (r: Result<PendingLocksState, String>)
    requires
        spec_locked_transfer_check_defined(sender_state, receiver_state, &refund.transfer.lock),
    ensures
        r.is_ok() == (spec_valid_locked_transfer_check(
            channel_state,
            sender_state,
            receiver_state,
            &refund.transfer.balance_proof,
            &refund.transfer.lock,
        ) && spec_refund_matches(&refund.transfer, received_transfer)),
        r.is_ok() ==> r.unwrap().locks@ == sender_state.pending_locks.locks@.push(
            refund.transfer.lock.encoded,
        ),
{
    let pending_locks = valid_locked_transfer_check(
        channel_state,
        sender_state,
        receiver_state,
        "RefundTransfer",
        &refund.transfer.balance_proof,
        &refund.transfer.lock,
    )?;
    if !refund_transfer_matches_transfer(&refund.transfer, received_transfer) {
        return Err("Refund transfer did not match the received transfer".to_string());
    }
    Ok(pending_locks)
}

} // verus!
