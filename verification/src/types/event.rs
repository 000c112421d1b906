//! The events that transitions emit: messages to send, transactions to
//! submit and errors to report.
use vstd::prelude::*;

use crate::primitives::{Address, Signature, U256};
use crate::types::state::{
    AddressMetadata, BalanceProofState, BlockExpiration, BlockHash, BlockNumber,
    CanonicalIdentifier, LockedTransferState, MessageIdentifier, Nonce, PFSUpdate,
    PaymentIdentifier, RevealTimeout, Secret, SecretHash, TokenAddress, TokenAmount,
    TokenNetworkAddress, TokenNetworkRegistryAddress,
};

verus! {

/// The recipient and queue of a message to send.
pub struct SendMessageEventInner {
    pub recipient: Address,
    pub recipient_metadata: Option<AddressMetadata>,
    pub canonical_identifier: CanonicalIdentifier,
    pub message_identifier: MessageIdentifier,
}

/// The block that triggered an on-chain transaction.
#[derive(Clone, Copy, Debug)]
pub struct ContractSendEventInner {
    pub triggered_by_blockhash: BlockHash,
}

pub struct SendWithdrawRequest {
    pub inner: SendMessageEventInner,
    pub total_withdraw: TokenAmount,
    pub participant: Address,
    pub expiration: BlockExpiration,
    pub nonce: Nonce,
    pub coop_settle: bool,
}

pub struct SendWithdrawConfirmation {
    pub inner: SendMessageEventInner,
    pub participant: Address,
    pub total_withdraw: TokenAmount,
    pub nonce: Nonce,
    pub expiration: BlockExpiration,
}

pub struct SendWithdrawExpired {
    pub inner: SendMessageEventInner,
    pub participant: Address,
    pub total_withdraw: TokenAmount,
    pub nonce: Nonce,
    pub expiration: BlockExpiration,
}

pub struct SendLockedTransfer {
    pub inner: SendMessageEventInner,
    pub transfer: LockedTransferState,
}

pub struct SendLockExpired {
    pub inner: SendMessageEventInner,
    pub balance_proof: BalanceProofState,
    pub secrethash: SecretHash,
}

pub struct SendUnlock {
    pub inner: SendMessageEventInner,
    pub payment_identifier: PaymentIdentifier,
    pub token_address: TokenAddress,
    pub balance_proof: BalanceProofState,
    pub secret: Secret,
    pub secrethash: SecretHash,
}

pub struct SendProcessed {
    pub inner: SendMessageEventInner,
}

#[derive(Clone, Copy, Debug)]
pub struct ContractSendChannelClose {
    pub inner: ContractSendEventInner,
    pub canonical_identifier: CanonicalIdentifier,
    pub balance_proof: Option<BalanceProofState>,
}

pub struct ContractSendChannelCoopSettle {
    pub inner: ContractSendEventInner,
    pub canonical_identifier: CanonicalIdentifier,
    pub our_total_withdraw: TokenAmount,
    pub partner_total_withdraw: TokenAmount,
    pub expiration: BlockExpiration,
    pub signature_our_withdraw: Signature,
    pub signature_partner_withdraw: Signature,
}

#[derive(Clone, Copy, Debug)]
pub struct ContractSendChannelWithdraw {
    pub inner: ContractSendEventInner,
    pub canonical_identifier: CanonicalIdentifier,
    pub total_withdraw: TokenAmount,
    pub expiration: BlockExpiration,
    pub partner_signature: Signature,
}

#[derive(Clone, Copy, Debug)]
pub struct ContractSendChannelSettle {
    pub inner: ContractSendEventInner,
    pub canonical_identifier: CanonicalIdentifier,
}

#[derive(Clone, Copy, Debug)]
pub struct ContractSendChannelUpdateTransfer {
    pub inner: ContractSendEventInner,
    pub expiration: BlockExpiration,
    pub balance_proof: BalanceProofState,
}

#[derive(Clone, Copy, Debug)]
pub struct ContractSendChannelBatchUnlock {
    pub inner: ContractSendEventInner,
    pub canonical_identifier: CanonicalIdentifier,
    pub sender: Address,
}

pub struct ErrorInvalidActionWithdraw {
    pub attemped_withdraw: TokenAmount,
    pub reason: String,
}

pub struct ErrorInvalidActionCoopSettle {
    pub attempted_withdraw: TokenAmount,
    pub reason: String,
}

pub struct ErrorInvalidActionSetRevealTimeout {
    pub reveal_timeout: RevealTimeout,
    pub reason: String,
}

pub struct ErrorInvalidReceivedLockedTransfer {
    pub payment_identifier: PaymentIdentifier,
    pub reason: String,
}

pub struct ErrorInvalidReceivedLockExpired {
    pub secrethash: SecretHash,
    pub reason: String,
}

pub struct ErrorInvalidReceivedTransferRefund {
    pub payment_identifier: PaymentIdentifier,
    pub reason: String,
}

pub struct ErrorInvalidReceivedUnlock {
    pub secrethash: SecretHash,
    pub reason: String,
}

pub struct ErrorInvalidReceivedWithdrawRequest {
    pub attemped_withdraw: TokenAmount,
    pub reason: String,
}

pub struct ErrorInvalidReceivedWithdrawConfirmation {
    pub attemped_withdraw: TokenAmount,
    pub reason: String,
}

pub struct ErrorInvalidReceivedWithdrawExpired {
    pub attemped_withdraw: TokenAmount,
    pub reason: String,
}

/// A secret to register on chain before the lock expires.
#[derive(Clone, Copy, Debug)]
pub struct ContractSendSecretReveal {
    pub inner: ContractSendEventInner,
    pub expiration: BlockExpiration,
    pub secret: Secret,
}

/// The target asks the initiator for the secret.
pub struct SendSecretRequest {
    pub inner: SendMessageEventInner,
    pub payment_identifier: PaymentIdentifier,
    pub amount: TokenAmount,
    pub expiration: BlockExpiration,
    pub secrethash: SecretHash,
}

/// A node reveals the secret of a payment.
pub struct SendSecretReveal {
    pub inner: SendMessageEventInner,
    pub secret: Secret,
    pub secrethash: SecretHash,
}

/// We received a payment.
pub struct PaymentReceivedSuccess {
    pub token_network_registry_address: TokenNetworkRegistryAddress,
    pub token_network_address: TokenNetworkAddress,
    pub identifier: PaymentIdentifier,
    pub amount: TokenAmount,
    pub initiator: Address,
}

/// A payment we sent arrived.
pub struct PaymentSentSuccess {
    pub token_network_registry_address: TokenNetworkRegistryAddress,
    pub token_network_address: TokenNetworkAddress,
    pub identifier: PaymentIdentifier,
    pub amount: TokenAmount,
    pub target: Address,
    pub secret: Secret,
    pub route: Vec<Address>,
}

/// A lock we sent was unlocked.
pub struct UnlockSuccess {
    pub identifier: PaymentIdentifier,
    pub secrethash: SecretHash,
}

/// A lock we received was claimed.
pub struct UnlockClaimSuccess {
    pub identifier: PaymentIdentifier,
    pub secrethash: SecretHash,
}

/// A payment we sent failed.
pub struct ErrorPaymentSentFailed {
    pub token_network_registry_address: TokenNetworkRegistryAddress,
    pub token_network_address: TokenNetworkAddress,
    pub identifier: PaymentIdentifier,
    pub target: Address,
    pub reason: String,
}

/// A lock we sent could not be unlocked.
pub struct ErrorUnlockFailed {
    pub identifier: PaymentIdentifier,
    pub secrethash: SecretHash,
    pub reason: String,
}

/// A route of a payment failed.
pub struct ErrorRouteFailed {
    pub secrethash: SecretHash,
    pub route: Vec<Address>,
    pub token_network_address: TokenNetworkAddress,
}

/// The target asked for a secret with the wrong amount.
pub struct ErrorInvalidSecretRequest {
    pub payment_identifier: PaymentIdentifier,
    pub intended_amount: TokenAmount,
    pub actual_amount: TokenAmount,
}

/// A lock we received could not be claimed.
pub struct ErrorUnlockClaimFailed {
    pub identifier: PaymentIdentifier,
    pub secrethash: SecretHash,
    pub reason: String,
}

/// A secret was revealed when it should not have been.
pub struct ErrorUnexpectedReveal {
    pub secrethash: SecretHash,
    pub reason: String,
}

/// The services have a new address.
pub struct UpdatedServicesAddresses {
    pub service_address: Address,
    pub validity: U256,
}

/// The queue of messages to one recipient about one channel.
#[derive(Clone, Copy, Debug)]
pub struct QueueIdentifier {
    pub recipient: Address,
    pub canonical_identifier: CanonicalIdentifier,
}

impl SendMessageEventInner {
    /// The queue of the message.
    pub fn queue_identifier(&self) -> (r: QueueIdentifier)
        ensures
            r.recipient == self.recipient,
            r.canonical_identifier == self.canonical_identifier,
    {
        QueueIdentifier { recipient: self.recipient, canonical_identifier: self.canonical_identifier }
    }
}

/// The on-chain transactions that a node waits for.
#[derive(Clone, Copy, Debug)]
pub enum ContractSendEvent {
    ContractSendChannelClose(ContractSendChannelClose),
    ContractSendChannelWithdraw(ContractSendChannelWithdraw),
    ContractSendChannelSettle(ContractSendChannelSettle),
    ContractSendChannelUpdateTransfer(ContractSendChannelUpdateTransfer),
    ContractSendChannelBatchUnlock(ContractSendChannelBatchUnlock),
    ContractSendSecretReveal(ContractSendSecretReveal),
}

/// Everything a transition can ask the node to do or report.
pub enum Event {
    ContractSendChannelClose(ContractSendChannelClose),
    ContractSendChannelCoopSettle(ContractSendChannelCoopSettle),
    ContractSendChannelWithdraw(ContractSendChannelWithdraw),
    ContractSendChannelSettle(ContractSendChannelSettle),
    ContractSendChannelUpdateTransfer(ContractSendChannelUpdateTransfer),
    ContractSendChannelBatchUnlock(ContractSendChannelBatchUnlock),
    ContractSendSecretReveal(ContractSendSecretReveal),
    PaymentReceivedSuccess(PaymentReceivedSuccess),
    PaymentSentSuccess(PaymentSentSuccess),
    SendWithdrawExpired(SendWithdrawExpired),
    SendWithdrawRequest(SendWithdrawRequest),
    SendWithdrawConfirmation(SendWithdrawConfirmation),
    SendLockedTransfer(SendLockedTransfer),
    SendLockExpired(SendLockExpired),
    SendSecretRequest(SendSecretRequest),
    SendSecretReveal(SendSecretReveal),
    SendUnlock(SendUnlock),
    SendPFSUpdate(PFSUpdate),
    SendMSUpdate(BalanceProofState),
    SendProcessed(SendProcessed),
    UnlockSuccess(UnlockSuccess),
    UnlockClaimSuccess(UnlockClaimSuccess),
    UpdatedServicesAddresses(UpdatedServicesAddresses),
    ExpireServicesAddresses(BlockNumber),
    ErrorInvalidActionWithdraw(ErrorInvalidActionWithdraw),
    ErrorInvalidActionCoopSettle(ErrorInvalidActionCoopSettle),
    ErrorInvalidActionSetRevealTimeout(ErrorInvalidActionSetRevealTimeout),
    ErrorInvalidSecretRequest(ErrorInvalidSecretRequest),
    ErrorInvalidReceivedLockedTransfer(ErrorInvalidReceivedLockedTransfer),
    ErrorInvalidReceivedLockExpired(ErrorInvalidReceivedLockExpired),
    ErrorInvalidReceivedTransferRefund(ErrorInvalidReceivedTransferRefund),
    ErrorInvalidReceivedUnlock(ErrorInvalidReceivedUnlock),
    ErrorInvalidReceivedWithdrawRequest(ErrorInvalidReceivedWithdrawRequest),
    ErrorInvalidReceivedWithdrawConfirmation(ErrorInvalidReceivedWithdrawConfirmation),
    ErrorInvalidReceivedWithdrawExpired(ErrorInvalidReceivedWithdrawExpired),
    ErrorPaymentSentFailed(ErrorPaymentSentFailed),
    ErrorRouteFailed(ErrorRouteFailed),
    ErrorUnlockClaimFailed(ErrorUnlockClaimFailed),
    ErrorUnlockFailed(ErrorUnlockFailed),
    ErrorUnexpectedReveal(ErrorUnexpectedReveal),
    ClearMessages(QueueIdentifier),
}

/// The name of the variant of an event.
pub open spec fn spec_event_kind_name(e: &Event) -> &'static str {
    match e {
        Event::ContractSendChannelClose(_) => "ContractSendChannelClose",
        Event::ContractSendChannelCoopSettle(_) => "ContractSendChannelCoopSettle",
        Event::ContractSendChannelWithdraw(_) => "ContractSendChannelWithdraw",
        Event::ContractSendChannelSettle(_) => "ContractSendChannelSettle",
        Event::ContractSendChannelUpdateTransfer(_) => "ContractSendChannelUpdateTransfer",
        Event::ContractSendChannelBatchUnlock(_) => "ContractSendChannelBatchUnlock",
        Event::ContractSendSecretReveal(_) => "ContractSendSecretReveal",
        Event::PaymentReceivedSuccess(_) => "PaymentReceivedSuccess",
        Event::PaymentSentSuccess(_) => "PaymentSentSuccess",
        Event::SendWithdrawExpired(_) => "SendWithdrawExpired",
        Event::SendWithdrawRequest(_) => "SendWithdrawRequest",
        Event::SendWithdrawConfirmation(_) => "SendWithdrawConfirmation",
        Event::SendLockedTransfer(_) => "SendLockedTransfer",
        Event::SendLockExpired(_) => "SendLockExpired",
        Event::SendSecretRequest(_) => "SendSecretRequest",
        Event::SendSecretReveal(_) => "SendSecretReveal",
        Event::SendUnlock(_) => "SendUnlock",
        Event::SendPFSUpdate(_) => "SendPFSUpdate",
        Event::SendMSUpdate(_) => "SendMSUpdate",
        Event::SendProcessed(_) => "SendProcessed",
        Event::UnlockSuccess(_) => "UnlockSuccess",
        Event::UnlockClaimSuccess(_) => "UnlockClaimSuccess",
        Event::UpdatedServicesAddresses(_) => "UpdatedServicesAddresses",
        Event::ExpireServicesAddresses(_) => "ExpireServicesAddresses",
        Event::ErrorInvalidActionWithdraw(_) => "ErrorInvalidActionWithdraw",
        Event::ErrorInvalidActionCoopSettle(_) => "ErrorInvalidActionCoopSettle",
        Event::ErrorInvalidActionSetRevealTimeout(_) => "ErrorInvalidActionSetRevealTimeout",
        Event::ErrorInvalidSecretRequest(_) => "ErrorInvalidSecretRequest",
        Event::ErrorInvalidReceivedLockedTransfer(_) => "ErrorInvalidReceivedLockedTransfer",
        Event::ErrorInvalidReceivedLockExpired(_) => "ErrorInvalidReceivedLockExpired",
        Event::ErrorInvalidReceivedTransferRefund(_) => "ErrorInvalidReceivedTransferRefund",
        Event::ErrorInvalidReceivedUnlock(_) => "ErrorInvalidReceivedUnlock",
        Event::ErrorInvalidReceivedWithdrawRequest(_) => "ErrorInvalidReceivedWithdrawRequest",
        Event::ErrorInvalidReceivedWithdrawConfirmation(_) => "ErrorInvalidReceivedWithdrawConfirmation",
        Event::ErrorInvalidReceivedWithdrawExpired(_) => "ErrorInvalidReceivedWithdrawExpired",
        Event::ErrorPaymentSentFailed(_) => "ErrorPaymentSentFailed",
        Event::ErrorRouteFailed(_) => "ErrorRouteFailed",
        Event::ErrorUnlockClaimFailed(_) => "ErrorUnlockClaimFailed",
        Event::ErrorUnlockFailed(_) => "ErrorUnlockFailed",
        Event::ErrorUnexpectedReveal(_) => "ErrorUnexpectedReveal",
        Event::ClearMessages(_) => "ClearMessages",
    }
}

impl Event {
    /// Returns a string of the inner event's type name; events of distinct
    /// kinds have distinct names (`law_event_names_distinct`).
    pub fn kind_name(&self) -> (r: &'static str)
        ensures
            r == spec_event_kind_name(self),
    {
        match self {
            Event::ContractSendChannelClose(_) => "ContractSendChannelClose",
            Event::ContractSendChannelCoopSettle(_) => "ContractSendChannelCoopSettle",
            Event::ContractSendChannelWithdraw(_) => "ContractSendChannelWithdraw",
            Event::ContractSendChannelSettle(_) => "ContractSendChannelSettle",
            Event::ContractSendChannelUpdateTransfer(_) => "ContractSendChannelUpdateTransfer",
            Event::ContractSendChannelBatchUnlock(_) => "ContractSendChannelBatchUnlock",
            Event::ContractSendSecretReveal(_) => "ContractSendSecretReveal",
            Event::PaymentReceivedSuccess(_) => "PaymentReceivedSuccess",
            Event::PaymentSentSuccess(_) => "PaymentSentSuccess",
            Event::SendWithdrawExpired(_) => "SendWithdrawExpired",
            Event::SendWithdrawRequest(_) => "SendWithdrawRequest",
            Event::SendWithdrawConfirmation(_) => "SendWithdrawConfirmation",
            Event::SendLockedTransfer(_) => "SendLockedTransfer",
            Event::SendLockExpired(_) => "SendLockExpired",
            Event::SendSecretRequest(_) => "SendSecretRequest",
            Event::SendSecretReveal(_) => "SendSecretReveal",
            Event::SendUnlock(_) => "SendUnlock",
            Event::SendPFSUpdate(_) => "SendPFSUpdate",
            Event::SendMSUpdate(_) => "SendMSUpdate",
            Event::SendProcessed(_) => "SendProcessed",
            Event::UnlockSuccess(_) => "UnlockSuccess",
            Event::UnlockClaimSuccess(_) => "UnlockClaimSuccess",
            Event::UpdatedServicesAddresses(_) => "UpdatedServicesAddresses",
            Event::ExpireServicesAddresses(_) => "ExpireServicesAddresses",
            Event::ErrorInvalidActionWithdraw(_) => "ErrorInvalidActionWithdraw",
            Event::ErrorInvalidActionCoopSettle(_) => "ErrorInvalidActionCoopSettle",
            Event::ErrorInvalidActionSetRevealTimeout(_) => "ErrorInvalidActionSetRevealTimeout",
            Event::ErrorInvalidSecretRequest(_) => "ErrorInvalidSecretRequest",
            Event::ErrorInvalidReceivedLockedTransfer(_) => "ErrorInvalidReceivedLockedTransfer",
            Event::ErrorInvalidReceivedLockExpired(_) => "ErrorInvalidReceivedLockExpired",
            Event::ErrorInvalidReceivedTransferRefund(_) => "ErrorInvalidReceivedTransferRefund",
            Event::ErrorInvalidReceivedUnlock(_) => "ErrorInvalidReceivedUnlock",
            Event::ErrorInvalidReceivedWithdrawRequest(_) => "ErrorInvalidReceivedWithdrawRequest",
            Event::ErrorInvalidReceivedWithdrawConfirmation(_) => "ErrorInvalidReceivedWithdrawConfirmation",
            Event::ErrorInvalidReceivedWithdrawExpired(_) => "ErrorInvalidReceivedWithdrawExpired",
            Event::ErrorPaymentSentFailed(_) => "ErrorPaymentSentFailed",
            Event::ErrorRouteFailed(_) => "ErrorRouteFailed",
            Event::ErrorUnlockClaimFailed(_) => "ErrorUnlockClaimFailed",
            Event::ErrorUnlockFailed(_) => "ErrorUnlockFailed",
            Event::ErrorUnexpectedReveal(_) => "ErrorUnexpectedReveal",
            Event::ClearMessages(_) => "ClearMessages",
        }
    }
}

/// The queue of messages that need no ordering: the zero canonical identifier.
pub fn canonical_identifier_unordered_queue() -> (r: CanonicalIdentifier)
    ensures
        r.chain_identifier == 0,
        r.token_network_address@ == Seq::new(20, |i: int| 0u8),
        r.channel_identifier@ == 0,
{
    CanonicalIdentifier {
        chain_identifier: 0,
        token_network_address: Address::zero(),
        channel_identifier: U256::zero(),
    }
}

/// The position of the variant of an event among the variants.
pub open spec fn spec_event_kind(e: &Event) -> int {
    match e {
        Event::ContractSendChannelClose(_) => 0,
        Event::ContractSendChannelCoopSettle(_) => 1,
        Event::ContractSendChannelWithdraw(_) => 2,
        Event::ContractSendChannelSettle(_) => 3,
        Event::ContractSendChannelUpdateTransfer(_) => 4,
        Event::ContractSendChannelBatchUnlock(_) => 5,
        Event::ContractSendSecretReveal(_) => 6,
        Event::PaymentReceivedSuccess(_) => 7,
        Event::PaymentSentSuccess(_) => 8,
        Event::SendWithdrawExpired(_) => 9,
        Event::SendWithdrawRequest(_) => 10,
        Event::SendWithdrawConfirmation(_) => 11,
        Event::SendLockedTransfer(_) => 12,
        Event::SendLockExpired(_) => 13,
        Event::SendSecretRequest(_) => 14,
        Event::SendSecretReveal(_) => 15,
        Event::SendUnlock(_) => 16,
        Event::SendPFSUpdate(_) => 17,
        Event::SendMSUpdate(_) => 18,
        Event::SendProcessed(_) => 19,
        Event::UnlockSuccess(_) => 20,
        Event::UnlockClaimSuccess(_) => 21,
        Event::UpdatedServicesAddresses(_) => 22,
        Event::ExpireServicesAddresses(_) => 23,
        Event::ErrorInvalidActionWithdraw(_) => 24,
        Event::ErrorInvalidActionCoopSettle(_) => 25,
        Event::ErrorInvalidActionSetRevealTimeout(_) => 26,
        Event::ErrorInvalidSecretRequest(_) => 27,
        Event::ErrorInvalidReceivedLockedTransfer(_) => 28,
        Event::ErrorInvalidReceivedLockExpired(_) => 29,
        Event::ErrorInvalidReceivedTransferRefund(_) => 30,
        Event::ErrorInvalidReceivedUnlock(_) => 31,
        Event::ErrorInvalidReceivedWithdrawRequest(_) => 32,
        Event::ErrorInvalidReceivedWithdrawConfirmation(_) => 33,
        Event::ErrorInvalidReceivedWithdrawExpired(_) => 34,
        Event::ErrorPaymentSentFailed(_) => 35,
        Event::ErrorRouteFailed(_) => 36,
        Event::ErrorUnlockClaimFailed(_) => 37,
        Event::ErrorUnlockFailed(_) => 38,
        Event::ErrorUnexpectedReveal(_) => 39,
        Event::ClearMessages(_) => 40,
    }
}

/// The variant position that a name of an event tells, read from its length
/// and, among names of one length, a character that sets them apart.
pub open spec fn spec_event_name_code(s: Seq<char>) -> int {
    if s.len() == 24 && s[14] == 'a' {
        0
    } else if s.len() == 29 {
        1
    } else if s.len() == 27 {
        2
    } else if s.len() == 25 && s[0] == 'C' {
        3
    } else if s.len() == 33 {
        4
    } else if s.len() == 30 {
        5
    } else if s.len() == 24 && s[14] == 'c' {
        6
    } else if s.len() == 22 && s[5] == 'n' {
        7
    } else if s.len() == 18 && s[0] == 'P' {
        8
    } else if s.len() == 19 && s[12] == 'E' {
        9
    } else if s.len() == 19 && s[12] == 'R' {
        10
    } else if s.len() == 24 && s[14] == 'n' {
        11
    } else if s.len() == 18 && s[0] == 'S' {
        12
    } else if s.len() == 15 {
        13
    } else if s.len() == 17 && s[0] == 'S' {
        14
    } else if s.len() == 16 && s[0] == 'S' {
        15
    } else if s.len() == 10 {
        16
    } else if s.len() == 13 && s[5] == 'F' {
        17
    } else if s.len() == 12 {
        18
    } else if s.len() == 13 && s[5] == 'r' {
        19
    } else if s.len() == 13 && s[5] == 'k' {
        20
    } else if s.len() == 18 && s[0] == 'U' {
        21
    } else if s.len() == 24 && s[14] == 's' {
        22
    } else if s.len() == 23 {
        23
    } else if s.len() == 26 && s[12] == 'A' {
        24
    } else if s.len() == 28 {
        25
    } else if s.len() == 34 && s[20] == 't' {
        26
    } else if s.len() == 25 && s[0] == 'E' {
        27
    } else if s.len() == 34 && s[20] == 'L' {
        28
    } else if s.len() == 31 {
        29
    } else if s.len() == 34 && s[20] == 'T' {
        30
    } else if s.len() == 26 && s[12] == 'R' {
        31
    } else if s.len() == 35 && s[28] == 'R' {
        32
    } else if s.len() == 40 {
        33
    } else if s.len() == 35 && s[28] == 'E' {
        34
    } else if s.len() == 22 && s[5] == 'P' {
        35
    } else if s.len() == 16 && s[0] == 'E' {
        36
    } else if s.len() == 22 && s[5] == 'U' {
        37
    } else if s.len() == 17 && s[0] == 'E' {
        38
    } else if s.len() == 21 {
        39
    } else if s.len() == 13 && s[5] == 'M' {
        40
    } else {
        -1
    }
}

/// The name of an event tells its variant.
pub proof fn lemma_event_name_code(e: &Event)
    ensures
        spec_event_name_code(spec_event_kind_name(e)@) == spec_event_kind(e),
{
    match e {
        Event::ContractSendChannelClose(_) => {
            reveal_strlit("ContractSendChannelClose");
            assert("ContractSendChannelClose"@.len() == 24);
            assert("ContractSendChannelClose"@[14] == 'a');
        },
        Event::ContractSendChannelCoopSettle(_) => {
            reveal_strlit("ContractSendChannelCoopSettle");
            assert("ContractSendChannelCoopSettle"@.len() == 29);
        },
        Event::ContractSendChannelWithdraw(_) => {
            reveal_strlit("ContractSendChannelWithdraw");
            assert("ContractSendChannelWithdraw"@.len() == 27);
        },
        Event::ContractSendChannelSettle(_) => {
            reveal_strlit("ContractSendChannelSettle");
            assert("ContractSendChannelSettle"@.len() == 25);
            assert("ContractSendChannelSettle"@[0] == 'C');
        },
        Event::ContractSendChannelUpdateTransfer(_) => {
            reveal_strlit("ContractSendChannelUpdateTransfer");
            assert("ContractSendChannelUpdateTransfer"@.len() == 33);
        },
        Event::ContractSendChannelBatchUnlock(_) => {
            reveal_strlit("ContractSendChannelBatchUnlock");
            assert("ContractSendChannelBatchUnlock"@.len() == 30);
        },
        Event::ContractSendSecretReveal(_) => {
            reveal_strlit("ContractSendSecretReveal");
            assert("ContractSendSecretReveal"@.len() == 24);
            assert("ContractSendSecretReveal"@[14] == 'c');
        },
        Event::PaymentReceivedSuccess(_) => {
            reveal_strlit("PaymentReceivedSuccess");
            assert("PaymentReceivedSuccess"@.len() == 22);
            assert("PaymentReceivedSuccess"@[5] == 'n');
        },
        Event::PaymentSentSuccess(_) => {
            reveal_strlit("PaymentSentSuccess");
            assert("PaymentSentSuccess"@.len() == 18);
            assert("PaymentSentSuccess"@[0] == 'P');
        },
        Event::SendWithdrawExpired(_) => {
            reveal_strlit("SendWithdrawExpired");
            assert("SendWithdrawExpired"@.len() == 19);
            assert("SendWithdrawExpired"@[12] == 'E');
        },
        Event::SendWithdrawRequest(_) => {
            reveal_strlit("SendWithdrawRequest");
            assert("SendWithdrawRequest"@.len() == 19);
            assert("SendWithdrawRequest"@[12] == 'R');
        },
        Event::SendWithdrawConfirmation(_) => {
            reveal_strlit("SendWithdrawConfirmation");
            assert("SendWithdrawConfirmation"@.len() == 24);
            assert("SendWithdrawConfirmation"@[14] == 'n');
        },
        Event::SendLockedTransfer(_) => {
            reveal_strlit("SendLockedTransfer");
            assert("SendLockedTransfer"@.len() == 18);
            assert("SendLockedTransfer"@[0] == 'S');
        },
        Event::SendLockExpired(_) => {
            reveal_strlit("SendLockExpired");
            assert("SendLockExpired"@.len() == 15);
        },
        Event::SendSecretRequest(_) => {
            reveal_strlit("SendSecretRequest");
            assert("SendSecretRequest"@.len() == 17);
            assert("SendSecretRequest"@[0] == 'S');
        },
        Event::SendSecretReveal(_) => {
            reveal_strlit("SendSecretReveal");
            assert("SendSecretReveal"@.len() == 16);
            assert("SendSecretReveal"@[0] == 'S');
        },
        Event::SendUnlock(_) => {
            reveal_strlit("SendUnlock");
            assert("SendUnlock"@.len() == 10);
        },
        Event::SendPFSUpdate(_) => {
            reveal_strlit("SendPFSUpdate");
            assert("SendPFSUpdate"@.len() == 13);
            assert("SendPFSUpdate"@[5] == 'F');
        },
        Event::SendMSUpdate(_) => {
            reveal_strlit("SendMSUpdate");
            assert("SendMSUpdate"@.len() == 12);
        },
        Event::SendProcessed(_) => {
            reveal_strlit("SendProcessed");
            assert("SendProcessed"@.len() == 13);
            assert("SendProcessed"@[5] == 'r');
        },
        Event::UnlockSuccess(_) => {
            reveal_strlit("UnlockSuccess");
            assert("UnlockSuccess"@.len() == 13);
            assert("UnlockSuccess"@[5] == 'k');
        },
        Event::UnlockClaimSuccess(_) => {
            reveal_strlit("UnlockClaimSuccess");
            assert("UnlockClaimSuccess"@.len() == 18);
            assert("UnlockClaimSuccess"@[0] == 'U');
        },
        Event::UpdatedServicesAddresses(_) => {
            reveal_strlit("UpdatedServicesAddresses");
            assert("UpdatedServicesAddresses"@.len() == 24);
            assert("UpdatedServicesAddresses"@[14] == 's');
        },
        Event::ExpireServicesAddresses(_) => {
            reveal_strlit("ExpireServicesAddresses");
            assert("ExpireServicesAddresses"@.len() == 23);
        },
        Event::ErrorInvalidActionWithdraw(_) => {
            reveal_strlit("ErrorInvalidActionWithdraw");
            assert("ErrorInvalidActionWithdraw"@.len() == 26);
            assert("ErrorInvalidActionWithdraw"@[12] == 'A');
        },
        Event::ErrorInvalidActionCoopSettle(_) => {
            reveal_strlit("ErrorInvalidActionCoopSettle");
            assert("ErrorInvalidActionCoopSettle"@.len() == 28);
        },
        Event::ErrorInvalidActionSetRevealTimeout(_) => {
            reveal_strlit("ErrorInvalidActionSetRevealTimeout");
            assert("ErrorInvalidActionSetRevealTimeout"@.len() == 34);
            assert("ErrorInvalidActionSetRevealTimeout"@[20] == 't');
        },
        Event::ErrorInvalidSecretRequest(_) => {
            reveal_strlit("ErrorInvalidSecretRequest");
            assert("ErrorInvalidSecretRequest"@.len() == 25);
            assert("ErrorInvalidSecretRequest"@[0] == 'E');
        },
        Event::ErrorInvalidReceivedLockedTransfer(_) => {
            reveal_strlit("ErrorInvalidReceivedLockedTransfer");
            assert("ErrorInvalidReceivedLockedTransfer"@.len() == 34);
            assert("ErrorInvalidReceivedLockedTransfer"@[20] == 'L');
        },
        Event::ErrorInvalidReceivedLockExpired(_) => {
            reveal_strlit("ErrorInvalidReceivedLockExpired");
            assert("ErrorInvalidReceivedLockExpired"@.len() == 31);
        },
        Event::ErrorInvalidReceivedTransferRefund(_) => {
            reveal_strlit("ErrorInvalidReceivedTransferRefund");
            assert("ErrorInvalidReceivedTransferRefund"@.len() == 34);
            assert("ErrorInvalidReceivedTransferRefund"@[20] == 'T');
        },
        Event::ErrorInvalidReceivedUnlock(_) => {
            reveal_strlit("ErrorInvalidReceivedUnlock");
            assert("ErrorInvalidReceivedUnlock"@.len() == 26);
            assert("ErrorInvalidReceivedUnlock"@[12] == 'R');
        },
        Event::ErrorInvalidReceivedWithdrawRequest(_) => {
            reveal_strlit("ErrorInvalidReceivedWithdrawRequest");
            assert("ErrorInvalidReceivedWithdrawRequest"@.len() == 35);
            assert("ErrorInvalidReceivedWithdrawRequest"@[28] == 'R');
        },
        Event::ErrorInvalidReceivedWithdrawConfirmation(_) => {
            reveal_strlit("ErrorInvalidReceivedWithdrawConfirmation");
            assert("ErrorInvalidReceivedWithdrawConfirmation"@.len() == 40);
        },
        Event::ErrorInvalidReceivedWithdrawExpired(_) => {
            reveal_strlit("ErrorInvalidReceivedWithdrawExpired");
            assert("ErrorInvalidReceivedWithdrawExpired"@.len() == 35);
            assert("ErrorInvalidReceivedWithdrawExpired"@[28] == 'E');
        },
        Event::ErrorPaymentSentFailed(_) => {
            reveal_strlit("ErrorPaymentSentFailed");
            assert("ErrorPaymentSentFailed"@.len() == 22);
            assert("ErrorPaymentSentFailed"@[5] == 'P');
        },
        Event::ErrorRouteFailed(_) => {
            reveal_strlit("ErrorRouteFailed");
            assert("ErrorRouteFailed"@.len() == 16);
            assert("ErrorRouteFailed"@[0] == 'E');
        },
        Event::ErrorUnlockClaimFailed(_) => {
            reveal_strlit("ErrorUnlockClaimFailed");
            assert("ErrorUnlockClaimFailed"@.len() == 22);
            assert("ErrorUnlockClaimFailed"@[5] == 'U');
        },
        Event::ErrorUnlockFailed(_) => {
            reveal_strlit("ErrorUnlockFailed");
            assert("ErrorUnlockFailed"@.len() == 17);
            assert("ErrorUnlockFailed"@[0] == 'E');
        },
        Event::ErrorUnexpectedReveal(_) => {
            reveal_strlit("ErrorUnexpectedReveal");
            assert("ErrorUnexpectedReveal"@.len() == 21);
        },
        Event::ClearMessages(_) => {
            reveal_strlit("ClearMessages");
            assert("ClearMessages"@.len() == 13);
            assert("ClearMessages"@[5] == 'M');
        },
    }
}

} // verus!

verus! {

/// The messages that a node sends to its partners.
pub enum SendMessageEvent {
    SendLockExpired(SendLockExpired),
    SendLockedTransfer(SendLockedTransfer),
    SendSecretReveal(SendSecretReveal),
    SendSecretRequest(SendSecretRequest),
    SendUnlock(SendUnlock),
    SendWithdrawRequest(SendWithdrawRequest),
    SendWithdrawConfirmation(SendWithdrawConfirmation),
    SendWithdrawExpired(SendWithdrawExpired),
    SendProcessed(SendProcessed),
}

/// The message that `event` sends, if it sends one of those that the
/// conversion knows.
pub open spec fn spec_send_message_event(event: Event) -> Result<SendMessageEvent, ()> {
    match event {
        Event::SendWithdrawExpired(inner) => Ok(SendMessageEvent::SendWithdrawExpired(inner)),
        Event::SendWithdrawRequest(inner) => Ok(SendMessageEvent::SendWithdrawRequest(inner)),
        Event::SendLockedTransfer(inner) => Ok(SendMessageEvent::SendLockedTransfer(inner)),
        Event::SendLockExpired(inner) => Ok(SendMessageEvent::SendLockExpired(inner)),
        Event::SendSecretRequest(inner) => Ok(SendMessageEvent::SendSecretRequest(inner)),
        Event::SendSecretReveal(inner) => Ok(SendMessageEvent::SendSecretReveal(inner)),
        Event::SendUnlock(inner) => Ok(SendMessageEvent::SendUnlock(inner)),
        Event::SendProcessed(inner) => Ok(SendMessageEvent::SendProcessed(inner)),
        _ => Err(()),
    }
}

impl SendMessageEvent {
    /// The message that `event` sends; other events are refused.
    pub fn try_from(event: Event) -> (r: Result<SendMessageEvent, ()>)
        ensures
            r == spec_send_message_event(event),
    {
        match event {
            Event::SendWithdrawExpired(inner) => Ok(SendMessageEvent::SendWithdrawExpired(inner)),
            Event::SendWithdrawRequest(inner) => Ok(SendMessageEvent::SendWithdrawRequest(inner)),
            Event::SendLockedTransfer(inner) => Ok(SendMessageEvent::SendLockedTransfer(inner)),
            Event::SendLockExpired(inner) => Ok(SendMessageEvent::SendLockExpired(inner)),
            Event::SendSecretRequest(inner) => Ok(SendMessageEvent::SendSecretRequest(inner)),
            Event::SendSecretReveal(inner) => Ok(SendMessageEvent::SendSecretReveal(inner)),
            Event::SendUnlock(inner) => Ok(SendMessageEvent::SendUnlock(inner)),
            Event::SendProcessed(inner) => Ok(SendMessageEvent::SendProcessed(inner)),
            _ => Err(()),
        }
    }
}

/// The on-chain transaction that `event` asks for, if it asks for one.
pub open spec fn spec_contract_send_event(event: &Event) -> Result<ContractSendEvent, ()> {
    match *event {
        Event::ContractSendChannelClose(inner) => Ok(
            ContractSendEvent::ContractSendChannelClose(inner),
        ),
        Event::ContractSendChannelWithdraw(inner) => Ok(
            ContractSendEvent::ContractSendChannelWithdraw(inner),
        ),
        Event::ContractSendChannelSettle(inner) => Ok(
            ContractSendEvent::ContractSendChannelSettle(inner),
        ),
        Event::ContractSendChannelUpdateTransfer(inner) => Ok(
            ContractSendEvent::ContractSendChannelUpdateTransfer(inner),
        ),
        Event::ContractSendChannelBatchUnlock(inner) => Ok(
            ContractSendEvent::ContractSendChannelBatchUnlock(inner),
        ),
        Event::ContractSendSecretReveal(inner) => Ok(
            ContractSendEvent::ContractSendSecretReveal(inner),
        ),
        _ => Err(()),
    }
}

impl ContractSendEvent {
    /// The on-chain transaction that `event` asks for; other events are
    /// refused.
    pub fn try_from(event: Event) -> (r: Result<ContractSendEvent, ()>)
        ensures
            r == spec_contract_send_event(&event),
    {
        ContractSendEvent::of_event(&event)
    }

    /// The on-chain transaction that `event` asks for, read through a
    /// reference.
    pub fn of_event(event: &Event) -> (r: Result<ContractSendEvent, ()>)
        ensures
            r == spec_contract_send_event(event),
    {
        match event {
            Event::ContractSendChannelClose(inner) => Ok(
                ContractSendEvent::ContractSendChannelClose(*inner),
            ),
            Event::ContractSendChannelWithdraw(inner) => Ok(
                ContractSendEvent::ContractSendChannelWithdraw(*inner),
            ),
            Event::ContractSendChannelSettle(inner) => Ok(
                ContractSendEvent::ContractSendChannelSettle(*inner),
            ),
            Event::ContractSendChannelUpdateTransfer(inner) => Ok(
                ContractSendEvent::ContractSendChannelUpdateTransfer(*inner),
            ),
            Event::ContractSendChannelBatchUnlock(inner) => Ok(
                ContractSendEvent::ContractSendChannelBatchUnlock(*inner),
            ),
            Event::ContractSendSecretReveal(inner) => Ok(
                ContractSendEvent::ContractSendSecretReveal(*inner),
            ),
            _ => Err(()),
        }
    }
}

} // verus!
