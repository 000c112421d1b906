//! The inputs of the state machine: blocks, user actions, contract events
//! and received messages.
use vstd::prelude::*;

use crate::primitives::{Address, Signature, H256, U256};
use crate::types::event::SendSecretReveal;
use crate::types::state::{
    AddressMetadata, BalanceProofState, BlockExpiration, BlockHash, BlockNumber,
    CanonicalIdentifier, ChainID, ChannelState, HopState, LockedAmount, LockedTransferState,
    Locksroot, MediationFeeConfig, MessageIdentifier, Nonce, PaymentIdentifier, RevealTimeout,
    RouteState, Secret, SecretHash, TokenAmount, TokenNetworkRegistryAddress,
    TokenNetworkRegistryState, TokenNetworkState, TransactionChannelDeposit,
    TransferDescriptionWithSecretState,
};

verus! {

/// A new block was mined.
#[derive(Clone, Copy, Debug)]
pub struct Block {
    pub block_number: BlockNumber,
    pub block_hash: BlockHash,
    pub gas_limit: U256,
}

pub struct ActionChannelSetRevealTimeout {
    pub canonical_identifier: CanonicalIdentifier,
    pub reveal_timeout: RevealTimeout,
}

pub struct ActionChannelWithdraw {
    pub canonical_identifier: CanonicalIdentifier,
    pub total_withdraw: TokenAmount,
    pub recipient_metadata: Option<AddressMetadata>,
}

pub struct ActionChannelCoopSettle {
    pub canonical_identifier: CanonicalIdentifier,
    pub recipient_metadata: Option<AddressMetadata>,
}

pub struct ActionChannelClose {
    pub canonical_identifier: CanonicalIdentifier,
}

pub struct ContractReceiveChannelOpened {
    pub transaction_hash: Option<H256>,
    pub block_number: BlockNumber,
    pub block_hash: BlockHash,
    pub channel_state: ChannelState,
}

#[derive(Clone, Copy, Debug)]
pub struct ContractReceiveChannelClosed {
    pub transaction_hash: Option<H256>,
    pub block_number: BlockNumber,
    pub block_hash: BlockHash,
    pub transaction_from: Address,
    pub canonical_identifier: CanonicalIdentifier,
}

#[derive(Clone, Copy, Debug)]
pub struct ContractReceiveChannelSettled {
    pub transaction_hash: Option<H256>,
    pub block_number: BlockNumber,
    pub block_hash: BlockHash,
    pub canonical_identifier: CanonicalIdentifier,
    pub our_onchain_locksroot: Locksroot,
    pub partner_onchain_locksroot: Locksroot,
    pub our_transferred_amount: TokenAmount,
    pub partner_transferred_amount: TokenAmount,
}

pub struct ContractReceiveChannelDeposit {
    pub transaction_hash: Option<H256>,
    pub block_number: BlockNumber,
    pub block_hash: BlockHash,
    pub canonical_identifier: CanonicalIdentifier,
    pub deposit_transaction: TransactionChannelDeposit,
    pub fee_config: MediationFeeConfig,
}

pub struct ContractReceiveChannelWithdraw {
    pub transaction_hash: Option<H256>,
    pub block_number: BlockNumber,
    pub block_hash: BlockHash,
    pub canonical_identifier: CanonicalIdentifier,
    pub participant: Address,
    pub total_withdraw: TokenAmount,
    pub fee_config: MediationFeeConfig,
}

#[derive(Clone, Copy, Debug)]
pub struct ContractReceiveChannelBatchUnlock {
    pub transaction_hash: Option<H256>,
    pub block_number: BlockNumber,
    pub block_hash: BlockHash,
    pub canonical_identifier: CanonicalIdentifier,
    pub receiver: Address,
    pub sender: Address,
    pub locksroot: Locksroot,
    pub unlocked_amount: LockedAmount,
    pub returned_tokens: TokenAmount,
}

#[derive(Clone, Copy, Debug)]
pub struct ContractReceiveUpdateTransfer {
    pub transaction_hash: Option<H256>,
    pub block_number: BlockNumber,
    pub block_hash: BlockHash,
    pub canonical_identifier: CanonicalIdentifier,
    pub nonce: Nonce,
}

pub struct ReceiveLockExpired {
    pub sender: Address,
    pub secrethash: SecretHash,
    pub message_identifier: MessageIdentifier,
    pub balance_proof: BalanceProofState,
}

pub struct ReceiveTransferRefund {
    pub transfer: LockedTransferState,
    pub balance_proof: BalanceProofState,
}

pub struct ReceiveUnlock {
    pub sender: Address,
    pub message_identifier: MessageIdentifier,
    pub secret: Secret,
    pub secrethash: SecretHash,
    pub balance_proof: BalanceProofState,
}

pub struct ReceiveWithdrawRequest {
    pub sender: Address,
    pub message_identifier: MessageIdentifier,
    pub canonical_identifier: CanonicalIdentifier,
    pub total_withdraw: TokenAmount,
    pub nonce: Nonce,
    pub expiration: BlockExpiration,
    pub signature: Signature,
    pub participant: Address,
    pub coop_settle: bool,
    pub sender_metadata: Option<AddressMetadata>,
}

pub struct ReceiveWithdrawConfirmation {
    pub sender: Address,
    pub message_identifier: MessageIdentifier,
    pub canonical_identifier: CanonicalIdentifier,
    pub total_withdraw: TokenAmount,
    pub nonce: Nonce,
    pub expiration: BlockExpiration,
    pub signature: Signature,
    pub participant: Address,
}

pub struct ReceiveWithdrawExpired {
    pub sender: Address,
    pub message_identifier: MessageIdentifier,
    pub canonical_identifier: CanonicalIdentifier,
    pub total_withdraw: TokenAmount,
    pub nonce: Nonce,
    pub expiration: BlockExpiration,
    pub participant: Address,
}

pub struct ReceiveDelivered {
    pub sender: Address,
    pub message_identifier: MessageIdentifier,
}

pub struct ReceiveProcessed {
    pub sender: Address,
    pub message_identifier: MessageIdentifier,
}

/// The node starts following a chain.
pub struct ActionInitChain {
    pub chain_id: ChainID,
    pub block_number: BlockNumber,
    pub block_hash: BlockHash,
    pub our_address: Address,
}

/// We start a payment over the given routes.
pub struct ActionInitInitiator {
    pub transfer: TransferDescriptionWithSecretState,
    pub routes: Vec<RouteState>,
}

/// We received a transfer to mediate.
pub struct ActionInitMediator {
    pub sender: Address,
    pub balance_proof: BalanceProofState,
    pub from_hop: HopState,
    pub candidate_route_states: Vec<RouteState>,
    pub from_transfer: LockedTransferState,
}

/// We received a transfer of which we are the target.
pub struct ActionInitTarget {
    pub sender: Address,
    pub balance_proof: BalanceProofState,
    pub from_hop: HopState,
    pub transfer: LockedTransferState,
    pub received_valid_secret: bool,
}

/// A payment is to go another way, under a new secret.
pub struct ActionTransferReroute {
    pub transfer: LockedTransferState,
    pub secret: Secret,
    pub secrethash: SecretHash,
}

/// The user cancels a payment.
pub struct ActionCancelPayment {
    pub payment_identifier: PaymentIdentifier,
}

/// A token network registry was found on chain.
pub struct ContractReceiveTokenNetworkRegistry {
    pub transaction_hash: Option<H256>,
    pub token_network_registry: TokenNetworkRegistryState,
    pub block_number: BlockNumber,
    pub block_hash: BlockHash,
}

/// A registry created a token network.
pub struct ContractReceiveTokenNetworkCreated {
    pub transaction_hash: Option<H256>,
    pub token_network_registry_address: TokenNetworkRegistryAddress,
    pub token_network: TokenNetworkState,
    pub block_number: BlockNumber,
    pub block_hash: BlockHash,
}

/// A secret was registered on chain.
#[derive(Clone, Copy, Debug)]
pub struct ContractReceiveSecretReveal {
    pub transaction_hash: Option<H256>,
    pub block_number: BlockNumber,
    pub block_hash: BlockHash,
    pub secret_registry_address: Address,
    pub secrethash: SecretHash,
    pub secret: Secret,
}

/// A channel between two other participants was opened.
pub struct ContractReceiveRouteNew {
    pub transaction_hash: Option<H256>,
    pub block_number: BlockNumber,
    pub block_hash: BlockHash,
    pub canonical_identifier: CanonicalIdentifier,
    pub participant1: Address,
    pub participant2: Address,
}

/// The partner cancels the route of a transfer.
pub struct ReceiveTransferCancelRoute {
    pub transfer: LockedTransferState,
}

/// The target asks for the secret of a payment.
pub struct ReceiveSecretRequest {
    pub sender: Address,
    pub payment_identifier: PaymentIdentifier,
    pub amount: TokenAmount,
    pub expiration: BlockExpiration,
    pub secrethash: SecretHash,
    pub revealsecret: Option<SendSecretReveal>,
}

/// A node revealed the secret of a payment.
pub struct ReceiveSecretReveal {
    pub sender: Address,
    pub secret: Secret,
    pub secrethash: SecretHash,
}

/// A service announced its address and until when it is valid.
pub struct UpdateServicesAddresses {
    pub service: Address,
    pub valid_till: U256,
}

/// Everything that can change the state of a node.
pub enum StateChange {
    Block(Block),
    ActionInitChain(ActionInitChain),
    ActionInitInitiator(ActionInitInitiator),
    ActionInitMediator(ActionInitMediator),
    ActionInitTarget(ActionInitTarget),
    ActionChannelClose(ActionChannelClose),
    ActionChannelCoopSettle(ActionChannelCoopSettle),
    ActionChannelSetRevealTimeout(ActionChannelSetRevealTimeout),
    ActionChannelWithdraw(ActionChannelWithdraw),
    ActionTransferReroute(ActionTransferReroute),
    ActionCancelPayment(ActionCancelPayment),
    ContractReceiveTokenNetworkRegistry(ContractReceiveTokenNetworkRegistry),
    ContractReceiveTokenNetworkCreated(ContractReceiveTokenNetworkCreated),
    ContractReceiveChannelOpened(ContractReceiveChannelOpened),
    ContractReceiveChannelClosed(ContractReceiveChannelClosed),
    ContractReceiveChannelSettled(ContractReceiveChannelSettled),
    ContractReceiveChannelDeposit(ContractReceiveChannelDeposit),
    ContractReceiveChannelWithdraw(ContractReceiveChannelWithdraw),
    ContractReceiveChannelBatchUnlock(ContractReceiveChannelBatchUnlock),
    ContractReceiveSecretReveal(ContractReceiveSecretReveal),
    ContractReceiveRouteNew(ContractReceiveRouteNew),
    ContractReceiveUpdateTransfer(ContractReceiveUpdateTransfer),
    ReceiveDelivered(ReceiveDelivered),
    ReceiveProcessed(ReceiveProcessed),
    ReceiveTransferCancelRoute(ReceiveTransferCancelRoute),
    ReceiveSecretReveal(ReceiveSecretReveal),
    ReceiveSecretRequest(ReceiveSecretRequest),
    ReceiveTransferRefund(ReceiveTransferRefund),
    ReceiveLockExpired(ReceiveLockExpired),
    ReceiveUnlock(ReceiveUnlock),
    ReceiveWithdrawRequest(ReceiveWithdrawRequest),
    ReceiveWithdrawConfirmation(ReceiveWithdrawConfirmation),
    ReceiveWithdrawExpired(ReceiveWithdrawExpired),
    UpdateServicesAddresses(UpdateServicesAddresses),
}

/// The name of the variant of a state change.
pub open spec fn spec_kind_name(s: &StateChange) -> &'static str {
    match s {
        StateChange::Block(_) => "Block",
        StateChange::ActionInitChain(_) => "ActionInitChain",
        StateChange::ActionInitInitiator(_) => "ActionInitInitiator",
        StateChange::ActionInitMediator(_) => "ActionInitMediator",
        StateChange::ActionInitTarget(_) => "ActionInitTarget",
        StateChange::ActionChannelClose(_) => "ActionChannelClose",
        StateChange::ActionChannelCoopSettle(_) => "ActionChannelCoopSettle",
        StateChange::ActionChannelSetRevealTimeout(_) => "ActionChannelSetRevealTimeout",
        StateChange::ActionChannelWithdraw(_) => "ActionChannelWithdraw",
        StateChange::ActionTransferReroute(_) => "ActionTransferReroute",
        StateChange::ActionCancelPayment(_) => "ActionCancelPayment",
        StateChange::ContractReceiveTokenNetworkRegistry(_) => "ContractReceiveTokenNetworkRegistry",
        StateChange::ContractReceiveTokenNetworkCreated(_) => "ContractReceiveTokenNetworkCreated",
        StateChange::ContractReceiveChannelOpened(_) => "ContractReceiveChannelOpened",
        StateChange::ContractReceiveChannelClosed(_) => "ContractReceiveChannelClosed",
        StateChange::ContractReceiveChannelSettled(_) => "ContractReceiveChannelSettled",
        StateChange::ContractReceiveChannelDeposit(_) => "ContractReceiveChannelDeposit",
        StateChange::ContractReceiveChannelWithdraw(_) => "ContractReceiveChannelWithdraw",
        StateChange::ContractReceiveChannelBatchUnlock(_) => "ContractReceiveChannelBatchUnlock",
        StateChange::ContractReceiveSecretReveal(_) => "ContractReceiveSecretReveal",
        StateChange::ContractReceiveRouteNew(_) => "ContractReceiveRouteNew",
        StateChange::ContractReceiveUpdateTransfer(_) => "ContractReceiveUpdateTransfer",
        StateChange::ReceiveDelivered(_) => "ReceiveDelivered",
        StateChange::ReceiveProcessed(_) => "ReceiveProcessed",
        StateChange::ReceiveTransferCancelRoute(_) => "ReceiveTransferCancelRoute",
        StateChange::ReceiveSecretReveal(_) => "ReceiveSecretReveal",
        StateChange::ReceiveSecretRequest(_) => "ReceiveSecretRequest",
        StateChange::ReceiveTransferRefund(_) => "ReceiveTransferRefund",
        StateChange::ReceiveLockExpired(_) => "ReceiveLockExpired",
        StateChange::ReceiveUnlock(_) => "ReceiveUnlock",
        StateChange::ReceiveWithdrawRequest(_) => "ReceiveWithdrawRequest",
        StateChange::ReceiveWithdrawConfirmation(_) => "ReceiveWithdrawConfirmation",
        StateChange::ReceiveWithdrawExpired(_) => "ReceiveWithdrawExpired",
        StateChange::UpdateServicesAddresses(_) => "UpdateServicesAddresses",
    }
}

impl StateChange {
    /// Returns a string of the inner state change's type name; state changes
    /// of distinct kinds have distinct names (`law_state_change_names_distinct`).
    pub fn kind_name(&self) -> (r: &'static str)
        ensures
            r == spec_kind_name(self),
    {
        match self {
            StateChange::Block(_) => "Block",
            StateChange::ActionInitChain(_) => "ActionInitChain",
            StateChange::ActionInitInitiator(_) => "ActionInitInitiator",
            StateChange::ActionInitMediator(_) => "ActionInitMediator",
            StateChange::ActionInitTarget(_) => "ActionInitTarget",
            StateChange::ActionChannelClose(_) => "ActionChannelClose",
            StateChange::ActionChannelCoopSettle(_) => "ActionChannelCoopSettle",
            StateChange::ActionChannelSetRevealTimeout(_) => "ActionChannelSetRevealTimeout",
            StateChange::ActionChannelWithdraw(_) => "ActionChannelWithdraw",
            StateChange::ActionTransferReroute(_) => "ActionTransferReroute",
            StateChange::ActionCancelPayment(_) => "ActionCancelPayment",
            StateChange::ContractReceiveTokenNetworkRegistry(_) => "ContractReceiveTokenNetworkRegistry",
            StateChange::ContractReceiveTokenNetworkCreated(_) => "ContractReceiveTokenNetworkCreated",
            StateChange::ContractReceiveChannelOpened(_) => "ContractReceiveChannelOpened",
            StateChange::ContractReceiveChannelClosed(_) => "ContractReceiveChannelClosed",
            StateChange::ContractReceiveChannelSettled(_) => "ContractReceiveChannelSettled",
            StateChange::ContractReceiveChannelDeposit(_) => "ContractReceiveChannelDeposit",
            StateChange::ContractReceiveChannelWithdraw(_) => "ContractReceiveChannelWithdraw",
            StateChange::ContractReceiveChannelBatchUnlock(_) => "ContractReceiveChannelBatchUnlock",
            StateChange::ContractReceiveSecretReveal(_) => "ContractReceiveSecretReveal",
            StateChange::ContractReceiveRouteNew(_) => "ContractReceiveRouteNew",
            StateChange::ContractReceiveUpdateTransfer(_) => "ContractReceiveUpdateTransfer",
            StateChange::ReceiveDelivered(_) => "ReceiveDelivered",
            StateChange::ReceiveProcessed(_) => "ReceiveProcessed",
            StateChange::ReceiveTransferCancelRoute(_) => "ReceiveTransferCancelRoute",
            StateChange::ReceiveSecretReveal(_) => "ReceiveSecretReveal",
            StateChange::ReceiveSecretRequest(_) => "ReceiveSecretRequest",
            StateChange::ReceiveTransferRefund(_) => "ReceiveTransferRefund",
            StateChange::ReceiveLockExpired(_) => "ReceiveLockExpired",
            StateChange::ReceiveUnlock(_) => "ReceiveUnlock",
            StateChange::ReceiveWithdrawRequest(_) => "ReceiveWithdrawRequest",
            StateChange::ReceiveWithdrawConfirmation(_) => "ReceiveWithdrawConfirmation",
            StateChange::ReceiveWithdrawExpired(_) => "ReceiveWithdrawExpired",
            StateChange::UpdateServicesAddresses(_) => "UpdateServicesAddresses",
        }
    }
}

/// The position of the variant of a state change among the variants.
pub open spec fn spec_state_change_kind(e: &StateChange) -> int {
    match e {
        StateChange::Block(_) => 0,
        StateChange::ActionInitChain(_) => 1,
        StateChange::ActionInitInitiator(_) => 2,
        StateChange::ActionInitMediator(_) => 3,
        StateChange::ActionInitTarget(_) => 4,
        StateChange::ActionChannelClose(_) => 5,
        StateChange::ActionChannelCoopSettle(_) => 6,
        StateChange::ActionChannelSetRevealTimeout(_) => 7,
        StateChange::ActionChannelWithdraw(_) => 8,
        StateChange::ActionTransferReroute(_) => 9,
        StateChange::ActionCancelPayment(_) => 10,
        StateChange::ContractReceiveTokenNetworkRegistry(_) => 11,
        StateChange::ContractReceiveTokenNetworkCreated(_) => 12,
        StateChange::ContractReceiveChannelOpened(_) => 13,
        StateChange::ContractReceiveChannelClosed(_) => 14,
        StateChange::ContractReceiveChannelSettled(_) => 15,
        StateChange::ContractReceiveChannelDeposit(_) => 16,
        StateChange::ContractReceiveChannelWithdraw(_) => 17,
        StateChange::ContractReceiveChannelBatchUnlock(_) => 18,
        StateChange::ContractReceiveSecretReveal(_) => 19,
        StateChange::ContractReceiveRouteNew(_) => 20,
        StateChange::ContractReceiveUpdateTransfer(_) => 21,
        StateChange::ReceiveDelivered(_) => 22,
        StateChange::ReceiveProcessed(_) => 23,
        StateChange::ReceiveTransferCancelRoute(_) => 24,
        StateChange::ReceiveSecretReveal(_) => 25,
        StateChange::ReceiveSecretRequest(_) => 26,
        StateChange::ReceiveTransferRefund(_) => 27,
        StateChange::ReceiveLockExpired(_) => 28,
        StateChange::ReceiveUnlock(_) => 29,
        StateChange::ReceiveWithdrawRequest(_) => 30,
        StateChange::ReceiveWithdrawConfirmation(_) => 31,
        StateChange::ReceiveWithdrawExpired(_) => 32,
        StateChange::UpdateServicesAddresses(_) => 33,
    }
}

/// The variant position that a name of a state change tells, read from its length
/// and, among names of one length, a character that sets them apart.
pub open spec fn spec_state_change_name_code(s: Seq<char>) -> int {
    if s.len() == 5 {
        0
    } else if s.len() == 15 {
        1
    } else if s.len() == 19 && s[6] == 'I' {
        2
    } else if s.len() == 18 && s[6] == 'I' {
        3
    } else if s.len() == 16 && s[7] == 'n' {
        4
    } else if s.len() == 18 && s[6] == 'C' {
        5
    } else if s.len() == 23 && s[0] == 'A' {
        6
    } else if s.len() == 29 && s[22] == 'T' {
        7
    } else if s.len() == 21 && s[6] == 'C' {
        8
    } else if s.len() == 21 && s[6] == 'T' {
        9
    } else if s.len() == 19 && s[6] == 'C' {
        10
    } else if s.len() == 35 {
        11
    } else if s.len() == 34 {
        12
    } else if s.len() == 28 && s[22] == 'O' {
        13
    } else if s.len() == 28 && s[22] == 'C' {
        14
    } else if s.len() == 29 && s[22] == 'S' {
        15
    } else if s.len() == 29 && s[22] == 'D' {
        16
    } else if s.len() == 30 {
        17
    } else if s.len() == 33 {
        18
    } else if s.len() == 27 && s[0] == 'C' {
        19
    } else if s.len() == 23 && s[0] == 'C' {
        20
    } else if s.len() == 29 && s[22] == 'r' {
        21
    } else if s.len() == 16 && s[7] == 'D' {
        22
    } else if s.len() == 16 && s[7] == 'P' {
        23
    } else if s.len() == 26 {
        24
    } else if s.len() == 19 && s[6] == 'e' {
        25
    } else if s.len() == 20 {
        26
    } else if s.len() == 21 && s[6] == 'e' {
        27
    } else if s.len() == 18 && s[6] == 'e' {
        28
    } else if s.len() == 13 {
        29
    } else if s.len() == 22 && s[15] == 'R' {
        30
    } else if s.len() == 27 && s[0] == 'R' {
        31
    } else if s.len() == 22 && s[15] == 'E' {
        32
    } else if s.len() == 23 && s[0] == 'U' {
        33
    } else {
        -1
    }
}

/// The name of a state change tells its variant.
pub proof fn lemma_state_change_name_code(e: &StateChange)
    ensures
        spec_state_change_name_code(spec_kind_name(e)@) == spec_state_change_kind(e),
{
    match e {
        StateChange::Block(_) => {
            reveal_strlit("Block");
            assert("Block"@.len() == 5);
        },
        StateChange::ActionInitChain(_) => {
            reveal_strlit("ActionInitChain");
            assert("ActionInitChain"@.len() == 15);
        },
        StateChange::ActionInitInitiator(_) => {
            reveal_strlit("ActionInitInitiator");
            assert("ActionInitInitiator"@.len() == 19);
            assert("ActionInitInitiator"@[6] == 'I');
        },
        StateChange::ActionInitMediator(_) => {
            reveal_strlit("ActionInitMediator");
            assert("ActionInitMediator"@.len() == 18);
            assert("ActionInitMediator"@[6] == 'I');
        },
        StateChange::ActionInitTarget(_) => {
            reveal_strlit("ActionInitTarget");
            assert("ActionInitTarget"@.len() == 16);
            assert("ActionInitTarget"@[7] == 'n');
        },
        StateChange::ActionChannelClose(_) => {
            reveal_strlit("ActionChannelClose");
            assert("ActionChannelClose"@.len() == 18);
            assert("ActionChannelClose"@[6] == 'C');
        },
        StateChange::ActionChannelCoopSettle(_) => {
            reveal_strlit("ActionChannelCoopSettle");
            assert("ActionChannelCoopSettle"@.len() == 23);
            assert("ActionChannelCoopSettle"@[0] == 'A');
        },
        StateChange::ActionChannelSetRevealTimeout(_) => {
            reveal_strlit("ActionChannelSetRevealTimeout");
            assert("ActionChannelSetRevealTimeout"@.len() == 29);
            assert("ActionChannelSetRevealTimeout"@[22] == 'T');
        },
        StateChange::ActionChannelWithdraw(_) => {
            reveal_strlit("ActionChannelWithdraw");
            assert("ActionChannelWithdraw"@.len() == 21);
            assert("ActionChannelWithdraw"@[6] == 'C');
        },
        StateChange::ActionTransferReroute(_) => {
            reveal_strlit("ActionTransferReroute");
            assert("ActionTransferReroute"@.len() == 21);
            assert("ActionTransferReroute"@[6] == 'T');
        },
        StateChange::ActionCancelPayment(_) => {
            reveal_strlit("ActionCancelPayment");
            assert("ActionCancelPayment"@.len() == 19);
            assert("ActionCancelPayment"@[6] == 'C');
        },
        StateChange::ContractReceiveTokenNetworkRegistry(_) => {
            reveal_strlit("ContractReceiveTokenNetworkRegistry");
            assert("ContractReceiveTokenNetworkRegistry"@.len() == 35);
        },
        StateChange::ContractReceiveTokenNetworkCreated(_) => {
            reveal_strlit("ContractReceiveTokenNetworkCreated");
            assert("ContractReceiveTokenNetworkCreated"@.len() == 34);
        },
        StateChange::ContractReceiveChannelOpened(_) => {
            reveal_strlit("ContractReceiveChannelOpened");
            assert("ContractReceiveChannelOpened"@.len() == 28);
            assert("ContractReceiveChannelOpened"@[22] == 'O');
        },
        StateChange::ContractReceiveChannelClosed(_) => {
            reveal_strlit("ContractReceiveChannelClosed");
            assert("ContractReceiveChannelClosed"@.len() == 28);
            assert("ContractReceiveChannelClosed"@[22] == 'C');
        },
        StateChange::ContractReceiveChannelSettled(_) => {
            reveal_strlit("ContractReceiveChannelSettled");
            assert("ContractReceiveChannelSettled"@.len() == 29);
            assert("ContractReceiveChannelSettled"@[22] == 'S');
        },
        StateChange::ContractReceiveChannelDeposit(_) => {
            reveal_strlit("ContractReceiveChannelDeposit");
            assert("ContractReceiveChannelDeposit"@.len() == 29);
            assert("ContractReceiveChannelDeposit"@[22] == 'D');
        },
        StateChange::ContractReceiveChannelWithdraw(_) => {
            reveal_strlit("ContractReceiveChannelWithdraw");
            assert("ContractReceiveChannelWithdraw"@.len() == 30);
        },
        StateChange::ContractReceiveChannelBatchUnlock(_) => {
            reveal_strlit("ContractReceiveChannelBatchUnlock");
            assert("ContractReceiveChannelBatchUnlock"@.len() == 33);
        },
        StateChange::ContractReceiveSecretReveal(_) => {
            reveal_strlit("ContractReceiveSecretReveal");
            assert("ContractReceiveSecretReveal"@.len() == 27);
            assert("ContractReceiveSecretReveal"@[0] == 'C');
        },
        StateChange::ContractReceiveRouteNew(_) => {
            reveal_strlit("ContractReceiveRouteNew");
            assert("ContractReceiveRouteNew"@.len() == 23);
            assert("ContractReceiveRouteNew"@[0] == 'C');
        },
        StateChange::ContractReceiveUpdateTransfer(_) => {
            reveal_strlit("ContractReceiveUpdateTransfer");
            assert("ContractReceiveUpdateTransfer"@.len() == 29);
            assert("ContractReceiveUpdateTransfer"@[22] == 'r');
        },
        StateChange::ReceiveDelivered(_) => {
            reveal_strlit("ReceiveDelivered");
            assert("ReceiveDelivered"@.len() == 16);
            assert("ReceiveDelivered"@[7] == 'D');
        },
        StateChange::ReceiveProcessed(_) => {
            reveal_strlit("ReceiveProcessed");
            assert("ReceiveProcessed"@.len() == 16);
            assert("ReceiveProcessed"@[7] == 'P');
        },
        StateChange::ReceiveTransferCancelRoute(_) => {
            reveal_strlit("ReceiveTransferCancelRoute");
            assert("ReceiveTransferCancelRoute"@.len() == 26);
        },
        StateChange::ReceiveSecretReveal(_) => {
            reveal_strlit("ReceiveSecretReveal");
            assert("ReceiveSecretReveal"@.len() == 19);
            assert("ReceiveSecretReveal"@[6] == 'e');
        },
        StateChange::ReceiveSecretRequest(_) => {
            reveal_strlit("ReceiveSecretRequest");
            assert("ReceiveSecretRequest"@.len() == 20);
        },
        StateChange::ReceiveTransferRefund(_) => {
            reveal_strlit("ReceiveTransferRefund");
            assert("ReceiveTransferRefund"@.len() == 21);
            assert("ReceiveTransferRefund"@[6] == 'e');
        },
        StateChange::ReceiveLockExpired(_) => {
            reveal_strlit("ReceiveLockExpired");
            assert("ReceiveLockExpired"@.len() == 18);
            assert("ReceiveLockExpired"@[6] == 'e');
        },
        StateChange::ReceiveUnlock(_) => {
            reveal_strlit("ReceiveUnlock");
            assert("ReceiveUnlock"@.len() == 13);
        },
        StateChange::ReceiveWithdrawRequest(_) => {
            reveal_strlit("ReceiveWithdrawRequest");
            assert("ReceiveWithdrawRequest"@.len() == 22);
            assert("ReceiveWithdrawRequest"@[15] == 'R');
        },
        StateChange::ReceiveWithdrawConfirmation(_) => {
            reveal_strlit("ReceiveWithdrawConfirmation");
            assert("ReceiveWithdrawConfirmation"@.len() == 27);
            assert("ReceiveWithdrawConfirmation"@[0] == 'R');
        },
        StateChange::ReceiveWithdrawExpired(_) => {
            reveal_strlit("ReceiveWithdrawExpired");
            assert("ReceiveWithdrawExpired"@.len() == 22);
            assert("ReceiveWithdrawExpired"@[15] == 'E');
        },
        StateChange::UpdateServicesAddresses(_) => {
            reveal_strlit("UpdateServicesAddresses");
            assert("UpdateServicesAddresses"@.len() == 23);
            assert("UpdateServicesAddresses"@[0] == 'U');
        },
    }
}

} // verus!
