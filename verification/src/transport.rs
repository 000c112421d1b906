//! Identifiers that the transport layer attaches to messages.
use vstd::prelude::*;

verus! {

/// The environment a node runs in.
#[derive(Clone, Copy, Debug, PartialEq, Eq, Structural)]
pub enum EnvironmentType {
    Production,
    Development,
}

/// The kind of a chat message.
#[derive(Clone, Copy, Debug, PartialEq, Eq, Structural)]
pub enum MessageType {
    Text,
    Notice,
}

/// The failure of the message handler.
#[derive(Clone, Copy, Debug, PartialEq, Eq, Structural)]
pub struct MessageError {}

/// Handles the messages that the transport receives.
pub struct MessageHandler {}

impl MessageHandler {
    /// Accepts every message.
    pub fn handle(&self, message: String) -> (r: Result<(), MessageError>)
        ensures
            r.is_ok(),
    {
        Ok(())
    }
}

/// The type of a signed message, the first field of the data it signs.
#[derive(Clone, Copy, Debug, PartialEq, Eq, Structural)]
pub enum MessageTypeId {
    BalanceProof,
    BalanceProofUpdate,
    Withdraw,
    CooperativeSettle,
    IOU,
    MSReward,
}

/// The number of each message type.
pub open spec fn spec_message_type_number(t: MessageTypeId) -> u8 {
    match t {
        MessageTypeId::BalanceProof => 1,
        MessageTypeId::BalanceProofUpdate => 2,
        MessageTypeId::Withdraw => 3,
        MessageTypeId::CooperativeSettle => 4,
        MessageTypeId::IOU => 5,
        MessageTypeId::MSReward => 6,
    }
}

/// The name of each message type.
pub open spec fn spec_message_type_name(t: MessageTypeId) -> &'static str {
    match t {
        MessageTypeId::BalanceProof => "BalanceProof",
        MessageTypeId::BalanceProofUpdate => "BalanceProofUpdate",
        MessageTypeId::Withdraw => "Withdraw",
        MessageTypeId::CooperativeSettle => "CooperativeSettle",
        MessageTypeId::IOU => "IOU",
        MessageTypeId::MSReward => "MSReward",
    }
}

impl MessageTypeId {
    /// The number of the message type.
    pub fn value(&self) -> (r: u8)
        ensures
            r == spec_message_type_number(*self),
    {
        match self {
            MessageTypeId::BalanceProof => 1,
            MessageTypeId::BalanceProofUpdate => 2,
            MessageTypeId::Withdraw => 3,
            MessageTypeId::CooperativeSettle => 4,
            MessageTypeId::IOU => 5,
            MessageTypeId::MSReward => 6,
        }
    }

    /// The number of the message type as a single big-endian byte.
    pub fn to_bytes(&self) -> (r: [u8; 1])
        ensures
            r@ == seq![spec_message_type_number(*self)],
    {
        let r = [self.value()];
        assert(r@ =~= seq![spec_message_type_number(*self)]);
        r
    }

    /// The name of the message type.
    pub fn name(&self) -> (r: &'static str)
        ensures
            r == spec_message_type_name(*self),
    {
        match self {
            MessageTypeId::BalanceProof => "BalanceProof",
            MessageTypeId::BalanceProofUpdate => "BalanceProofUpdate",
            MessageTypeId::Withdraw => "Withdraw",
            MessageTypeId::CooperativeSettle => "CooperativeSettle",
            MessageTypeId::IOU => "IOU",
            MessageTypeId::MSReward => "MSReward",
        }
    }
}

} // verus!
