//! The state of channels, their two ends, locks and withdraws.
use vstd::prelude::*;

use crate::map::LinearMap;
use crate::primitives::{Address, Signature, H256, U256};

verus! {

pub type TokenAmount = U256;

pub type LockedAmount = U256;

pub type FeeAmount = U256;

pub type Nonce = U256;

pub type ChannelIdentifier = U256;

pub type BlockNumber = u64;

pub type BlockExpiration = u64;

pub type BlockTimeout = u64;

pub type RevealTimeout = u64;

pub type SettleTimeout = u64;

pub type MessageIdentifier = u64;

pub type PaymentIdentifier = u64;

pub type ChainID = u64;

pub type SecretHash = H256;

pub type Secret = H256;

pub type Locksroot = H256;

pub type BalanceHash = H256;

pub type BlockHash = H256;

pub type MessageHash = H256;

pub type TokenAddress = Address;

pub type TokenNetworkAddress = Address;

pub type TokenNetworkRegistryAddress = Address;

/// The identity of a channel: chain, token network and channel number.
#[derive(Clone, Copy, Debug)]
pub struct CanonicalIdentifier {
    pub chain_identifier: ChainID,
    pub token_network_address: TokenNetworkAddress,
    pub channel_identifier: ChannelIdentifier,
}

impl CanonicalIdentifier {
    pub fn equals(&self, other: &CanonicalIdentifier) -> (r: bool)
        ensures
            r == (*self == *other),
    {
        self.chain_identifier == other.chain_identifier
            && self.token_network_address.equals(&other.token_network_address)
            && self.channel_identifier.equals(&other.channel_identifier)
    }
}

/// Where a node can be reached on the transport.
#[derive(Debug)]
pub struct AddressMetadata {
    pub user_id: String,
    pub displayname: String,
    pub capabilities: String,
}

impl Clone for AddressMetadata {
    fn clone(&self) -> (r: Self)
        ensures
            r == *self,
    {
        AddressMetadata {
            user_id: self.user_id.clone(),
            displayname: self.displayname.clone(),
            capabilities: self.capabilities.clone(),
        }
    }
}

/// A copy of optional metadata.
pub fn clone_metadata(m: &Option<AddressMetadata>) -> (r: Option<AddressMetadata>)
    ensures
        r == *m,
{
    match m {
        Some(md) => Some(md.clone()),
        None => None,
    }
}

/// Outcome of an on-chain transaction.
#[derive(Clone, Copy, PartialEq, Eq, Structural, Debug)]
pub enum TransactionResult {
    Success,
    Failure,
}

/// A secret that the initiator sent the target encrypted, with the amount
/// and payment it belongs to.
#[derive(Clone, Copy, Debug)]
pub struct DecryptedSecret {
    pub secret: Secret,
    pub amount: TokenAmount,
    pub payment_identifier: PaymentIdentifier,
}

/// Progress of an on-chain transaction.
#[derive(Clone, Copy, Debug)]
pub struct TransactionExecutionStatus {
    pub started_block_number: Option<BlockNumber>,
    pub finished_block_number: Option<BlockNumber>,
    pub result: Option<TransactionResult>,
}

#[derive(Clone, Copy, PartialEq, Eq, Structural, Debug)]
pub enum TransferRole {
    Initiator,
    Mediator,
    Target,
}

#[derive(Clone, Copy, PartialEq, Eq, Structural, Debug)]
pub enum TransferState {
    Pending,
    Expired,
    SecretRevealed,
    Canceled,
}

#[derive(Clone, Copy, PartialEq, Eq, Structural, Debug)]
pub enum PayeeState {
    Pending,
    SecretRevealed,
    ContractUnlock,
    BalanceProof,
    Expired,
}

#[derive(Clone, Copy, PartialEq, Eq, Structural, Debug)]
pub enum PayerState {
    Pending,
    SecretRevealed,
    WaitingUnlock,
    WaitingSecretReveal,
    BalanceProof,
    Expired,
}

#[derive(Clone, Copy, PartialEq, Eq, Structural, Debug)]
pub enum TargetState {
    Expired,
    OffchainSecretReveal,
    OnchainSecretReveal,
    OnchainUnlock,
    SecretRequest,
}

#[derive(Clone, Copy, PartialEq, Eq, Structural, Debug)]
pub enum WaitingTransferStatus {
    Waiting,
    Expired,
}

/// The life-cycle status of a channel.
#[derive(Clone, Copy, PartialEq, Eq, Structural, Debug)]
pub enum ChannelStatus {
    Opened,
    Closing,
    Closed,
    Settling,
    Settled,
    Removed,
    Unusable,
}

/// The graph of a token network; it holds nothing yet.
#[derive(Clone, Copy, Debug)]
pub struct TokenNetworkGraphState {}

/// The 96-byte encoding of a lock: expiration, amount and secret hash, each
/// as a 32-byte word.
#[derive(Clone, Copy, Debug)]
pub struct EncodedLock {
    pub bytes: [u8; 96],
}

impl View for EncodedLock {
    type V = Seq<u8>;

    open spec fn view(&self) -> Seq<u8> {
        self.bytes@
    }
}

impl EncodedLock {
    pub fn equals(&self, other: &EncodedLock) -> (r: bool)
        ensures
            r == (*self == *other),
    {
        let r = crate::primitives::bytes_equal(&self.bytes, &other.bytes);
        proof {
            if r {
                assert(self.bytes =~= other.bytes);
            }
        }
        r
    }
}

/// A hash time lock: `amount` tokens that go to the receiver once the
/// secret of `secrethash` is revealed before `expiration`.
#[derive(Clone, Copy, Debug)]
pub struct HashTimeLockState {
    pub amount: TokenAmount,
    pub expiration: BlockExpiration,
    pub secrethash: SecretHash,
    pub encoded: EncodedLock,
}

/// A lock whose secret is known, kept until the balance proof that claims it.
#[derive(Clone, Copy, Debug)]
pub struct UnlockPartialProofState {
    pub lock: HashTimeLockState,
    pub secret: Secret,
    pub amount: TokenAmount,
    pub expiration: BlockExpiration,
    pub secrethash: SecretHash,
    pub encoded: EncodedLock,
}

/// A balance proof: what one end has sent and locked, signed by its owner.
#[derive(Clone, Copy, Debug)]
pub struct BalanceProofState {
    pub nonce: Nonce,
    pub transferred_amount: TokenAmount,
    pub locked_amount: LockedAmount,
    pub locksroot: Locksroot,
    pub canonical_identifier: CanonicalIdentifier,
    pub balance_hash: BalanceHash,
    pub message_hash: Option<MessageHash>,
    pub signature: Option<Signature>,
    pub sender: Option<Address>,
}

/// The encoded locks that one end has pending, in the order they were added.
#[derive(Debug)]
pub struct PendingLocksState {
    pub locks: Vec<EncodedLock>,
}

/// A withdraw that was requested and not yet confirmed on chain.
#[derive(Debug)]
pub struct PendingWithdrawState {
    pub total_withdraw: TokenAmount,
    pub expiration: BlockExpiration,
    pub nonce: Nonce,
    pub recipient_metadata: Option<AddressMetadata>,
}

impl Clone for PendingWithdrawState {
    fn clone(&self) -> (r: Self)
        ensures
            r == *self,
    {
        PendingWithdrawState {
            total_withdraw: self.total_withdraw,
            expiration: self.expiration,
            nonce: self.nonce,
            recipient_metadata: clone_metadata(&self.recipient_metadata),
        }
    }
}

/// The number of blocks for which a withdraw or lock is kept after it
/// expired, for confirmations.
pub open spec fn spec_default_number_of_block_confirmations() -> u64 {
    5
}

impl PendingWithdrawState {
    /// The block from which the withdraw counts as expired.
    pub open spec fn spec_expiration_threshold(&self) -> nat {
        let t = self.expiration + 2 * spec_default_number_of_block_confirmations();
        if t <= u64::MAX {
            t as nat
        } else {
            u64::MAX as nat
        }
    }

    pub fn expiration_threshold(&self) -> (r: BlockExpiration)
        ensures
            r == self.spec_expiration_threshold(),
    {
        self.expiration.saturating_add(10)
    }

    pub fn has_expired(&self, current_block: BlockNumber) -> (r: bool)
        ensures
            r == (current_block >= self.spec_expiration_threshold()),
    {
        current_block >= self.expiration_threshold()
    }
}

/// A withdraw of ours that expired before it was confirmed.
#[derive(Debug)]
pub struct ExpiredWithdrawState {
    pub total_withdraw: TokenAmount,
    pub expiration: BlockExpiration,
    pub nonce: Nonce,
    pub recipient_metadata: Option<AddressMetadata>,
}

impl Clone for ExpiredWithdrawState {
    fn clone(&self) -> (r: Self)
        ensures
            r == *self,
    {
        ExpiredWithdrawState {
            total_withdraw: self.total_withdraw,
            expiration: self.expiration,
            nonce: self.nonce,
            recipient_metadata: clone_metadata(&self.recipient_metadata),
        }
    }
}

/// A cooperative settlement in progress.
#[derive(Clone, Copy, Debug)]
pub struct CoopSettleState {
    pub total_withdraw_initiator: TokenAmount,
    pub total_withdraw_partner: TokenAmount,
    pub expiration: BlockExpiration,
    pub partner_signature_request: Option<Signature>,
    pub partner_signature_confirmation: Option<Signature>,
    pub transaction: Option<TransactionExecutionStatus>,
}

/// The state of one participant of a channel.
pub struct ChannelEndState {
    pub address: Address,
    pub contract_balance: TokenAmount,
    pub onchain_total_withdraw: TokenAmount,
    pub withdraws_pending: LinearMap<U256, PendingWithdrawState>,
    pub withdraws_expired: Vec<ExpiredWithdrawState>,
    pub initiated_coop_settle: Option<CoopSettleState>,
    pub expired_coop_settles: Vec<CoopSettleState>,
    pub secrethashes_to_lockedlocks: LinearMap<SecretHash, HashTimeLockState>,
    pub secrethashes_to_unlockedlocks: LinearMap<SecretHash, UnlockPartialProofState>,
    pub secrethashes_to_onchain_unlockedlocks: LinearMap<SecretHash, UnlockPartialProofState>,
    pub balance_proof: Option<BalanceProofState>,
    pub pending_locks: PendingLocksState,
    pub onchain_locksroot: Locksroot,
    pub nonce: Nonce,
}

/// The fees a node asks for mediating through a channel.
#[derive(Debug)]
pub struct FeeScheduleState {
    pub cap_fees: bool,
    pub flat: U256,
    pub proportional: U256,
    pub imbalance_penalty: Option<Vec<(U256, U256)>>,
}

/// A payment channel between us and a partner.
pub struct ChannelState {
    pub canonical_identifier: CanonicalIdentifier,
    pub token_address: TokenAddress,
    pub token_network_registry_address: TokenNetworkRegistryAddress,
    pub reveal_timeout: RevealTimeout,
    pub settle_timeout: SettleTimeout,
    pub fee_schedule: FeeScheduleState,
    pub our_state: ChannelEndState,
    pub partner_state: ChannelEndState,
    pub open_transaction: TransactionExecutionStatus,
    pub close_transaction: Option<TransactionExecutionStatus>,
    pub settle_transaction: Option<TransactionExecutionStatus>,
    pub update_transaction: Option<TransactionExecutionStatus>,
}

/// A hop of a route: a node and the channel to it.
#[derive(Clone, Copy, Debug)]
pub struct HopState {
    pub node_address: Address,
    pub channel_identifier: ChannelIdentifier,
}

/// A route that a payment may take.
pub struct RouteState {
    pub route: Vec<Address>,
    pub address_to_metadata: LinearMap<Address, AddressMetadata>,
    pub swaps: LinearMap<Address, Address>,
    pub estimated_fee: TokenAmount,
}

/// A mediated transfer: a lock together with the balance proof that holds it.
pub struct LockedTransferState {
    pub payment_identifier: PaymentIdentifier,
    pub token: Address,
    pub lock: HashTimeLockState,
    pub initiator: Address,
    pub target: Address,
    pub message_identifier: MessageIdentifier,
    pub route_states: Vec<RouteState>,
    pub balance_proof: BalanceProofState,
    pub secret: Option<Secret>,
}

/// A deposit as seen on chain.
#[derive(Clone, Copy, Debug)]
pub struct TransactionChannelDeposit {
    pub participant_address: Address,
    pub contract_balance: TokenAmount,
    pub deposit_block_number: BlockNumber,
}

/// The channels of one token.
pub struct TokenNetworkState {
    pub address: Address,
    pub token_address: TokenAddress,
    pub network_graph: TokenNetworkGraphState,
    pub channelidentifiers_to_channels: LinearMap<U256, ChannelState>,
    pub partneraddresses_to_channelidentifiers: LinearMap<Address, Vec<ChannelIdentifier>>,
}

/// A payment to make: who pays whom how much, with the secret that will
/// unlock it.
pub struct TransferDescriptionWithSecretState {
    pub token_network_registry_address: TokenNetworkRegistryAddress,
    pub payment_identifier: PaymentIdentifier,
    pub amount: TokenAmount,
    pub token_network_address: TokenNetworkAddress,
    pub initiator: Address,
    pub target: Address,
    pub secret: Secret,
    pub secrethash: SecretHash,
    pub lock_timeout: Option<BlockTimeout>,
}

/// A transfer that the initiator of a payment sent over one route.
pub struct InitiatorTransferState {
    pub route: RouteState,
    pub transfer_description: TransferDescriptionWithSecretState,
    pub channel_identifier: ChannelIdentifier,
    pub transfer: LockedTransferState,
    pub received_secret_request: bool,
    pub transfer_state: TransferState,
}

/// The routes and transfers of a payment we initiated.
pub struct InitiatorPaymentState {
    pub routes: Vec<RouteState>,
    pub initiator_transfers: LinearMap<SecretHash, InitiatorTransferState>,
    pub cancelled_channels: Vec<ChannelIdentifier>,
}

/// A payment we initiated.
pub struct InitiatorTask {
    pub role: TransferRole,
    pub token_network_address: TokenNetworkAddress,
    pub manager_state: InitiatorPaymentState,
}

/// A transfer that waits for a route.
pub struct WaitingTransferState {
    pub transfer: LockedTransferState,
    pub status: WaitingTransferStatus,
}

/// A transfer we received and the one we sent on for it.
pub struct MediationPairState {
    pub payer_transfer: LockedTransferState,
    pub payee_address: Address,
    pub payee_transfer: LockedTransferState,
    pub payer_state: PayerState,
    pub payee_state: PayeeState,
}

/// The state of a payment we mediate.
pub struct MediatorTransferState {
    pub secrethash: SecretHash,
    pub routes: Vec<RouteState>,
    pub refunded_channels: Vec<ChannelIdentifier>,
    pub secret: Option<Secret>,
    pub transfers_pair: Vec<MediationPairState>,
    pub waiting_transfer: Option<WaitingTransferState>,
}

/// A payment we mediate.
pub struct MediatorTask {
    pub role: TransferRole,
    pub token_network_address: TokenNetworkAddress,
    pub mediator_state: MediatorTransferState,
}

/// The state of a payment we receive.
pub struct TargetTransferState {
    pub from_hop: HopState,
    pub transfer: LockedTransferState,
    pub secret: Option<Secret>,
    pub state: TargetState,
    pub initiator_address_metadata: Option<AddressMetadata>,
}

/// A payment we receive.
pub struct TargetTask {
    pub role: TransferRole,
    pub token_network_address: TokenNetworkAddress,
    pub target_state: TargetTransferState,
}

/// A payment in which we take part.
pub enum TransferTask {
    Initiator(InitiatorTask),
    Mediator(MediatorTask),
    Target(TargetTask),
}

/// The payments in which we take part, by secret hash.
pub struct PaymentMappingState {
    pub secrethashes_to_task: LinearMap<SecretHash, TransferTask>,
}

/// The token networks that a registry contract created.
pub struct TokenNetworkRegistryState {
    pub address: Address,
    pub tokennetworkaddresses_to_tokennetworks: LinearMap<Address, TokenNetworkState>,
    pub tokenaddresses_to_tokennetworkaddresses: LinearMap<Address, Address>,
}

/// An update for the pathfinding service about a channel.
#[derive(Clone, Copy, Debug)]
pub struct PFSUpdate {
    pub canonical_identifier: CanonicalIdentifier,
    pub update_fee_schedule: bool,
}

/// The state of a node: the chain it follows, its token networks and
/// payments, and the transactions it is waiting for.
pub struct ChainState {
    pub chain_id: ChainID,
    pub block_number: BlockNumber,
    pub block_hash: BlockHash,
    pub our_address: Address,
    pub identifiers_to_tokennetworkregistries: LinearMap<Address, TokenNetworkRegistryState>,
    pub payment_mapping: PaymentMappingState,
    pub pending_transactions: Vec<crate::types::event::ContractSendEvent>,
    pub pseudo_random_number_generator: crate::types::random::Random,
}

} // verus!

verus! {

/// The largest total withdraw among pending withdraws, or zero.
pub open spec fn max_pending_withdraw(s: Seq<(U256, PendingWithdrawState)>) -> nat
    decreases s.len(),
{
    if s.len() == 0 {
        0
    } else {
        let m = max_pending_withdraw(s.drop_last());
        let w = s.last().1.total_withdraw@;
        if w > m {
            w
        } else {
            m
        }
    }
}

/// The sum of the amounts of locked locks.
pub open spec fn sum_lock_amounts(s: Seq<(SecretHash, HashTimeLockState)>) -> nat
    decreases s.len(),
{
    if s.len() == 0 {
        0
    } else {
        sum_lock_amounts(s.drop_last()) + s.last().1.amount@
    }
}

/// The sum of the amounts of the locks inside unlocked locks.
pub open spec fn sum_inner_lock_amounts(s: Seq<(SecretHash, UnlockPartialProofState)>) -> nat
    decreases s.len(),
{
    if s.len() == 0 {
        0
    } else {
        sum_inner_lock_amounts(s.drop_last()) + s.last().1.lock.amount@
    }
}

/// The sum of the `amount` fields of unlocked locks.
pub open spec fn sum_unlock_amounts(s: Seq<(SecretHash, UnlockPartialProofState)>) -> nat
    decreases s.len(),
{
    if s.len() == 0 {
        0
    } else {
        sum_unlock_amounts(s.drop_last()) + s.last().1.amount@
    }
}

impl ChannelEndState {
    pub open spec fn spec_offchain_total_withdraw(&self) -> nat {
        max_pending_withdraw(self.withdraws_pending.entries())
    }

    pub open spec fn spec_total_withdraw(&self) -> nat {
        let off = self.spec_offchain_total_withdraw();
        if off >= self.onchain_total_withdraw@ {
            off
        } else {
            self.onchain_total_withdraw@
        }
    }

    /// The transferred amount of the latest balance proof, or zero.
    pub open spec fn spec_transferred(&self) -> nat {
        match self.balance_proof {
            Some(bp) => bp.transferred_amount@,
            None => 0,
        }
    }

    /// The amount in all locks of this end, pending or unlocked.
    pub open spec fn spec_locked_amount(&self) -> nat {
        sum_lock_amounts(self.secrethashes_to_lockedlocks.entries()) + sum_inner_lock_amounts(
            self.secrethashes_to_unlockedlocks.entries(),
        ) + sum_inner_lock_amounts(self.secrethashes_to_onchain_unlockedlocks.entries())
    }

    /// True when `secrethash` names a lock of this end in any of its states.
    pub open spec fn spec_has_lock(&self, secrethash: SecretHash) -> bool {
        self.secrethashes_to_lockedlocks@.contains_key(secrethash)
            || self.secrethashes_to_unlockedlocks@.contains_key(secrethash)
            || self.secrethashes_to_onchain_unlockedlocks@.contains_key(secrethash)
    }

    /// The largest pending total withdraw, or zero.
    pub fn offchain_total_withdraw(&self) -> (r: TokenAmount)
        ensures
            r@ == self.spec_offchain_total_withdraw(),
    {
        let mut result = U256::zero();
        let mut i: usize = 0;
        let n = self.withdraws_pending.len();
        while i < n
            invariant
                i <= n,
                n == self.withdraws_pending.entries().len(),
                result@ == max_pending_withdraw(
                    self.withdraws_pending.entries().subrange(0, i as int),
                ),
            decreases n - i,
        {
            let (_, w) = self.withdraws_pending.entry_at(i);
            proof {
                let s = self.withdraws_pending.entries();
                assert(s.subrange(0, i + 1).drop_last() =~= s.subrange(0, i as int));
            }
            result = result.max(w.total_withdraw);
            i = i + 1;
        }
        assert(self.withdraws_pending.entries().subrange(0, n as int)
            =~= self.withdraws_pending.entries());
        result
    }

    /// The total withdraw: the larger of the pending and the on-chain one.
    pub fn total_withdraw(&self) -> (r: TokenAmount)
        ensures
            r@ == self.spec_total_withdraw(),
    {
        self.offchain_total_withdraw().max(self.onchain_total_withdraw)
    }

    /// The nonce that the next message of this end carries.
    pub fn next_nonce(&self) -> (r: Nonce)
        requires
            self.nonce@ < crate::primitives::u256_max(),
        ensures
            r@ == self.nonce@ + 1,
    {
        self.nonce.add(U256::one())
    }

    pub fn count_pending_transfers(&self) -> (r: usize)
        ensures
            r == self.pending_locks.locks@.len(),
    {
        self.pending_locks.locks.len()
    }

    /// The amount in all locks of this end; the caller makes sure that the
    /// sum fits in 256 bits.
    pub fn locked_amount(&self) -> (r: TokenAmount)
        requires
            self.spec_locked_amount() <= crate::primitives::u256_max(),
        ensures
            r@ == self.spec_locked_amount(),
    {
        let a = sum_locked(&self.secrethashes_to_lockedlocks);
        let b = sum_inner_locked(&self.secrethashes_to_unlockedlocks);
        let c = sum_inner_locked(&self.secrethashes_to_onchain_unlockedlocks);
        a.add(b).add(c)
    }

    /// The locksroot, nonce, transferred and locked amounts of the latest
    /// balance proof, or those of an empty one.
    pub fn get_current_balanceproof(&self) -> (r: (Locksroot, Nonce, TokenAmount, LockedAmount))
        ensures
            match self.balance_proof {
                Some(bp) => r.0 == bp.locksroot && r.1 == bp.nonce && r.2
                    == bp.transferred_amount && r.3 == bp.locked_amount,
                None => r.0@ == crate::hashing::locksroot_of_no_locks() && r.1@ == 0 && r.2@ == 0
                    && r.3@ == 0,
            },
    {
        match &self.balance_proof {
            Some(bp) => (bp.locksroot, bp.nonce, bp.transferred_amount, bp.locked_amount),
            None => (
                crate::hashing::compute_locksroot_of_no_locks(),
                U256::zero(),
                U256::zero(),
                U256::zero(),
            ),
        }
    }

    /// True when the latest balance proof's transferred and locked amounts
    /// add up without overflow.
    pub fn is_valid_amount(&self, amount: TokenAmount) -> (r: bool)
        ensures
            r == match self.balance_proof {
                Some(bp) => bp.transferred_amount@ + bp.locked_amount@
                    <= crate::primitives::u256_max(),
                None => true,
            },
    {
        let (_, _, transferred_amount, locked_amount) = self.get_current_balanceproof();
        transferred_amount.checked_add(locked_amount).is_some()
    }

    pub fn is_secret_known(&self, secrethash: SecretHash) -> (r: bool)
        ensures
            r == (self.secrethashes_to_unlockedlocks@.contains_key(secrethash)
                || self.secrethashes_to_onchain_unlockedlocks@.contains_key(secrethash)),
    {
        self.is_secret_known_offchain(secrethash) || self.secret_known_onchain(secrethash)
    }

    pub fn secret_known_onchain(&self, secrethash: SecretHash) -> (r: bool)
        ensures
            r == self.secrethashes_to_onchain_unlockedlocks@.contains_key(secrethash),
    {
        self.secrethashes_to_onchain_unlockedlocks.contains_key(&secrethash)
    }

    pub fn is_secret_known_offchain(&self, secrethash: SecretHash) -> (r: bool)
        ensures
            r == (self.secrethashes_to_unlockedlocks@.contains_key(secrethash)
                || self.secrethashes_to_onchain_unlockedlocks@.contains_key(secrethash)),
    {
        self.secrethashes_to_unlockedlocks.contains_key(&secrethash)
            || self.secrethashes_to_onchain_unlockedlocks.contains_key(&secrethash)
    }

    /// The secret of an unlocked lock, off-chain first, then on-chain.
    pub open spec fn spec_get_secret(&self, secrethash: SecretHash) -> Option<Secret> {
        if self.secrethashes_to_unlockedlocks@.contains_key(secrethash) {
            Some(self.secrethashes_to_unlockedlocks@[secrethash].secret)
        } else if self.secrethashes_to_onchain_unlockedlocks@.contains_key(secrethash) {
            Some(self.secrethashes_to_onchain_unlockedlocks@[secrethash].secret)
        } else {
            None
        }
    }

    /// The secret of an unlocked lock, off-chain first, then on-chain.
    pub fn get_secret(&self, secrethash: SecretHash) -> (r: Option<Secret>)
        ensures
            r == self.spec_get_secret(secrethash),
    {
        let mut partial_unlock_proof = self.secrethashes_to_unlockedlocks.get(&secrethash);
        if partial_unlock_proof.is_none() {
            partial_unlock_proof = self.secrethashes_to_onchain_unlockedlocks.get(&secrethash);
        }
        match partial_unlock_proof {
            Some(p) => Some(p.secret),
            None => None,
        }
    }
}

/// The sum of the amounts of locked locks; the caller makes sure it fits.
pub fn sum_locked(m: &LinearMap<SecretHash, HashTimeLockState>) -> (r: TokenAmount)
    requires
        sum_lock_amounts(m.entries()) <= crate::primitives::u256_max(),
    ensures
        r@ == sum_lock_amounts(m.entries()),
{
    let mut acc = U256::zero();
    let mut i: usize = 0;
    let n = m.len();
    while i < n
        invariant
            i <= n,
            n == m.entries().len(),
            sum_lock_amounts(m.entries()) <= crate::primitives::u256_max(),
            acc@ == sum_lock_amounts(m.entries().subrange(0, i as int)),
        decreases n - i,
    {
        let (_, l) = m.entry_at(i);
        proof {
            let s = m.entries();
            assert(s.subrange(0, i + 1).drop_last() =~= s.subrange(0, i as int));
            lemma_sum_lock_amounts_prefix(s, i + 1);
        }
        acc = acc.add(l.amount);
        i = i + 1;
    }
    assert(m.entries().subrange(0, n as int) =~= m.entries());
    acc
}

/// Sums over prefixes never exceed the whole sum.
pub proof fn lemma_sum_lock_amounts_prefix(s: Seq<(SecretHash, HashTimeLockState)>, k: int)
    requires
        0 <= k <= s.len(),
    ensures
        sum_lock_amounts(s.subrange(0, k)) <= sum_lock_amounts(s),
    decreases s.len(),
{
    if k < s.len() {
        assert(s.drop_last().subrange(0, k) =~= s.subrange(0, k));
        lemma_sum_lock_amounts_prefix(s.drop_last(), k);
    } else {
        assert(s.subrange(0, k) =~= s);
    }
}

pub proof fn lemma_sum_inner_lock_amounts_prefix(s: Seq<(SecretHash, UnlockPartialProofState)>, k: int)
    requires
        0 <= k <= s.len(),
    ensures
        sum_inner_lock_amounts(s.subrange(0, k)) <= sum_inner_lock_amounts(s),
    decreases s.len(),
{
    if k < s.len() {
        assert(s.drop_last().subrange(0, k) =~= s.subrange(0, k));
        lemma_sum_inner_lock_amounts_prefix(s.drop_last(), k);
    } else {
        assert(s.subrange(0, k) =~= s);
    }
}

/// The sum of the amounts of the locks inside unlocked locks; the caller
/// makes sure it fits.
pub fn sum_inner_locked(m: &LinearMap<SecretHash, UnlockPartialProofState>) -> (r: TokenAmount)
    requires
        sum_inner_lock_amounts(m.entries()) <= crate::primitives::u256_max(),
    ensures
        r@ == sum_inner_lock_amounts(m.entries()),
{
    let mut acc = U256::zero();
    let mut i: usize = 0;
    let n = m.len();
    while i < n
        invariant
            i <= n,
            n == m.entries().len(),
            sum_inner_lock_amounts(m.entries()) <= crate::primitives::u256_max(),
            acc@ == sum_inner_lock_amounts(m.entries().subrange(0, i as int)),
        decreases n - i,
    {
        let (_, l) = m.entry_at(i);
        proof {
            let s = m.entries();
            assert(s.subrange(0, i + 1).drop_last() =~= s.subrange(0, i as int));
            lemma_sum_inner_lock_amounts_prefix(s, i + 1);
        }
        acc = acc.add(l.lock.amount);
        i = i + 1;
    }
    assert(m.entries().subrange(0, n as int) =~= m.entries());
    acc
}

} // verus!

verus! {

/// The fees that a node charges per token.
pub struct MediationFeeConfig {
    pub token_to_flat_fee: LinearMap<Address, FeeAmount>,
    pub token_to_proportional_fee: LinearMap<Address, U256>,
    pub token_to_proportional_imbalance_fee: LinearMap<Address, U256>,
    pub cap_meditation_fees: bool,
}

/// The flat mediation fee when none is configured.
pub open spec fn spec_default_mediation_flat_fee() -> nat {
    0
}

/// The proportional mediation fee when none is configured, in parts per million.
pub open spec fn spec_default_mediation_proportional_fee() -> nat {
    4000
}

/// The proportional imbalance fee when none is configured, in parts per million.
pub open spec fn spec_default_mediation_proportional_imbalance_fee() -> nat {
    3000
}

/// The configured value of `token`, or `default`.
pub open spec fn fee_or_default(m: Map<Address, U256>, token: Address, default: nat) -> nat {
    if m.contains_key(token) {
        m[token]@
    } else {
        default
    }
}

impl MediationFeeConfig {
    pub fn new() -> (r: MediationFeeConfig)
        ensures
            r.token_to_flat_fee@ == Map::<Address, U256>::empty(),
            r.token_to_proportional_fee@ == Map::<Address, U256>::empty(),
            r.token_to_proportional_imbalance_fee@ == Map::<Address, U256>::empty(),
            !r.cap_meditation_fees,
    {
        MediationFeeConfig {
            token_to_flat_fee: LinearMap::new(),
            token_to_proportional_fee: LinearMap::new(),
            token_to_proportional_imbalance_fee: LinearMap::new(),
            cap_meditation_fees: false,
        }
    }

    pub fn get_flat_fee(&self, token_address: &Address) -> (r: FeeAmount)
        ensures
            r@ == fee_or_default(self.token_to_flat_fee@, *token_address, spec_default_mediation_flat_fee()),
    {
        match self.token_to_flat_fee.get(token_address) {
            Some(fee) => *fee,
            None => U256::from_u64(0),
        }
    }

    pub fn get_proportional_fee(&self, token_address: &Address) -> (r: U256)
        ensures
            r@ == fee_or_default(
                self.token_to_proportional_fee@,
                *token_address,
                spec_default_mediation_proportional_fee(),
            ),
    {
        match self.token_to_proportional_fee.get(token_address) {
            Some(fee) => *fee,
            None => U256::from_u64(4000),
        }
    }

    pub fn get_proportional_imbalance_fee(&self, token_address: &Address) -> (r: U256)
        ensures
            r@ == fee_or_default(
                self.token_to_proportional_imbalance_fee@,
                *token_address,
                spec_default_mediation_proportional_imbalance_fee(),
            ),
    {
        match self.token_to_proportional_imbalance_fee.get(token_address) {
            Some(fee) => *fee,
            None => U256::from_u64(3000),
        }
    }
}

impl PendingLocksState {
    pub fn new() -> (r: PendingLocksState)
        ensures
            r.locks@ == Seq::<EncodedLock>::empty(),
    {
        PendingLocksState { locks: Vec::new() }
    }
}

impl ChannelEndState {
    /// An end with nothing deposited, sent or locked.
    pub open spec fn spec_is_fresh(&self, address: Address) -> bool {
        &&& self.address == address
        &&& self.contract_balance@ == 0
        &&& self.onchain_total_withdraw@ == 0
        &&& self.withdraws_pending.entries().len() == 0
        &&& self.withdraws_expired@.len() == 0
        &&& self.initiated_coop_settle.is_none()
        &&& self.expired_coop_settles@.len() == 0
        &&& self.secrethashes_to_lockedlocks.entries().len() == 0
        &&& self.secrethashes_to_unlockedlocks.entries().len() == 0
        &&& self.secrethashes_to_onchain_unlockedlocks.entries().len() == 0
        &&& self.balance_proof.is_none()
        &&& self.pending_locks.locks@.len() == 0
        &&& self.onchain_locksroot@ == crate::hashing::locksroot_of_no_locks()
        &&& self.nonce@ == 0
    }

    pub fn new(address: Address) -> (r: ChannelEndState)
        ensures
            r.spec_is_fresh(address),
    {
        ChannelEndState {
            address,
            contract_balance: U256::zero(),
            onchain_total_withdraw: U256::zero(),
            withdraws_pending: LinearMap::new(),
            withdraws_expired: Vec::new(),
            secrethashes_to_lockedlocks: LinearMap::new(),
            secrethashes_to_unlockedlocks: LinearMap::new(),
            secrethashes_to_onchain_unlockedlocks: LinearMap::new(),
            balance_proof: None,
            pending_locks: PendingLocksState::new(),
            onchain_locksroot: crate::hashing::compute_locksroot_of_no_locks(),
            nonce: U256::zero(),
            initiated_coop_settle: None,
            expired_coop_settles: Vec::new(),
        }
    }
}

/// The status that a settle or close transaction gives a channel.
pub open spec fn spec_tx_status(
    t: TransactionExecutionStatus,
    done: ChannelStatus,
    running: ChannelStatus,
) -> ChannelStatus {
    if t.result == Some(TransactionResult::Success) {
        done
    } else if t.finished_block_number.is_none() {
        running
    } else {
        ChannelStatus::Unusable
    }
}

impl ChannelState {
    /// The status: decided by the settle transaction, else by the close
    /// transaction, else open.
    pub open spec fn spec_status(&self) -> ChannelStatus {
        match self.settle_transaction {
            Some(t) => spec_tx_status(t, ChannelStatus::Settled, ChannelStatus::Settling),
            None => match self.close_transaction {
                Some(t) => spec_tx_status(t, ChannelStatus::Closed, ChannelStatus::Closing),
                None => ChannelStatus::Opened,
            },
        }
    }

    pub fn new(
        canonical_identifier: CanonicalIdentifier,
        token_address: TokenAddress,
        token_network_registry_address: TokenNetworkRegistryAddress,
        our_address: Address,
        partner_address: Address,
        reveal_timeout: RevealTimeout,
        settle_timeout: SettleTimeout,
        open_transaction: TransactionExecutionStatus,
        fee_config: MediationFeeConfig,
    ) -> (r: Result<ChannelState, crate::errors::StateTransitionError>)
        ensures
            r.is_err() == (reveal_timeout >= settle_timeout),
            r matches Err(e) ==> e.msg@ == "reveal_timeout("@ + crate::text::spec_decimal(reveal_timeout as nat)
                + ") must be smaller than settle_timeout("@ + crate::text::spec_decimal(settle_timeout as nat)
                + ")"@,
            r.is_ok() ==> {
                let c = r.unwrap();
                &&& c.canonical_identifier == canonical_identifier
                &&& c.token_address == token_address
                &&& c.token_network_registry_address == token_network_registry_address
                &&& c.reveal_timeout == reveal_timeout
                &&& c.settle_timeout == settle_timeout
                &&& c.our_state.spec_is_fresh(our_address)
                &&& c.partner_state.spec_is_fresh(partner_address)
                &&& c.open_transaction == open_transaction
                &&& c.close_transaction.is_none()
                &&& c.settle_transaction.is_none()
                &&& c.update_transaction.is_none()
                &&& c.fee_schedule.cap_fees == fee_config.cap_meditation_fees
                &&& c.fee_schedule.flat@ == fee_or_default(
                    fee_config.token_to_flat_fee@,
                    token_address,
                    spec_default_mediation_flat_fee(),
                )
                &&& c.fee_schedule.proportional@ == fee_or_default(
                    fee_config.token_to_proportional_fee@,
                    token_address,
                    spec_default_mediation_proportional_fee(),
                )
                &&& c.fee_schedule.imbalance_penalty.is_none()
            },
    {
        if reveal_timeout >= settle_timeout {
            return Err(
                crate::errors::StateTransitionError::from_message(
                    crate::text::with_numbers(
                        "reveal_timeout(",
                        reveal_timeout,
                        ") must be smaller than settle_timeout(",
                        settle_timeout,
                        ")",
                    ),
                ),
            );
        }
        let our_state = ChannelEndState::new(our_address);
        let partner_state = ChannelEndState::new(partner_address);
        let flat = fee_config.get_flat_fee(&token_address);
        let proportional = fee_config.get_proportional_fee(&token_address);
        Ok(
            ChannelState {
                canonical_identifier,
                token_address,
                token_network_registry_address,
                reveal_timeout,
                settle_timeout,
                our_state,
                partner_state,
                open_transaction,
                close_transaction: None,
                settle_transaction: None,
                update_transaction: None,
                fee_schedule: FeeScheduleState {
                    cap_fees: fee_config.cap_meditation_fees,
                    flat,
                    proportional,
                    imbalance_penalty: None,
                },
            },
        )
    }

    pub fn status(&self) -> (r: ChannelStatus)
        ensures
            r == self.spec_status(),
    {
        let mut status = ChannelStatus::Opened;
        if let Some(settle_transaction) = &self.settle_transaction {
            let finished_successfully = match settle_transaction.result {
                Some(TransactionResult::Success) => true,
                _ => false,
            };
            let running = settle_transaction.finished_block_number.is_none();
            if finished_successfully {
                status = ChannelStatus::Settled;
            } else if running {
                status = ChannelStatus::Settling;
            } else {
                status = ChannelStatus::Unusable;
            }
        } else if let Some(close_transaction) = &self.close_transaction {
            let finished_successfully = match close_transaction.result {
                Some(TransactionResult::Success) => true,
                _ => false,
            };
            let running = close_transaction.finished_block_number.is_none();
            if finished_successfully {
                status = ChannelStatus::Closed;
            } else if running {
                status = ChannelStatus::Closing;
            } else {
                status = ChannelStatus::Unusable;
            }
        }
        status
    }

    pub fn our_total_deposit(&self) -> (r: TokenAmount)
        ensures
            r == self.our_state.contract_balance,
    {
        self.our_state.contract_balance
    }

    pub fn partner_total_deposit(&self) -> (r: TokenAmount)
        ensures
            r == self.partner_state.contract_balance,
    {
        self.partner_state.contract_balance
    }

    pub fn our_total_withdraw(&self) -> (r: TokenAmount)
        ensures
            r@ == self.our_state.spec_total_withdraw(),
    {
        self.our_state.total_withdraw()
    }

    pub fn partner_total_withdraw(&self) -> (r: TokenAmount)
        ensures
            r@ == self.partner_state.spec_total_withdraw(),
    {
        self.partner_state.total_withdraw()
    }

    /// The deposits of both ends minus their withdraws.
    pub open spec fn spec_capacity(&self) -> int {
        self.our_state.contract_balance@ + self.partner_state.contract_balance@
            - self.our_state.spec_total_withdraw() - self.partner_state.spec_total_withdraw()
    }

    /// The computation of the capacity neither overflows nor goes negative.
    pub open spec fn spec_capacity_defined(&self) -> bool {
        &&& self.our_state.contract_balance@ + self.partner_state.contract_balance@
            <= crate::primitives::u256_max()
        &&& self.spec_capacity() >= 0
    }

    pub fn capacity(&self) -> (r: TokenAmount)
        requires
            self.spec_capacity_defined(),
        ensures
            r@ == self.spec_capacity(),
    {
        self.our_state.contract_balance.add(self.partner_state.contract_balance).sub(
            self.our_state.total_withdraw(),
        ).sub(self.partner_state.total_withdraw())
    }

    /// The most transfers that an end may have pending.
    pub open spec fn spec_maximum_pending_transfers() -> nat {
        160
    }

    /// Whether a new transfer of `amount` with `lock_timeout` may go through
    /// this channel.
    pub open spec fn spec_is_usable_for_new_transfer(
        &self,
        amount: nat,
        lock_timeout: Option<BlockTimeout>,
    ) -> bool {
        &&& self.spec_status() == ChannelStatus::Opened
        &&& self.settle_timeout >= self.reveal_timeout * 2
        &&& self.our_state.pending_locks.locks@.len() < Self::spec_maximum_pending_transfers()
        &&& amount <= crate::views::spec_channel_distributable(&self.our_state, &self.partner_state)
        &&& self.our_state.is_valid_amount_spec()
        &&& match lock_timeout {
            Some(t) => t <= self.settle_timeout && t > self.reveal_timeout,
            None => true,
        }
    }

    pub fn is_usable_for_new_transfer(&self, amount: TokenAmount, lock_timeout: Option<BlockTimeout>) -> (r: bool)
        requires
            crate::views::spec_distributable_defined(&self.our_state, &self.partner_state),
            self.reveal_timeout * 2 <= u64::MAX,
        ensures
            r == self.spec_is_usable_for_new_transfer(amount@, lock_timeout),
    {
        let pending_transfers = self.our_state.count_pending_transfers();
        let distributable = crate::views::channel_distributable(&self.our_state, &self.partner_state);
        let lock_timeout_valid = match lock_timeout {
            Some(lock_timeout) => lock_timeout <= self.settle_timeout && lock_timeout > self.reveal_timeout,
            None => true,
        };
        let is_valid_settle_timeout = self.settle_timeout >= self.reveal_timeout * 2;
        if self.status() != ChannelStatus::Opened {
            return false;
        }
        if !is_valid_settle_timeout {
            return false;
        }
        if pending_transfers >= 160 {
            return false;
        }
        if distributable.less_than(&amount) {
            return false;
        }
        if !self.our_state.is_valid_amount(amount) {
            return false;
        }
        if !lock_timeout_valid {
            return false;
        }
        true
    }

    pub fn is_usable_for_mediation(&self, transfer_amount: TokenAmount, lock_timeout: BlockTimeout) -> (r: bool)
        requires
            crate::views::spec_distributable_defined(&self.our_state, &self.partner_state),
            self.reveal_timeout * 2 <= u64::MAX,
        ensures
            r == self.spec_is_usable_for_new_transfer(transfer_amount@, Some(lock_timeout)),
    {
        self.is_usable_for_new_transfer(transfer_amount, Some(lock_timeout))
    }
}

impl ChannelEndState {
    /// The latest balance proof's amounts add up without overflow.
    pub open spec fn is_valid_amount_spec(&self) -> bool {
        match self.balance_proof {
            Some(bp) => bp.transferred_amount@ + bp.locked_amount@ <= crate::primitives::u256_max(),
            None => true,
        }
    }
}

} // verus!

verus! {

/// The token networks of a list, by their address; a later network of the
/// same address replaces an earlier one.
pub open spec fn spec_networks_by_address(s: Seq<TokenNetworkState>) -> Map<Address, TokenNetworkState>
    decreases s.len(),
{
    if s.len() == 0 {
        Map::empty()
    } else {
        spec_networks_by_address(s.drop_last()).insert(s.last().address, s.last())
    }
}

/// The addresses of the token networks of a list, by their token.
pub open spec fn spec_networks_by_token(s: Seq<TokenNetworkState>) -> Map<Address, Address>
    decreases s.len(),
{
    if s.len() == 0 {
        Map::empty()
    } else {
        spec_networks_by_token(s.drop_last()).insert(s.last().token_address, s.last().address)
    }
}

impl TokenNetworkState {
    pub fn new(address: Address, token_address: TokenAddress) -> (r: TokenNetworkState)
        ensures
            r.address == address,
            r.token_address == token_address,
            r.channelidentifiers_to_channels@ == Map::<U256, ChannelState>::empty(),
            r.partneraddresses_to_channelidentifiers@ == Map::<
                Address,
                Vec<ChannelIdentifier>,
            >::empty(),
    {
        TokenNetworkState {
            address,
            token_address,
            network_graph: TokenNetworkGraphState {  },
            channelidentifiers_to_channels: LinearMap::new(),
            partneraddresses_to_channelidentifiers: LinearMap::new(),
        }
    }
}

impl TokenNetworkRegistryState {
    pub fn new(address: Address, token_network_list: Vec<TokenNetworkState>) -> (r:
        TokenNetworkRegistryState)
        ensures
            r.address == address,
            r.tokennetworkaddresses_to_tokennetworks@ == spec_networks_by_address(
                token_network_list@,
            ),
            r.tokenaddresses_to_tokennetworkaddresses@ == spec_networks_by_token(
                token_network_list@,
            ),
    {
        let ghost list = token_network_list@;
        let mut rest = token_network_list;
        let mut registry_state = TokenNetworkRegistryState {
            address: Address::zero(),
            tokennetworkaddresses_to_tokennetworks: LinearMap::new(),
            tokenaddresses_to_tokennetworkaddresses: LinearMap::new(),
        };
        let ghost mut k: int = 0;
        assert(list.subrange(0, 0) =~= Seq::<TokenNetworkState>::empty());
        assert(list.subrange(0, list.len() as int) =~= list);
        while rest.len() > 0
            invariant
                0 <= k <= list.len(),
                rest@ == list.subrange(k, list.len() as int),
                registry_state.tokennetworkaddresses_to_tokennetworks@
                    == spec_networks_by_address(list.subrange(0, k)),
                registry_state.tokenaddresses_to_tokennetworkaddresses@
                    == spec_networks_by_token(list.subrange(0, k)),
            decreases rest@.len(),
        {
            let token_network = rest.remove(0);
            proof {
                assert(token_network == list[k]);
                assert(list.subrange(0, k + 1).drop_last() =~= list.subrange(0, k));
                assert(list.subrange(0, k + 1).last() == list[k]);
                assert(rest@ =~= list.subrange(k + 1, list.len() as int));
                k = k + 1;
            }
            let token_network_address = token_network.address;
            let token_address = token_network.token_address;
            registry_state.tokenaddresses_to_tokennetworkaddresses.insert(
                token_address,
                token_network_address,
            );
            registry_state.tokennetworkaddresses_to_tokennetworks.insert(
                token_network_address,
                token_network,
            );
        }
        assert(list.subrange(0, k) =~= list);
        registry_state.address = address;
        registry_state
    }
}

impl ChainState {
    pub fn new(
        chain_id: ChainID,
        block_number: BlockNumber,
        block_hash: BlockHash,
        our_address: Address,
    ) -> (r: ChainState)
        ensures
            r.chain_id == chain_id,
            r.block_number == block_number,
            r.block_hash == block_hash,
            r.our_address == our_address,
            r.identifiers_to_tokennetworkregistries@ == Map::<
                Address,
                TokenNetworkRegistryState,
            >::empty(),
            r.payment_mapping.secrethashes_to_task@ == Map::<SecretHash, TransferTask>::empty(),
            r.pending_transactions@ == Seq::<crate::types::event::ContractSendEvent>::empty(),
    {
        ChainState {
            chain_id,
            block_number,
            block_hash,
            our_address,
            identifiers_to_tokennetworkregistries: LinearMap::new(),
            payment_mapping: PaymentMappingState { secrethashes_to_task: LinearMap::new() },
            pending_transactions: Vec::new(),
            pseudo_random_number_generator: crate::types::random::Random::new(),
        }
    }
}

} // verus!
