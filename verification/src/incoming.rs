//! The state changes that a message from another node gives. A message
//! arrives with the address that signed it and, where it carries a balance
//! proof, the hash of the message; what it says is held here as plain
//! values.
use vstd::prelude::*;

use crate::channel::utils::spec_encode_lock;
use crate::hashing::{hash_balance_data, keccak, keccak256, spec_hash_balance_data};
use crate::map::LinearMap;
use crate::primitives::{Address, Signature, H256};
use crate::routes::{copy_route, spec_hop_after, spec_route_copy};
use crate::types::state::{
    AddressMetadata, BalanceProofState, BlockExpiration, CanonicalIdentifier, ChainID, ChainState,
    ChannelIdentifier, DecryptedSecret, HashTimeLockState, HopState, LockedAmount,
    LockedTransferState, Locksroot, MessageHash, MessageIdentifier, Nonce, PaymentIdentifier,
    RouteState, Secret, SecretHash, TokenAddress, TokenAmount, TokenNetworkAddress,
};
use crate::types::state_change::{
    ActionInitMediator, ActionInitTarget, ReceiveDelivered, ReceiveLockExpired, ReceiveProcessed,
    ReceiveSecretRequest, ReceiveSecretReveal, ReceiveUnlock, ReceiveWithdrawConfirmation,
    ReceiveWithdrawExpired, ReceiveWithdrawRequest, StateChange,
};
use crate::messages::{
    lock_expired_message_hash, lock_expired_signed_data, locked_transfer_message_hash,
    locked_transfer_signed_data, secret_request_signed_data, secret_reveal_signed_data,
    spec_lock_expired_hash_data, spec_lock_expired_signed_data, spec_locked_transfer_hash_data,
    spec_locked_transfer_signed_data, spec_secret_request_signed_data, spec_secret_reveal_signed_data,
    spec_unlock_hash_data, spec_unlock_signed_data, unlock_message_hash, unlock_signed_data,
};
use crate::views::{get_channel_by_token_network_and_partner, spec_channel_by_token_network_and_partner};

verus! {

/// What a message that carries a balance proof says of it.
#[derive(Clone, Copy, Debug)]
pub struct MessageBalanceProof {
    pub chain_id: ChainID,
    pub token_network_address: TokenNetworkAddress,
    pub channel_identifier: ChannelIdentifier,
    pub nonce: Nonce,
    pub transferred_amount: TokenAmount,
    pub locked_amount: LockedAmount,
    pub locksroot: Locksroot,
}

/// The channel that a message is about.
pub open spec fn spec_incoming_channel(
    chain_id: ChainID,
    token_network_address: TokenNetworkAddress,
    channel_identifier: ChannelIdentifier,
) -> CanonicalIdentifier {
    CanonicalIdentifier { chain_identifier: chain_id, token_network_address, channel_identifier }
}

/// `r` is the balance proof of a received message: what the message says,
/// its balance hash, its hash, its signature and its signer.
pub open spec fn spec_received_balance_proof(
    m: MessageBalanceProof,
    message_hash: MessageHash,
    signature: Signature,
    sender: Address,
    r: BalanceProofState,
) -> bool {
    &&& r.nonce == m.nonce
    &&& r.transferred_amount == m.transferred_amount
    &&& r.locked_amount == m.locked_amount
    &&& r.locksroot == m.locksroot
    &&& r.canonical_identifier == spec_incoming_channel(
        m.chain_id,
        m.token_network_address,
        m.channel_identifier,
    )
    &&& r.balance_hash@ == spec_hash_balance_data(
        m.transferred_amount@,
        m.locked_amount@,
        m.locksroot@,
    )
    &&& r.message_hash == Some(message_hash)
    &&& r.signature == Some(signature)
    &&& r.sender == Some(sender)
}

/// The balance proof of a received message.
pub fn received_balance_proof(
    m: &MessageBalanceProof,
    message_hash: MessageHash,
    signature: Signature,
    sender: Address,
) -> (r: BalanceProofState)
    ensures
        spec_received_balance_proof(*m, message_hash, signature, sender, r),
{
    let balance_hash = hash_balance_data(m.transferred_amount, m.locked_amount, m.locksroot);
    BalanceProofState {
        nonce: m.nonce,
        transferred_amount: m.transferred_amount,
        locked_amount: m.locked_amount,
        locksroot: m.locksroot,
        canonical_identifier: CanonicalIdentifier {
            chain_identifier: m.chain_id,
            token_network_address: m.token_network_address,
            channel_identifier: m.channel_identifier,
        },
        balance_hash,
        message_hash: Some(message_hash),
        signature: Some(signature),
        sender: Some(sender),
    }
}

/// A route that a locked transfer proposes, with the metadata of its nodes.
pub struct MessageRoute {
    pub route: Vec<Address>,
    pub address_metadata: LinearMap<Address, AddressMetadata>,
}

/// What a locked transfer says.
pub struct LockedTransferMessage {
    pub message_identifier: MessageIdentifier,
    pub recipient: Address,
    pub payment_identifier: PaymentIdentifier,
    pub token: TokenAddress,
    pub lock_amount: TokenAmount,
    pub lock_expiration: BlockExpiration,
    pub lock_secrethash: Option<SecretHash>,
    pub initiator: Address,
    pub target: Address,
    pub secret: Option<Secret>,
    pub routes: Vec<MessageRoute>,
    pub balance_proof: MessageBalanceProof,
    pub signature: Signature,
}

/// The secret hash of the lock, the zero hash where the message has none.
pub open spec fn spec_lock_secrethash(m: &LockedTransferMessage, h: SecretHash) -> bool {
    match m.lock_secrethash {
        Some(s) => h == s,
        None => h@ == Seq::new(32, |i: int| 0u8),
    }
}

/// `r` is the route state of a proposed route: its nodes and metadata, no
/// swaps and no estimated fee.
pub open spec fn spec_route_of(r: RouteState, m: MessageRoute) -> bool {
    &&& r.route == m.route
    &&& r.address_to_metadata == m.address_metadata
    &&& r.swaps@ == Map::<Address, Address>::empty()
    &&& r.estimated_fee@ == 0
}

/// `t` is the transfer that a locked transfer message describes.
pub open spec fn spec_received_transfer(
    m: &LockedTransferMessage,
    message_hash: MessageHash,
    sender: Address,
    t: LockedTransferState,
) -> bool {
    &&& t.payment_identifier == m.payment_identifier
    &&& t.token == m.token
    &&& t.lock.amount == m.lock_amount
    &&& t.lock.expiration == m.lock_expiration
    &&& spec_lock_secrethash(m, t.lock.secrethash)
    &&& t.lock.encoded@ == spec_encode_lock(
        m.lock_amount@,
        m.lock_expiration,
        t.lock.secrethash@,
    )
    &&& t.initiator == m.initiator
    &&& t.target == m.target
    &&& t.message_identifier == m.message_identifier
    &&& t.route_states@.len() == m.routes@.len()
    &&& forall|i: int|
        0 <= i < m.routes@.len() ==> spec_route_of(#[trigger] t.route_states@[i], m.routes@[i])
    &&& spec_received_balance_proof(m.balance_proof, message_hash, m.signature, sender, t.balance_proof)
    &&& t.secret == m.secret
}

fn route_states_of(routes: Vec<MessageRoute>) -> (r: Vec<RouteState>)
    ensures
        r@.len() == routes@.len(),
        forall|i: int| 0 <= i < routes@.len() ==> spec_route_of(#[trigger] r@[i], routes@[i]),
{
    let ghost initial = routes@;
    let mut remaining = routes;
    let mut r: Vec<RouteState> = Vec::new();
    let n = remaining.len();
    let mut i: usize = 0;
    while i < n
        invariant
            i <= n,
            n == initial.len(),
            remaining@ == initial.subrange(i as int, n as int),
            r@.len() == i,
            forall|j: int| 0 <= j < i ==> spec_route_of(#[trigger] r@[j], initial[j]),
        decreases n - i,
    {
        let route = remaining.remove(0);
        assert(route == initial[i as int]);
        assert(remaining@ =~= initial.subrange(i + 1, n as int));
        r.push(
            RouteState {
                route: route.route,
                address_to_metadata: route.address_metadata,
                swaps: LinearMap::new(),
                estimated_fee: crate::primitives::U256::zero(),
            },
        );
        i = i + 1;
    }
    r
}

/// The transfer that a locked transfer message describes.
fn received_transfer(m: LockedTransferMessage, message_hash: MessageHash, sender: Address) -> (r:
    LockedTransferState)
    ensures
        spec_received_transfer(&m, message_hash, sender, r),
{
    let balance_proof = received_balance_proof(&m.balance_proof, message_hash, m.signature, sender);
    let secrethash = match m.lock_secrethash {
        Some(s) => s,
        None => H256::zero(),
    };
    let lock = HashTimeLockState::create(m.lock_amount, m.lock_expiration, secrethash);
    let route_states = route_states_of(m.routes);
    LockedTransferState {
        payment_identifier: m.payment_identifier,
        token: m.token,
        lock,
        initiator: m.initiator,
        target: m.target,
        message_identifier: m.message_identifier,
        route_states,
        balance_proof,
        secret: m.secret,
    }
}

/// A route that a mediator can take: the node after us on it is the partner
/// of a channel of ours in the token network of the transfer.
pub open spec fn spec_mediator_route(
    route: RouteState,
    chain_state: &ChainState,
    token_network_address: TokenNetworkAddress,
    our_address: Address,
) -> bool {
    match spec_hop_after(route.route@, our_address) {
        Some(hop) => spec_channel_by_token_network_and_partner(
            chain_state,
            token_network_address,
            hop,
        ).is_some(),
        None => false,
    }
}

/// The positions of the routes that a mediator can take, in order.
pub open spec fn spec_mediator_route_positions(
    routes: Seq<RouteState>,
    chain_state: &ChainState,
    token_network_address: TokenNetworkAddress,
    our_address: Address,
) -> Seq<int>
    decreases routes.len(),
{
    if routes.len() == 0 {
        Seq::empty()
    } else {
        let rest = spec_mediator_route_positions(
            routes.drop_last(),
            chain_state,
            token_network_address,
            our_address,
        );
        if spec_mediator_route(routes.last(), chain_state, token_network_address, our_address) {
            rest.push(routes.len() - 1)
        } else {
            rest
        }
    }
}

proof fn lemma_mediator_positions_in_range(
    routes: Seq<RouteState>,
    chain_state: &ChainState,
    token_network_address: TokenNetworkAddress,
    our_address: Address,
)
    ensures
        forall|k: int|
            0 <= k < spec_mediator_route_positions(
                routes,
                chain_state,
                token_network_address,
                our_address,
            ).len() ==> 0 <= #[trigger] spec_mediator_route_positions(
                routes,
                chain_state,
                token_network_address,
                our_address,
            )[k] < routes.len(),
    decreases routes.len(),
{
    if routes.len() > 0 {
        lemma_mediator_positions_in_range(
            routes.drop_last(),
            chain_state,
            token_network_address,
            our_address,
        );
        let rest = spec_mediator_route_positions(
            routes.drop_last(),
            chain_state,
            token_network_address,
            our_address,
        );
        let all = spec_mediator_route_positions(
            routes,
            chain_state,
            token_network_address,
            our_address,
        );
        assert forall|k: int| 0 <= k < all.len() implies 0 <= #[trigger] all[k] < routes.len() by {
            if k < rest.len() {
                assert(all[k] == rest[k]);
            }
        }
    }
}

/// Copies of the routes that a mediator can take, in order.
fn mediator_routes(
    routes: &Vec<RouteState>,
    chain_state: &ChainState,
    token_network_address: TokenNetworkAddress,
    our_address: Address,
) -> (r: Vec<RouteState>)
    ensures
        ({
            let positions = spec_mediator_route_positions(
                routes@,
                chain_state,
                token_network_address,
                our_address,
            );
            &&& r@.len() == positions.len()
            &&& forall|k: int|
                0 <= k < r@.len() ==> spec_route_copy(#[trigger] r@[k], routes@[positions[k]])
        }),
{
    let mut r: Vec<RouteState> = Vec::new();
    let n = routes.len();
    let mut i: usize = 0;
    while i < n
        invariant
            i <= n,
            n == routes@.len(),
            r@.len() == spec_mediator_route_positions(
                routes@.take(i as int),
                chain_state,
                token_network_address,
                our_address,
            ).len(),
            forall|k: int|
                0 <= k < r@.len() ==> spec_route_copy(
                    #[trigger] r@[k],
                    routes@[spec_mediator_route_positions(
                        routes@.take(i as int),
                        chain_state,
                        token_network_address,
                        our_address,
                    )[k]],
                ),
        decreases n - i,
    {
        let route_state = &routes[i];
        assert(routes@.take(i + 1).drop_last() =~= routes@.take(i as int));
        assert(routes@.take(i + 1).last() == routes@[i as int]);
        proof {
            lemma_mediator_positions_in_range(
                routes@.take(i as int),
                chain_state,
                token_network_address,
                our_address,
            );
        }
        if let Some(hop) = route_state.hop_after(our_address) {
            if get_channel_by_token_network_and_partner(chain_state, token_network_address, hop).is_some() {
                r.push(copy_route(route_state));
            }
        }
        i = i + 1;
    }
    assert(routes@.take(n as int) =~= routes@);
    r
}

/// The node the transfer came from: its sender, over the channel of the
/// balance proof.
pub open spec fn spec_from_hop(m: &LockedTransferMessage, sender: Address) -> HopState {
    HopState { node_address: sender, channel_identifier: m.balance_proof.channel_identifier }
}

/// `r` starts our part as the target of the transfer.
pub open spec fn spec_init_target(
    m: &LockedTransferMessage,
    message_hash: MessageHash,
    sender: Address,
    valid_secret: bool,
    r: StateChange,
) -> bool {
    &&& r is ActionInitTarget
    &&& r->ActionInitTarget_0.sender == sender
    &&& spec_received_transfer(m, message_hash, sender, r->ActionInitTarget_0.transfer)
    &&& r->ActionInitTarget_0.balance_proof == r->ActionInitTarget_0.transfer.balance_proof
    &&& r->ActionInitTarget_0.from_hop == spec_from_hop(m, sender)
    &&& r->ActionInitTarget_0.received_valid_secret == valid_secret
}

/// The state changes of a locked transfer: where we are its target, the
/// start of our part as target, together with the secret where the
/// initiator sent one that matches the transfer (`decrypted`: the outcome
/// of decrypting the secret the message carries, if it carries one);
/// else the start of our part as a mediator, with the routes that a
/// mediator can take.
pub open spec fn spec_locked_transfer_state_changes(
    m: &LockedTransferMessage,
    message_hash: MessageHash,
    sender: Address,
    our_address: Address,
    decrypted: Option<Result<DecryptedSecret, String>>,
    chain_state: &ChainState,
    r: Result<Vec<StateChange>, String>,
) -> bool {
    if m.target == our_address {
        match decrypted {
            None => r is Ok && r->Ok_0@.len() == 1 && spec_init_target(
                m,
                message_hash,
                sender,
                false,
                r->Ok_0@[0],
            ),
            Some(Err(e)) => r == Err::<Vec<StateChange>, String>(e),
            Some(Ok(d)) => if m.lock_amount@ < d.amount@ || m.payment_identifier
                != d.payment_identifier {
                r is Err && r->Err_0@ == "Invalid Secret"@
            } else {
                &&& r is Ok
                &&& r->Ok_0@.len() == 2
                &&& spec_init_target(m, message_hash, sender, true, r->Ok_0@[0])
                &&& r->Ok_0@[1] is ReceiveSecretReveal
                &&& r->Ok_0@[1]->ReceiveSecretReveal_0.sender == sender
                &&& r->Ok_0@[1]->ReceiveSecretReveal_0.secret == d.secret
                &&& spec_lock_secrethash(m, r->Ok_0@[1]->ReceiveSecretReveal_0.secrethash)
            },
        }
    } else {
        &&& r is Ok
        &&& r->Ok_0@.len() == 1
        &&& r->Ok_0@[0] is ActionInitMediator
        &&& {
            let init = r->Ok_0@[0]->ActionInitMediator_0;
            let positions = spec_mediator_route_positions(
                init.from_transfer.route_states@,
                chain_state,
                m.balance_proof.token_network_address,
                our_address,
            );
            &&& init.sender == sender
            &&& spec_received_transfer(m, message_hash, sender, init.from_transfer)
            &&& init.balance_proof == init.from_transfer.balance_proof
            &&& init.from_hop == spec_from_hop(m, sender)
            &&& init.candidate_route_states@.len() == positions.len()
            &&& forall|k: int|
                0 <= k < positions.len() ==> spec_route_copy(
                    #[trigger] init.candidate_route_states@[k],
                    init.from_transfer.route_states@[positions[k]],
                )
        }
    }
}

/// The state changes that a locked transfer from `sender` gives.
pub fn locked_transfer_state_changes(
    m: LockedTransferMessage,
    message_hash: MessageHash,
    sender: Address,
    our_address: Address,
    decrypted: Option<Result<DecryptedSecret, String>>,
    chain_state: &ChainState,
) -> (r: Result<Vec<StateChange>, String>)
    ensures
        spec_locked_transfer_state_changes(
            &m,
            message_hash,
            sender,
            our_address,
            decrypted,
            chain_state,
            r,
        ),
{
    let ghost message = m;
    let from_hop = HopState {
        node_address: sender,
        channel_identifier: m.balance_proof.channel_identifier,
    };
    let to_us = m.target.equals(&our_address);
    let token_network_address = m.balance_proof.token_network_address;
    let lock_secrethash = match m.lock_secrethash {
        Some(s) => s,
        None => H256::zero(),
    };
    let transfer = received_transfer(m, message_hash, sender);
    if to_us {
        let valid_secret = match decrypted {
            None => None,
            Some(Err(e)) => {
                return Err(e);
            },
            Some(Ok(d)) => {
                if transfer.lock.amount.less_than(&d.amount) || transfer.payment_identifier
                    != d.payment_identifier {
                    return Err("Invalid Secret".to_string());
                }
                Some(d)
            },
        };
        let balance_proof = transfer.balance_proof;
        match valid_secret {
            None => {
                let init_target = ActionInitTarget {
                    sender,
                    balance_proof,
                    from_hop,
                    transfer,
                    received_valid_secret: false,
                };
                let r = vec![StateChange::ActionInitTarget(init_target)];
                assert(spec_init_target(&message, message_hash, sender, false, r@[0]));
                Ok(r)
            },
            Some(d) => {
                let init_target = ActionInitTarget {
                    sender,
                    balance_proof,
                    from_hop,
                    transfer,
                    received_valid_secret: true,
                };
                let reveal = ReceiveSecretReveal {
                    sender,
                    secret: d.secret,
                    secrethash: lock_secrethash,
                };
                let r = vec![
                    StateChange::ActionInitTarget(init_target),
                    StateChange::ReceiveSecretReveal(reveal),
                ];
                assert(spec_init_target(&message, message_hash, sender, true, r@[0]));
                Ok(r)
            },
        }
    } else {
        let candidate_route_states = mediator_routes(
            &transfer.route_states,
            chain_state,
            token_network_address,
            our_address,
        );
        let balance_proof = transfer.balance_proof;
        let init_mediator = ActionInitMediator {
            sender,
            balance_proof,
            from_hop,
            candidate_route_states,
            from_transfer: transfer,
        };
        Ok(vec![StateChange::ActionInitMediator(init_mediator)])
    }
}

/// What a message that a lock expired says.
#[derive(Clone, Copy, Debug)]
pub struct LockExpiredMessage {
    pub message_identifier: MessageIdentifier,
    pub recipient: Address,
    pub secrethash: SecretHash,
    pub balance_proof: MessageBalanceProof,
    pub signature: Signature,
}

/// The state change of a message from `sender` that a lock expired.
pub fn lock_expired_state_change(
    m: &LockExpiredMessage,
    message_hash: MessageHash,
    sender: Address,
) -> (r: ReceiveLockExpired)
    ensures
        r.sender == sender,
        r.secrethash == m.secrethash,
        r.message_identifier == m.message_identifier,
        spec_received_balance_proof(m.balance_proof, message_hash, m.signature, sender, r.balance_proof),
{
    ReceiveLockExpired {
        sender,
        secrethash: m.secrethash,
        message_identifier: m.message_identifier,
        balance_proof: received_balance_proof(&m.balance_proof, message_hash, m.signature, sender),
    }
}

/// What a request for the secret of a payment says.
#[derive(Clone, Copy, Debug)]
pub struct SecretRequestMessage {
    pub message_identifier: MessageIdentifier,
    pub payment_identifier: PaymentIdentifier,
    pub secrethash: SecretHash,
    pub amount: TokenAmount,
    pub expiration: BlockExpiration,
    pub signature: Signature,
}

/// The state change of a request from `sender` for a secret.
pub fn secret_request_state_change(m: &SecretRequestMessage, sender: Address) -> (r:
    ReceiveSecretRequest)
    ensures
        r.sender == sender,
        r.secrethash == m.secrethash,
        r.payment_identifier == m.payment_identifier,
        r.amount == m.amount,
        r.expiration == m.expiration,
        r.revealsecret.is_none(),
{
    ReceiveSecretRequest {
        sender,
        secrethash: m.secrethash,
        payment_identifier: m.payment_identifier,
        amount: m.amount,
        expiration: m.expiration,
        revealsecret: None,
    }
}

/// What a message that reveals a secret says.
#[derive(Clone, Copy, Debug)]
pub struct SecretRevealMessage {
    pub message_identifier: MessageIdentifier,
    pub secret: Secret,
    pub signature: Signature,
}

/// The state change of a secret that `sender` revealed: the secret and its
/// Keccak-256 hash.
pub fn secret_reveal_state_change(m: &SecretRevealMessage, sender: Address) -> (r:
    ReceiveSecretReveal)
    ensures
        r.sender == sender,
        r.secret == m.secret,
        r.secrethash@ == keccak256(m.secret@),
{
    ReceiveSecretReveal { sender, secrethash: keccak(m.secret.bytes.as_slice()), secret: m.secret }
}

/// What an unlock says.
#[derive(Clone, Copy, Debug)]
pub struct UnlockMessage {
    pub message_identifier: MessageIdentifier,
    pub payment_identifier: PaymentIdentifier,
    pub secret: Secret,
    pub balance_proof: MessageBalanceProof,
    pub signature: Signature,
}

/// The state change of an unlock from `sender`: its balance proof, its
/// secret and the Keccak-256 hash of the secret.
pub fn unlock_state_change(m: &UnlockMessage, message_hash: MessageHash, sender: Address) -> (r:
    ReceiveUnlock)
    ensures
        r.sender == sender,
        r.message_identifier == m.message_identifier,
        r.secret == m.secret,
        r.secrethash@ == keccak256(m.secret@),
        spec_received_balance_proof(m.balance_proof, message_hash, m.signature, sender, r.balance_proof),
{
    ReceiveUnlock {
        sender,
        balance_proof: received_balance_proof(&m.balance_proof, message_hash, m.signature, sender),
        secrethash: keccak(m.secret.bytes.as_slice()),
        message_identifier: m.message_identifier,
        secret: m.secret,
    }
}

/// What a withdraw request, confirmation or expiry says.
#[derive(Clone, Copy, Debug)]
pub struct WithdrawMessage {
    pub message_identifier: MessageIdentifier,
    pub chain_id: ChainID,
    pub token_network_address: TokenNetworkAddress,
    pub channel_identifier: ChannelIdentifier,
    pub participant: Address,
    pub total_withdraw: TokenAmount,
    pub nonce: Nonce,
    pub expiration: BlockExpiration,
    pub signature: Signature,
    pub coop_settle: bool,
}

/// The state change of a withdraw request from `sender`, whose metadata
/// on the transport is `sender_metadata`.
pub fn withdraw_request_state_change(
    m: &WithdrawMessage,
    sender: Address,
    sender_metadata: AddressMetadata,
) -> (r: ReceiveWithdrawRequest)
    ensures
        r.sender == sender,
        r.message_identifier == m.message_identifier,
        r.canonical_identifier == spec_incoming_channel(
            m.chain_id,
            m.token_network_address,
            m.channel_identifier,
        ),
        r.total_withdraw == m.total_withdraw,
        r.nonce == m.nonce,
        r.expiration == m.expiration,
        r.signature == m.signature,
        r.participant == m.participant,
        r.coop_settle == m.coop_settle,
        r.sender_metadata == Some(sender_metadata),
{
    ReceiveWithdrawRequest {
        sender,
        message_identifier: m.message_identifier,
        canonical_identifier: CanonicalIdentifier {
            chain_identifier: m.chain_id,
            token_network_address: m.token_network_address,
            channel_identifier: m.channel_identifier,
        },
        total_withdraw: m.total_withdraw,
        nonce: m.nonce,
        expiration: m.expiration,
        signature: m.signature,
        participant: m.participant,
        coop_settle: m.coop_settle,
        sender_metadata: Some(sender_metadata),
    }
}

/// The state change of a withdraw confirmation from `sender`.
pub fn withdraw_confirmation_state_change(m: &WithdrawMessage, sender: Address) -> (r:
    ReceiveWithdrawConfirmation)
    ensures
        r.sender == sender,
        r.message_identifier == m.message_identifier,
        r.canonical_identifier == spec_incoming_channel(
            m.chain_id,
            m.token_network_address,
            m.channel_identifier,
        ),
        r.total_withdraw == m.total_withdraw,
        r.nonce == m.nonce,
        r.expiration == m.expiration,
        r.signature == m.signature,
        r.participant == m.participant,
{
    ReceiveWithdrawConfirmation {
        sender,
        message_identifier: m.message_identifier,
        canonical_identifier: CanonicalIdentifier {
            chain_identifier: m.chain_id,
            token_network_address: m.token_network_address,
            channel_identifier: m.channel_identifier,
        },
        total_withdraw: m.total_withdraw,
        nonce: m.nonce,
        expiration: m.expiration,
        signature: m.signature,
        participant: m.participant,
    }
}

/// The state change of a withdraw expiry from `sender`.
pub fn withdraw_expired_state_change(m: &WithdrawMessage, sender: Address) -> (r:
    ReceiveWithdrawExpired)
    ensures
        r.sender == sender,
        r.message_identifier == m.message_identifier,
        r.canonical_identifier == spec_incoming_channel(
            m.chain_id,
            m.token_network_address,
            m.channel_identifier,
        ),
        r.total_withdraw == m.total_withdraw,
        r.nonce == m.nonce,
        r.expiration == m.expiration,
        r.participant == m.participant,
{
    ReceiveWithdrawExpired {
        sender,
        message_identifier: m.message_identifier,
        canonical_identifier: CanonicalIdentifier {
            chain_identifier: m.chain_id,
            token_network_address: m.token_network_address,
            channel_identifier: m.channel_identifier,
        },
        total_withdraw: m.total_withdraw,
        nonce: m.nonce,
        expiration: m.expiration,
        participant: m.participant,
    }
}


/// Recovers the node that signed a message from the bytes it signs and its
/// signature; a signature from which no signer can be recovered refuses the
/// message.
pub fn get_sender(signed_data: &Vec<u8>, signature: &Signature) -> (r: Result<Address, String>)
    ensures
        match crate::hashing::spec_recover_signer(signed_data@, signature@) {
            Some(a) => r is Ok && r->Ok_0@ == a,
            None => r is Err && r->Err_0@ == "Could not recover address from signature"@,
        },
{
    proof {
        reveal_strlit("Could not recover address from signature");
    }
    match crate::hashing::recover_signer(signed_data, signature) {
        Some(a) => Ok(a),
        None => Err("Could not recover address from signature".to_string()),
    }
}

/// The outcome of receiving the message `m`: refused where no signer can be
/// recovered from its signature over the bytes that it signs, else its
/// state change from the signer.
pub open spec fn spec_secret_reveal_received(m: SecretRevealMessage, r: Result<ReceiveSecretReveal, String>) -> bool {
    match crate::hashing::spec_recover_signer(spec_secret_reveal_signed_data(m), m.signature@) {
        Some(a) => r is Ok && r->Ok_0.sender@ == a && r->Ok_0.secret == m.secret
            && r->Ok_0.secrethash@ == keccak256(m.secret@),
        None => r is Err && r->Err_0@ == "Could not recover address from signature"@,
    }
}

/// The state change of a message revealing a secret: its sender is
/// recovered from its signature over the bytes that it signs.
pub fn secret_reveal_from_message(m: &SecretRevealMessage) -> (r: Result<ReceiveSecretReveal, String>)
    ensures
        spec_secret_reveal_received(*m, r),
{
    let signed_data = secret_reveal_signed_data(m);
    let sender = get_sender(&signed_data, &m.signature)?;
    Ok(secret_reveal_state_change(m, sender))
}

/// The outcome of receiving the message `m`: refused where no signer can be
/// recovered from its signature over the bytes that it signs, else its
/// state change from the signer.
pub open spec fn spec_secret_request_received(m: SecretRequestMessage, r: Result<ReceiveSecretRequest, String>) -> bool {
    match crate::hashing::spec_recover_signer(spec_secret_request_signed_data(m), m.signature@) {
        Some(a) => r is Ok && r->Ok_0.sender@ == a && r->Ok_0.secrethash == m.secrethash
            && r->Ok_0.payment_identifier == m.payment_identifier && r->Ok_0.amount == m.amount
            && r->Ok_0.expiration == m.expiration && r->Ok_0.revealsecret.is_none(),
        None => r is Err && r->Err_0@ == "Could not recover address from signature"@,
    }
}

/// The state change of a request for a secret: its sender is recovered
/// from its signature over the bytes that it signs.
pub fn secret_request_from_message(m: &SecretRequestMessage) -> (r: Result<ReceiveSecretRequest, String>)
    ensures
        spec_secret_request_received(*m, r),
{
    let signed_data = secret_request_signed_data(m);
    let sender = get_sender(&signed_data, &m.signature)?;
    Ok(secret_request_state_change(m, sender))
}

/// The outcome of receiving the message `m`: refused where no signer can be
/// recovered from its signature over the bytes that it signs, else its
/// state change from the signer.
pub open spec fn spec_lock_expired_received(m: LockExpiredMessage, r: Result<ReceiveLockExpired, String>) -> bool {
    match crate::hashing::spec_recover_signer(spec_lock_expired_signed_data(m), m.signature@) {
        Some(a) => {
            &&& r is Ok
            &&& r->Ok_0.sender@ == a
            &&& r->Ok_0.secrethash == m.secrethash
            &&& r->Ok_0.message_identifier == m.message_identifier
            &&& r->Ok_0.balance_proof.message_hash matches Some(h) && h@ == keccak256(
                spec_lock_expired_hash_data(m),
            )
            &&& spec_received_balance_proof(
                m.balance_proof,
                r->Ok_0.balance_proof.message_hash.unwrap(),
                m.signature,
                r->Ok_0.sender,
                r->Ok_0.balance_proof,
            )
        },
        None => r is Err && r->Err_0@ == "Could not recover address from signature"@,
    }
}

/// The state change of a message that a lock expired: its sender is
/// recovered from its signature, and its balance proof carries the
/// message's hash.
pub fn lock_expired_from_message(m: &LockExpiredMessage) -> (r: Result<ReceiveLockExpired, String>)
    ensures
        spec_lock_expired_received(*m, r),
{
    let signed_data = lock_expired_signed_data(m);
    let sender = get_sender(&signed_data, &m.signature)?;
    let message_hash = lock_expired_message_hash(m);
    Ok(lock_expired_state_change(m, message_hash, sender))
}

/// The outcome of receiving the message `m`: refused where no signer can be
/// recovered from its signature over the bytes that it signs, else its
/// state change from the signer.
pub open spec fn spec_unlock_received(m: UnlockMessage, r: Result<ReceiveUnlock, String>) -> bool {
    match crate::hashing::spec_recover_signer(spec_unlock_signed_data(m), m.signature@) {
        Some(a) => {
            &&& r is Ok
            &&& r->Ok_0.sender@ == a
            &&& r->Ok_0.message_identifier == m.message_identifier
            &&& r->Ok_0.secret == m.secret
            &&& r->Ok_0.secrethash@ == keccak256(m.secret@)
            &&& r->Ok_0.balance_proof.message_hash matches Some(h) && h@ == keccak256(
                spec_unlock_hash_data(m),
            )
            &&& spec_received_balance_proof(
                m.balance_proof,
                r->Ok_0.balance_proof.message_hash.unwrap(),
                m.signature,
                r->Ok_0.sender,
                r->Ok_0.balance_proof,
            )
        },
        None => r is Err && r->Err_0@ == "Could not recover address from signature"@,
    }
}

/// The state change of an unlock: its sender is recovered from its
/// signature, and its balance proof carries the message's hash.
pub fn unlock_from_message(m: &UnlockMessage) -> (r: Result<ReceiveUnlock, String>)
    ensures
        spec_unlock_received(*m, r),
{
    let signed_data = unlock_signed_data(m);
    let sender = get_sender(&signed_data, &m.signature)?;
    let message_hash = unlock_message_hash(m);
    Ok(unlock_state_change(m, message_hash, sender))
}

/// The outcome of receiving the locked transfer `m`: refused where no
/// signer can be recovered from its signature over the bytes that it signs,
/// else its state changes from the signer, its balance proof carrying the
/// message's hash.
pub open spec fn spec_locked_transfer_received(
    m: &LockedTransferMessage,
    our_address: Address,
    decrypted: Option<Result<DecryptedSecret, String>>,
    chain_state: &ChainState,
    r: Result<Vec<StateChange>, String>,
) -> bool {
    match crate::hashing::spec_recover_signer(spec_locked_transfer_signed_data(m), m.signature@) {
        Some(a) => exists|h: MessageHash, sender: Address|
            #[trigger] spec_locked_transfer_state_changes(m, h, sender, our_address, decrypted, chain_state, r)
                && h@ == keccak256(spec_locked_transfer_hash_data(m)) && sender@ == a,
        None => r is Err && r->Err_0@ == "Could not recover address from signature"@,
    }
}

/// The state changes of a locked transfer: its sender is recovered from its
/// signature, and its balance proof carries the message's hash.
pub fn locked_transfer_from_message(
    m: LockedTransferMessage,
    our_address: Address,
    decrypted: Option<Result<DecryptedSecret, String>>,
    chain_state: &ChainState,
) -> (r: Result<Vec<StateChange>, String>)
    ensures
        spec_locked_transfer_received(&m, our_address, decrypted, chain_state, r),
{
    let signed_data = locked_transfer_signed_data(&m);
    let sender = get_sender(&signed_data, &m.signature)?;
    let message_hash = locked_transfer_message_hash(&m);
    let ghost mg = m;
    let r = locked_transfer_state_changes(m, message_hash, sender, our_address, decrypted, chain_state);
    assert(spec_locked_transfer_state_changes(&mg, message_hash, sender, our_address, decrypted, chain_state, r));
    r
}

/// A message about a transfer from another node, as the transport hands it
/// over.
pub enum Message {
    LockedTransfer(LockedTransferMessage),
    LockExpired(LockExpiredMessage),
    SecretRequest(SecretRequestMessage),
    SecretReveal(SecretRevealMessage),
    Unlock(UnlockMessage),
    PFSCapacityUpdate,
    PFSFeeUpdate,
    MSUpdate,
}

/// The outcome of converting a message into state changes: each message
/// about a transfer as its own conversion gives, one state change where it
/// gives one; the updates meant for the path finding and monitoring
/// services give none.
pub open spec fn spec_convert(
    message: Message,
    our_address: Address,
    decrypted: Option<Result<DecryptedSecret, String>>,
    chain_state: &ChainState,
    r: Result<Vec<StateChange>, String>,
) -> bool {
    match message {
        Message::LockedTransfer(m) => spec_locked_transfer_received(&m, our_address, decrypted, chain_state, r),
        Message::LockExpired(m) => exists|x: Result<ReceiveLockExpired, String>|
            #[trigger] spec_lock_expired_received(m, x) && match x {
                Ok(s) => r is Ok && r->Ok_0@ == seq![StateChange::ReceiveLockExpired(s)],
                Err(e) => r == Err::<Vec<StateChange>, String>(e),
            },
        Message::SecretRequest(m) => exists|x: Result<ReceiveSecretRequest, String>|
            #[trigger] spec_secret_request_received(m, x) && match x {
                Ok(s) => r is Ok && r->Ok_0@ == seq![StateChange::ReceiveSecretRequest(s)],
                Err(e) => r == Err::<Vec<StateChange>, String>(e),
            },
        Message::SecretReveal(m) => exists|x: Result<ReceiveSecretReveal, String>|
            #[trigger] spec_secret_reveal_received(m, x) && match x {
                Ok(s) => r is Ok && r->Ok_0@ == seq![StateChange::ReceiveSecretReveal(s)],
                Err(e) => r == Err::<Vec<StateChange>, String>(e),
            },
        Message::Unlock(m) => exists|x: Result<ReceiveUnlock, String>|
            #[trigger] spec_unlock_received(m, x) && match x {
                Ok(s) => r is Ok && r->Ok_0@ == seq![StateChange::ReceiveUnlock(s)],
                Err(e) => r == Err::<Vec<StateChange>, String>(e),
            },
        _ => r is Ok && r->Ok_0@.len() == 0,
    }
}

/// Converts a message from another node into the state changes it gives.
pub fn convert(
    message: Message,
    our_address: Address,
    decrypted: Option<Result<DecryptedSecret, String>>,
    chain_state: &ChainState,
) -> (r: Result<Vec<StateChange>, String>)
    ensures
        spec_convert(message, our_address, decrypted, chain_state, r),
{
    match message {
        Message::LockedTransfer(m) => {
            let ghost mg = m;
            let r = locked_transfer_from_message(m, our_address, decrypted, chain_state);
            assert(spec_locked_transfer_received(&mg, our_address, decrypted, chain_state, r));
            r
        },
        Message::LockExpired(m) => {
            let x = lock_expired_from_message(&m);
            let ghost xg = x;
            let r = match x {
                Ok(s) => {
                    let v = vec![StateChange::ReceiveLockExpired(s)];
                    assert(v@ =~= seq![StateChange::ReceiveLockExpired(s)]);
                    Ok(v)
                },
                Err(e) => Err(e),
            };
            assert(spec_lock_expired_received(m, xg));
            r
        },
        Message::SecretRequest(m) => {
            let x = secret_request_from_message(&m);
            let ghost xg = x;
            let r = match x {
                Ok(s) => {
                    let v = vec![StateChange::ReceiveSecretRequest(s)];
                    assert(v@ =~= seq![StateChange::ReceiveSecretRequest(s)]);
                    Ok(v)
                },
                Err(e) => Err(e),
            };
            assert(spec_secret_request_received(m, xg));
            r
        },
        Message::SecretReveal(m) => {
            let x = secret_reveal_from_message(&m);
            let ghost xg = x;
            let r = match x {
                Ok(s) => {
                    let v = vec![StateChange::ReceiveSecretReveal(s)];
                    assert(v@ =~= seq![StateChange::ReceiveSecretReveal(s)]);
                    Ok(v)
                },
                Err(e) => Err(e),
            };
            assert(spec_secret_reveal_received(m, xg));
            r
        },
        Message::Unlock(m) => {
            let x = unlock_from_message(&m);
            let ghost xg = x;
            let r = match x {
                Ok(s) => {
                    let v = vec![StateChange::ReceiveUnlock(s)];
                    assert(v@ =~= seq![StateChange::ReceiveUnlock(s)]);
                    Ok(v)
                },
                Err(e) => Err(e),
            };
            assert(spec_unlock_received(m, xg));
            r
        },
        _ => Ok(Vec::new()),
    }
}

} // verus!
