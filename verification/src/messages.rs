//! The protocol messages about transfers: the bytes that their signatures
//! sign, the hashes that balance proofs carry for them, and the messages
//! that the node's send events give.
use vstd::prelude::*;

use crate::hashing::{
    extend_bytes, hash_balance_data, keccak, keccak256, pack_balance_proof, spec_hash_balance_data,
    spec_pack_balance_proof, u64_to_word, u64_word,
};
use crate::incoming::{
    spec_incoming_channel, LockExpiredMessage, LockedTransferMessage, MessageBalanceProof,
    MessageRoute, SecretRequestMessage, SecretRevealMessage, UnlockMessage,
};
use crate::primitives::{u256_be_bytes, Signature, H256, U256};
use crate::routes::copy_addresses;
use crate::types::event::{SendLockExpired, SendLockedTransfer, SendSecretRequest, SendSecretReveal, SendUnlock};
use crate::types::state::{BalanceProofState, CanonicalIdentifier, RouteState};

verus! {

/// The command id that heads the signed bytes of a secret request, and, as
/// the node writes them, of a secret reveal.
pub open spec fn spec_secret_request_cmd() -> u8 {
    3
}

/// The command id that heads the hashed bytes of a lock expiry, and, as the
/// node writes them, of an unlock and of a locked transfer.
pub open spec fn spec_lock_expired_cmd() -> u8 {
    13
}

/// A message identifier as it travels: the four big-endian bytes of its
/// low 32 bits.
pub open spec fn spec_identifier_bytes(id: u64) -> Seq<u8> {
    u256_be_bytes((id % 0x1_0000_0000) as nat).subrange(28, 32)
}

/// The eight big-endian bytes of a 64-bit number.
pub open spec fn spec_u64_bytes(x: u64) -> Seq<u8> {
    u64_word(x).subrange(24, 32)
}

/// A 64-bit number written into a 32-byte field as the node writes it: its
/// eight big-endian bytes first, then zeros.
pub open spec fn spec_u64_field(x: u64) -> Seq<u8> {
    spec_u64_bytes(x) + Seq::new(24, |i: int| 0u8)
}

/// Appends the bytes of `src` from position `from` on.
fn extend_tail(dst: &mut Vec<u8>, src: &[u8], from: usize)
    requires
        from <= src@.len(),
    ensures
        final(dst)@ == old(dst)@ + src@.subrange(from as int, src@.len() as int),
{
    let mut i: usize = from;
    while i < src.len()
        invariant
            from <= i <= src@.len(),
            dst@ == old(dst)@ + src@.subrange(from as int, i as int),
        decreases src@.len() - i,
    {
        dst.push(src[i]);
        i = i + 1;
        assert(dst@ =~= old(dst)@ + src@.subrange(from as int, i as int));
    }
}

fn extend_identifier(dst: &mut Vec<u8>, id: u64)
    ensures
        final(dst)@ == old(dst)@ + spec_identifier_bytes(id),
{
    let word = U256::from_u64(id % 0x1_0000_0000).to_be_bytes();
    extend_tail(dst, word.as_slice(), 28);
}

fn extend_u64(dst: &mut Vec<u8>, x: u64)
    ensures
        final(dst)@ == old(dst)@ + spec_u64_bytes(x),
{
    let word = u64_to_word(x);
    extend_tail(dst, word.as_slice(), 24);
}

fn extend_u64_field(dst: &mut Vec<u8>, x: u64)
    ensures
        final(dst)@ == old(dst)@ + spec_u64_field(x),
{
    let ghost before = dst@;
    extend_u64(dst, x);
    let zeros: [u8; 24] = [0u8; 24];
    assert(zeros@ =~= Seq::new(24, |i: int| 0u8));
    extend_bytes(dst, zeros.as_slice());
    assert(dst@ =~= before + spec_u64_field(x));
}

/// The bytes that a secret request's signature signs.
pub open spec fn spec_secret_request_signed_data(m: SecretRequestMessage) -> Seq<u8> {
    seq![spec_secret_request_cmd()] + spec_identifier_bytes(m.message_identifier) + spec_u64_bytes(
        m.payment_identifier,
    ) + m.secrethash@ + u256_be_bytes(m.amount@) + spec_u64_field(m.expiration)
}

pub fn secret_request_signed_data(m: &SecretRequestMessage) -> (r: Vec<u8>)
    ensures
        r@ == spec_secret_request_signed_data(*m),
{
    let mut r: Vec<u8> = Vec::new();
    r.push(3u8);
    extend_identifier(&mut r, m.message_identifier);
    extend_u64(&mut r, m.payment_identifier);
    extend_bytes(&mut r, m.secrethash.bytes.as_slice());
    let amount = m.amount.to_be_bytes();
    extend_bytes(&mut r, amount.as_slice());
    extend_u64_field(&mut r, m.expiration);
    assert(r@ =~= spec_secret_request_signed_data(*m));
    r
}

/// The bytes that a secret reveal's signature signs: the command id of a
/// secret request, then the secret.
pub open spec fn spec_secret_reveal_signed_data(m: SecretRevealMessage) -> Seq<u8> {
    seq![spec_secret_request_cmd()] + m.secret@
}

pub fn secret_reveal_signed_data(m: &SecretRevealMessage) -> (r: Vec<u8>)
    ensures
        r@ == spec_secret_reveal_signed_data(*m),
{
    let mut r: Vec<u8> = Vec::new();
    r.push(3u8);
    extend_bytes(&mut r, m.secret.bytes.as_slice());
    assert(r@ =~= spec_secret_reveal_signed_data(*m));
    r
}

/// The channel that a message's balance proof is about.
pub open spec fn spec_message_channel(b: MessageBalanceProof) -> CanonicalIdentifier {
    spec_incoming_channel(b.chain_id, b.token_network_address, b.channel_identifier)
}

/// The bytes that the signature of a message with a balance proof signs:
/// its balance proof packed with the message's hash.
pub open spec fn spec_balance_proof_signed_data(b: MessageBalanceProof, message_hash: Seq<u8>) -> Seq<u8> {
    spec_pack_balance_proof(
        b.nonce@,
        spec_hash_balance_data(b.transferred_amount@, b.locked_amount@, b.locksroot@),
        message_hash,
        spec_message_channel(b),
    )
}

fn balance_proof_signed_data(b: &MessageBalanceProof, message_hash: H256) -> (r: Vec<u8>)
    ensures
        r@ == spec_balance_proof_signed_data(*b, message_hash@),
{
    let balance_hash = hash_balance_data(b.transferred_amount, b.locked_amount, b.locksroot);
    pack_balance_proof(
        b.nonce,
        balance_hash,
        message_hash,
        CanonicalIdentifier {
            chain_identifier: b.chain_id,
            token_network_address: b.token_network_address,
            channel_identifier: b.channel_identifier,
        },
    )
}

/// The bytes whose hash is a lock expiry's message hash.
pub open spec fn spec_lock_expired_hash_data(m: LockExpiredMessage) -> Seq<u8> {
    seq![spec_lock_expired_cmd()] + spec_identifier_bytes(m.message_identifier) + m.recipient@
        + m.secrethash@
}

pub fn lock_expired_message_hash(m: &LockExpiredMessage) -> (r: H256)
    ensures
        r@ == keccak256(spec_lock_expired_hash_data(*m)),
{
    let mut data: Vec<u8> = Vec::new();
    data.push(13u8);
    extend_identifier(&mut data, m.message_identifier);
    extend_bytes(&mut data, m.recipient.bytes.as_slice());
    extend_bytes(&mut data, m.secrethash.bytes.as_slice());
    assert(data@ =~= spec_lock_expired_hash_data(*m));
    keccak(data.as_slice())
}

/// The bytes that a lock expiry's signature signs.
pub open spec fn spec_lock_expired_signed_data(m: LockExpiredMessage) -> Seq<u8> {
    spec_balance_proof_signed_data(m.balance_proof, keccak256(spec_lock_expired_hash_data(m)))
}

pub fn lock_expired_signed_data(m: &LockExpiredMessage) -> (r: Vec<u8>)
    ensures
        r@ == spec_lock_expired_signed_data(*m),
{
    balance_proof_signed_data(&m.balance_proof, lock_expired_message_hash(m))
}

/// The bytes whose hash is an unlock's message hash: the command id of a
/// lock expiry, the identifiers, then the secret.
pub open spec fn spec_unlock_hash_data(m: UnlockMessage) -> Seq<u8> {
    seq![spec_lock_expired_cmd()] + spec_identifier_bytes(m.message_identifier) + spec_u64_bytes(
        m.payment_identifier,
    ) + m.secret@
}

pub fn unlock_message_hash(m: &UnlockMessage) -> (r: H256)
    ensures
        r@ == keccak256(spec_unlock_hash_data(*m)),
{
    let mut data: Vec<u8> = Vec::new();
    data.push(13u8);
    extend_identifier(&mut data, m.message_identifier);
    extend_u64(&mut data, m.payment_identifier);
    extend_bytes(&mut data, m.secret.bytes.as_slice());
    assert(data@ =~= spec_unlock_hash_data(*m));
    keccak(data.as_slice())
}

/// The bytes that an unlock's signature signs.
pub open spec fn spec_unlock_signed_data(m: UnlockMessage) -> Seq<u8> {
    spec_balance_proof_signed_data(m.balance_proof, keccak256(spec_unlock_hash_data(m)))
}

pub fn unlock_signed_data(m: &UnlockMessage) -> (r: Vec<u8>)
    ensures
        r@ == spec_unlock_signed_data(*m),
{
    balance_proof_signed_data(&m.balance_proof, unlock_message_hash(m))
}

/// The bytes whose hash is a locked transfer's message hash: the command id
/// of a lock expiry, the identifiers, then the secret where it travels.
pub open spec fn spec_locked_transfer_hash_data(m: &LockedTransferMessage) -> Seq<u8> {
    seq![spec_lock_expired_cmd()] + spec_identifier_bytes(m.message_identifier) + spec_u64_bytes(
        m.payment_identifier,
    ) + match m.secret {
        Some(s) => s@,
        None => Seq::empty(),
    }
}

pub fn locked_transfer_message_hash(m: &LockedTransferMessage) -> (r: H256)
    ensures
        r@ == keccak256(spec_locked_transfer_hash_data(m)),
{
    let mut data: Vec<u8> = Vec::new();
    data.push(13u8);
    extend_identifier(&mut data, m.message_identifier);
    extend_u64(&mut data, m.payment_identifier);
    match &m.secret {
        Some(s) => extend_bytes(&mut data, s.bytes.as_slice()),
        None => {},
    }
    assert(data@ =~= spec_locked_transfer_hash_data(m));
    keccak(data.as_slice())
}

/// The bytes that a locked transfer's signature signs.
pub open spec fn spec_locked_transfer_signed_data(m: &LockedTransferMessage) -> Seq<u8> {
    spec_balance_proof_signed_data(m.balance_proof, keccak256(spec_locked_transfer_hash_data(m)))
}

pub fn locked_transfer_signed_data(m: &LockedTransferMessage) -> (r: Vec<u8>)
    ensures
        r@ == spec_locked_transfer_signed_data(m),
{
    balance_proof_signed_data(&m.balance_proof, locked_transfer_message_hash(m))
}


/// The signature of a message not yet signed: all zero.
pub open spec fn spec_unsigned(signature: Signature) -> bool {
    signature@ == Seq::new(65, |i: int| 0u8)
}

fn unsigned() -> (r: Signature)
    ensures
        spec_unsigned(r),
{
    let r = Signature { bytes: [0u8; 65] };
    assert(r@ =~= Seq::new(65, |i: int| 0u8));
    r
}

/// The balance proof that a message carries: the channel of its event, the
/// amounts, nonce and locksroot of the event's balance proof.
pub open spec fn spec_message_balance_proof(
    channel: CanonicalIdentifier,
    b: BalanceProofState,
) -> MessageBalanceProof {
    MessageBalanceProof {
        chain_id: channel.chain_identifier,
        token_network_address: channel.token_network_address,
        channel_identifier: channel.channel_identifier,
        nonce: b.nonce,
        transferred_amount: b.transferred_amount,
        locked_amount: b.locked_amount,
        locksroot: b.locksroot,
    }
}

fn message_balance_proof(channel: CanonicalIdentifier, b: &BalanceProofState) -> (r: MessageBalanceProof)
    ensures
        r == spec_message_balance_proof(channel, *b),
{
    MessageBalanceProof {
        chain_id: channel.chain_identifier,
        token_network_address: channel.token_network_address,
        channel_identifier: channel.channel_identifier,
        nonce: b.nonce,
        transferred_amount: b.transferred_amount,
        locked_amount: b.locked_amount,
        locksroot: b.locksroot,
    }
}

/// `m` is the secret request that the event `e` sends, not yet signed.
pub open spec fn spec_secret_request_message_of(e: SendSecretRequest, m: SecretRequestMessage) -> bool {
    &&& m.message_identifier == e.inner.message_identifier
    &&& m.payment_identifier == e.payment_identifier
    &&& m.secrethash == e.secrethash
    &&& m.amount == e.amount
    &&& m.expiration == e.expiration
    &&& spec_unsigned(m.signature)
}

/// The secret request that the event sends.
pub fn secret_request_message(e: &SendSecretRequest) -> (r: SecretRequestMessage)
    ensures
        spec_secret_request_message_of(*e, r),
{
    SecretRequestMessage {
        message_identifier: e.inner.message_identifier,
        payment_identifier: e.payment_identifier,
        secrethash: e.secrethash,
        amount: e.amount,
        expiration: e.expiration,
        signature: unsigned(),
    }
}

/// `m` is the secret reveal that the event `e` sends, not yet signed.
pub open spec fn spec_secret_reveal_message_of(e: SendSecretReveal, m: SecretRevealMessage) -> bool {
    &&& m.message_identifier == e.inner.message_identifier
    &&& m.secret == e.secret
    &&& spec_unsigned(m.signature)
}

/// The secret reveal that the event sends.
pub fn secret_reveal_message(e: &SendSecretReveal) -> (r: SecretRevealMessage)
    ensures
        spec_secret_reveal_message_of(*e, r),
{
    SecretRevealMessage { message_identifier: e.inner.message_identifier, secret: e.secret, signature: unsigned() }
}

/// `m` is the lock expiry that the event `e` sends, not yet signed.
pub open spec fn spec_lock_expired_message_of(e: SendLockExpired, m: LockExpiredMessage) -> bool {
    &&& m.message_identifier == e.inner.message_identifier
    &&& m.recipient == e.inner.recipient
    &&& m.secrethash == e.secrethash
    &&& m.balance_proof == spec_message_balance_proof(e.inner.canonical_identifier, e.balance_proof)
    &&& spec_unsigned(m.signature)
}

/// The lock expiry that the event sends.
pub fn lock_expired_message(e: &SendLockExpired) -> (r: LockExpiredMessage)
    ensures
        spec_lock_expired_message_of(*e, r),
{
    LockExpiredMessage {
        message_identifier: e.inner.message_identifier,
        recipient: e.inner.recipient,
        secrethash: e.secrethash,
        balance_proof: message_balance_proof(e.inner.canonical_identifier, &e.balance_proof),
        signature: unsigned(),
    }
}

/// `m` is the unlock that the event `e` sends, not yet signed.
pub open spec fn spec_unlock_message_of(e: SendUnlock, m: UnlockMessage) -> bool {
    &&& m.message_identifier == e.inner.message_identifier
    &&& m.payment_identifier == e.payment_identifier
    &&& m.secret == e.secret
    &&& m.balance_proof == spec_message_balance_proof(e.inner.canonical_identifier, e.balance_proof)
    &&& spec_unsigned(m.signature)
}

/// The unlock that the event sends.
pub fn unlock_message(e: &SendUnlock) -> (r: UnlockMessage)
    ensures
        spec_unlock_message_of(*e, r),
{
    UnlockMessage {
        message_identifier: e.inner.message_identifier,
        payment_identifier: e.payment_identifier,
        secret: e.secret,
        balance_proof: message_balance_proof(e.inner.canonical_identifier, &e.balance_proof),
        signature: unsigned(),
    }
}

/// `m` carries the route `r`: its nodes and their metadata.
pub open spec fn spec_message_route_of(m: MessageRoute, r: RouteState) -> bool {
    &&& m.route@ == r.route@
    &&& m.address_metadata@ == r.address_to_metadata@
}

fn message_routes(routes: &Vec<RouteState>) -> (r: Vec<MessageRoute>)
    ensures
        r@.len() == routes@.len(),
        forall|i: int| 0 <= i < r@.len() ==> spec_message_route_of(#[trigger] r@[i], routes@[i]),
{
    let mut r: Vec<MessageRoute> = Vec::new();
    let mut i: usize = 0;
    while i < routes.len()
        invariant
            i <= routes@.len(),
            r@.len() == i,
            forall|j: int| 0 <= j < i ==> spec_message_route_of(#[trigger] r@[j], routes@[j]),
        decreases routes@.len() - i,
    {
        r.push(
            MessageRoute {
                route: copy_addresses(&routes[i].route),
                address_metadata: crate::routes::copy_metadata(&routes[i].address_to_metadata),
            },
        );
        i = i + 1;
    }
    r
}

/// `m` is the locked transfer that the event `e` sends, not yet signed.
pub open spec fn spec_locked_transfer_message_of(e: &SendLockedTransfer, m: &LockedTransferMessage) -> bool {
    let t = e.transfer;
    &&& m.message_identifier == e.inner.message_identifier
    &&& m.recipient == e.inner.recipient
    &&& m.payment_identifier == t.payment_identifier
    &&& m.token == t.token
    &&& m.lock_amount == t.lock.amount
    &&& m.lock_expiration == t.lock.expiration
    &&& m.lock_secrethash == Some(t.lock.secrethash)
    &&& m.initiator == t.initiator
    &&& m.target == t.target
    &&& m.secret == t.secret
    &&& m.balance_proof == spec_message_balance_proof(e.inner.canonical_identifier, t.balance_proof)
    &&& m.routes@.len() == t.route_states@.len()
    &&& forall|i: int| 0 <= i < m.routes@.len() ==> spec_message_route_of(#[trigger] m.routes@[i], t.route_states@[i])
    &&& spec_unsigned(m.signature)
}

/// The locked transfer that the event sends, with the routes of the
/// transfer as its metadata.
pub fn locked_transfer_message(e: &SendLockedTransfer) -> (r: LockedTransferMessage)
    ensures
        spec_locked_transfer_message_of(e, &r),
{
    let t = &e.transfer;
    LockedTransferMessage {
        message_identifier: e.inner.message_identifier,
        recipient: e.inner.recipient,
        payment_identifier: t.payment_identifier,
        token: t.token,
        lock_amount: t.lock.amount,
        lock_expiration: t.lock.expiration,
        lock_secrethash: Some(t.lock.secrethash),
        initiator: t.initiator,
        target: t.target,
        secret: t.secret,
        routes: message_routes(&t.route_states),
        balance_proof: message_balance_proof(e.inner.canonical_identifier, &t.balance_proof),
        signature: unsigned(),
    }
}

} // verus!
