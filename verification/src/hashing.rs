//! Hashing, packing and signature recovery: the byte layouts that the
//! on-chain contracts check, over Keccak-256 and ECDSA recovery.
use vstd::prelude::*;

use crate::primitives::{u256_be_bytes, Address, Signature, H256, U256};
use crate::types::state::{CanonicalIdentifier, Nonce, TokenAmount};

verus! {

/// The Keccak-256 digest of a byte string.
pub uninterp spec fn keccak256(data: Seq<u8>) -> Seq<u8>;

/// The address recovered from a 64-byte compact signature over a 32-byte
/// message with a recovery id, or `None` when recovery fails.
pub uninterp spec fn ecdsa_recover(message: Seq<u8>, signature: Seq<u8>, recovery_id: int) -> Option<
    Seq<u8>,
>;

/// Calls `web3::signing::keccak256`, whose result `keccak256` names.
#[verifier::external_body]
fn outside_keccak256(data: &[u8]) -> (r: [u8; 32])
    ensures
        r@ == keccak256(data@),
{
    web3::signing::keccak256(data)
}

/// Calls `web3::signing::recover` on a message hash, the 64 signature bytes
/// and a recovery id; `ecdsa_recover` names its outcome, an error becoming
/// `None`.
#[verifier::external_body]
fn outside_recover(message: &[u8; 32], signature: &[u8], recovery_id: i32) -> (r: Option<Address>)
    ensures
        r.is_some() == ecdsa_recover(message@, signature@, recovery_id as int).is_some(),
        r.is_some() ==> r.unwrap()@ == ecdsa_recover(
            message@,
            signature@,
            recovery_id as int,
        ).unwrap(),
{
    match web3::signing::recover(message, signature, recovery_id) {
        Ok(a) => Some(Address { bytes: a.0 }),
        Err(_) => None,
    }
}

/// The Keccak-256 digest of `data`.
pub fn keccak(data: &[u8]) -> (r: H256)
    ensures
        r@ == keccak256(data@),
{
    H256 { bytes: outside_keccak256(data) }
}

/// Appends the bytes of `src` to `dst`.
pub fn extend_bytes(dst: &mut Vec<u8>, src: &[u8])
    ensures
        final(dst)@ == old(dst)@ + src@,
{
    let mut i: usize = 0;
    while i < src.len()
        invariant
            i <= src@.len(),
            dst@ == old(dst)@ + src@.subrange(0, i as int),
        decreases src@.len() - i,
    {
        dst.push(src[i]);
        i = i + 1;
        assert(dst@ =~= old(dst)@ + src@.subrange(0, i as int));
    }
    assert(src@.subrange(0, src@.len() as int) =~= src@);
}

/// The big-endian 32-byte encoding of a 64-bit number.
pub open spec fn u64_word(x: u64) -> Seq<u8> {
    u256_be_bytes(x as nat)
}

pub fn u64_to_word(x: u64) -> (r: [u8; 32])
    ensures
        r@ == u64_word(x),
{
    U256::from_u64(x).to_be_bytes()
}

/// The decimal digits of `n`, in ASCII.
pub open spec fn decimal_ascii(n: nat) -> Seq<u8>
    decreases n,
{
    if n < 10 {
        seq![(48 + n) as u8]
    } else {
        decimal_ascii(n / 10).push((48 + n % 10) as u8)
    }
}

pub fn decimal(n: usize) -> (r: Vec<u8>)
    ensures
        r@ == decimal_ascii(n as nat),
    decreases n,
{
    if n < 10 {
        let mut v = Vec::new();
        v.push((48 + n) as u8);
        assert(v@ =~= seq![(48 + n) as u8]);
        v
    } else {
        let mut v = decimal(n / 10);
        v.push((48 + n % 10) as u8);
        v
    }
}

/// The prefix of messages signed with the Ethereum `personal_sign` scheme.
pub open spec fn eth_message_prefix() -> Seq<u8> {
    seq![
        0x19u8, 69u8, 116u8, 104u8, 101u8, 114u8, 101u8, 117u8, 109u8, 32u8, 83u8, 105u8, 103u8,
        110u8, 101u8, 100u8, 32u8, 77u8, 101u8, 115u8, 115u8, 97u8, 103u8, 101u8, 58u8, 10u8,
    ]
}

/// The digest that a `personal_sign` signature over `data` signs.
pub open spec fn eth_message_hash(data: Seq<u8>) -> Seq<u8> {
    keccak256(eth_message_prefix() + decimal_ascii(data.len()) + data)
}

/// The signer of `data`, recovered from a signature whose last byte is
/// 27 + the recovery id.
pub open spec fn spec_recover_signer(data: Seq<u8>, signature: Seq<u8>) -> Option<Seq<u8>> {
    ecdsa_recover(eth_message_hash(data), signature.subrange(0, 64), signature[64] - 27)
}

/// Recovers the address that signed `data`.
pub fn recover_signer(data: &Vec<u8>, signature: &Signature) -> (r: Option<Address>)
    ensures
        r.is_some() == spec_recover_signer(data@, signature@).is_some(),
        r.is_some() ==> r.unwrap()@ == spec_recover_signer(data@, signature@).unwrap(),
{
    let mut prefixed: Vec<u8> = Vec::new();
    let prefix: [u8; 26] = [
        0x19u8, 69u8, 116u8, 104u8, 101u8, 114u8, 101u8, 117u8, 109u8, 32u8, 83u8, 105u8, 103u8,
        110u8, 101u8, 100u8, 32u8, 77u8, 101u8, 115u8, 115u8, 97u8, 103u8, 101u8, 58u8, 10u8,
    ];
    assert(prefix@ =~= eth_message_prefix());
    extend_bytes(&mut prefixed, prefix.as_slice());
    let digits = decimal(data.len());
    extend_bytes(&mut prefixed, digits.as_slice());
    extend_bytes(&mut prefixed, data.as_slice());
    assert(prefixed@ =~= eth_message_prefix() + decimal_ascii(data@.len()) + data@);
    let hash = outside_keccak256(prefixed.as_slice());
    let mut compact: Vec<u8> = Vec::new();
    let mut i: usize = 0;
    while i < 64
        invariant
            i <= 64,
            signature@.len() == 65,
            compact@ == signature@.subrange(0, i as int),
        decreases 64 - i,
    {
        compact.push(signature.bytes[i]);
        i = i + 1;
        assert(compact@ =~= signature@.subrange(0, i as int));
    }
    let recovery_id: i32 = signature.bytes[64] as i32 - 27;
    outside_recover(&hash, compact.as_slice(), recovery_id)
}

/// The digest of the empty byte string: the locksroot of an end without
/// pending locks.
pub open spec fn locksroot_of_no_locks() -> Seq<u8> {
    keccak256(Seq::empty())
}

pub fn compute_locksroot_of_no_locks() -> (r: H256)
    ensures
        r@ == locksroot_of_no_locks(),
{
    let empty: Vec<u8> = Vec::new();
    assert(empty@ =~= Seq::<u8>::empty());
    keccak(empty.as_slice())
}

/// The balance hash of a balance proof: zero for an untouched end, else the
/// digest of the two amounts and the locksroot.
pub open spec fn spec_hash_balance_data(
    transferred_amount: nat,
    locked_amount: nat,
    locksroot: Seq<u8>,
) -> Seq<u8> {
    if transferred_amount == 0 && locked_amount == 0 && locksroot == locksroot_of_no_locks() {
        Seq::new(32, |i: int| 0u8)
    } else {
        keccak256(u256_be_bytes(transferred_amount) + u256_be_bytes(locked_amount) + locksroot)
    }
}

pub fn hash_balance_data(transferred_amount: U256, locked_amount: U256, locksroot: H256) -> (r: H256)
    ensures
        r@ == spec_hash_balance_data(transferred_amount@, locked_amount@, locksroot@),
{
    let none = compute_locksroot_of_no_locks();
    if transferred_amount.is_zero() && locked_amount.is_zero() && locksroot.equals(&none) {
        return H256::zero();
    }
    let mut data: Vec<u8> = Vec::new();
    let t = transferred_amount.to_be_bytes();
    let l = locked_amount.to_be_bytes();
    extend_bytes(&mut data, t.as_slice());
    extend_bytes(&mut data, l.as_slice());
    extend_bytes(&mut data, locksroot.bytes.as_slice());
    proof {
        if locksroot@ == none@ {
            assert(locksroot.bytes =~= none.bytes);
        }
    }
    assert(data@ =~= t@ + l@ + locksroot@);
    keccak(data.as_slice())
}

/// The message type tag of balance proofs in signed data.
pub open spec fn spec_balance_proof_type() -> nat {
    1
}

/// The message type tag of withdraws in signed data.
pub open spec fn spec_withdraw_type() -> nat {
    3
}

/// The data that a balance proof signature signs.
pub open spec fn spec_pack_balance_proof(
    nonce: nat,
    balance_hash: Seq<u8>,
    additional_hash: Seq<u8>,
    canonical_identifier: CanonicalIdentifier,
) -> Seq<u8> {
    canonical_identifier.token_network_address@ + u256_be_bytes(
        canonical_identifier.chain_identifier as nat,
    ) + u256_be_bytes(spec_balance_proof_type()) + u256_be_bytes(
        canonical_identifier.channel_identifier@,
    ) + balance_hash + u256_be_bytes(nonce) + additional_hash
}

/// Packs the data that a balance proof signature signs.
pub fn pack_balance_proof(
    nonce: Nonce,
    balance_hash: H256,
    additional_hash: H256,
    canonical_identifier: CanonicalIdentifier,
) -> (r: Vec<u8>)
    ensures
        r@ == spec_pack_balance_proof(nonce@, balance_hash@, additional_hash@, canonical_identifier),
{
    let mut data: Vec<u8> = Vec::new();
    extend_bytes(&mut data, canonical_identifier.token_network_address.bytes.as_slice());
    let chain = u64_to_word(canonical_identifier.chain_identifier);
    extend_bytes(&mut data, chain.as_slice());
    let tag = u64_to_word(1);
    extend_bytes(&mut data, tag.as_slice());
    let channel = canonical_identifier.channel_identifier.to_be_bytes();
    extend_bytes(&mut data, channel.as_slice());
    extend_bytes(&mut data, balance_hash.bytes.as_slice());
    let n = nonce.to_be_bytes();
    extend_bytes(&mut data, n.as_slice());
    extend_bytes(&mut data, additional_hash.bytes.as_slice());
    data
}

/// The data that a withdraw signature signs.
pub open spec fn spec_pack_withdraw(
    canonical_identifier: CanonicalIdentifier,
    participant: Address,
    total_withdraw: nat,
    expiration_block: u64,
) -> Seq<u8> {
    canonical_identifier.token_network_address@ + u256_be_bytes(
        canonical_identifier.chain_identifier as nat,
    ) + u256_be_bytes(spec_withdraw_type()) + u256_be_bytes(canonical_identifier.channel_identifier@)
        + participant@ + u256_be_bytes(total_withdraw) + u256_be_bytes(expiration_block as nat)
}

/// Packs the data that a withdraw signature signs.
pub fn pack_withdraw(
    canonical_identifier: CanonicalIdentifier,
    participant: Address,
    total_withdraw: TokenAmount,
    expiration_block: u64,
) -> (r: Vec<u8>)
    ensures
        r@ == spec_pack_withdraw(canonical_identifier, participant, total_withdraw@, expiration_block),
{
    let mut data: Vec<u8> = Vec::new();
    extend_bytes(&mut data, canonical_identifier.token_network_address.bytes.as_slice());
    let chain = u64_to_word(canonical_identifier.chain_identifier);
    extend_bytes(&mut data, chain.as_slice());
    let tag = u64_to_word(3);
    extend_bytes(&mut data, tag.as_slice());
    let channel = canonical_identifier.channel_identifier.to_be_bytes();
    extend_bytes(&mut data, channel.as_slice());
    extend_bytes(&mut data, participant.bytes.as_slice());
    let t = total_withdraw.to_be_bytes();
    extend_bytes(&mut data, t.as_slice());
    let e = u64_to_word(expiration_block);
    extend_bytes(&mut data, e.as_slice());
    data
}

} // verus!
