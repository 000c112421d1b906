//! Pending locks and their root hash.
use vstd::prelude::*;

use crate::hashing::{extend_bytes, keccak, keccak256};
use crate::primitives::{u256_be_bytes, U256};
use crate::types::state::{
    BlockExpiration, EncodedLock, HashTimeLockState, Locksroot, PendingLocksState, SecretHash,
    TokenAmount,
};

verus! {

/// The encoding of a lock: expiration, amount and secret hash as 32-byte words.
pub open spec fn spec_encode_lock(amount: nat, expiration: u64, secrethash: Seq<u8>) -> Seq<u8> {
    u256_be_bytes(expiration as nat) + u256_be_bytes(amount) + secrethash
}

impl HashTimeLockState {
    /// A lock with its encoding.
    pub fn create(amount: TokenAmount, expiration: BlockExpiration, secrethash: SecretHash) -> (r:
        HashTimeLockState)
        ensures
            r.amount == amount,
            r.expiration == expiration,
            r.secrethash == secrethash,
            r.encoded@ == spec_encode_lock(amount@, expiration, secrethash@),
    {
        let e = U256::from_u64(expiration).to_be_bytes();
        let a = amount.to_be_bytes();
        let mut bytes = [0u8; 96];
        let mut i: usize = 0;
        while i < 32
            invariant
                i <= 32,
                forall|j: int| 0 <= j < i ==> bytes@[j] == e@[j],
            decreases 32 - i,
        {
            bytes[i] = e[i];
            i = i + 1;
        }
        while i < 64
            invariant
                32 <= i <= 64,
                forall|j: int| 0 <= j < 32 ==> bytes@[j] == e@[j],
                forall|j: int| 32 <= j < i ==> bytes@[j] == a@[j - 32],
            decreases 64 - i,
        {
            bytes[i] = a[i - 32];
            i = i + 1;
        }
        while i < 96
            invariant
                64 <= i <= 96,
                forall|j: int| 0 <= j < 32 ==> bytes@[j] == e@[j],
                forall|j: int| 32 <= j < 64 ==> bytes@[j] == a@[j - 32],
                forall|j: int| 64 <= j < i ==> bytes@[j] == secrethash@[j - 64],
            decreases 96 - i,
        {
            bytes[i] = secrethash.bytes[i - 64];
            i = i + 1;
        }
        assert(bytes@ =~= spec_encode_lock(amount@, expiration, secrethash@));
        HashTimeLockState { amount, expiration, secrethash, encoded: EncodedLock { bytes } }
    }
}

/// True when `s` holds `x`.
pub fn locks_contain(s: &Vec<EncodedLock>, x: &EncodedLock) -> (r: bool)
    ensures
        r == s@.contains(*x),
{
    let mut i: usize = 0;
    while i < s.len()
        invariant
            i <= s@.len(),
            forall|j: int| 0 <= j < i ==> s@[j] != *x,
        decreases s@.len() - i,
    {
        if s[i].equals(x) {
            assert(s@[i as int] == *x);
            return true;
        }
        i = i + 1;
    }
    false
}

/// `s` without any occurrence of `x`.
pub open spec fn without_lock(s: Seq<EncodedLock>, x: EncodedLock) -> Seq<EncodedLock>
    decreases s.len(),
{
    if s.len() == 0 {
        s
    } else if s.last() == x {
        without_lock(s.drop_last(), x)
    } else {
        without_lock(s.drop_last(), x).push(s.last())
    }
}

/// Returns a new `PendingLocksState` from an existing one and a new lock.
pub fn compute_locks_with(pending_locks: &PendingLocksState, lock: HashTimeLockState) -> (r: Option<
    PendingLocksState,
>)
    ensures
        r.is_none() == pending_locks.locks@.contains(lock.encoded),
        r.is_some() ==> r.unwrap().locks@ == pending_locks.locks@.push(lock.encoded),
{
    if !locks_contain(&pending_locks.locks, &lock.encoded) {
        let mut locks: Vec<EncodedLock> = Vec::new();
        let mut i: usize = 0;
        while i < pending_locks.locks.len()
            invariant
                i <= pending_locks.locks@.len(),
                locks@ == pending_locks.locks@.subrange(0, i as int),
            decreases pending_locks.locks@.len() - i,
        {
            locks.push(pending_locks.locks[i]);
            i = i + 1;
            assert(locks@ =~= pending_locks.locks@.subrange(0, i as int));
        }
        assert(locks@ =~= pending_locks.locks@);
        locks.push(lock.encoded);
        return Some(PendingLocksState { locks });
    }
    None
}

/// Returns a new `PendingLocksState` from an existing one by removing `lock`.
pub fn compute_locks_without(pending_locks: &PendingLocksState, lock: &HashTimeLockState) -> (r:
    Option<PendingLocksState>)
    ensures
        r.is_some() == pending_locks.locks@.contains(lock.encoded),
        r.is_some() ==> r.unwrap().locks@ == without_lock(pending_locks.locks@, lock.encoded),
{
    if locks_contain(&pending_locks.locks, &lock.encoded) {
        let mut locks: Vec<EncodedLock> = Vec::new();
        let mut i: usize = 0;
        while i < pending_locks.locks.len()
            invariant
                i <= pending_locks.locks@.len(),
                locks@ == without_lock(pending_locks.locks@.subrange(0, i as int), lock.encoded),
            decreases pending_locks.locks@.len() - i,
        {
            let l = pending_locks.locks[i];
            proof {
                let s = pending_locks.locks@;
                assert(s.subrange(0, i + 1).drop_last() =~= s.subrange(0, i as int));
            }
            if !l.equals(&lock.encoded) {
                locks.push(l);
            }
            i = i + 1;
        }
        assert(pending_locks.locks@.subrange(0, pending_locks.locks@.len() as int)
            =~= pending_locks.locks@);
        return Some(PendingLocksState { locks });
    }
    None
}

/// The concatenation of encoded locks.
pub open spec fn concat_locks(s: Seq<EncodedLock>) -> Seq<u8>
    decreases s.len(),
{
    if s.len() == 0 {
        Seq::empty()
    } else {
        concat_locks(s.drop_last()) + s.last()@
    }
}

/// The locksroot of a sequence of pending locks.
pub open spec fn spec_locksroot(s: Seq<EncodedLock>) -> Seq<u8> {
    keccak256(concat_locks(s))
}

/// Compute the locksroot based on the pending locks state.
pub fn compute_locksroot(locks: &PendingLocksState) -> (r: Locksroot)
    ensures
        r@ == spec_locksroot(locks.locks@),
{
    let mut data: Vec<u8> = Vec::new();
    let mut i: usize = 0;
    while i < locks.locks.len()
        invariant
            i <= locks.locks@.len(),
            data@ == concat_locks(locks.locks@.subrange(0, i as int)),
        decreases locks.locks@.len() - i,
    {
        proof {
            let s = locks.locks@;
            assert(s.subrange(0, i + 1).drop_last() =~= s.subrange(0, i as int));
        }
        extend_bytes(&mut data, locks.locks[i].bytes.as_slice());
        i = i + 1;
    }
    assert(locks.locks@.subrange(0, locks.locks@.len() as int) =~= locks.locks@);
    keccak(data.as_slice())
}

} // verus!
