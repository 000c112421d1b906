//! Primitive values of the protocol: 256-bit token amounts, addresses,
//! 32-byte hashes and signatures.
use vstd::prelude::*;

verus! {

broadcast use vstd::array::group_array_axioms;

/// 2^128, the weight of the high limb of a `U256`.
pub open spec fn limb_base() -> nat {
    0x1_0000_0000_0000_0000_0000_0000_0000_0000nat
}

/// 2^256: every `U256` value lies below it.
pub open spec fn u256_modulus() -> nat {
    0x1_0000_0000_0000_0000_0000_0000_0000_0000_0000_0000_0000_0000_0000_0000_0000_0000nat
}

/// The largest value a `U256` holds.
pub open spec fn u256_max() -> nat {
    (u256_modulus() - 1) as nat
}

/// 2^64, the weight of the second limb of a `U256`.
pub open spec fn word_base() -> nat {
    0x1_0000_0000_0000_0000nat
}

/// An unsigned 256-bit integer, held as four 64-bit words, least
/// significant first.
#[derive(Clone, Copy, PartialEq, Eq, Structural, Debug)]
pub struct U256 {
    pub w0: u64,
    pub w1: u64,
    pub w2: u64,
    pub w3: u64,
}

/// The value of a pair of 128-bit halves.
pub open spec fn pair_value(hi: u128, lo: u128) -> nat {
    (hi as nat) * limb_base() + (lo as nat)
}

impl U256 {
    /// The high 128 bits.
    pub open spec fn spec_hi(&self) -> u128 {
        ((self.w3 as nat) * word_base() + (self.w2 as nat)) as u128
    }

    /// The low 128 bits.
    pub open spec fn spec_lo(&self) -> u128 {
        ((self.w1 as nat) * word_base() + (self.w0 as nat)) as u128
    }
}

impl View for U256 {
    type V = nat;

    open spec fn view(&self) -> nat {
        pair_value(self.spec_hi(), self.spec_lo())
    }
}

proof fn lemma_words_fit(a: u64, b: u64)
    ensures
        (a as nat) * word_base() + (b as nat) <= u128::MAX,
{
    assert((a as nat) * word_base() <= (u64::MAX as nat) * word_base()) by (nonlinear_arith)
        requires
            a <= u64::MAX,
    ;
}

/// Splits the two halves back into words.
fn from_pair(hi: u128, lo: u128) -> (r: U256)
    ensures
        r@ == pair_value(hi, lo),
        r.spec_hi() == hi,
        r.spec_lo() == lo,
{
    let r = U256 {
        w0: (lo % 0x1_0000_0000_0000_0000) as u64,
        w1: (lo / 0x1_0000_0000_0000_0000) as u64,
        w2: (hi % 0x1_0000_0000_0000_0000) as u64,
        w3: (hi / 0x1_0000_0000_0000_0000) as u64,
    };
    proof {
        lemma_words_fit(r.w3, r.w2);
        lemma_words_fit(r.w1, r.w0);
    }
    r
}

impl U256 {
    fn hi(&self) -> (r: u128)
        ensures
            r == self.spec_hi(),
    {
        proof {
            lemma_words_fit(self.w3, self.w2);
        }
        (self.w3 as u128) * 0x1_0000_0000_0000_0000 + (self.w2 as u128)
    }

    fn lo(&self) -> (r: u128)
        ensures
            r == self.spec_lo(),
    {
        proof {
            lemma_words_fit(self.w1, self.w0);
        }
        (self.w1 as u128) * 0x1_0000_0000_0000_0000 + (self.w0 as u128)
    }
}

/// Two word vectors with the same value are the same vector.
pub proof fn lemma_u256_view_injective(a: U256, b: U256)
    ensures
        (a@ == b@) <==> (a == b),
        a@ < u256_modulus(),
{
    lemma_words_fit(a.w3, a.w2);
    lemma_words_fit(a.w1, a.w0);
    lemma_words_fit(b.w3, b.w2);
    lemma_words_fit(b.w1, b.w0);
    lemma_pair_injective(a.spec_hi(), a.spec_lo(), b.spec_hi(), b.spec_lo());
    if a.spec_hi() == b.spec_hi() && a.spec_lo() == b.spec_lo() {
        lemma_words_injective(a.w3, a.w2, b.w3, b.w2);
        lemma_words_injective(a.w1, a.w0, b.w1, b.w0);
    }
}

proof fn lemma_words_injective(a1: u64, a0: u64, b1: u64, b0: u64)
    requires
        (a1 as nat) * word_base() + (a0 as nat) == (b1 as nat) * word_base() + (b0 as nat),
    ensures
        a1 == b1,
        a0 == b0,
{
    if a1 < b1 {
        assert((a1 as nat) * word_base() + word_base() <= (b1 as nat) * word_base())
            by (nonlinear_arith)
            requires
                a1 < b1,
        ;
    } else if a1 > b1 {
        assert((b1 as nat) * word_base() + word_base() <= (a1 as nat) * word_base())
            by (nonlinear_arith)
            requires
                b1 < a1,
        ;
    }
}

proof fn lemma_pair_injective(ahi: u128, alo: u128, bhi: u128, blo: u128)
    ensures
        (pair_value(ahi, alo) == pair_value(bhi, blo)) <==> (ahi == bhi && alo == blo),
        pair_value(ahi, alo) < u256_modulus(),
        (pair_value(ahi, alo) < pair_value(bhi, blo)) <==> (ahi < bhi || (ahi == bhi && alo
            < blo)),
{
    assert(limb_base() * limb_base() == u256_modulus());
    assert((ahi as nat) * limb_base() <= (u128::MAX as nat) * limb_base()) by (nonlinear_arith)
        requires
            ahi <= u128::MAX,
    ;
    if ahi < bhi {
        assert((ahi as nat) * limb_base() + limb_base() <= (bhi as nat) * limb_base())
            by (nonlinear_arith)
            requires
                ahi < bhi,
        ;
    } else if ahi > bhi {
        assert((bhi as nat) * limb_base() + limb_base() <= (ahi as nat) * limb_base())
            by (nonlinear_arith)
            requires
                bhi < ahi,
        ;
    }
}

/// Every `U256` value fits below 2^256.
pub proof fn lemma_u256_bounded(a: U256)
    ensures
        a@ <= u256_max(),
{
    lemma_u256_view_injective(a, a);
}

impl U256 {
    pub fn zero() -> (r: U256)
        ensures
            r@ == 0,
    {
        U256 { w0: 0, w1: 0, w2: 0, w3: 0 }
    }

    pub fn one() -> (r: U256)
        ensures
            r@ == 1,
    {
        U256 { w0: 1, w1: 0, w2: 0, w3: 0 }
    }

    pub fn from_u64(x: u64) -> (r: U256)
        ensures
            r@ == x,
    {
        U256 { w0: x, w1: 0, w2: 0, w3: 0 }
    }

    pub fn from_u128(x: u128) -> (r: U256)
        ensures
            r@ == x,
    {
        from_pair(0, x)
    }

    /// The largest representable value, 2^256 - 1.
    pub fn max_value() -> (r: U256)
        ensures
            r@ == u256_max(),
    {
        U256 { w0: u64::MAX, w1: u64::MAX, w2: u64::MAX, w3: u64::MAX }
    }

    pub fn is_zero(&self) -> (r: bool)
        ensures
            r == (self@ == 0),
    {
        proof {
            lemma_u256_view_injective(*self, U256 { w0: 0, w1: 0, w2: 0, w3: 0 });
        }
        self.w0 == 0 && self.w1 == 0 && self.w2 == 0 && self.w3 == 0
    }

    pub fn equals(&self, other: &U256) -> (r: bool)
        ensures
            r == (self@ == other@),
            r == (*self == *other),
    {
        proof {
            lemma_u256_view_injective(*self, *other);
        }
        self.w0 == other.w0 && self.w1 == other.w1 && self.w2 == other.w2 && self.w3 == other.w3
    }

    pub fn less_than(&self, other: &U256) -> (r: bool)
        ensures
            r == (self@ < other@),
    {
        let (ah, al, bh, bl) = (self.hi(), self.lo(), other.hi(), other.lo());
        proof {
            lemma_pair_injective(ah, al, bh, bl);
        }
        ah < bh || (ah == bh && al < bl)
    }

    pub fn at_most(&self, other: &U256) -> (r: bool)
        ensures
            r == (self@ <= other@),
    {
        !other.less_than(self)
    }

    pub fn min(self, other: U256) -> (r: U256)
        ensures
            r@ == if self@ <= other@ { self@ } else { other@ },
    {
        if self.at_most(&other) {
            self
        } else {
            other
        }
    }

    pub fn max(self, other: U256) -> (r: U256)
        ensures
            r@ == if self@ >= other@ { self@ } else { other@ },
    {
        if other.at_most(&self) {
            self
        } else {
            other
        }
    }

    /// The sum, or `None` when it does not fit in 256 bits.
    pub fn checked_add(self, other: U256) -> (r: Option<U256>)
        ensures
            r.is_some() == (self@ + other@ <= u256_max()),
            r.is_some() ==> r.unwrap()@ == self@ + other@,
    {
        proof {
            lemma_u256_bounded(self);
            lemma_u256_bounded(other);
        }
        let (ahi, alo, bhi, blo) = (self.hi(), self.lo(), other.hi(), other.lo());
        let (lo, carry) = if alo <= u128::MAX - blo {
            (alo + blo, 0u128)
        } else {
            (alo - (u128::MAX - blo) - 1, 1u128)
        };
        if ahi > u128::MAX - bhi {
            proof {
                assert((ahi as nat) * limb_base() + (bhi as nat) * limb_base() >= (u128::MAX as nat
                    + 1) * limb_base()) by (nonlinear_arith)
                    requires
                        ahi as nat + bhi as nat >= u128::MAX as nat + 1,
                ;
                assert((u128::MAX as nat + 1) * limb_base() == u256_modulus());
            }
            return None;
        }
        let hi_sum = ahi + bhi;
        if hi_sum > u128::MAX - carry {
            proof {
                assert((ahi as nat) * limb_base() + (bhi as nat) * limb_base() == (hi_sum as nat)
                    * limb_base()) by (nonlinear_arith)
                    requires
                        hi_sum == ahi + bhi,
                ;
                assert((u128::MAX as nat) * limb_base() + limb_base() == u256_modulus());
            }
            return None;
        }
        let r = from_pair(hi_sum + carry, lo);
        proof {
            assert((ahi as nat) * limb_base() + (bhi as nat) * limb_base() + (carry as nat)
                * limb_base() == ((hi_sum + carry) as nat) * limb_base()) by (nonlinear_arith)
                requires
                    hi_sum == ahi + bhi,
            ;
            lemma_u256_bounded(r);
        }
        Some(r)
    }

    /// The sum; the caller makes sure that it fits in 256 bits.
    pub fn add(self, other: U256) -> (r: U256)
        requires
            self@ + other@ <= u256_max(),
        ensures
            r@ == self@ + other@,
    {
        self.checked_add(other).unwrap()
    }

    /// The sum, or the largest value when it does not fit.
    pub fn saturating_add(self, other: U256) -> (r: U256)
        ensures
            r@ == if self@ + other@ <= u256_max() { self@ + other@ } else { u256_max() },
    {
        match self.checked_add(other) {
            Some(r) => r,
            None => U256::max_value(),
        }
    }

    /// The difference; the caller makes sure that it is not negative.
    pub fn sub(self, other: U256) -> (r: U256)
        requires
            other@ <= self@,
        ensures
            r@ == self@ - other@,
    {
        let (ahi, alo, bhi, blo) = (self.hi(), self.lo(), other.hi(), other.lo());
        proof {
            lemma_pair_injective(ahi, alo, bhi, blo);
            lemma_pair_injective(bhi, blo, ahi, alo);
        }
        if alo >= blo {
            let r = from_pair(ahi - bhi, alo - blo);
            proof {
                assert((ahi as nat) * limb_base() - (bhi as nat) * limb_base() == ((ahi - bhi) as nat)
                    * limb_base()) by (nonlinear_arith)
                    requires
                        ahi >= bhi,
                ;
            }
            r
        } else {
            let r = from_pair(ahi - bhi - 1, (u128::MAX - blo) + alo + 1);
            proof {
                assert((ahi as nat) * limb_base() - (bhi as nat) * limb_base() - limb_base() == ((ahi
                    - bhi - 1) as nat) * limb_base()) by (nonlinear_arith)
                    requires
                        ahi > bhi,
                ;
            }
            r
        }
    }

    /// The difference, or zero when it would be negative.
    pub fn saturating_sub(self, other: U256) -> (r: U256)
        ensures
            r@ == if other@ <= self@ { self@ - other@ } else { 0 },
    {
        if other.at_most(&self) {
            self.sub(other)
        } else {
            U256::zero()
        }
    }
}

/// The big-endian 32-byte encoding of a value below 2^256.
pub open spec fn u256_be_bytes(v: nat) -> Seq<u8> {
    Seq::new(32, |i: int| ((v / (vstd::arithmetic::power::pow(256, (31 - i) as nat) as nat)) % 256) as u8)
}

/// Calls `checked_mul` of the `uint` crate's 256-bit integer (re-exported by
/// web3 as `web3::types::U256`): the product, or `None` when it exceeds
/// 2^256 - 1.
#[verifier::external_body]
fn outside_checked_mul(a: U256, b: U256) -> (r: Option<U256>)
    ensures
        r.is_some() == (a@ * b@ <= u256_max()),
        r.is_some() ==> r.unwrap()@ == a@ * b@,
{
    let x = web3::types::U256([a.w0, a.w1, a.w2, a.w3]);
    match x.checked_mul(web3::types::U256([b.w0, b.w1, b.w2, b.w3])) {
        Some(p) => Some(U256 { w0: p.0[0], w1: p.0[1], w2: p.0[2], w3: p.0[3] }),
        None => None,
    }
}

/// Calls `overflowing_mul` of web3's `U256`: the product taken modulo
/// 2^256, and whether the product exceeds 2^256 - 1.
#[verifier::external_body]
fn outside_overflowing_mul(a: U256, b: U256) -> (r: (U256, bool))
    ensures
        r.0@ == (a@ * b@) % u256_modulus(),
        r.1 == (a@ * b@ > u256_max()),
{
    let (p, o) = web3::types::U256([a.w0, a.w1, a.w2, a.w3]).overflowing_mul(
        web3::types::U256([b.w0, b.w1, b.w2, b.w3]),
    );
    (U256 { w0: p.0[0], w1: p.0[1], w2: p.0[2], w3: p.0[3] }, o)
}

/// Calls the `/` operator of web3's `U256`: the quotient rounded down. It
/// panics on a zero divisor, which `requires` leaves out.
#[verifier::external_body]
fn outside_div(a: U256, b: U256) -> (r: U256)
    requires
        b@ != 0,
    ensures
        r@ == a@ / b@,
{
    let q = web3::types::U256([a.w0, a.w1, a.w2, a.w3]) / web3::types::U256([b.w0, b.w1, b.w2, b.w3]);
    U256 { w0: q.0[0], w1: q.0[1], w2: q.0[2], w3: q.0[3] }
}

/// Calls `pow` of web3's `U256`: `a` to the power `e`. It panics when a
/// step of the computation overflows, which happens exactly when the power
/// exceeds 2^256 - 1; `requires` leaves that out.
#[verifier::external_body]
fn outside_pow(a: U256, e: U256) -> (r: U256)
    requires
        vstd::arithmetic::power::pow(a@ as int, e@) <= u256_max(),
    ensures
        r@ == vstd::arithmetic::power::pow(a@ as int, e@),
{
    let p = web3::types::U256([a.w0, a.w1, a.w2, a.w3]).pow(web3::types::U256([e.w0, e.w1, e.w2, e.w3]));
    U256 { w0: p.0[0], w1: p.0[1], w2: p.0[2], w3: p.0[3] }
}

/// Calls `to_big_endian` of web3's `U256`, which writes the value as 32
/// big-endian bytes.
#[verifier::external_body]
fn outside_to_big_endian(a: U256) -> (r: [u8; 32])
    ensures
        r@ == u256_be_bytes(a@),
{
    let mut out = [0u8; 32];
    web3::types::U256([a.w0, a.w1, a.w2, a.w3]).to_big_endian(&mut out);
    out
}

impl U256 {
    /// The product, or `None` when it does not fit in 256 bits.
    pub fn checked_mul(self, other: U256) -> (r: Option<U256>)
        ensures
            r.is_some() == (self@ * other@ <= u256_max()),
            r.is_some() ==> r.unwrap()@ == self@ * other@,
    {
        outside_checked_mul(self, other)
    }

    /// The product; the caller makes sure that it fits in 256 bits.
    pub fn mul(self, other: U256) -> (r: U256)
        requires
            self@ * other@ <= u256_max(),
        ensures
            r@ == self@ * other@,
    {
        outside_checked_mul(self, other).unwrap()
    }

    /// The product modulo 2^256, and whether it overflowed.
    pub fn overflowing_mul(self, other: U256) -> (r: (U256, bool))
        ensures
            r.0@ == (self@ * other@) % u256_modulus(),
            r.1 == (self@ * other@ > u256_max()),
    {
        outside_overflowing_mul(self, other)
    }

    /// The product, or the largest value when it does not fit.
    pub fn saturating_mul(self, other: U256) -> (r: U256)
        ensures
            r@ == if self@ * other@ <= u256_max() { self@ * other@ } else { u256_max() },
    {
        match outside_checked_mul(self, other) {
            Some(p) => p,
            None => U256::max_value(),
        }
    }

    /// The quotient rounded down; the divisor is not zero.
    pub fn div(self, other: U256) -> (r: U256)
        requires
            other@ != 0,
        ensures
            r@ == self@ / other@,
    {
        outside_div(self, other)
    }

    /// `self` to the power `exponent`; the caller makes sure that it fits.
    pub fn pow(self, exponent: U256) -> (r: U256)
        requires
            vstd::arithmetic::power::pow(self@ as int, exponent@) <= u256_max(),
        ensures
            r@ == vstd::arithmetic::power::pow(self@ as int, exponent@),
    {
        outside_pow(self, exponent)
    }

    /// The 32-byte big-endian encoding.
    pub fn to_be_bytes(self) -> (r: [u8; 32])
        ensures
            r@ == u256_be_bytes(self@),
    {
        outside_to_big_endian(self)
    }
}

/// A 20-byte account address.
#[derive(Clone, Copy, Debug)]
pub struct Address {
    pub bytes: [u8; 20],
}

/// A 32-byte value: a hash, a secret or a block hash.
#[derive(Clone, Copy, Debug)]
pub struct H256 {
    pub bytes: [u8; 32],
}

/// A 65-byte recoverable ECDSA signature.
#[derive(Clone, Copy, Debug)]
pub struct Signature {
    pub bytes: [u8; 65],
}

/// Compares two byte arrays of one length.
pub fn bytes_equal<const N: usize>(a: &[u8; N], b: &[u8; N]) -> (r: bool)
    ensures
        r == (a@ == b@),
{
    let mut i: usize = 0;
    while i < N
        invariant
            i <= N,
            a@.len() == N,
            b@.len() == N,
            forall|j: int| 0 <= j < i ==> a@[j] == b@[j],
        decreases N - i,
    {
        if a[i] != b[i] {
            assert(a@[i as int] != b@[i as int]);
            return false;
        }
        i = i + 1;
    }
    assert(a@ =~= b@);
    true
}

/// Keys of the maps of the state: values whose equality compiled code can test.
pub trait KeyEq: Sized + Copy {
    fn key_eq(&self, other: &Self) -> (r: bool)
        ensures
            r == (*self == *other),
    ;
}

impl KeyEq for U256 {
    fn key_eq(&self, other: &Self) -> (r: bool) {
        self.equals(other)
    }
}

impl Address {
    pub fn zero() -> (r: Address)
        ensures
            r@ == Seq::new(20, |i: int| 0u8),
    {
        let r = Address { bytes: [0u8; 20] };
        assert(r@ =~= Seq::new(20, |i: int| 0u8));
        r
    }

    pub fn equals(&self, other: &Address) -> (r: bool)
        ensures
            r == (*self == *other),
    {
        let r = bytes_equal(&self.bytes, &other.bytes);
        proof {
            if r {
                assert(self.bytes =~= other.bytes);
            }
        }
        r
    }
}

impl View for Address {
    type V = Seq<u8>;

    open spec fn view(&self) -> Seq<u8> {
        self.bytes@
    }
}

impl KeyEq for Address {
    fn key_eq(&self, other: &Self) -> (r: bool) {
        self.equals(other)
    }
}

impl H256 {
    pub fn zero() -> (r: H256)
        ensures
            r@ == Seq::new(32, |i: int| 0u8),
    {
        let r = H256 { bytes: [0u8; 32] };
        assert(r@ =~= Seq::new(32, |i: int| 0u8));
        r
    }

    pub fn equals(&self, other: &H256) -> (r: bool)
        ensures
            r == (*self == *other),
    {
        let r = bytes_equal(&self.bytes, &other.bytes);
        proof {
            if r {
                assert(self.bytes =~= other.bytes);
            }
        }
        r
    }
}

impl View for H256 {
    type V = Seq<u8>;

    open spec fn view(&self) -> Seq<u8> {
        self.bytes@
    }
}

impl KeyEq for H256 {
    fn key_eq(&self, other: &Self) -> (r: bool) {
        self.equals(other)
    }
}

impl View for Signature {
    type V = Seq<u8>;

    open spec fn view(&self) -> Seq<u8> {
        self.bytes@
    }
}

} // verus!
