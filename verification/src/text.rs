//! Text of amounts and hashes in the reasons that the state machine gives:
//! integers in decimal, hashes in lower-case hexadecimal.
use vstd::prelude::*;
use vstd::string::StringExecFns;

use crate::primitives::{Address, H256, U256};

verus! {

/// The character of a digit below sixteen.
pub open spec fn spec_digit_char(d: nat) -> char {
    if d == 0 {
        '0'
    } else if d == 1 {
        '1'
    } else if d == 2 {
        '2'
    } else if d == 3 {
        '3'
    } else if d == 4 {
        '4'
    } else if d == 5 {
        '5'
    } else if d == 6 {
        '6'
    } else if d == 7 {
        '7'
    } else if d == 8 {
        '8'
    } else if d == 9 {
        '9'
    } else if d == 10 {
        'a'
    } else if d == 11 {
        'b'
    } else if d == 12 {
        'c'
    } else if d == 13 {
        'd'
    } else if d == 14 {
        'e'
    } else {
        'f'
    }
}

/// The decimal digits of `n`, most significant first.
pub open spec fn spec_decimal(n: nat) -> Seq<char>
    decreases n,
{
    if n < 10 {
        seq![spec_digit_char(n)]
    } else {
        spec_decimal(n / 10).push(spec_digit_char(n % 10))
    }
}

/// The two hexadecimal digits of a byte.
pub open spec fn spec_hex_byte(b: u8) -> Seq<char> {
    seq![spec_digit_char((b / 16) as nat), spec_digit_char((b % 16) as nat)]
}

/// The hexadecimal digits of the bytes, in order.
pub open spec fn spec_hex(bytes: Seq<u8>) -> Seq<char>
    decreases bytes.len(),
{
    if bytes.len() == 0 {
        Seq::empty()
    } else {
        spec_hex(bytes.drop_last()) + spec_hex_byte(bytes.last())
    }
}

/// A hash written out in full: `0x` and its hexadecimal digits.
pub open spec fn spec_hash_full(h: Seq<u8>) -> Seq<char> {
    seq!['0', 'x'] + spec_hex(h)
}

/// A hash abbreviated to its first and last two bytes.
pub open spec fn spec_hash_short(h: Seq<u8>) -> Seq<char> {
    seq!['0', 'x'] + spec_hex(h.subrange(0, 2)) + seq!['…'] + spec_hex(h.subrange(30, 32))
}

fn digit_str(d: u8) -> (r: &'static str)
    requires
        d < 16,
    ensures
        r@ == seq![spec_digit_char(d as nat)],
{
    proof {
        reveal_strlit("0");
        reveal_strlit("1");
        reveal_strlit("2");
        reveal_strlit("3");
        reveal_strlit("4");
        reveal_strlit("5");
        reveal_strlit("6");
        reveal_strlit("7");
        reveal_strlit("8");
        reveal_strlit("9");
        reveal_strlit("a");
        reveal_strlit("b");
        reveal_strlit("c");
        reveal_strlit("d");
        reveal_strlit("e");
        reveal_strlit("f");
    }
    if d == 0 {
        "0"
    } else if d == 1 {
        "1"
    } else if d == 2 {
        "2"
    } else if d == 3 {
        "3"
    } else if d == 4 {
        "4"
    } else if d == 5 {
        "5"
    } else if d == 6 {
        "6"
    } else if d == 7 {
        "7"
    } else if d == 8 {
        "8"
    } else if d == 9 {
        "9"
    } else if d == 10 {
        "a"
    } else if d == 11 {
        "b"
    } else if d == 12 {
        "c"
    } else if d == 13 {
        "d"
    } else if d == 14 {
        "e"
    } else {
        "f"
    }
}

/// Appends the decimal digits of `x`.
pub fn append_u64(s: &mut String, x: u64)
    ensures
        final(s)@ == old(s)@ + spec_decimal(x as nat),
    decreases x,
{
    if x < 10 {
        s.append(digit_str(x as u8));
    } else {
        append_u64(s, x / 10);
        s.append(digit_str((x % 10) as u8));
        assert(final(s)@ =~= old(s)@ + spec_decimal(x as nat));
    }
}

/// The value of a `U256` below ten.
fn small_value(x: U256) -> (r: u8)
    requires
        x@ < 10,
    ensures
        r == x@,
{
    let mut d: u8 = 0;
    while d < 10
        invariant
            d <= 10,
            x@ >= d,
            x@ < 10,
        decreases 10 - d,
    {
        if x.equals(&U256::from_u64(d as u64)) {
            return d;
        }
        d = d + 1;
    }
    d
}

/// Appends the decimal digits of `x`.
pub fn append_u256(s: &mut String, x: U256)
    ensures
        final(s)@ == old(s)@ + spec_decimal(x@),
    decreases x@,
{
    let ten = U256::from_u64(10);
    if x.less_than(&ten) {
        s.append(digit_str(small_value(x)));
    } else {
        let q = x.div(ten);
        let r = x.sub(q.mul(ten));
        assert(q@ * 10 <= x@) by (nonlinear_arith)
            requires
                q@ == x@ / 10,
        ;
        assert(r@ == x@ % 10) by (nonlinear_arith)
            requires
                q@ == x@ / 10,
                r@ == x@ - q@ * 10,
        ;
        append_u256(s, q);
        s.append(digit_str(small_value(r)));
        assert(final(s)@ =~= old(s)@ + spec_decimal(x@));
    }
}

/// Appends the hexadecimal digits of the bytes.
pub fn append_hex(s: &mut String, bytes: &[u8])
    ensures
        final(s)@ == old(s)@ + spec_hex(bytes@),
{
    let mut i: usize = 0;
    while i < bytes.len()
        invariant
            i <= bytes@.len(),
            s@ == old(s)@ + spec_hex(bytes@.subrange(0, i as int)),
        decreases bytes@.len() - i,
    {
        let b = bytes[i];
        s.append(digit_str(b / 16));
        s.append(digit_str(b % 16));
        proof {
            assert(bytes@.subrange(0, i + 1).drop_last() =~= bytes@.subrange(0, i as int));
            assert(s@ =~= old(s)@ + spec_hex(bytes@.subrange(0, i + 1)));
        }
        i = i + 1;
    }
    assert(bytes@.subrange(0, bytes@.len() as int) =~= bytes@);
}

/// Appends a hash written out in full.
pub fn append_hash_full(s: &mut String, h: &H256)
    ensures
        final(s)@ == old(s)@ + spec_hash_full(h@),
{
    proof {
        reveal_strlit("0x");
    }
    s.append("0x");
    append_hex(s, h.bytes.as_slice());
    assert(final(s)@ =~= old(s)@ + spec_hash_full(h@));
}

/// Appends a hash abbreviated to its first and last two bytes.
pub fn append_hash_short(s: &mut String, h: &H256)
    ensures
        final(s)@ == old(s)@ + spec_hash_short(h@),
{
    proof {
        reveal_strlit("0x");
        reveal_strlit("…");
    }
    s.append("0x");
    let head = [h.bytes[0], h.bytes[1]];
    assert(head@ =~= h@.subrange(0, 2));
    append_hex(s, head.as_slice());
    s.append("…");
    let tail = [h.bytes[30], h.bytes[31]];
    assert(tail@ =~= h@.subrange(30, 32));
    append_hex(s, tail.as_slice());
    assert(final(s)@ =~= old(s)@ + spec_hash_short(h@));
}

/// `prefix`, the decimal digits of `x`, then `suffix`.
pub fn with_amount(prefix: &str, x: U256, suffix: &str) -> (r: String)
    ensures
        r@ == prefix@ + spec_decimal(x@) + suffix@,
{
    let mut r = String::from_str(prefix);
    append_u256(&mut r, x);
    r.append(suffix);
    r
}

/// `prefix`, `x`, `middle`, `y` and `suffix`, the amounts in decimal.
pub fn with_amounts(prefix: &str, x: U256, middle: &str, y: U256, suffix: &str) -> (r: String)
    ensures
        r@ == prefix@ + spec_decimal(x@) + middle@ + spec_decimal(y@) + suffix@,
{
    let mut r = String::from_str(prefix);
    append_u256(&mut r, x);
    r.append(middle);
    append_u256(&mut r, y);
    r.append(suffix);
    r
}

/// `prefix`, the decimal digits of `x`, then `suffix`.
pub fn with_number(prefix: &str, x: u64, suffix: &str) -> (r: String)
    ensures
        r@ == prefix@ + spec_decimal(x as nat) + suffix@,
{
    let mut r = String::from_str(prefix);
    append_u64(&mut r, x);
    r.append(suffix);
    r
}

/// `prefix`, `x`, `middle`, `y` and `suffix`, the numbers in decimal.
pub fn with_numbers(prefix: &str, x: u64, middle: &str, y: u64, suffix: &str) -> (r: String)
    ensures
        r@ == prefix@ + spec_decimal(x as nat) + middle@ + spec_decimal(y as nat) + suffix@,
{
    let mut r = String::from_str(prefix);
    append_u64(&mut r, x);
    r.append(middle);
    append_u64(&mut r, y);
    r.append(suffix);
    r
}

/// `prefix`, `x`, `middle`, `y` and `suffix`, the hashes in full.
pub fn with_hashes(prefix: &str, x: &H256, middle: &str, y: &H256, suffix: &str) -> (r: String)
    ensures
        r@ == prefix@ + spec_hash_full(x@) + middle@ + spec_hash_full(y@) + suffix@,
{
    let mut r = String::from_str(prefix);
    append_hash_full(&mut r, x);
    r.append(middle);
    append_hash_full(&mut r, y);
    r.append(suffix);
    r
}

/// `prefix`, the abbreviated hash, then `suffix`.
pub fn with_short_hash(prefix: &str, h: &H256, suffix: &str) -> (r: String)
    ensures
        r@ == prefix@ + spec_hash_short(h@) + suffix@,
{
    let mut r = String::from_str(prefix);
    append_hash_short(&mut r, h);
    r.append(suffix);
    r
}

/// `prefix` followed by `rest`.
pub fn prefixed(prefix: &str, rest: &str) -> (r: String)
    ensures
        r@ == prefix@ + rest@,
{
    let mut r = String::from_str(prefix);
    r.append(rest);
    r
}

/// An address abbreviated to its first and last two bytes.
pub open spec fn spec_address_short(a: Seq<u8>) -> Seq<char> {
    seq!['0', 'x'] + spec_hex(a.subrange(0, 2)) + seq!['…'] + spec_hex(a.subrange(18, 20))
}

/// Appends the address abbreviated to its first and last two bytes.
pub fn append_address_short(s: &mut String, a: &Address)
    ensures
        final(s)@ == old(s)@ + spec_address_short(a@),
{
    proof {
        reveal_strlit("0x");
        reveal_strlit("…");
    }
    s.append("0x");
    let head = [a.bytes[0], a.bytes[1]];
    assert(head@ =~= a@.subrange(0, 2));
    append_hex(s, head.as_slice());
    s.append("…");
    let tail = [a.bytes[18], a.bytes[19]];
    assert(tail@ =~= a@.subrange(18, 20));
    append_hex(s, tail.as_slice());
    assert(final(s)@ =~= old(s)@ + spec_address_short(a@));
}

/// `prefix`, the abbreviated address, then `suffix`.
pub fn with_short_address(prefix: &str, a: &Address, suffix: &str) -> (r: String)
    ensures
        r@ == prefix@ + spec_address_short(a@) + suffix@,
{
    let mut r = String::from_str(prefix);
    append_address_short(&mut r, a);
    r.append(suffix);
    r
}

} // verus!
