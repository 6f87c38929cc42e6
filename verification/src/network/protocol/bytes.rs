//! Numbers as the wire holds them: in bytes, the least or the most
//! significant byte first.

use byteorder::{BigEndian, ByteOrder, LittleEndian};
use vstd::prelude::*;

verus! {

/// The number that `bytes` hold, the least significant byte first.
pub open spec fn le_value(bytes: Seq<u8>) -> nat
    decreases bytes.len(),
{
    if bytes.len() == 0 {
        0
    } else {
        (bytes[0] as nat) + 256 * le_value(bytes.drop_first())
    }
}

/// The number that `bytes` hold, the most significant byte first.
pub open spec fn be_value(bytes: Seq<u8>) -> nat
    decreases bytes.len(),
{
    if bytes.len() == 0 {
        0
    } else {
        256 * be_value(bytes.drop_last()) + (bytes.last() as nat)
    }
}

/// `ByteOrder::read_uint` of `LittleEndian`: the number that the `nbytes`
/// bytes at `at` hold, the least significant byte first.
#[verifier::external_body]
pub(crate) fn read_le(bytes: &[u8], at: usize, nbytes: usize) -> (value: u64)
    requires
        1 <= nbytes <= 8,
        at + nbytes <= bytes@.len(),
    ensures
        value == le_value(bytes@.subrange(at as int, at + nbytes)),
{
    LittleEndian::read_uint(&bytes[at..], nbytes)
}

/// `ByteOrder::read_u16` of `BigEndian`: the number that the two bytes at
/// `at` hold, the most significant byte first.
#[verifier::external_body]
pub(crate) fn read_be_u16(bytes: &[u8], at: usize) -> (value: u16)
    requires
        at + 2 <= bytes@.len(),
    ensures
        value == be_value(bytes@.subrange(at as int, at + 2)),
{
    BigEndian::read_u16(&bytes[at..])
}

/// `ByteOrder::read_u32` of `BigEndian`: the number that the four bytes at
/// `at` hold, the most significant byte first.
#[verifier::external_body]
pub(crate) fn read_be_u32(bytes: &[u8], at: usize) -> (value: u32)
    requires
        at + 4 <= bytes@.len(),
    ensures
        value == be_value(bytes@.subrange(at as int, at + 4)),
{
    BigEndian::read_u32(&bytes[at..])
}

/// `ByteOrder::read_u128` of `BigEndian`: the number that the sixteen bytes
/// at `at` hold, the most significant byte first.
#[verifier::external_body]
pub(crate) fn read_be_u128(bytes: &[u8], at: usize) -> (value: u128)
    requires
        at + 16 <= bytes@.len(),
    ensures
        value == be_value(bytes@.subrange(at as int, at + 16)),
{
    BigEndian::read_u128(&bytes[at..])
}

/// 256 to the power of `n`.
pub open spec fn pow256(n: nat) -> nat
    decreases n,
{
    if n == 0 {
        1
    } else {
        256 * pow256((n - 1) as nat)
    }
}

/// The lowest `n` bytes of `value`, the least significant first.
pub open spec fn le_digits(value: nat, n: nat) -> Seq<u8>
    decreases n,
{
    if n == 0 {
        Seq::empty()
    } else {
        seq![(value % 256) as u8] + le_digits(value / 256, (n - 1) as nat)
    }
}

/// The lowest `n` bytes of `value`, the most significant first.
pub open spec fn be_digits(value: nat, n: nat) -> Seq<u8> {
    le_digits(value, n).reverse()
}

/// `n` digits are `n` bytes.
pub proof fn lemma_le_digits_len(value: nat, n: nat)
    ensures
        le_digits(value, n).len() == n,
        be_digits(value, n).len() == n,
    decreases n,
{
    if n > 0 {
        lemma_le_digits_len(value / 256, (n - 1) as nat);
    }
}

/// The digits of a number that fits into `n` bytes hold the number.
pub proof fn lemma_le_value_of_digits(value: nat, n: nat)
    requires
        value < pow256(n),
    ensures
        le_value(le_digits(value, n)) == value,
    decreases n,
{
    if n > 0 {
        let rest = value / 256;
        lemma_le_value_of_digits(rest, (n - 1) as nat);
        let digits = le_digits(value, n);
        assert(digits.drop_first() =~= le_digits(rest, (n - 1) as nat));
        assert(digits[0] == (value % 256) as u8);
    }
}

/// Bytes read from the back, the most significant first, hold what the
/// bytes hold when read from the front, the least significant first.
pub proof fn lemma_be_value_of_reverse(bytes: Seq<u8>)
    ensures
        be_value(bytes.reverse()) == le_value(bytes),
    decreases bytes.len(),
{
    if bytes.len() > 0 {
        lemma_be_value_of_reverse(bytes.drop_first());
        assert(bytes.reverse().drop_last() =~= bytes.drop_first().reverse());
        assert(bytes.reverse().last() == bytes[0]);
    }
}

/// The digits of a number that fits into `n` bytes hold the number, in either order.
pub proof fn lemma_be_value_of_digits(value: nat, n: nat)
    requires
        value < pow256(n),
    ensures
        be_value(be_digits(value, n)) == value,
{
    lemma_le_value_of_digits(value, n);
    lemma_be_value_of_reverse(le_digits(value, n));
}

/// Appends the lowest `n` bytes of `value` to `out`, the least significant first.
pub fn write_le(out: &mut Vec<u8>, value: u128, n: usize)
    ensures
        final(out)@ == old(out)@ + le_digits(value as nat, n as nat),
{
    let mut rest: u128 = value;
    let mut i: usize = 0;
    proof {
        assert(out@ + le_digits(rest as nat, n as nat) =~= old(out)@ + le_digits(value as nat, n as nat));
    }
    while i < n
        invariant
            i <= n,
            out@ + le_digits(rest as nat, (n - i) as nat) == old(out)@ + le_digits(value as nat, n as nat),
        decreases n - i,
    {
        let ghost before = out@;
        let digit = (rest % 256) as u8;
        out.push(digit);
        proof {
            let tail = le_digits((rest / 256) as nat, (n - i - 1) as nat);
            assert(le_digits(rest as nat, (n - i) as nat) == seq![digit] + tail);
            assert(out@ + tail =~= before + (seq![digit] + tail));
        }
        rest = rest / 256;
        i += 1;
    }
    proof {
        assert(out@ + le_digits(rest as nat, 0) =~= out@);
    }
}

/// Appends the lowest `n` bytes of `value` to `out`, the most significant first.
pub fn write_be(out: &mut Vec<u8>, value: u128, n: usize)
    ensures
        final(out)@ == old(out)@ + be_digits(value as nat, n as nat),
{
    let mut digits: Vec<u8> = Vec::new();
    write_le(&mut digits, value, n);
    proof {
        lemma_le_digits_len(value as nat, n as nat);
        assert(digits@ =~= le_digits(value as nat, n as nat));
    }
    let mut k: usize = digits.len();
    while k > 0
        invariant
            k <= digits.len(),
            digits@.len() == n,
            out@ == old(out)@ + digits@.reverse().take((n - k) as int),
        decreases k,
    {
        k -= 1;
        out.push(digits[k]);
        proof {
            let reversed = digits@.reverse();
            assert(reversed[(n - k - 1) as int] == digits@[k as int]);
            assert(reversed.take((n - k) as int) =~= reversed.take((n - k - 1) as int).push(digits@[k as int]));
        }
    }
    proof {
        assert(digits@.reverse().take(n as int) =~= digits@.reverse());
    }
}

} // verus!
