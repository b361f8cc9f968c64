//! Bit sequences: their mathematical model, and the bit-vector that stores them.

use bitvec::order::Msb0;
use bitvec::vec::BitVec;
use vstd::arithmetic::div_mod::lemma_div_denominator;
use vstd::arithmetic::power2::{
    lemma2_to64, lemma_pow2_pos, lemma_pow2_strictly_increases, lemma_pow2_unfold, pow2,
};
use vstd::prelude::*;

verus! {

/// An owned sequence of bits.
///
/// The bits live in a `bitvec` bit-vector over bytes in `Msb0` order, so bit 0 of a
/// sequence made from bytes is the most significant bit of the first byte. The
/// bit-vector is opaque in proofs: contracts speak of the bits through [`bits_of`], and
/// what the functions below say of it is taken on trust from `bitvec`.
#[verifier::external_body]
#[derive(Debug, PartialEq, Eq)]
pub struct Bits {
    inner: BitVec<u8, Msb0>,
}

/// The bits that `b` holds, by index.
pub uninterp spec fn bits_of(b: Bits) -> Seq<bool>;

impl View for Bits {
    type V = Seq<bool>;

    open spec fn view(&self) -> Seq<bool> {
        bits_of(*self)
    }
}

/// The number that `s` spells when its first bit is read as the most significant one.
pub open spec fn bits_value(s: Seq<bool>) -> nat
    decreases s.len(),
{
    if s.len() == 0 {
        0
    } else {
        2 * bits_value(s.drop_last()) + if s.last() {
            1nat
        } else {
            0nat
        }
    }
}

/// Whether bit `k` of the byte `b` is set, where bit 0 is the most significant one and
/// bit 7 the least.
pub open spec fn byte_bit(b: u8, k: int) -> bool {
    (b as nat / pow2((7 - k) as nat)) % 2 == 1
}

/// The eight bits of a byte, from the most significant to the least.
pub open spec fn byte_bits(b: u8) -> Seq<bool> {
    Seq::new(8, |k: int| byte_bit(b, k))
}

/// The bits of a sequence of bytes: eight for each byte, in the order of the bytes, and
/// within a byte from the most significant bit to the least.
pub open spec fn bytes_bits(bytes: Seq<u8>) -> Seq<bool> {
    Seq::new(8 * bytes.len(), |i: int| byte_bits(bytes[i / 8])[i % 8])
}

/// `BitVec::len`: the number of bits held.
#[verifier::external_body]
fn raw_len(b: &Bits) -> (n: usize)
    ensures
        n == bits_of(*b).len(),
{
    b.inner.len()
}

/// `Index<usize>` of `BitVec`, which hands the index on to that of `BitSlice`: the bit
/// at index `i`. It panics at `i >= len`, which `requires` leaves out.
#[verifier::external_body]
fn raw_bit(b: &Bits, i: usize) -> (bit: bool)
    requires
        i < bits_of(*b).len(),
    ensures
        bit == bits_of(*b)[i as int],
{
    b.inner[i]
}

/// `Index<Range<usize>>` of `BitVec`, which hands the range on to that of `BitSlice`,
/// and then `BitSlice::to_bitvec`: an owned copy of the bits from index `start` up to,
/// and without, index `end`. The indexing panics unless `start <= end <= len`, which
/// `requires` asks for.
#[verifier::external_body]
pub(crate) fn raw_range(b: &Bits, start: usize, end: usize) -> (group: Bits)
    requires
        start <= end <= bits_of(*b).len(),
    ensures
        bits_of(group) == bits_of(*b).subrange(start as int, end as int),
{
    Bits { inner: b.inner[start..end].to_bitvec() }
}

/// `BitVec::from_slice` at the `Msb0` order: a bit-vector over a copy of `bytes` that
/// covers every bit of it, each byte from its most significant bit to its least. It
/// panics on a slice too long for a bit-vector to address, which `requires` leaves out.
#[verifier::external_body]
fn raw_from_slice(bytes: &[u8]) -> (b: Bits)
    requires
        bytes@.len() <= usize::MAX / 64,
    ensures
        bits_of(b) == bytes_bits(bytes@),
{
    Bits { inner: BitVec::from_slice(bytes) }
}

impl Bits {
    /// The bits of `bytes`, each byte from its most significant bit to its least.
    pub fn from_bytes(bytes: &[u8]) -> (b: Bits)
        requires
            bytes@.len() <= usize::MAX / 64,
        ensures
            b@ == bytes_bits(bytes@),
    {
        raw_from_slice(bytes)
    }

    /// The number of bits in the sequence.
    pub fn len(&self) -> (n: usize)
        ensures
            n == self@.len(),
    {
        raw_len(self)
    }

    /// The sequence read as an unsigned number, most significant bit first.
    pub fn value(&self) -> (v: u32)
        requires
            self@.len() <= 32,
        ensures
            v == bits_value(self@),
    {
        let n: usize = raw_len(self);
        let mut acc: u32 = 0;
        let mut i: usize = 0;
        proof {
            lemma2_to64();
        }
        while i < n
            invariant
                n == self@.len(),
                n <= 32,
                i <= n,
                acc == bits_value(self@.take(i as int)),
                acc < pow2(i as nat),
            decreases n - i,
        {
            let bit: bool = raw_bit(self, i);
            proof {
                let next = self@.take(i + 1);
                assert(next.drop_last() =~= self@.take(i as int));
                assert(next.last() == self@[i as int]);
                lemma_pow2_unfold((i + 1) as nat);
                if i + 1 < 32 {
                    lemma_pow2_strictly_increases((i + 1) as nat, 32);
                }
                lemma2_to64();
            }
            acc = 2 * acc + if bit {
                1
            } else {
                0
            };
            i = i + 1;
        }
        proof {
            assert(self@.take(n as int) =~= self@);
        }
        acc
    }
}

/// A sequence of `n` bits spells a number below `2^n`.
pub proof fn lemma_bits_value_bound(s: Seq<bool>)
    ensures
        bits_value(s) < pow2(s.len()),
    decreases s.len(),
{
    if s.len() == 0 {
        lemma2_to64();
    } else {
        lemma_bits_value_bound(s.drop_last());
        lemma_pow2_unfold(s.len());
    }
}

/// Whether no bit of `s` is set.
pub open spec fn none_set(s: Seq<bool>) -> bool {
    forall|i: int| 0 <= i < s.len() ==> !s[i]
}

/// A sequence of bits spells 0 if and only if no bit of it is set.
pub proof fn lemma_none_set_value(s: Seq<bool>)
    ensures
        none_set(s) <==> bits_value(s) == 0,
    decreases s.len(),
{
    if s.len() > 0 {
        let front = s.drop_last();
        lemma_none_set_value(front);
        if none_set(s) {
            assert forall|i: int| 0 <= i < front.len() implies !front[i] by {
                assert(front[i] == s[i]);
            }
            assert(!s.last());
        }
        if none_set(front) && !s.last() {
            assert forall|i: int| 0 <= i < s.len() implies !s[i] by {
                if i < front.len() {
                    assert(s[i] == front[i]);
                }
            }
        }
    }
}

/// Whether every bit of `s` is set.
pub open spec fn all_set(s: Seq<bool>) -> bool {
    forall|i: int| 0 <= i < s.len() ==> s[i]
}

/// A sequence of `n` bits spells `2^n - 1` if and only if every bit of it is set.
pub proof fn lemma_all_set_value(s: Seq<bool>)
    ensures
        all_set(s) <==> bits_value(s) + 1 == pow2(s.len()),
    decreases s.len(),
{
    if s.len() == 0 {
        lemma2_to64();
    } else {
        let front = s.drop_last();
        lemma_all_set_value(front);
        lemma_bits_value_bound(front);
        lemma_pow2_unfold(s.len());
        if all_set(s) {
            assert forall|i: int| 0 <= i < front.len() implies front[i] by {
                assert(front[i] == s[i]);
            }
            assert(s.last());
        }
        if all_set(front) && s.last() {
            assert forall|i: int| 0 <= i < s.len() implies s[i] by {
                if i < front.len() {
                    assert(s[i] == front[i]);
                }
            }
        }
    }
}

/// The first `k` bits of a byte spell the byte without its last `8 - k` bits.
proof fn lemma_byte_prefix(b: u8, k: nat)
    requires
        k <= 8,
    ensures
        bits_value(byte_bits(b).take(k as int)) == b as nat / pow2((8 - k) as nat),
    decreases k,
{
    if k == 0 {
        lemma2_to64();
        assert(byte_bits(b).take(0).len() == 0);
        assert(b as nat / 256 == 0);
    } else {
        let front = byte_bits(b).take(k as int);
        let low = pow2((8 - k) as nat);
        let rest = b as nat / low;
        lemma_byte_prefix(b, (k - 1) as nat);
        assert(front.drop_last() =~= byte_bits(b).take(k - 1));
        assert(front.last() == byte_bit(b, k - 1));
        assert(front.last() == (rest % 2 == 1));
        lemma_pow2_pos((8 - k) as nat);
        lemma_pow2_unfold((9 - k) as nat);
        assert(pow2((9 - k) as nat) == low * 2);
        lemma_div_denominator(b as int, low as int, 2);
        assert(bits_value(front.drop_last()) == rest / 2);
        assert(bits_value(front) == 2 * (rest / 2) + rest % 2);
    }
}

/// In the bits of a sequence of bytes, the eight bits of each byte spell that byte.
pub proof fn lemma_bytes_bits_spell_bytes(bytes: Seq<u8>, i: int)
    requires
        0 <= i < bytes.len(),
    ensures
        bits_value(bytes_bits(bytes).subrange(8 * i, 8 * i + 8)) == bytes[i],
{
    let group = bytes_bits(bytes).subrange(8 * i, 8 * i + 8);
    let byte = byte_bits(bytes[i]);
    assert(group =~= byte);
    assert(byte.take(8) =~= byte);
    lemma_byte_prefix(bytes[i], 8);
    assert(bits_value(byte) == bytes[i] as nat / pow2(0));
    lemma2_to64();
}

} // verus!
