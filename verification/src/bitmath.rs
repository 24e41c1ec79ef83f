//! The mathematical model of bit strings: single bits of machine integers,
//! the value of a bit sequence read least-significant-bit first, and the
//! lemmas that connect the two.

use vstd::prelude::*;
use vstd::arithmetic::div_mod::{lemma_mod_breakdown, lemma_small_mod};
use vstd::arithmetic::power2::{
    lemma_pow2_pos, lemma_pow2_strictly_increases, lemma_pow2_unfold, lemma2_to64,
    lemma2_to64_rest, pow2,
};
use vstd::bits::{lemma_u64_pow2_no_overflow, lemma_u64_shl_is_mul};

verus! {

/// Bit `i` of the 64-bit value `v`; position 0 is the least significant bit.
pub open spec fn u64_bit(v: u64, i: u64) -> bool {
    (v >> i) & 1u64 == 1u64
}

/// Bit `k` of the byte `b`; position 0 is the least significant bit.
pub open spec fn byte_bit(b: u8, k: u8) -> bool {
    (b >> k) & 1u8 == 1u8
}

/// The value of a bit sequence, read least-significant-bit first:
/// bit `i` of the sequence contributes `2^i`.
pub open spec fn bits_nat(s: Seq<bool>) -> nat
    decreases s.len(),
{
    if s.len() == 0 {
        0
    } else {
        (if s[0] {
            1nat
        } else {
            0nat
        }) + 2 * bits_nat(s.skip(1))
    }
}

/// The bits of the low `w`-bit slice of `v`, least significant first.
pub open spec fn low_bits(v: u64, w: nat) -> Seq<bool> {
    Seq::new(w, |i: int| u64_bit(v, i as u64))
}

pub proof fn lemma_u64_bit_zero(m: u64)
    by (bit_vector)
    requires
        m < 64,
    ensures
        !u64_bit(0u64, m),
{
}

pub proof fn lemma_u64_bit_or_pow2(v: u64, k: u64, m: u64)
    by (bit_vector)
    requires
        k < 64,
        m < 64,
    ensures
        u64_bit(v | (1u64 << k), m) == (m == k || u64_bit(v, m)),
{
}

pub proof fn lemma_u64_or_pow2_is_add(v: u64, k: u64)
    by (bit_vector)
    requires
        k < 64,
        v < (1u64 << k),
    ensures
        (v | (1u64 << k)) == v + (1u64 << k),
{
}

pub proof fn lemma_byte_bit_zero(m: u8)
    by (bit_vector)
    requires
        m < 8,
    ensures
        !byte_bit(0u8, m),
{
}

pub proof fn lemma_byte_bit_set(b: u8, k: u8, m: u8)
    by (bit_vector)
    requires
        k < 8,
        m < 8,
    ensures
        byte_bit(b | (1u8 << k), m) == (m == k || byte_bit(b, m)),
        byte_bit(b & !(1u8 << k), m) == (m != k && byte_bit(b, m)),
{
}

proof fn lemma_u64_bit_after_shr(v: u64, i: u64)
    by (bit_vector)
    requires
        i < 63,
    ensures
        u64_bit(v, (i + 1) as u64) == u64_bit(v >> 1u64, i),
{
}

proof fn lemma_u64_low_bit_is_mod2(v: u64)
    by (bit_vector)
    ensures
        (v >> 1u64) == v / 2,
        ((v >> 0u64) & 1u64) == v % 2,
{
}

/// `1u64 << k` is the power of two `pow2(k)`.
pub proof fn lemma_u64_shl_one(k: u64)
    requires
        k < 64,
    ensures
        (1u64 << k) == pow2(k as nat),
{
    lemma_u64_pow2_no_overflow(k as nat);
    lemma_u64_shl_is_mul(1u64, k);
}

/// A sequence of `n` bits encodes a value below `2^n`.
pub proof fn lemma_bits_nat_bound(s: Seq<bool>)
    ensures
        bits_nat(s) < pow2(s.len()),
    decreases s.len(),
{
    if s.len() == 0 {
        lemma2_to64();
    } else {
        lemma_bits_nat_bound(s.skip(1));
        lemma_pow2_unfold(s.len());
    }
}

/// Appending a bit at the most significant end adds its place value.
pub proof fn lemma_bits_nat_push(s: Seq<bool>, b: bool)
    ensures
        bits_nat(s.push(b)) == bits_nat(s) + (if b {
            pow2(s.len())
        } else {
            0nat
        }),
    decreases s.len(),
{
    if s.len() == 0 {
        assert(s.push(b).skip(1) =~= Seq::<bool>::empty());
        assert(s.push(b)[0] == b);
        lemma2_to64();
        assert(bits_nat(s) == 0);
        assert(bits_nat(Seq::<bool>::empty()) == 0);
        assert(bits_nat(s.push(b)) == (if b {
            1nat
        } else {
            0nat
        }));
    } else {
        assert(s.push(b).skip(1) =~= s.skip(1).push(b));
        assert(s.push(b)[0] == s[0]);
        lemma_bits_nat_push(s.skip(1), b);
        lemma_pow2_unfold(s.len());
        assert(bits_nat(s.push(b)) == (if s[0] {
            1nat
        } else {
            0nat
        }) + 2 * bits_nat(s.skip(1).push(b)));
    }
}

/// A sequence of clear bits encodes zero.
pub proof fn lemma_bits_nat_zero(s: Seq<bool>)
    requires
        forall|i: int| 0 <= i < s.len() ==> !s[i],
    ensures
        bits_nat(s) == 0,
    decreases s.len(),
{
    if s.len() > 0 {
        lemma_bits_nat_zero(s.skip(1));
    }
}

/// The value of the low `w` bits of `v` is `v` reduced modulo `2^w`.
pub proof fn lemma_low_bits_value(v: u64, w: nat)
    requires
        w <= 64,
    ensures
        bits_nat(low_bits(v, w)) == (v as nat) % pow2(w),
    decreases w,
{
    lemma_pow2_pos(w);
    if w == 0 {
        lemma2_to64();
        assert((v as nat) % 1 == 0);
    } else {
        let s = low_bits(v, w);
        assert forall|i: int| 0 <= i < w - 1 implies s.skip(1)[i] == low_bits(v >> 1u64, (w - 1) as nat)[i] by {
            lemma_u64_bit_after_shr(v, i as u64);
        }
        assert(s.skip(1) =~= low_bits(v >> 1u64, (w - 1) as nat));
        lemma_low_bits_value(v >> 1u64, (w - 1) as nat);
        lemma_u64_low_bit_is_mod2(v);
        assert(s[0] == ((v % 2) == 1));
        lemma_pow2_pos((w - 1) as nat);
        lemma_mod_breakdown(v as int, 2, pow2((w - 1) as nat) as int);
        lemma_pow2_unfold(w);
    }
}

/// Two bit sequences of one length that encode one value are the same
/// sequence.
pub proof fn lemma_bits_nat_injective(s: Seq<bool>, t: Seq<bool>)
    requires
        s.len() == t.len(),
        bits_nat(s) == bits_nat(t),
    ensures
        s =~= t,
    decreases s.len(),
{
    if s.len() > 0 {
        assert(bits_nat(s.skip(1)) == bits_nat(t.skip(1)));
        lemma_bits_nat_injective(s.skip(1), t.skip(1));
        assert forall|i: int| 0 <= i < s.len() implies s[i] == t[i] by {
            if i > 0 {
                assert(s[i] == s.skip(1)[i - 1]);
                assert(t[i] == t.skip(1)[i - 1]);
            }
        }
    }
}

/// Bit `j` of the value a bit sequence encodes is the sequence's bit `j`.
pub proof fn lemma_bits_nat_bit(s: Seq<bool>, j: u64)
    requires
        s.len() <= 64,
        j < s.len(),
    ensures
        u64_bit(bits_nat(s) as u64, j) == s[j as int],
{
    lemma_bits_nat_bound(s);
    if s.len() < 64 {
        lemma_pow2_strictly_increases(s.len(), 64);
    }
    lemma2_to64_rest();
    let v = bits_nat(s) as u64;
    lemma_low_bits_roundtrip(v, s.len());
    lemma_bits_nat_injective(s, low_bits(v, s.len()));
}

/// Round trip through a `w`-bit range: a value below `2^w`, stored bit by
/// bit and read back least-significant-bit first, is returned unchanged.
pub proof fn lemma_low_bits_roundtrip(v: u64, w: nat)
    requires
        w <= 64,
        (v as nat) < pow2(w),
    ensures
        bits_nat(low_bits(v, w)) == v,
{
    lemma_low_bits_value(v, w);
    lemma_pow2_pos(w);
    lemma_small_mod(v as nat, pow2(w));
}

} // verus!
