//! Packed storage: a fixed-size, zero-initialized byte buffer, together with
//! the bit accessor engine `get_bits` / `set_bits` that reads and writes
//! arbitrary bit ranges across byte boundaries.
//!
//! Bit `i` of the buffer is bit `i % 8` of byte `i / 8`, with bit 0 of a byte
//! its least significant bit.

use vstd::prelude::*;
use vstd::arithmetic::power2::pow2;
use crate::bitmath::{
    bits_nat, byte_bit, lemma_bits_nat_bound, lemma_bits_nat_push, lemma_byte_bit_set,
    lemma_byte_bit_zero, lemma_low_bits_value, lemma_u64_bit_or_pow2, lemma_u64_bit_zero,
    lemma_u64_or_pow2_is_add, lemma_u64_shl_one, low_bits, u64_bit,
};

verus! {

/// Bit `i` of a byte sequence, least-significant-bit first within each byte.
pub open spec fn bit_in_bytes(bytes: Seq<u8>, i: int) -> bool {
    byte_bit(bytes[i / 8], (i % 8) as u8)
}

/// The byte buffer backing one record; the only runtime state in the system.
pub struct PackedStorage {
    data: Vec<u8>,
}

impl View for PackedStorage {
    type V = Seq<u8>;

    closed spec fn view(&self) -> Seq<u8> {
        self.data@
    }
}

impl PackedStorage {
    /// The number of addressable bits.
    pub open spec fn bit_len(&self) -> int {
        8 * (self@.len() as int)
    }

    /// Bit `i` of the buffer.
    pub open spec fn bit(&self, i: int) -> bool {
        bit_in_bytes(self@, i)
    }

    /// The `count` bits starting at `start`, least significant first.
    pub open spec fn range_bits(&self, start: int, count: nat) -> Seq<bool> {
        Seq::new(count, |j: int| self.bit(start + j))
    }

    /// The value held by the `count`-bit range starting at `start`.
    pub open spec fn range_value(&self, start: int, count: nat) -> nat {
        bits_nat(self.range_bits(start, count))
    }

    /// A zero-initialized buffer of `num_bytes` bytes: every bit is clear.
    pub fn new(num_bytes: usize) -> (r: Self)
        ensures
            r@.len() == num_bytes,
            forall|i: int| 0 <= i < r@.len() ==> r@[i] == 0u8,
            forall|i: int| 0 <= i < r.bit_len() ==> !r.bit(i),
    {
        let mut data: Vec<u8> = Vec::new();
        let mut n: usize = 0;
        while n < num_bytes
            invariant
                n <= num_bytes,
                data@.len() == n,
                forall|i: int| 0 <= i < n ==> data@[i] == 0u8,
            decreases num_bytes - n,
        {
            data.push(0u8);
            n = n + 1;
        }
        let r = PackedStorage { data };
        proof {
            assert forall|i: int| 0 <= i < r.bit_len() implies !r.bit(i) by {
                lemma_byte_bit_zero((i % 8) as u8);
            }
        }
        r
    }

    /// The number of bytes of storage.
    pub fn num_bytes(&self) -> (r: usize)
        ensures
            r == self@.len(),
    {
        self.data.len()
    }

    /// Byte `i` of the raw buffer.
    pub fn byte_at(&self, i: usize) -> (r: u8)
        requires
            i < self@.len(),
        ensures
            r == self@[i as int],
    {
        self.data[i]
    }

    /// Read the `count`-bit range starting at bit `start`, returning its
    /// value right-aligned (bit `j` of the result is bit `start + j` of the
    /// buffer, and all higher result bits are clear).
    pub fn get_bits(&self, start: usize, count: usize) -> (r: u64)
        requires
            count <= 64,
            start + count <= self.bit_len(),
            start + count <= usize::MAX,
        ensures
            r as nat == self.range_value(start as int, count as nat),
            (r as nat) < pow2(count as nat),
            forall|j: u64| j < count ==> u64_bit(r, j) == self.bit(start + j),
    {
        let mut result: u64 = 0;
        let mut i: usize = 0;
        proof {
            assert forall|j: u64| j < 64 implies !u64_bit(0u64, j) by {
                lemma_u64_bit_zero(j);
            }
            assert(self.range_bits(start as int, 0) =~= Seq::<bool>::empty());
        }
        while i < count
            invariant
                i <= count,
                count <= 64,
                start + count <= self.bit_len(),
                start + count <= usize::MAX,
                result as nat == self.range_value(start as int, i as nat),
                forall|j: u64| j < i ==> u64_bit(result, j) == self.bit(start + j),
                forall|j: u64| i <= j < 64 ==> !u64_bit(result, j),
            decreases count - i,
        {
            let bit_idx: usize = start + i;
            let byte_idx: usize = bit_idx / 8;
            let shift: u8 = (bit_idx % 8) as u8;
            let ghost prev = result;
            let ghost prev_bits = self.range_bits(start as int, i as nat);
            proof {
                lemma_bits_nat_bound(prev_bits);
                lemma_u64_shl_one(i as u64);
            }
            if (self.data[byte_idx] >> shift) & 1 == 1 {
                result = result | (1u64 << (i as u64));
                proof {
                    lemma_u64_or_pow2_is_add(prev, i as u64);
                    assert forall|j: u64| j < 64 implies u64_bit(result, j) == (j == i
                        || u64_bit(prev, j)) by {
                        lemma_u64_bit_or_pow2(prev, i as u64, j);
                    }
                }
            }
            proof {
                assert(self.range_bits(start as int, (i + 1) as nat) =~= prev_bits.push(
                    self.bit(start + i),
                ));
                lemma_bits_nat_push(prev_bits, self.bit(start + i));
            }
            i = i + 1;
        }
        proof {
            lemma_bits_nat_bound(self.range_bits(start as int, count as nat));
        }
        result
    }

    /// Write `value` into the `count`-bit range starting at bit `start`:
    /// bit `start + j` of the buffer becomes bit `j` of `value`, every other
    /// bit is left unchanged (bits of `value` at position `count` and above
    /// are ignored), so the range afterwards holds `value` reduced modulo
    /// `2^count`.
    pub fn set_bits(&mut self, start: usize, count: usize, value: u64)
        requires
            count <= 64,
            start + count <= old(self).bit_len(),
            start + count <= usize::MAX,
        ensures
            final(self)@.len() == old(self)@.len(),
            forall|j: u64| j < count ==> final(self).bit(start + j) == u64_bit(value, j),
            forall|p: int|
                0 <= p < old(self).bit_len() && !(start <= p < start + count) ==> final(self).bit(p)
                    == old(self).bit(p),
            final(self).range_value(start as int, count as nat) == (value as nat) % pow2(
                count as nat,
            ),
    {
        let mut i: usize = 0;
        while i < count
            invariant
                i <= count,
                count <= 64,
                start + count <= old(self).bit_len(),
                start + count <= usize::MAX,
                self@.len() == old(self)@.len(),
                forall|j: u64| j < i ==> self.bit(start + j) == u64_bit(value, j),
                forall|p: int|
                    0 <= p < old(self).bit_len() && !(start <= p < start + i) ==> self.bit(p)
                        == old(self).bit(p),
            decreases count - i,
        {
            let bit_idx: usize = start + i;
            let byte_idx: usize = bit_idx / 8;
            let shift: u8 = (bit_idx % 8) as u8;
            let b: u8 = self.data[byte_idx];
            let ghost before = *self;
            let nb: u8 = if (value >> (i as u64)) & 1 == 1 {
                b | (1u8 << shift)
            } else {
                b & !(1u8 << shift)
            };
            self.data[byte_idx] = nb;
            proof {
                assert forall|p: int| 0 <= p < old(self).bit_len() implies self.bit(p) == (if p
                    == bit_idx {
                    u64_bit(value, i as u64)
                } else {
                    before.bit(p)
                }) by {
                    if p / 8 == byte_idx {
                        lemma_byte_bit_set(b, shift, (p % 8) as u8);
                    }
                }
            }
            i = i + 1;
        }
        proof {
            assert forall|j: u64| j < count implies self.bit(start + j) == u64_bit(value, j) by {}
            assert(self.range_bits(start as int, count as nat) =~= low_bits(value, count as nat));
            lemma_low_bits_value(value, count as nat);
        }
    }
}

} // verus!
