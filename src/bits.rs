//! A cursor that reads bit fields, most significant bit first within each byte.
use vstd::prelude::*;
use vstd::arithmetic::power2::{pow2, lemma_pow2_unfold, lemma2_to64};
use crate::error::DecodeError;

verus! {

/// The bit at bit position `p` of `d`, counting from the most significant bit
/// of the first byte.
pub open spec fn bit_at(d: Seq<u8>, p: nat) -> nat {
    ((d[(p / 8) as int] >> ((7 - p % 8) as u8)) & 1u8) as nat
}

/// The unsigned value of the `n` bits of `d` that start at bit position
/// `start`, the first of them the most significant.
pub open spec fn bits_value(d: Seq<u8>, start: nat, n: nat) -> nat
    decreases n,
{
    if n == 0 {
        0
    } else {
        2 * bits_value(d, start, (n - 1) as nat) + bit_at(d, (start + n - 1) as nat)
    }
}

/// A read position, in bits, over a borrowed byte buffer.
pub struct BitCursor<'a> {
    data: &'a [u8],
    bit_pos: usize,
}

impl<'a> BitCursor<'a> {
    /// The bytes read from.
    pub closed spec fn bytes(&self) -> Seq<u8> {
        self.data@
    }

    /// The number of bits consumed so far.
    pub closed spec fn position(&self) -> nat {
        self.bit_pos as nat
    }

    /// The cursor stays within its buffer.
    pub closed spec fn wf(&self) -> bool {
        self.bit_pos <= 8 * self.data@.len() && 8 * self.data@.len() <= usize::MAX
    }

    /// A cursor at the first bit of `data`.
    pub fn new(data: &'a [u8]) -> (r: BitCursor<'a>)
        requires
            8 * data@.len() <= usize::MAX,
        ensures
            r.wf(),
            r.bytes() == data@,
            r.position() == 0,
    {
        BitCursor { data, bit_pos: 0 }
    }

    /// The number of bits consumed so far.
    pub fn bit_position(&self) -> (r: usize)
        ensures
            r == self.position(),
    {
        self.bit_pos
    }

    /// The cursor sits on a byte boundary.
    pub fn is_byte_aligned(&self) -> (r: bool)
        ensures
            r == (self.position() % 8 == 0),
    {
        self.bit_pos % 8 == 0
    }

    /// Consumes the next `n` bits and returns their value. Fails with
    /// `Truncated`, at the byte that holds the current position, when fewer
    /// than `n` bits remain; the cursor then does not move.
    pub fn take_bits(&mut self, n: u32) -> (r: Result<u32, DecodeError>)
        requires
            old(self).wf(),
            1 <= n <= 32,
        ensures
            final(self).wf(),
            final(self).bytes() == old(self).bytes(),
            old(self).position() + n <= 8 * old(self).bytes().len() ==> {
                &&& r == Ok::<u32, DecodeError>(
                    bits_value(old(self).bytes(), old(self).position(), n as nat) as u32,
                )
                &&& bits_value(old(self).bytes(), old(self).position(), n as nat) < pow2(n as nat)
                &&& final(self).position() == old(self).position() + n
            },
            old(self).position() + n > 8 * old(self).bytes().len() ==> {
                &&& r == Err::<u32, DecodeError>(
                    DecodeError::Truncated((old(self).position() / 8) as usize),
                )
                &&& final(self).position() == old(self).position()
            },
    {
        let total = self.data.len() * 8;
        if n as usize > total - self.bit_pos {
            return Err(DecodeError::Truncated(self.bit_pos / 8));
        }
        let ghost d = self.data@;
        let ghost start = self.bit_pos as nat;
        let mut v: u32 = 0;
        let mut k: u32 = 0;
        proof {
            vstd::arithmetic::power2::lemma_pow2_pos(0);
        }
        while k < n
            invariant
                self.data@ == d,
                self.wf(),
                1 <= n <= 32,
                k <= n,
                start + n <= 8 * d.len(),
                self.bit_pos == start + k,
                v as nat == bits_value(d, start, k as nat),
                v < pow2(k as nat),
            decreases n - k,
        {
            let p = self.bit_pos;
            let byte = self.data[p / 8];
            let bit: u8 = (byte >> ((7 - p % 8) as u8)) & 1u8;
            proof {
                lemma_pow2_unfold((k + 1) as nat);
                lemma2_to64();
                assert(bit <= 1) by (bit_vector)
                    requires
                        bit == (byte >> ((7 - p % 8) as u8)) & 1u8,
                ;
                if k + 1 < 32 {
                    vstd::arithmetic::power2::lemma_pow2_strictly_increases((k + 1) as nat, 32);
                }
                assert(bit_at(d, (start + k) as nat) == bit as nat);
            }
            v = v * 2 + bit as u32;
            k = k + 1;
            self.bit_pos = self.bit_pos + 1;
        }
        Ok(v)
    }

    /// Consumes one bit: `true` when it is set.
    pub fn take_bool(&mut self) -> (r: Result<bool, DecodeError>)
        requires
            old(self).wf(),
        ensures
            final(self).wf(),
            final(self).bytes() == old(self).bytes(),
            old(self).position() < 8 * old(self).bytes().len() ==> {
                &&& r == Ok::<bool, DecodeError>(bit_at(old(self).bytes(), old(self).position()) == 1)
                &&& final(self).position() == old(self).position() + 1
            },
            old(self).position() >= 8 * old(self).bytes().len() ==> {
                &&& r == Err::<bool, DecodeError>(
                    DecodeError::Truncated((old(self).position() / 8) as usize),
                )
                &&& final(self).position() == old(self).position()
            },
    {
        proof {
            reveal_with_fuel(bits_value, 2);
        }
        match self.take_bits(1) {
            Ok(u) => Ok(u == 1),
            Err(e) => Err(e),
        }
    }
}

} // verus!
