//! A sequential, forward-only bit-granularity reader over a byte buffer,
//! together with the specification-level view of bits and bit runs.

use vstd::prelude::*;
use vstd::arithmetic::power2::{pow2, lemma_pow2_unfold, lemma_pow2_strictly_increases, lemma2_to64};
use crate::ParseError;

verus! {

/// The bit at MSB-first index `i` of the byte sequence `b`: bit 0 is the
/// most significant bit of `b[0]`, bit 8 the most significant bit of `b[1]`.
pub open spec fn bit_at(b: Seq<u8>, i: nat) -> u8 {
    (b[(i / 8) as int] >> ((7 - i % 8) as u8)) & 1
}

/// True when `n` bits starting at bit offset `pos` lie inside `b`.
pub open spec fn can_read(b: Seq<u8>, pos: nat, n: nat) -> bool {
    pos + n <= b.len() * 8
}

/// The unsigned value of the `n` bits of `b` starting at bit offset `pos`,
/// most significant bit first.
pub open spec fn bits_value(b: Seq<u8>, pos: nat, n: nat) -> nat
    decreases n,
{
    if n == 0 {
        0
    } else {
        bits_value(b, pos, (n - 1) as nat) * 2 + bit_at(b, (pos + n - 1) as nat) as nat
    }
}

/// What reading one bit at `pos` yields: the bit and the offset past it.
pub open spec fn read_bit_spec(b: Seq<u8>, pos: nat) -> Result<(u8, nat), ParseError> {
    if can_read(b, pos, 1) {
        Ok((bit_at(b, pos), (pos + 1) as nat))
    } else {
        Err(ParseError::UnexpectedEof)
    }
}

/// What reading `n` bits at `pos` yields: their value and the offset past
/// them.
pub open spec fn read_bits_spec(b: Seq<u8>, pos: nat, n: nat) -> Result<(nat, nat), ParseError> {
    if can_read(b, pos, n) {
        Ok((bits_value(b, pos, n), (pos + n) as nat))
    } else {
        Err(ParseError::UnexpectedEof)
    }
}

/// A single bit is zero or one.
pub proof fn lemma_bit_at_le_1(b: Seq<u8>, i: nat)
    ensures
        bit_at(b, i) <= 1,
{
    let byte = b[(i / 8) as int];
    let s = (7 - i % 8) as u8;
    assert((byte >> s) & 1 <= 1) by (bit_vector);
}

/// A run of `n` bits reads as a value below `pow2(n)`.
pub proof fn lemma_bits_value_bound(b: Seq<u8>, pos: nat, n: nat)
    ensures
        bits_value(b, pos, n) < pow2(n),
    decreases n,
{
    if n == 0 {
        lemma2_to64();
    } else {
        lemma_bits_value_bound(b, pos, (n - 1) as nat);
        lemma_bit_at_le_1(b, (pos + n - 1) as nat);
        lemma_pow2_unfold(n);
    }
}

/// The first `k` bits of the byte at index `j` read as that byte shifted
/// down by the bits not yet covered.
proof fn lemma_byte_prefix(b: Seq<u8>, j: nat, k: nat)
    requires
        j < b.len(),
        k <= 8,
    ensures
        bits_value(b, (8 * j) as nat, k) == (b[j as int] >> ((8 - k) as u8)) as nat,
    decreases k,
{
    let byte = b[j as int];
    if k == 0 {
        assert(byte >> 8u8 == 0) by (bit_vector);
    } else {
        lemma_byte_prefix(b, j, (k - 1) as nat);
        let i = (8 * j + k - 1) as nat;
        assert(i / 8 == j && i % 8 == (k - 1) as nat) by (nonlinear_arith)
            requires
                1 <= k <= 8 && i == 8 * j + k - 1,
        ;
        let s = (8 - k) as u8;
        assert(byte >> s == (byte >> ((s + 1) as u8)) * 2 + ((byte >> s) & 1)) by (bit_vector)
            requires
                s < 8,
        ;
    }
}

/// Eight bits read at a byte-aligned offset are exactly that byte.
pub proof fn lemma_bits_value_byte(b: Seq<u8>, j: nat)
    requires
        j < b.len(),
    ensures
        bits_value(b, (8 * j) as nat, 8) == b[j as int] as nat,
{
    lemma_byte_prefix(b, j, 8);
    let byte = b[j as int];
    assert(byte >> 0u8 == byte) by (bit_vector);
}

/// A sequential, forward-only reader of 1..=32-bit fields from a byte
/// buffer.  The cursor is exclusively owned by the active parse call.
pub struct BitCursor {
    bytes: Vec<u8>,
    pos: usize,
}

impl BitCursor {
    /// The underlying byte buffer.
    pub closed spec fn data(&self) -> Seq<u8> {
        self.bytes@
    }

    /// The current bit offset from the start of the buffer.
    pub closed spec fn bit_pos(&self) -> nat {
        self.pos as nat
    }

    /// The cursor never points past the end of the buffer, and the buffer's
    /// bit count fits the machine word.
    pub closed spec fn wf(&self) -> bool {
        self.pos <= self.bytes@.len() * 8 && self.bytes@.len() * 8 <= usize::MAX
    }

    /// A well-formed cursor's buffer has a bit count that fits the machine
    /// word, and its position lies within it.
    pub proof fn lemma_wf_bounds(&self)
        requires
            self.wf(),
        ensures
            self.data().len() * 8 <= usize::MAX,
            self.bit_pos() <= self.data().len() * 8,
    {
    }

    /// Wrap a byte buffer, positioned at its first bit.
    pub fn new(bytes: Vec<u8>) -> (r: Self)
        requires
            bytes@.len() * 8 <= usize::MAX,
        ensures
            r.wf(),
            r.data() == bytes@,
            r.bit_pos() == 0,
    {
        BitCursor { bytes, pos: 0 }
    }

    /// The number of bits consumed so far.
    pub fn bits_consumed(&self) -> (r: u64)
        ensures
            r == self.bit_pos(),
    {
        self.pos as u64
    }

    /// Read one bit and advance.
    pub fn read_bit(&mut self) -> (r: Result<u8, ParseError>)
        requires
            old(self).wf(),
        ensures
            final(self).wf(),
            final(self).data() == old(self).data(),
            match r {
                Ok(v) => can_read(old(self).data(), old(self).bit_pos(), 1)
                    && v == bit_at(old(self).data(), old(self).bit_pos())
                    && final(self).bit_pos() == old(self).bit_pos() + 1,
                Err(e) => e == ParseError::UnexpectedEof
                    && !can_read(old(self).data(), old(self).bit_pos(), 1)
                    && final(self).bit_pos() == old(self).bit_pos(),
            },
    {
        let total: usize = self.bytes.len() * 8;
        if self.pos >= total {
            return Err(ParseError::UnexpectedEof);
        }
        let byte_idx: usize = self.pos / 8;
        proof {
            assert(self.pos / 8 < self.bytes@.len()) by (nonlinear_arith)
                requires
                    self.pos < self.bytes@.len() * 8,
            ;
        }
        let byte: u8 = self.bytes[byte_idx];
        let off: usize = self.pos % 8;
        let shift: u8 = (7 - off) as u8;
        let bit: u8 = (byte >> shift) & 1;
        self.pos = self.pos + 1;
        Ok(bit)
    }

    /// Read `n <= 32` bits, most significant bit first, and advance.  On a
    /// failure nothing is consumed.
    pub fn read_bits(&mut self, n: usize) -> (r: Result<u32, ParseError>)
        requires
            old(self).wf(),
            n <= 32,
        ensures
            final(self).wf(),
            final(self).data() == old(self).data(),
            match r {
                Ok(v) => can_read(old(self).data(), old(self).bit_pos(), n as nat)
                    && v as nat == bits_value(old(self).data(), old(self).bit_pos(), n as nat)
                    && final(self).bit_pos() == old(self).bit_pos() + n,
                Err(e) => e == ParseError::UnexpectedEof
                    && !can_read(old(self).data(), old(self).bit_pos(), n as nat)
                    && final(self).bit_pos() == old(self).bit_pos(),
            },
    {
        let total: usize = self.bytes.len() * 8;
        if n > total - self.pos {
            return Err(ParseError::UnexpectedEof);
        }
        let ghost b = self.bytes@;
        let ghost pos0 = self.pos as nat;
        let mut acc: u32 = 0;
        let mut i: usize = 0;
        while i < n
            invariant
                self.wf(),
                self.data() == b,
                n <= 32,
                i <= n,
                self.bit_pos() == pos0 + i,
                can_read(b, pos0, n as nat),
                acc as nat == bits_value(b, pos0, i as nat),
            decreases n - i,
        {
            proof {
                lemma_bits_value_bound(b, pos0, i as nat);
                lemma_bit_at_le_1(b, (pos0 + i) as nat);
                lemma_pow2_unfold((i + 1) as nat);
                if i + 1 < 32 {
                    lemma_pow2_strictly_increases((i + 1) as nat, 32);
                }
                lemma2_to64();
            }
            let bit = match self.read_bit() {
                Ok(v) => v,
                Err(_) => {
                    proof {
                        assert(false);
                    }
                    return Err(ParseError::UnexpectedEof);
                },
            };
            acc = acc * 2 + bit as u32;
            i = i + 1;
        }
        Ok(acc)
    }

    /// Advance over `n` bits without interpreting them.  On a failure
    /// nothing is consumed.
    pub fn skip_bits(&mut self, n: u64) -> (r: Result<(), ParseError>)
        requires
            old(self).wf(),
        ensures
            final(self).wf(),
            final(self).data() == old(self).data(),
            match r {
                Ok(_) => can_read(old(self).data(), old(self).bit_pos(), n as nat)
                    && final(self).bit_pos() == old(self).bit_pos() + n,
                Err(e) => e == ParseError::UnexpectedEof
                    && !can_read(old(self).data(), old(self).bit_pos(), n as nat)
                    && final(self).bit_pos() == old(self).bit_pos(),
            },
    {
        let total: usize = self.bytes.len() * 8;
        let avail: usize = total - self.pos;
        if n <= avail as u64 {
            self.pos = self.pos + (n as usize);
            Ok(())
        } else {
            Err(ParseError::UnexpectedEof)
        }
    }
}

} // verus!
