//! The two variable-length integer codecs of the OBU grammar: the
//! byte-oriented LEB128 codec used for OBU sizes, and the unary-prefixed
//! variable-bit-width codec (UVLC) used for counts inside the sequence
//! header.

use vstd::prelude::*;
use vstd::arithmetic::power2::{pow2, lemma_pow2_adds, lemma_pow2_strictly_increases, lemma2_to64, lemma2_to64_rest};
use crate::ParseError;
use crate::bits::{BitCursor, bit_at, bits_value, can_read, lemma_bits_value_bound, lemma_bits_value_byte};

verus! {

/// Result of decoding one UVLC field: a unary run of `leading_zeros` zero
/// bits, a one-bit terminator, then `leading_zeros` literal suffix bits
/// whose value this is.  A run of 32 zero bits saturates to `u32::MAX`.
#[derive(Clone, Copy, Debug, PartialEq, Eq, Structural)]
pub struct uvlc {
    pub value: u32,
}

/// Result of decoding one LEB128 field: the decoded magnitude and the count
/// of bytes consumed, which the framer needs to reconcile payload sizes.
#[derive(Clone, Copy, Debug, PartialEq, Eq, Structural)]
pub struct leb_128 {
    pub value: u64,
    pub bytes_consumed: u8,
}

/// What decoding a UVLC field at bit offset `pos` yields, after `lz` zero
/// bits of the unary prefix have already been scanned: on success, the
/// decoded value and the bit offset just past the field.
pub open spec fn uvlc_spec_rec(b: Seq<u8>, pos: nat, lz: nat) -> Result<(u32, nat), ParseError>
    decreases 32 - lz,
{
    if lz >= 32 {
        Ok((u32::MAX, pos))
    } else if !can_read(b, pos, 1) {
        Err(ParseError::UnexpectedEof)
    } else if bit_at(b, pos) == 1 {
        if can_read(b, (pos + 1) as nat, lz) {
            Ok((bits_value(b, (pos + 1) as nat, lz) as u32, (pos + 1 + lz) as nat))
        } else {
            Err(ParseError::UnexpectedEof)
        }
    } else {
        uvlc_spec_rec(b, (pos + 1) as nat, (lz + 1) as nat)
    }
}

/// What decoding a UVLC field at bit offset `pos` of `b` yields.
pub open spec fn uvlc_spec(b: Seq<u8>, pos: nat) -> Result<(u32, nat), ParseError> {
    uvlc_spec_rec(b, pos, 0)
}

/// The `i`-th 8-bit group of an LEB128 field that starts at bit offset
/// `pos`.
pub open spec fn leb128_group(b: Seq<u8>, pos: nat, i: nat) -> u8 {
    bits_value(b, (pos + 8 * i) as nat, 8) as u8
}

/// What decoding an LEB128 field yields once `i` groups are already folded
/// into `acc`: each group contributes its low 7 bits at bit position `7 * i`
/// of the value; a clear continuation bit terminates; more than 8 groups are
/// rejected.
pub open spec fn leb128_spec_rec(b: Seq<u8>, pos: nat, i: nat, acc: u64) -> Result<
    (u64, nat),
    ParseError,
>
    decreases 8 - i,
{
    if i >= 8 {
        Err(ParseError::TruncatedVarint)
    } else if !can_read(b, pos, 8) {
        Err(ParseError::UnexpectedEof)
    } else {
        let g = bits_value(b, pos, 8) as u8;
        let acc2 = acc | (((g & 0x7f) as u64) << ((7 * i) as u64));
        if g & 0x80 == 0 {
            Ok((acc2, (pos + 8) as nat))
        } else {
            leb128_spec_rec(b, (pos + 8) as nat, (i + 1) as nat, acc2)
        }
    }
}

/// What decoding an LEB128 field at bit offset `pos` of `b` yields: on
/// success, the decoded value and the bit offset just past the field.
pub open spec fn leb128_spec(b: Seq<u8>, pos: nat) -> Result<(u64, nat), ParseError> {
    leb128_spec_rec(b, pos, 0, 0)
}

/// The canonical LEB128 encoding of `v`: low 7 bits per byte, continuation
/// bit set on every byte but the last.
pub open spec fn leb128_encoding(v: u64) -> Seq<u8>
    decreases v,
{
    if v < 0x80 {
        seq![v as u8]
    } else {
        seq![((v % 0x80) + 0x80) as u8] + leb128_encoding(v / 0x80)
    }
}

impl uvlc {
    /// Wrap an already-decoded value.
    pub fn new(value: u32) -> (r: Self)
        ensures
            r.value == value,
    {
        uvlc { value }
    }

    /// Decode one UVLC field from the cursor.
    pub fn from_reader(r: &mut BitCursor) -> (res: Result<uvlc, ParseError>)
        requires
            old(r).wf(),
        ensures
            final(r).wf(),
            final(r).data() == old(r).data(),
            old(r).bit_pos() <= final(r).bit_pos(),
            match res {
                Ok(v) => uvlc_spec(old(r).data(), old(r).bit_pos()) == Ok::<(u32, nat), ParseError>(
                    (v.value, final(r).bit_pos()),
                ),
                Err(e) => uvlc_spec(old(r).data(), old(r).bit_pos()) == Err::<
                    (u32, nat),
                    ParseError,
                >(e),
            },
    {
        let ghost b = r.data();
        let ghost pos0 = r.bit_pos();
        let mut lz: usize = 0;
        while lz < 32
            invariant
                r.wf(),
                r.data() == b,
                b == old(r).data(),
                pos0 == old(r).bit_pos(),
                lz <= 32,
                r.bit_pos() == pos0 + lz,
                uvlc_spec(b, pos0) == uvlc_spec_rec(b, (pos0 + lz) as nat, lz as nat),
            decreases 32 - lz,
        {
            let bit = match r.read_bit() {
                Ok(v) => v,
                Err(e) => {
                    return Err(e);
                },
            };
            if bit == 1 {
                proof {
                    lemma_bits_value_bound(b, (pos0 + lz + 1) as nat, lz as nat);
                    lemma_pow2_strictly_increases(lz as nat, 32);
                    lemma2_to64();
                }
                let suffix = match r.read_bits(lz) {
                    Ok(v) => v,
                    Err(e) => {
                        return Err(e);
                    },
                };
                return Ok(uvlc { value: suffix });
            }
            lz = lz + 1;
        }
        Ok(uvlc { value: u32::MAX })
    }
}

impl leb_128 {
    /// Wrap an already-known magnitude that consumed no bytes of the
    /// stream, as when a payload size is inferred from the container.
    pub fn new(value: u64) -> (r: Self)
        ensures
            r.value == value,
            r.bytes_consumed == 0,
    {
        leb_128 { value, bytes_consumed: 0 }
    }

    /// Decode one LEB128 field from the cursor.
    pub fn from_reader(r: &mut BitCursor) -> (res: Result<leb_128, ParseError>)
        requires
            old(r).wf(),
        ensures
            final(r).wf(),
            final(r).data() == old(r).data(),
            old(r).bit_pos() <= final(r).bit_pos(),
            match res {
                Ok(v) => leb128_spec(old(r).data(), old(r).bit_pos()) == Ok::<
                    (u64, nat),
                    ParseError,
                >((v.value, final(r).bit_pos()))
                    && 8 * v.bytes_consumed == final(r).bit_pos() - old(r).bit_pos(),
                Err(e) => leb128_spec(old(r).data(), old(r).bit_pos()) == Err::<
                    (u64, nat),
                    ParseError,
                >(e),
            },
    {
        let ghost b = r.data();
        let ghost pos0 = r.bit_pos();
        let mut value: u64 = 0;
        let mut i: usize = 0;
        while i < 8
            invariant
                r.wf(),
                r.data() == b,
                b == old(r).data(),
                pos0 == old(r).bit_pos(),
                i <= 8,
                r.bit_pos() == pos0 + 8 * i,
                leb128_spec(b, pos0) == leb128_spec_rec(b, (pos0 + 8 * i) as nat, i as nat, value),
            decreases 8 - i,
        {
            let g32 = match r.read_bits(8) {
                Ok(v) => v,
                Err(e) => {
                    return Err(e);
                },
            };
            proof {
                lemma_bits_value_bound(b, (pos0 + 8 * i) as nat, 8);
                lemma2_to64();
            }
            let g = g32 as u8;
            value = value | (((g & 0x7f) as u64) << ((7 * i) as u64));
            if g & 0x80 == 0 {
                return Ok(leb_128 { value, bytes_consumed: (i + 1) as u8 });
            }
            i = i + 1;
        }
        Err(ParseError::TruncatedVarint)
    }

    /// Produce the canonical LEB128 encoding of `value`.
    pub fn encode(value: u64) -> (r: Vec<u8>)
        ensures
            r@ == leb128_encoding(value),
    {
        let mut v = value;
        let mut out: Vec<u8> = Vec::new();
        loop
            invariant
                leb128_encoding(value) == out@ + leb128_encoding(v),
            decreases v,
        {
            if v < 0x80 {
                out.push(v as u8);
                proof {
                    assert(out@ =~= leb128_encoding(value));
                }
                return out;
            }
            let ghost prev = v;
            let byte = ((v % 0x80) + 0x80) as u8;
            out.push(byte);
            v = v / 0x80;
            proof {
                assert(v < prev) by (nonlinear_arith)
                    requires
                        v == prev / 0x80 && prev >= 0x80,
                ;
                assert(leb128_encoding(value) =~= out@ + leb128_encoding(v));
            }
        }
    }
}

/// A value below `pow2(7 * m)` encodes into at most `m` LEB128 groups.
proof fn lemma_leb128_encoding_len(v: u64, m: nat)
    requires
        1 <= m,
        v < pow2(7 * m),
    ensures
        leb128_encoding(v).len() <= m,
    decreases m,
{
    if v >= 0x80 {
        lemma2_to64();
        if m == 1 {
            assert(false);
        } else {
            lemma_pow2_adds(7, (7 * (m - 1)) as nat);
            assert(v / 0x80 < pow2((7 * (m - 1)) as nat)) by (nonlinear_arith)
                requires
                    v < 0x80 * pow2((7 * (m - 1)) as nat),
            ;
            lemma_leb128_encoding_len(v / 0x80, (m - 1) as nat);
        }
    }
}

/// Decoding continues exactly through the groups of an encoding laid out at
/// `pos`, folding the encoded value into `acc` at bit position `7 * i`.
proof fn lemma_leb128_decode_at(b: Seq<u8>, pos: nat, i: nat, acc: u64, v: u64)
    requires
        i < 8,
        leb128_encoding(v).len() <= 8 - i,
        can_read(b, pos, (8 * leb128_encoding(v).len()) as nat),
        forall|j: nat|
            j < leb128_encoding(v).len() ==> #[trigger] leb128_group(b, pos, j)
                == leb128_encoding(v)[j as int],
    ensures
        leb128_spec_rec(b, pos, i, acc) == Ok::<(u64, nat), ParseError>(
            (acc | (v << ((7 * i) as u64)), (pos + 8 * leb128_encoding(v).len()) as nat),
        ),
    decreases v,
{
    let enc = leb128_encoding(v);
    assert(leb128_group(b, pos, 0) == enc[0]);
    assert(pos + 8 * 0 == pos);
    let g = bits_value(b, pos, 8) as u8;
    assert(g == enc[0]);
    let s = (7 * i) as u64;
    if v < 0x80 {
        assert(g & 0x80 == 0 && (g & 0x7f) as u64 == v) by (bit_vector)
            requires
                g == v as u8 && v < 0x80,
        ;
    } else {
        let b0 = ((v % 0x80) + 0x80) as u8;
        let rest = leb128_encoding(v / 0x80);
        assert(enc == seq![b0] + rest);
        assert(g == b0);
        assert(g & 0x80 != 0) by (bit_vector)
            requires
                g == ((v % 0x80) + 0x80) as u8,
        ;
        let acc2 = acc | (((g & 0x7f) as u64) << s);
        assert(rest.len() >= 1);
        assert forall|j: nat| j < rest.len() implies #[trigger] leb128_group(b, (pos + 8) as nat, j)
            == rest[j as int] by {
            assert(pos + 8 + 8 * j == pos + 8 * (j + 1));
            assert(leb128_group(b, pos, (j + 1) as nat) == enc[(j + 1) as int]);
            assert(enc[(j + 1) as int] == rest[j as int]);
        }
        assert(v / 0x80 < v) by (nonlinear_arith)
            requires
                v >= 0x80,
        ;
        lemma_leb128_decode_at(b, (pos + 8) as nat, (i + 1) as nat, acc2, v / 0x80);
        assert((acc | (((g & 0x7f) as u64) << s)) | ((v / 0x80) << ((s + 7) as u64)) == acc | (v
            << s)) by (bit_vector)
            requires
                g == ((v % 0x80) + 0x80) as u8 && s <= 49,
        ;
        assert(pos + 8 + 8 * rest.len() == pos + 8 * enc.len());
    }
}

/// LEB128 round trip: decoding the canonical encoding of any value that
/// fits in 8 groups (56 value bits) yields that value back and consumes
/// exactly the encoding.  A value of 2^56 or more has no 8-group encoding:
/// the decoder rejects every stream of 8 unterminated groups, as
/// `lemma_leb128_overlong_rejected` states.
pub proof fn lemma_leb128_round_trip(v: u64)
    requires
        v < 0x100000000000000,
    ensures
        leb128_spec(leb128_encoding(v), 0) == Ok::<(u64, nat), ParseError>(
            (v, (8 * leb128_encoding(v).len()) as nat),
        ),
{
    let enc = leb128_encoding(v);
    lemma2_to64_rest();
    lemma_leb128_encoding_len(v, 8);
    assert forall|j: nat| j < enc.len() implies #[trigger] leb128_group(enc, 0, j) == enc[j as int] by {
        lemma_bits_value_byte(enc, j);
        assert(0 + 8 * j == 8 * j);
    }
    lemma_leb128_decode_at(enc, 0, 0, 0, v);
    assert(0u64 | (v << 0u64) == v) by (bit_vector);
}

/// A stream whose next 8 groups all carry the continuation bit drives the
/// decoder into the truncation error, whatever follows.
proof fn lemma_leb128_all_continue(b: Seq<u8>, pos: nat, i: nat, acc: u64)
    requires
        i <= 8,
        can_read(b, pos, (8 * (8 - i)) as nat),
        forall|j: nat| j < 8 - i ==> #[trigger] leb128_group(b, pos, j) & 0x80 != 0,
    ensures
        leb128_spec_rec(b, pos, i, acc) == Err::<(u64, nat), ParseError>(
            ParseError::TruncatedVarint,
        ),
    decreases 8 - i,
{
    if i < 8 {
        assert(leb128_group(b, pos, 0) & 0x80 != 0);
        assert(pos + 8 * 0 == pos);
        let g = bits_value(b, pos, 8) as u8;
        let acc2 = acc | (((g & 0x7f) as u64) << ((7 * i) as u64));
        assert forall|j: nat| j < 8 - (i + 1) implies #[trigger] leb128_group(b, (pos + 8) as nat, j)
            & 0x80 != 0 by {
            assert(pos + 8 + 8 * j == pos + 8 * (j + 1));
            assert(leb128_group(b, pos, (j + 1) as nat) & 0x80 != 0);
        }
        lemma_leb128_all_continue(b, (pos + 8) as nat, (i + 1) as nat, acc2);
    }
}

/// An LEB128 field of 8 groups, none of which terminates, is rejected with
/// the truncation error rather than decoded.
pub proof fn lemma_leb128_overlong_rejected(b: Seq<u8>, pos: nat)
    requires
        can_read(b, pos, 64),
        forall|j: nat| j < 8 ==> #[trigger] leb128_group(b, pos, j) & 0x80 != 0,
    ensures
        leb128_spec(b, pos) == Err::<(u64, nat), ParseError>(ParseError::TruncatedVarint),
{
    lemma_leb128_all_continue(b, pos, 0, 0);
}

/// After `lz` zeros, a remaining all-zero run up to the 32-zero cap
/// saturates the UVLC decoder to the sentinel without reading a terminator.
proof fn lemma_uvlc_zeros(b: Seq<u8>, pos: nat, lz: nat)
    requires
        lz <= 32,
        can_read(b, pos, (32 - lz) as nat),
        forall|k: nat| k < 32 - lz ==> #[trigger] bit_at(b, (pos + k) as nat) == 0,
    ensures
        uvlc_spec_rec(b, pos, lz) == Ok::<(u32, nat), ParseError>(
            (u32::MAX, (pos + 32 - lz) as nat),
        ),
    decreases 32 - lz,
{
    if lz < 32 {
        assert(bit_at(b, (pos + 0) as nat) == 0);
        assert forall|k: nat| k < 32 - (lz + 1) implies #[trigger] bit_at(b, (pos + 1 + k) as nat)
            == 0 by {
            assert(pos + 1 + k == pos + (k + 1));
            assert(bit_at(b, (pos + (k + 1)) as nat) == 0);
        }
        lemma_uvlc_zeros(b, (pos + 1) as nat, (lz + 1) as nat);
    }
}

/// A 32-bit run of zero bits saturates the UVLC decoder: it yields the
/// maximum representable value and consumes exactly those 32 bits, with no
/// terminator or suffix required.
pub proof fn lemma_uvlc_saturates(b: Seq<u8>, pos: nat)
    requires
        can_read(b, pos, 32),
        forall|k: nat| k < 32 ==> #[trigger] bit_at(b, (pos + k) as nat) == 0,
    ensures
        uvlc_spec(b, pos) == Ok::<(u32, nat), ParseError>((u32::MAX, (pos + 32) as nat)),
{
    lemma_uvlc_zeros(b, pos, 0);
}

} // verus!
