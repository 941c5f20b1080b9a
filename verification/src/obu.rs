//! OBU framing and dispatch: the fixed-layout OBU header with its optional
//! extension sub-header, payload-size resolution, the temporal/spatial
//! layer filter, and the top-level driver that frames one OBU and routes a
//! Sequence Header payload to its parser.

use vstd::prelude::*;
use vstd::arithmetic::power2::lemma2_to64;
use crate::ParseError;
use crate::bits::{
    BitCursor, bit_at, can_read, lemma_bit_at_le_1, lemma_bits_value_bound, read_bit_spec,
    read_bits_spec,
};
use crate::consts::{OBU_TYPE, obu_type_spec};
use crate::varint::{leb_128, leb128_spec};
use crate::sequence_header::{
    FeatureFlagPolarity, OBU_Sequence_Header, OperatingPoint, SequenceHeaderView, seq_header_spec,
};

verus! {

/// The temporal/spatial-layer sub-header, present exactly when the header's
/// extension flag is set.
#[derive(Clone, Copy, Debug, PartialEq, Eq, Structural)]
pub struct OBU_Extension_Header {
    pub temporal_id: u8,
    pub spatial_id: u8,
    pub extension_header_reserved_3bits: u8,
}

/// The fixed-layout OBU header.  The forbidden bit is reserved and must be
/// zero in any valid stream: a set bit fails the parse, so a decoded header
/// always carries zero there.
#[derive(Clone, Copy, Debug, PartialEq, Eq)]
pub struct OBU_Header {
    pub obu_forbidden_bit: u8,
    pub obu_type: OBU_TYPE,
    pub obu_extension_flag: u8,
    pub obu_has_size_field: u8,
    pub obu_reserved_1bit: u8,
    pub obu_extension_header: Option<OBU_Extension_Header>,
}

/// One framed OBU: its header, its resolved payload size, whether the
/// layer filter admitted it, and the parsed Sequence Header when the OBU
/// carries one and was admitted.
#[derive(Clone, Debug, PartialEq, Eq)]
pub struct OBU {
    pub obu_header: OBU_Header,
    pub obu_size: leb_128,
    pub included: bool,
    pub sequence_header: Option<OBU_Sequence_Header>,
}

/// The mathematical view of a framed OBU.
pub struct ObuView {
    pub obu_header: OBU_Header,
    pub obu_size: leb_128,
    pub included: bool,
    pub sequence_header: Option<SequenceHeaderView>,
}

impl View for OBU {
    type V = ObuView;

    open spec fn view(&self) -> ObuView {
        ObuView {
            obu_header: self.obu_header,
            obu_size: self.obu_size,
            included: self.included,
            sequence_header: match self.sequence_header {
                Some(h) => Some(h@),
                None => None,
            },
        }
    }
}

/// What decoding the 8-bit extension sub-header at `pos` yields.
pub open spec fn ext_header_spec(b: Seq<u8>, pos: nat) -> Result<
    (OBU_Extension_Header, nat),
    ParseError,
> {
    match read_bits_spec(b, pos, 3) {
        Err(e) => Err(e),
        Ok((t, p1)) => match read_bits_spec(b, p1, 2) {
            Err(e) => Err(e),
            Ok((s, p2)) => match read_bits_spec(b, p2, 3) {
                Err(e) => Err(e),
                Ok((rsv, p3)) => Ok(
                    (
                        OBU_Extension_Header {
                            temporal_id: t as u8,
                            spatial_id: s as u8,
                            extension_header_reserved_3bits: rsv as u8,
                        },
                        p3,
                    ),
                ),
            },
        },
    }
}

/// What decoding the OBU header at `pos` yields: a set forbidden bit or a
/// reserved type code is a framing error; the extension sub-header follows
/// exactly when the extension flag is set.
pub open spec fn obu_header_spec(b: Seq<u8>, pos: nat) -> Result<(OBU_Header, nat), ParseError> {
    match read_bit_spec(b, pos) {
        Err(e) => Err(e),
        Ok((fb, p1)) => if fb == 1 {
            Err(ParseError::MalformedFraming)
        } else {
            match obu_type_spec(b, p1) {
                Err(e) => Err(e),
                Ok((t, p2)) => match read_bit_spec(b, p2) {
                    Err(e) => Err(e),
                    Ok((ext_flag, p3)) => match read_bit_spec(b, p3) {
                        Err(e) => Err(e),
                        Ok((has_size, p4)) => match read_bit_spec(b, p4) {
                            Err(e) => Err(e),
                            Ok((reserved, p5)) => if ext_flag == 1 {
                                match ext_header_spec(b, p5) {
                                    Err(e) => Err(e),
                                    Ok((eh, p6)) => Ok(
                                        (
                                            OBU_Header {
                                                obu_forbidden_bit: fb,
                                                obu_type: t,
                                                obu_extension_flag: ext_flag,
                                                obu_has_size_field: has_size,
                                                obu_reserved_1bit: reserved,
                                                obu_extension_header: Some(eh),
                                            },
                                            p6,
                                        ),
                                    ),
                                }
                            } else {
                                Ok(
                                    (
                                        OBU_Header {
                                            obu_forbidden_bit: fb,
                                            obu_type: t,
                                            obu_extension_flag: ext_flag,
                                            obu_has_size_field: has_size,
                                            obu_reserved_1bit: reserved,
                                            obu_extension_header: None,
                                        },
                                        p5,
                                    ),
                                )
                            },
                        },
                    },
                },
            }
        },
    }
}

/// What resolving the payload size after the header yields: an explicit
/// LEB128 size field when the header announces one, else the enclosing
/// container's size less the header bytes, whose underflow is a framing
/// error.
pub open spec fn resolve_size_spec(
    b: Seq<u8>,
    pos: nat,
    h: OBU_Header,
    enclosing_size: u64,
) -> Result<(u64, nat), ParseError> {
    if h.obu_has_size_field == 1 {
        leb128_spec(b, pos)
    } else if enclosing_size >= 1 + h.obu_extension_flag {
        Ok(((enclosing_size - 1 - h.obu_extension_flag) as u64, pos))
    } else {
        Err(ParseError::MalformedFraming)
    }
}

/// Whether the layer filter admits an OBU, given the externally-supplied
/// operating-point bitmask: low 8 bits gate temporal layers, high 8 bits
/// gate spatial layers.  An OBU is excluded only when it is neither a
/// Sequence Header nor a Temporal Delimiter, the bitmask is nonzero, an
/// extension header is present, and its temporal or spatial layer is not
/// enabled in the bitmask.  Exclusion is a filtering decision, not an
/// error.
pub open spec fn obu_included_spec(operating_point_idc: u16, h: OBU_Header) -> bool {
    !(h.obu_type != OBU_TYPE::OBU_SEQUENCE_HEADER && h.obu_type != OBU_TYPE::OBU_TEMPORAL_DELIMITER
        && operating_point_idc != 0 && h.obu_extension_flag == 1 && (match h.obu_extension_header {
        Some(e) => ((operating_point_idc >> (e.temporal_id as u16)) & 1) == 0 || ((
        operating_point_idc >> ((e.spatial_id + 8) as u16)) & 1) == 0,
        None => false,
    }))
}

impl OBU_Header {
    /// Structural soundness of a decoded header: the extension flag is a
    /// bit that announces the sub-header exactly when present, and the
    /// sub-header's ids are in range.
    pub open spec fn wf(&self) -> bool {
        &&& self.obu_extension_flag <= 1
        &&& (self.obu_extension_flag == 1 <==> self.obu_extension_header is Some)
        &&& (match self.obu_extension_header {
            Some(e) => e.temporal_id < 8 && e.spatial_id < 4,
            None => true,
        })
    }
}

impl OBU_Extension_Header {
    /// Decode the 8-bit extension sub-header from the cursor.
    pub fn from_reader(r: &mut BitCursor) -> (res: Result<OBU_Extension_Header, ParseError>)
        requires
            old(r).wf(),
        ensures
            final(r).wf(),
            final(r).data() == old(r).data(),
            old(r).bit_pos() <= final(r).bit_pos(),
            match res {
                Ok(v) => ext_header_spec(old(r).data(), old(r).bit_pos()) == Ok::<
                    (OBU_Extension_Header, nat),
                    ParseError,
                >((v, final(r).bit_pos())) && v.temporal_id < 8 && v.spatial_id < 4,
                Err(e) => ext_header_spec(old(r).data(), old(r).bit_pos()) == Err::<
                    (OBU_Extension_Header, nat),
                    ParseError,
                >(e),
            },
    {
        let ghost b = r.data();
        let ghost pos0 = r.bit_pos();
        let temporal_id = match r.read_bits(3) {
            Ok(v) => v,
            Err(e) => {
                return Err(e);
            },
        };
        proof {
            lemma_bits_value_bound(b, pos0, 3);
            lemma2_to64();
        }
        let ghost pmark = r.bit_pos();
        let spatial_id = match r.read_bits(2) {
            Ok(v) => v,
            Err(e) => {
                return Err(e);
            },
        };
        proof {
            lemma_bits_value_bound(b, pmark, 2);
            lemma2_to64();
        }
        let extension_header_reserved_3bits = match r.read_bits(3) {
            Ok(v) => v,
            Err(e) => {
                return Err(e);
            },
        };
        Ok(OBU_Extension_Header {
            temporal_id: temporal_id as u8,
            spatial_id: spatial_id as u8,
            extension_header_reserved_3bits: extension_header_reserved_3bits as u8,
        })
    }
}

impl OBU_Header {
    /// Decode the OBU header from the cursor.  A set forbidden bit fails
    /// fatally with a framing error.
    pub fn from_reader(r: &mut BitCursor) -> (res: Result<OBU_Header, ParseError>)
        requires
            old(r).wf(),
        ensures
            final(r).wf(),
            final(r).data() == old(r).data(),
            old(r).bit_pos() <= final(r).bit_pos(),
            match res {
                Ok(h) => obu_header_spec(old(r).data(), old(r).bit_pos()) == Ok::<
                    (OBU_Header, nat),
                    ParseError,
                >((h, final(r).bit_pos())) && h.wf() && h.obu_forbidden_bit == 0,
                Err(e) => obu_header_spec(old(r).data(), old(r).bit_pos()) == Err::<
                    (OBU_Header, nat),
                    ParseError,
                >(e),
            },
    {
        let ghost b = r.data();
        let obu_forbidden_bit = match r.read_bit() {
            Ok(v) => v,
            Err(e) => {
                return Err(e);
            },
        };
        if obu_forbidden_bit == 1 {
            return Err(ParseError::MalformedFraming);
        }
        proof {
            lemma_bit_at_le_1(b, old(r).bit_pos());
        }
        let obu_type = match OBU_TYPE::from_reader(r) {
            Ok(v) => v,
            Err(e) => {
                return Err(e);
            },
        };
        let ghost pmark = r.bit_pos();
        let obu_extension_flag = match r.read_bit() {
            Ok(v) => v,
            Err(e) => {
                return Err(e);
            },
        };
        proof {
            lemma_bit_at_le_1(b, pmark);
        }
        let obu_has_size_field = match r.read_bit() {
            Ok(v) => v,
            Err(e) => {
                return Err(e);
            },
        };
        let obu_reserved_1bit = match r.read_bit() {
            Ok(v) => v,
            Err(e) => {
                return Err(e);
            },
        };
        let obu_extension_header = if obu_extension_flag == 1 {
            match OBU_Extension_Header::from_reader(r) {
                Ok(v) => Some(v),
                Err(e) => {
                    return Err(e);
                },
            }
        } else {
            None
        };
        Ok(OBU_Header {
            obu_forbidden_bit,
            obu_type,
            obu_extension_flag,
            obu_has_size_field,
            obu_reserved_1bit,
            obu_extension_header,
        })
    }

    /// Resolve the payload size: decode the explicit LEB128 field when the
    /// header announces one, else compute it from the enclosing container's
    /// size, rejecting underflow as a framing error.
    pub fn resolve_size(&self, r: &mut BitCursor, enclosing_size: u64) -> (res: Result<
        leb_128,
        ParseError,
    >)
        requires
            old(r).wf(),
        ensures
            final(r).wf(),
            final(r).data() == old(r).data(),
            old(r).bit_pos() <= final(r).bit_pos(),
            match res {
                Ok(s) => resolve_size_spec(
                    old(r).data(),
                    old(r).bit_pos(),
                    *self,
                    enclosing_size,
                ) == Ok::<(u64, nat), ParseError>((s.value, final(r).bit_pos())) && 8
                    * s.bytes_consumed == final(r).bit_pos() - old(r).bit_pos(),
                Err(e) => resolve_size_spec(
                    old(r).data(),
                    old(r).bit_pos(),
                    *self,
                    enclosing_size,
                ) == Err::<(u64, nat), ParseError>(e),
            },
    {
        if self.obu_has_size_field == 1 {
            leb_128::from_reader(r)
        } else if enclosing_size >= 1 + self.obu_extension_flag as u64 {
            Ok(leb_128::new(enclosing_size - 1 - self.obu_extension_flag as u64))
        } else {
            Err(ParseError::MalformedFraming)
        }
    }
}

/// Decide whether the layer filter admits an OBU with this header.
pub fn obu_is_included(operating_point_idc: u16, header: &OBU_Header) -> (r: bool)
    requires
        header.wf(),
    ensures
        r == obu_included_spec(operating_point_idc, *header),
{
    if header.obu_type == OBU_TYPE::OBU_SEQUENCE_HEADER {
        return true;
    }
    if header.obu_type == OBU_TYPE::OBU_TEMPORAL_DELIMITER {
        return true;
    }
    if operating_point_idc == 0 {
        return true;
    }
    if header.obu_extension_flag != 1 {
        return true;
    }
    match &header.obu_extension_header {
        Some(e) => {
            let in_temporal_layer = (operating_point_idc >> (e.temporal_id as u16)) & 1;
            let in_spatial_layer = (operating_point_idc >> ((e.spatial_id + 8) as u16)) & 1;
            proof {
                let idc = operating_point_idc;
                let ts = e.temporal_id as u16;
                let ss = (e.spatial_id + 8) as u16;
                assert(((idc >> ts) & 1) <= 1 && ((idc >> ss) & 1) <= 1) by (bit_vector);
            }
            in_temporal_layer == 1 && in_spatial_layer == 1
        },
        None => true,
    }
}

/// The operating-point selection policy, injected by the caller: given the
/// declared operating-point layer bitmasks, name the index of the point to
/// decode.  The dispatcher validates the returned index and rejects an
/// out-of-range choice, so a policy makes no promise here.
pub trait OperatingPointSelector {
    /// Choose the index of the operating point to decode.
    fn choose_operating_point(&self, operating_point_idc: &Vec<u16>) -> usize;
}

/// A selection policy fixed by configuration: always pick the same index.
#[derive(Clone, Copy, Debug, PartialEq, Eq, Structural)]
pub struct FixedOperatingPointSelector {
    pub index: usize,
}

impl OperatingPointSelector for FixedOperatingPointSelector {
    fn choose_operating_point(&self, _operating_point_idc: &Vec<u16>) -> usize {
        self.index
    }
}

/// The layer bitmasks of the declared operating points, in order.
fn operating_point_idcs(ops: &Vec<OperatingPoint>) -> (r: Vec<u16>)
    ensures
        r@.len() == ops@.len(),
        forall|j: int| 0 <= j < ops@.len() ==> r@[j] == ops@[j].operating_point_idc,
{
    let mut out: Vec<u16> = Vec::new();
    let mut i: usize = 0;
    while i < ops.len()
        invariant
            i <= ops@.len(),
            out@.len() == i,
            forall|j: int| 0 <= j < i ==> out@[j] == ops@[j].operating_point_idc,
        decreases ops@.len() - i,
    {
        out.push(ops[i].operating_point_idc);
        i = i + 1;
    }
    out
}

/// What framing and dispatching one OBU at `pos` yields: the header, the
/// resolved size, the layer filter's verdict, and, for an admitted
/// Sequence Header OBU, the parsed payload with the default operating
/// point.  The cursor lands on the next OBU boundary: payload bytes of
/// skipped or unhandled OBUs are passed over, and a Sequence Header payload
/// that overruns its declared size is a framing error.
#[verifier::opaque]
pub open spec fn obu_spec(
    b: Seq<u8>,
    pos: nat,
    enclosing_size: u64,
    operating_point_idc: u16,
    gate: FeatureFlagPolarity,
) -> Result<(ObuView, nat), ParseError> {
    match obu_header_spec(b, pos) {
        Err(e) => Err(e),
        Ok((h, p1)) => match resolve_size_spec(b, p1, h, enclosing_size) {
            Err(e) => Err(e),
            Ok((sz, p2)) => {
                let size_leb = leb_128 { value: sz, bytes_consumed: (((p2 - p1) / 8) as u8) };
                let included = obu_included_spec(operating_point_idc, h);
                if included && h.obu_type == OBU_TYPE::OBU_SEQUENCE_HEADER {
                    match seq_header_spec(b, p2, gate) {
                        Err(e) => Err(e),
                        Ok((sh, p3)) => if p3 > p2 + 8 * sz {
                            Err(ParseError::MalformedFraming)
                        } else if !can_read(b, p2, (8 * sz) as nat) {
                            Err(ParseError::UnexpectedEof)
                        } else {
                            Ok(
                                (
                                    ObuView {
                                        obu_header: h,
                                        obu_size: size_leb,
                                        included,
                                        sequence_header: Some(sh),
                                    },
                                    (p2 + 8 * sz) as nat,
                                ),
                            )
                        },
                    }
                } else if can_read(b, p2, (8 * sz) as nat) {
                    Ok(
                        (
                            ObuView {
                                obu_header: h,
                                obu_size: size_leb,
                                included,
                                sequence_header: None,
                            },
                            (p2 + 8 * sz) as nat,
                        ),
                    )
                } else {
                    Err(ParseError::UnexpectedEof)
                }
            },
        },
    }
}

impl OBU {
    /// Decode a header and its explicit LEB128 size field, without
    /// dispatching the payload.
    pub fn from_reader(r: &mut BitCursor) -> (res: Result<OBU, ParseError>)
        requires
            old(r).wf(),
        ensures
            final(r).wf(),
            final(r).data() == old(r).data(),
            old(r).bit_pos() <= final(r).bit_pos(),
            match res {
                Ok(o) => obu_header_spec(old(r).data(), old(r).bit_pos()) matches Ok(hp)
                    && o.obu_header == hp.0 && leb128_spec(old(r).data(), hp.1) == Ok::<
                    (u64, nat),
                    ParseError,
                >((o.obu_size.value, final(r).bit_pos()))
                    && 8 * o.obu_size.bytes_consumed == final(r).bit_pos() - hp.1
                    && o.included && o.sequence_header is None,
                Err(e) => obu_header_spec(old(r).data(), old(r).bit_pos()) == Err::<
                    (OBU_Header, nat),
                    ParseError,
                >(e) || (obu_header_spec(old(r).data(), old(r).bit_pos()) matches Ok(hp)
                    && leb128_spec(old(r).data(), hp.1) == Err::<(u64, nat), ParseError>(e)),
            },
    {
        let obu_header = match OBU_Header::from_reader(r) {
            Ok(v) => v,
            Err(e) => {
                return Err(e);
            },
        };
        let obu_size = match leb_128::from_reader(r) {
            Ok(v) => v,
            Err(e) => {
                return Err(e);
            },
        };
        Ok(OBU { obu_header, obu_size, included: true, sequence_header: None })
    }

    /// Frame one OBU, apply the layer filter, and route an admitted
    /// Sequence Header payload to its parser, leaving the cursor at the
    /// next OBU boundary.  `sz` is the enclosing container's size, used
    /// when the header carries no explicit size field.  The selection
    /// policy names the operating point recorded in the result; an
    /// out-of-range choice is an invariant violation.
    #[verifier::rlimit(100)]
    pub fn open_bitstream_unit<S: OperatingPointSelector>(
        r: &mut BitCursor,
        sz: u64,
        operating_point_idc: u16,
        selector: &S,
        gate: FeatureFlagPolarity,
    ) -> (res: Result<OBU, ParseError>)
        requires
            old(r).wf(),
        ensures
            final(r).wf(),
            final(r).data() == old(r).data(),
            old(r).bit_pos() <= final(r).bit_pos(),
            match res {
                Ok(o) => obu_spec(
                    old(r).data(),
                    old(r).bit_pos(),
                    sz,
                    operating_point_idc,
                    gate,
                ) matches Ok(m) && final(r).bit_pos() == m.1 && o.obu_header == m.0.obu_header
                    && o.obu_size == m.0.obu_size && o.included == m.0.included && (match (
                    o.sequence_header,
                    m.0.sequence_header,
                ) {
                    (Some(h), Some(mh)) => exists|i: int|
                        0 <= i < mh.operating_points.len() && h@ == (SequenceHeaderView {
                            c_operating_point_idc: mh.operating_points[i].operating_point_idc,
                            ..mh
                        }),
                    (None, None) => true,
                    _ => false,
                }),
                Err(e) => obu_spec(old(r).data(), old(r).bit_pos(), sz, operating_point_idc, gate)
                    == Err::<(ObuView, nat), ParseError>(e) || (e == ParseError::InvariantViolation
                    && (obu_spec(old(r).data(), old(r).bit_pos(), sz, operating_point_idc, gate)
                    matches Ok(m) && m.0.sequence_header is Some)),
            },
    {
        proof {
            reveal(obu_spec);
        }
        let ghost b = r.data();
        let ghost pos0 = r.bit_pos();
        let obu_header = match OBU_Header::from_reader(r) {
            Ok(v) => v,
            Err(e) => {
                return Err(e);
            },
        };
        let obu_size = match obu_header.resolve_size(r, sz) {
            Ok(v) => v,
            Err(e) => {
                return Err(e);
            },
        };
        let ghost p2 = r.bit_pos();
        let p2_bits = r.bits_consumed();
        let included = obu_is_included(operating_point_idc, &obu_header);
        proof {
            r.lemma_wf_bounds();
        }
        if included && obu_header.obu_type == OBU_TYPE::OBU_SEQUENCE_HEADER {
            let sh = match OBU_Sequence_Header::sequence_header_obu(r, gate) {
                Ok(v) => v,
                Err(e) => {
                    return Err(e);
                },
            };
            let consumed: u64 = r.bits_consumed() - p2_bits;
            if obu_size.value > u64::MAX / 8 {
                return Err(ParseError::UnexpectedEof);
            }
            let total: u64 = 8 * obu_size.value;
            if consumed > total {
                return Err(ParseError::MalformedFraming);
            }
            match r.skip_bits(total - consumed) {
                Ok(_) => {},
                Err(e) => {
                    return Err(e);
                },
            }
            let mut sh = sh;
            let idcs = operating_point_idcs(&sh.operating_points);
            let index = selector.choose_operating_point(&idcs);
            match sh.select_operating_point(index) {
                Ok(_) => {},
                Err(e) => {
                    return Err(e);
                },
            }
            Ok(OBU { obu_header, obu_size, included, sequence_header: Some(sh) })
        } else {
            if obu_size.value > u64::MAX / 8 {
                return Err(ParseError::UnexpectedEof);
            }
            match r.skip_bits(8 * obu_size.value) {
                Ok(_) => {},
                Err(e) => {
                    return Err(e);
                },
            }
            Ok(OBU { obu_header, obu_size, included, sequence_header: None })
        }
    }
}

/// Forbidden bit: a stream whose next bit is set always fails the OBU
/// header parse with a framing error, whatever follows.
pub proof fn lemma_forbidden_bit_fails(b: Seq<u8>, pos: nat)
    requires
        can_read(b, pos, 1),
        bit_at(b, pos) == 1,
    ensures
        obu_header_spec(b, pos) == Err::<(OBU_Header, nat), ParseError>(
            ParseError::MalformedFraming,
        ),
{
}

/// A clear extension flag yields a header without an extension sub-header.
pub proof fn lemma_no_extension_flag_no_header(b: Seq<u8>, pos: nat, h: OBU_Header, end: nat)
    requires
        obu_header_spec(b, pos) == Ok::<(OBU_Header, nat), ParseError>((h, end)),
        h.obu_extension_flag == 0,
    ensures
        h.obu_extension_header is None,
{
}

/// A zero operating-point bitmask admits every OBU, whatever its type and
/// layer ids.
pub proof fn lemma_filter_zero_idc_includes_all(h: OBU_Header)
    ensures
        obu_included_spec(0, h),
{
}

/// A Sequence Header or Temporal Delimiter OBU is admitted under every
/// bitmask: they carry stream-wide state no layer may omit.
pub proof fn lemma_filter_always_includes_stream_wide(operating_point_idc: u16, h: OBU_Header)
    requires
        h.obu_type == OBU_TYPE::OBU_SEQUENCE_HEADER || h.obu_type
            == OBU_TYPE::OBU_TEMPORAL_DELIMITER,
    ensures
        obu_included_spec(operating_point_idc, h),
{
}

} // verus!
