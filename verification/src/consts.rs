//! The closed, specification-defined code tables of the OBU grammar: OBU
//! types, color primaries, transfer characteristics, matrix coefficients
//! and chroma sample positions.  Decoding a code outside its table is a
//! hard parse failure, never a silently-tolerated unknown value.

use vstd::prelude::*;
use vstd::arithmetic::power2::lemma2_to64;
use crate::ParseError;
use crate::bits::{BitCursor, bits_value, can_read, lemma_bits_value_bound};

verus! {

/// Sentinel: screen-content-tools use is chosen per frame rather than
/// forced for the whole sequence.
pub const SELECT_SCREEN_CONTENT_TOOLS: u8 = 2;

/// Sentinel: integer-motion-vector use is chosen per frame rather than
/// forced for the whole sequence.
pub const SELECT_INTEGER_MV: u8 = 2;

/// The kind of data structure contained in an OBU payload.
#[derive(Clone, Copy, Debug, PartialEq, Eq, Structural)]
pub enum OBU_TYPE {
    OBU_SEQUENCE_HEADER,
    OBU_TEMPORAL_DELIMITER,
    OBU_FRAME_HEADER,
    OBU_TILE_GROUP,
    OBU_METADATA,
    OBU_FRAME,
    OBU_REDUNDANT_FRAME_HEADER,
    OBU_TILE_LIST,
    OBU_PADDING,
}

/// Color primaries code table.
#[derive(Clone, Copy, Debug, PartialEq, Eq, Structural)]
pub enum COLOR_PRIMARIES {
    CP_BT_709,
    CP_UNSPECIFIED,
    CP_BT_470_M,
    CP_BT_470_B_G,
    CP_BT_601,
    CP_SMPTE_240,
    CP_GENERIC_FILM,
    CP_BT_2020,
    CP_XYZ,
    CP_SMPTE_431,
    CP_SMPTE_432,
    CP_EBU_3213,
}

/// Transfer characteristics code table.
#[derive(Clone, Copy, Debug, PartialEq, Eq, Structural)]
pub enum TRANSFER_CHARACTERISTICS {
    TC_RESERVED_0,
    TC_BT_709,
    TC_UNSPECIFIED,
    TC_RESERVED_3,
    TC_BT_470_M,
    TC_BT_470_B_G,
    TC_BT_601,
    TC_SMPTE_240,
    TC_LINEAR,
    TC_LOG_100,
    TC_LOG_100_SQRT10,
    TC_IEC_61966,
    TC_BT_1361,
    TC_SRGB,
    TC_BT_2020_10_BIT,
    TC_BT_2020_12_BIT,
    TC_SMPTE_2084,
    TC_SMPTE_428,
    TC_HLG,
}

/// Matrix coefficients code table.
#[derive(Clone, Copy, Debug, PartialEq, Eq, Structural)]
pub enum MATRIX_COEFFICIENTS {
    MC_IDENTITY,
    MC_BT_709,
    MC_UNSPECIFIED,
    MC_RESERVED_3,
    MC_FCC,
    MC_BT_470_B_G,
    MC_BT_601,
    MC_SMPTE_240,
    MC_SMPTE_YCGCO,
    MC_BT_2020_NCL,
    MC_BT_2020_CL,
    MC_SMPTE_2085,
    MC_CHROMAT_NCL,
    MC_CHROMAT_CL,
    MC_ICTCP,
}

/// Chroma sample position code table.  All four 2-bit codes are defined.
#[derive(Clone, Copy, Debug, PartialEq, Eq, Structural)]
pub enum CHROMA_SAMPLE_POSITION {
    CSP_UNKNOWN,
    CSP_VERTICAL,
    CSP_COLOCATED,
    CSP_RESERVED,
}

/// The OBU type assigned to a 4-bit code; codes 0 and 9..=14 are reserved.
pub open spec fn obu_type_from_code(c: nat) -> Option<OBU_TYPE> {
    if c == 1 {
        Some(OBU_TYPE::OBU_SEQUENCE_HEADER)
    } else if c == 2 {
        Some(OBU_TYPE::OBU_TEMPORAL_DELIMITER)
    } else if c == 3 {
        Some(OBU_TYPE::OBU_FRAME_HEADER)
    } else if c == 4 {
        Some(OBU_TYPE::OBU_TILE_GROUP)
    } else if c == 5 {
        Some(OBU_TYPE::OBU_METADATA)
    } else if c == 6 {
        Some(OBU_TYPE::OBU_FRAME)
    } else if c == 7 {
        Some(OBU_TYPE::OBU_REDUNDANT_FRAME_HEADER)
    } else if c == 8 {
        Some(OBU_TYPE::OBU_TILE_LIST)
    } else if c == 15 {
        Some(OBU_TYPE::OBU_PADDING)
    } else {
        None
    }
}

/// The 4-bit code of an OBU type.
pub open spec fn obu_type_code(t: OBU_TYPE) -> u8 {
    match t {
        OBU_TYPE::OBU_SEQUENCE_HEADER => 1,
        OBU_TYPE::OBU_TEMPORAL_DELIMITER => 2,
        OBU_TYPE::OBU_FRAME_HEADER => 3,
        OBU_TYPE::OBU_TILE_GROUP => 4,
        OBU_TYPE::OBU_METADATA => 5,
        OBU_TYPE::OBU_FRAME => 6,
        OBU_TYPE::OBU_REDUNDANT_FRAME_HEADER => 7,
        OBU_TYPE::OBU_TILE_LIST => 8,
        OBU_TYPE::OBU_PADDING => 15,
    }
}

/// What decoding a 4-bit OBU type code at `pos` yields: a reserved code is
/// a framing error.
pub open spec fn obu_type_spec(b: Seq<u8>, pos: nat) -> Result<(OBU_TYPE, nat), ParseError> {
    if !can_read(b, pos, 4) {
        Err(ParseError::UnexpectedEof)
    } else {
        match obu_type_from_code(bits_value(b, pos, 4)) {
            Some(t) => Ok((t, (pos + 4) as nat)),
            None => Err(ParseError::MalformedFraming),
        }
    }
}

/// The color primaries assigned to an 8-bit code.
pub open spec fn color_primaries_from_code(c: nat) -> Option<COLOR_PRIMARIES> {
    if c == 1 {
        Some(COLOR_PRIMARIES::CP_BT_709)
    } else if c == 2 {
        Some(COLOR_PRIMARIES::CP_UNSPECIFIED)
    } else if c == 4 {
        Some(COLOR_PRIMARIES::CP_BT_470_M)
    } else if c == 5 {
        Some(COLOR_PRIMARIES::CP_BT_470_B_G)
    } else if c == 6 {
        Some(COLOR_PRIMARIES::CP_BT_601)
    } else if c == 7 {
        Some(COLOR_PRIMARIES::CP_SMPTE_240)
    } else if c == 8 {
        Some(COLOR_PRIMARIES::CP_GENERIC_FILM)
    } else if c == 9 {
        Some(COLOR_PRIMARIES::CP_BT_2020)
    } else if c == 10 {
        Some(COLOR_PRIMARIES::CP_XYZ)
    } else if c == 11 {
        Some(COLOR_PRIMARIES::CP_SMPTE_431)
    } else if c == 12 {
        Some(COLOR_PRIMARIES::CP_SMPTE_432)
    } else if c == 22 {
        Some(COLOR_PRIMARIES::CP_EBU_3213)
    } else {
        None
    }
}

/// What decoding an 8-bit color primaries code at `pos` yields.
pub open spec fn color_primaries_spec(b: Seq<u8>, pos: nat) -> Result<
    (COLOR_PRIMARIES, nat),
    ParseError,
> {
    if !can_read(b, pos, 8) {
        Err(ParseError::UnexpectedEof)
    } else {
        match color_primaries_from_code(bits_value(b, pos, 8)) {
            Some(t) => Ok((t, (pos + 8) as nat)),
            None => Err(ParseError::UnknownEnumCode),
        }
    }
}

/// The transfer characteristics assigned to an 8-bit code.
pub open spec fn transfer_characteristics_from_code(c: nat) -> Option<TRANSFER_CHARACTERISTICS> {
    if c == 0 {
        Some(TRANSFER_CHARACTERISTICS::TC_RESERVED_0)
    } else if c == 1 {
        Some(TRANSFER_CHARACTERISTICS::TC_BT_709)
    } else if c == 2 {
        Some(TRANSFER_CHARACTERISTICS::TC_UNSPECIFIED)
    } else if c == 3 {
        Some(TRANSFER_CHARACTERISTICS::TC_RESERVED_3)
    } else if c == 4 {
        Some(TRANSFER_CHARACTERISTICS::TC_BT_470_M)
    } else if c == 5 {
        Some(TRANSFER_CHARACTERISTICS::TC_BT_470_B_G)
    } else if c == 6 {
        Some(TRANSFER_CHARACTERISTICS::TC_BT_601)
    } else if c == 7 {
        Some(TRANSFER_CHARACTERISTICS::TC_SMPTE_240)
    } else if c == 8 {
        Some(TRANSFER_CHARACTERISTICS::TC_LINEAR)
    } else if c == 9 {
        Some(TRANSFER_CHARACTERISTICS::TC_LOG_100)
    } else if c == 10 {
        Some(TRANSFER_CHARACTERISTICS::TC_LOG_100_SQRT10)
    } else if c == 11 {
        Some(TRANSFER_CHARACTERISTICS::TC_IEC_61966)
    } else if c == 12 {
        Some(TRANSFER_CHARACTERISTICS::TC_BT_1361)
    } else if c == 13 {
        Some(TRANSFER_CHARACTERISTICS::TC_SRGB)
    } else if c == 14 {
        Some(TRANSFER_CHARACTERISTICS::TC_BT_2020_10_BIT)
    } else if c == 15 {
        Some(TRANSFER_CHARACTERISTICS::TC_BT_2020_12_BIT)
    } else if c == 16 {
        Some(TRANSFER_CHARACTERISTICS::TC_SMPTE_2084)
    } else if c == 17 {
        Some(TRANSFER_CHARACTERISTICS::TC_SMPTE_428)
    } else if c == 18 {
        Some(TRANSFER_CHARACTERISTICS::TC_HLG)
    } else {
        None
    }
}

/// What decoding an 8-bit transfer characteristics code at `pos` yields.
pub open spec fn transfer_characteristics_spec(b: Seq<u8>, pos: nat) -> Result<
    (TRANSFER_CHARACTERISTICS, nat),
    ParseError,
> {
    if !can_read(b, pos, 8) {
        Err(ParseError::UnexpectedEof)
    } else {
        match transfer_characteristics_from_code(bits_value(b, pos, 8)) {
            Some(t) => Ok((t, (pos + 8) as nat)),
            None => Err(ParseError::UnknownEnumCode),
        }
    }
}

/// The matrix coefficients assigned to an 8-bit code.
pub open spec fn matrix_coefficients_from_code(c: nat) -> Option<MATRIX_COEFFICIENTS> {
    if c == 0 {
        Some(MATRIX_COEFFICIENTS::MC_IDENTITY)
    } else if c == 1 {
        Some(MATRIX_COEFFICIENTS::MC_BT_709)
    } else if c == 2 {
        Some(MATRIX_COEFFICIENTS::MC_UNSPECIFIED)
    } else if c == 3 {
        Some(MATRIX_COEFFICIENTS::MC_RESERVED_3)
    } else if c == 4 {
        Some(MATRIX_COEFFICIENTS::MC_FCC)
    } else if c == 5 {
        Some(MATRIX_COEFFICIENTS::MC_BT_470_B_G)
    } else if c == 6 {
        Some(MATRIX_COEFFICIENTS::MC_BT_601)
    } else if c == 7 {
        Some(MATRIX_COEFFICIENTS::MC_SMPTE_240)
    } else if c == 8 {
        Some(MATRIX_COEFFICIENTS::MC_SMPTE_YCGCO)
    } else if c == 9 {
        Some(MATRIX_COEFFICIENTS::MC_BT_2020_NCL)
    } else if c == 10 {
        Some(MATRIX_COEFFICIENTS::MC_BT_2020_CL)
    } else if c == 11 {
        Some(MATRIX_COEFFICIENTS::MC_SMPTE_2085)
    } else if c == 12 {
        Some(MATRIX_COEFFICIENTS::MC_CHROMAT_NCL)
    } else if c == 13 {
        Some(MATRIX_COEFFICIENTS::MC_CHROMAT_CL)
    } else if c == 14 {
        Some(MATRIX_COEFFICIENTS::MC_ICTCP)
    } else {
        None
    }
}

/// What decoding an 8-bit matrix coefficients code at `pos` yields.
pub open spec fn matrix_coefficients_spec(b: Seq<u8>, pos: nat) -> Result<
    (MATRIX_COEFFICIENTS, nat),
    ParseError,
> {
    if !can_read(b, pos, 8) {
        Err(ParseError::UnexpectedEof)
    } else {
        match matrix_coefficients_from_code(bits_value(b, pos, 8)) {
            Some(t) => Ok((t, (pos + 8) as nat)),
            None => Err(ParseError::UnknownEnumCode),
        }
    }
}

/// The chroma sample position assigned to a 2-bit code; every code is
/// defined.
pub open spec fn chroma_sample_position_from_code(c: nat) -> CHROMA_SAMPLE_POSITION {
    if c == 0 {
        CHROMA_SAMPLE_POSITION::CSP_UNKNOWN
    } else if c == 1 {
        CHROMA_SAMPLE_POSITION::CSP_VERTICAL
    } else if c == 2 {
        CHROMA_SAMPLE_POSITION::CSP_COLOCATED
    } else {
        CHROMA_SAMPLE_POSITION::CSP_RESERVED
    }
}

/// What decoding a 2-bit chroma sample position code at `pos` yields.
pub open spec fn chroma_sample_position_spec(b: Seq<u8>, pos: nat) -> Result<
    (CHROMA_SAMPLE_POSITION, nat),
    ParseError,
> {
    if !can_read(b, pos, 2) {
        Err(ParseError::UnexpectedEof)
    } else {
        Ok((chroma_sample_position_from_code(bits_value(b, pos, 2)), (pos + 2) as nat))
    }
}

impl OBU_TYPE {
    /// The 4-bit code that encodes this OBU type in a stream.
    pub fn code(&self) -> (r: u8)
        ensures
            r == obu_type_code(*self),
    {
        match self {
            OBU_TYPE::OBU_SEQUENCE_HEADER => 1,
            OBU_TYPE::OBU_TEMPORAL_DELIMITER => 2,
            OBU_TYPE::OBU_FRAME_HEADER => 3,
            OBU_TYPE::OBU_TILE_GROUP => 4,
            OBU_TYPE::OBU_METADATA => 5,
            OBU_TYPE::OBU_FRAME => 6,
            OBU_TYPE::OBU_REDUNDANT_FRAME_HEADER => 7,
            OBU_TYPE::OBU_TILE_LIST => 8,
            OBU_TYPE::OBU_PADDING => 15,
        }
    }

    /// Decode a 4-bit OBU type code from the cursor.
    pub fn from_reader(r: &mut BitCursor) -> (res: Result<OBU_TYPE, ParseError>)
        requires
            old(r).wf(),
        ensures
            final(r).wf(),
            final(r).data() == old(r).data(),
            old(r).bit_pos() <= final(r).bit_pos(),
            match res {
                Ok(t) => obu_type_spec(old(r).data(), old(r).bit_pos()) == Ok::<
                    (OBU_TYPE, nat),
                    ParseError,
                >((t, final(r).bit_pos())),
                Err(e) => obu_type_spec(old(r).data(), old(r).bit_pos()) == Err::<
                    (OBU_TYPE, nat),
                    ParseError,
                >(e),
            },
    {
        let v = match r.read_bits(4) {
            Ok(v) => v,
            Err(e) => {
                return Err(e);
            },
        };
        match v {
            1 => Ok(OBU_TYPE::OBU_SEQUENCE_HEADER),
            2 => Ok(OBU_TYPE::OBU_TEMPORAL_DELIMITER),
            3 => Ok(OBU_TYPE::OBU_FRAME_HEADER),
            4 => Ok(OBU_TYPE::OBU_TILE_GROUP),
            5 => Ok(OBU_TYPE::OBU_METADATA),
            6 => Ok(OBU_TYPE::OBU_FRAME),
            7 => Ok(OBU_TYPE::OBU_REDUNDANT_FRAME_HEADER),
            8 => Ok(OBU_TYPE::OBU_TILE_LIST),
            15 => Ok(OBU_TYPE::OBU_PADDING),
            _ => Err(ParseError::MalformedFraming),
        }
    }
}

impl COLOR_PRIMARIES {
    /// Decode an 8-bit color primaries code from the cursor.
    pub fn from_reader(r: &mut BitCursor) -> (res: Result<COLOR_PRIMARIES, ParseError>)
        requires
            old(r).wf(),
        ensures
            final(r).wf(),
            final(r).data() == old(r).data(),
            old(r).bit_pos() <= final(r).bit_pos(),
            match res {
                Ok(t) => color_primaries_spec(old(r).data(), old(r).bit_pos()) == Ok::<
                    (COLOR_PRIMARIES, nat),
                    ParseError,
                >((t, final(r).bit_pos())),
                Err(e) => color_primaries_spec(old(r).data(), old(r).bit_pos()) == Err::<
                    (COLOR_PRIMARIES, nat),
                    ParseError,
                >(e),
            },
    {
        let v = match r.read_bits(8) {
            Ok(v) => v,
            Err(e) => {
                return Err(e);
            },
        };
        match v {
            1 => Ok(COLOR_PRIMARIES::CP_BT_709),
            2 => Ok(COLOR_PRIMARIES::CP_UNSPECIFIED),
            4 => Ok(COLOR_PRIMARIES::CP_BT_470_M),
            5 => Ok(COLOR_PRIMARIES::CP_BT_470_B_G),
            6 => Ok(COLOR_PRIMARIES::CP_BT_601),
            7 => Ok(COLOR_PRIMARIES::CP_SMPTE_240),
            8 => Ok(COLOR_PRIMARIES::CP_GENERIC_FILM),
            9 => Ok(COLOR_PRIMARIES::CP_BT_2020),
            10 => Ok(COLOR_PRIMARIES::CP_XYZ),
            11 => Ok(COLOR_PRIMARIES::CP_SMPTE_431),
            12 => Ok(COLOR_PRIMARIES::CP_SMPTE_432),
            22 => Ok(COLOR_PRIMARIES::CP_EBU_3213),
            _ => Err(ParseError::UnknownEnumCode),
        }
    }
}

impl TRANSFER_CHARACTERISTICS {
    /// Decode an 8-bit transfer characteristics code from the cursor.
    pub fn from_reader(r: &mut BitCursor) -> (res: Result<TRANSFER_CHARACTERISTICS, ParseError>)
        requires
            old(r).wf(),
        ensures
            final(r).wf(),
            final(r).data() == old(r).data(),
            old(r).bit_pos() <= final(r).bit_pos(),
            match res {
                Ok(t) => transfer_characteristics_spec(old(r).data(), old(r).bit_pos()) == Ok::<
                    (TRANSFER_CHARACTERISTICS, nat),
                    ParseError,
                >((t, final(r).bit_pos())),
                Err(e) => transfer_characteristics_spec(old(r).data(), old(r).bit_pos()) == Err::<
                    (TRANSFER_CHARACTERISTICS, nat),
                    ParseError,
                >(e),
            },
    {
        let v = match r.read_bits(8) {
            Ok(v) => v,
            Err(e) => {
                return Err(e);
            },
        };
        match v {
            0 => Ok(TRANSFER_CHARACTERISTICS::TC_RESERVED_0),
            1 => Ok(TRANSFER_CHARACTERISTICS::TC_BT_709),
            2 => Ok(TRANSFER_CHARACTERISTICS::TC_UNSPECIFIED),
            3 => Ok(TRANSFER_CHARACTERISTICS::TC_RESERVED_3),
            4 => Ok(TRANSFER_CHARACTERISTICS::TC_BT_470_M),
            5 => Ok(TRANSFER_CHARACTERISTICS::TC_BT_470_B_G),
            6 => Ok(TRANSFER_CHARACTERISTICS::TC_BT_601),
            7 => Ok(TRANSFER_CHARACTERISTICS::TC_SMPTE_240),
            8 => Ok(TRANSFER_CHARACTERISTICS::TC_LINEAR),
            9 => Ok(TRANSFER_CHARACTERISTICS::TC_LOG_100),
            10 => Ok(TRANSFER_CHARACTERISTICS::TC_LOG_100_SQRT10),
            11 => Ok(TRANSFER_CHARACTERISTICS::TC_IEC_61966),
            12 => Ok(TRANSFER_CHARACTERISTICS::TC_BT_1361),
            13 => Ok(TRANSFER_CHARACTERISTICS::TC_SRGB),
            14 => Ok(TRANSFER_CHARACTERISTICS::TC_BT_2020_10_BIT),
            15 => Ok(TRANSFER_CHARACTERISTICS::TC_BT_2020_12_BIT),
            16 => Ok(TRANSFER_CHARACTERISTICS::TC_SMPTE_2084),
            17 => Ok(TRANSFER_CHARACTERISTICS::TC_SMPTE_428),
            18 => Ok(TRANSFER_CHARACTERISTICS::TC_HLG),
            _ => Err(ParseError::UnknownEnumCode),
        }
    }
}

impl MATRIX_COEFFICIENTS {
    /// Decode an 8-bit matrix coefficients code from the cursor.
    pub fn from_reader(r: &mut BitCursor) -> (res: Result<MATRIX_COEFFICIENTS, ParseError>)
        requires
            old(r).wf(),
        ensures
            final(r).wf(),
            final(r).data() == old(r).data(),
            old(r).bit_pos() <= final(r).bit_pos(),
            match res {
                Ok(t) => matrix_coefficients_spec(old(r).data(), old(r).bit_pos()) == Ok::<
                    (MATRIX_COEFFICIENTS, nat),
                    ParseError,
                >((t, final(r).bit_pos())),
                Err(e) => matrix_coefficients_spec(old(r).data(), old(r).bit_pos()) == Err::<
                    (MATRIX_COEFFICIENTS, nat),
                    ParseError,
                >(e),
            },
    {
        let v = match r.read_bits(8) {
            Ok(v) => v,
            Err(e) => {
                return Err(e);
            },
        };
        match v {
            0 => Ok(MATRIX_COEFFICIENTS::MC_IDENTITY),
            1 => Ok(MATRIX_COEFFICIENTS::MC_BT_709),
            2 => Ok(MATRIX_COEFFICIENTS::MC_UNSPECIFIED),
            3 => Ok(MATRIX_COEFFICIENTS::MC_RESERVED_3),
            4 => Ok(MATRIX_COEFFICIENTS::MC_FCC),
            5 => Ok(MATRIX_COEFFICIENTS::MC_BT_470_B_G),
            6 => Ok(MATRIX_COEFFICIENTS::MC_BT_601),
            7 => Ok(MATRIX_COEFFICIENTS::MC_SMPTE_240),
            8 => Ok(MATRIX_COEFFICIENTS::MC_SMPTE_YCGCO),
            9 => Ok(MATRIX_COEFFICIENTS::MC_BT_2020_NCL),
            10 => Ok(MATRIX_COEFFICIENTS::MC_BT_2020_CL),
            11 => Ok(MATRIX_COEFFICIENTS::MC_SMPTE_2085),
            12 => Ok(MATRIX_COEFFICIENTS::MC_CHROMAT_NCL),
            13 => Ok(MATRIX_COEFFICIENTS::MC_CHROMAT_CL),
            14 => Ok(MATRIX_COEFFICIENTS::MC_ICTCP),
            _ => Err(ParseError::UnknownEnumCode),
        }
    }
}

impl CHROMA_SAMPLE_POSITION {
    /// Decode a 2-bit chroma sample position code from the cursor.
    pub fn from_reader(r: &mut BitCursor) -> (res: Result<CHROMA_SAMPLE_POSITION, ParseError>)
        requires
            old(r).wf(),
        ensures
            final(r).wf(),
            final(r).data() == old(r).data(),
            old(r).bit_pos() <= final(r).bit_pos(),
            match res {
                Ok(t) => chroma_sample_position_spec(old(r).data(), old(r).bit_pos()) == Ok::<
                    (CHROMA_SAMPLE_POSITION, nat),
                    ParseError,
                >((t, final(r).bit_pos())),
                Err(e) => chroma_sample_position_spec(old(r).data(), old(r).bit_pos()) == Err::<
                    (CHROMA_SAMPLE_POSITION, nat),
                    ParseError,
                >(e),
            },
    {
        let v = match r.read_bits(2) {
            Ok(v) => v,
            Err(e) => {
                return Err(e);
            },
        };
        proof {
            lemma_bits_value_bound(old(r).data(), old(r).bit_pos(), 2);
            lemma2_to64();
        }
        match v {
            0 => Ok(CHROMA_SAMPLE_POSITION::CSP_UNKNOWN),
            1 => Ok(CHROMA_SAMPLE_POSITION::CSP_VERTICAL),
            2 => Ok(CHROMA_SAMPLE_POSITION::CSP_COLOCATED),
            _ => Ok(CHROMA_SAMPLE_POSITION::CSP_RESERVED),
        }
    }
}

} // verus!
