//! The color configuration sub-structure of the sequence header, whose
//! field layout branches on bit depth, the monochrome flag, and the
//! specification-defined implied-sRGB shortcut.

use vstd::prelude::*;
use crate::ParseError;
use crate::bits::{BitCursor, read_bit_spec};
use crate::consts::{
    COLOR_PRIMARIES, TRANSFER_CHARACTERISTICS, MATRIX_COEFFICIENTS, CHROMA_SAMPLE_POSITION,
    color_primaries_spec, transfer_characteristics_spec, matrix_coefficients_spec,
    chroma_sample_position_spec,
};

verus! {

/// The decoded color configuration: a pure function of the bitstream and
/// the already-known sequence profile, immutable once returned.
#[derive(Clone, Copy, Debug, PartialEq, Eq, Structural)]
pub struct Color_Config {
    pub bit_depth: u8,
    pub mono_chrome: u8,
    pub num_planes: u8,
    pub color_primaries: COLOR_PRIMARIES,
    pub transfer_characteristics: TRANSFER_CHARACTERISTICS,
    pub matrix_coefficients: MATRIX_COEFFICIENTS,
    pub color_range: u8,
    pub subsampling_x: u8,
    pub subsampling_y: u8,
    pub chroma_sample_position: CHROMA_SAMPLE_POSITION,
    pub separate_uv_delta_q: u8,
}

/// What decoding the color config at bit offset `pos` of `b` yields, given
/// the sequence profile decoded earlier.
///
/// The layout: a high-bit-depth flag sets the bit depth (12 only for
/// profile 2, 10 otherwise when set, 8 when clear); profile 1 is never
/// monochrome and reads no flag for it; an optional description triple of
/// color primaries, transfer characteristics and matrix coefficients
/// defaults to unspecified; a monochrome stream reads only its color range
/// and forces 4:2:0 subsampling; the (BT.709, sRGB, identity) triple is the
/// implied full-range sRGB shortcut that reads no range or subsampling
/// bits; otherwise the range bit is read and subsampling follows from the
/// profile and bit depth, with the chroma sample position read only when
/// both subsampling directions are set.
#[verifier::opaque]
pub open spec fn color_config_spec(b: Seq<u8>, pos: nat, seq_profile: u8) -> Result<
    (Color_Config, nat),
    ParseError,
> {
    match read_bit_spec(b, pos) {
        Err(e) => Err(e),
        Ok((high_bit_depth, p1)) => {
            let bit_depth: u8 = if seq_profile == 2 && high_bit_depth == 1 {
                12
            } else if high_bit_depth == 1 {
                10
            } else {
                8
            };
            let mono_res: Result<(u8, nat), ParseError> = if seq_profile == 1 {
                Ok((0u8, p1))
            } else {
                read_bit_spec(b, p1)
            };
            match mono_res {
                Err(e) => Err(e),
                Ok((mono_chrome, p2)) => {
                    let num_planes: u8 = if mono_chrome == 0 {
                        3
                    } else {
                        1
                    };
                    match read_bit_spec(b, p2) {
                        Err(e) => Err(e),
                        Ok((desc_flag, p3)) => {
                            let triple_res: Result<
                                ((COLOR_PRIMARIES, TRANSFER_CHARACTERISTICS, MATRIX_COEFFICIENTS), nat),
                                ParseError,
                            > = if desc_flag == 1 {
                                match color_primaries_spec(b, p3) {
                                    Err(e) => Err(e),
                                    Ok((cp, p4)) => match transfer_characteristics_spec(b, p4) {
                                        Err(e) => Err(e),
                                        Ok((tc, p5)) => match matrix_coefficients_spec(b, p5) {
                                            Err(e) => Err(e),
                                            Ok((mc, p6)) => Ok(((cp, tc, mc), p6)),
                                        },
                                    },
                                }
                            } else {
                                Ok(
                                    (
                                        (
                                            COLOR_PRIMARIES::CP_UNSPECIFIED,
                                            TRANSFER_CHARACTERISTICS::TC_UNSPECIFIED,
                                            MATRIX_COEFFICIENTS::MC_UNSPECIFIED,
                                        ),
                                        p3,
                                    ),
                                )
                            };
                            match triple_res {
                                Err(e) => Err(e),
                                Ok(((cp, tc, mc), p6)) => color_config_tail_spec(
                                    b,
                                    p6,
                                    seq_profile,
                                    bit_depth,
                                    mono_chrome,
                                    num_planes,
                                    cp,
                                    tc,
                                    mc,
                                ),
                            }
                        },
                    }
                },
            }
        },
    }
}

/// The remainder of the color config once the description triple is known:
/// range, subsampling, chroma sample position and the separate-UV-delta-Q
/// flag.
#[verifier::opaque]
pub open spec fn color_config_tail_spec(
    b: Seq<u8>,
    pos: nat,
    seq_profile: u8,
    bit_depth: u8,
    mono_chrome: u8,
    num_planes: u8,
    cp: COLOR_PRIMARIES,
    tc: TRANSFER_CHARACTERISTICS,
    mc: MATRIX_COEFFICIENTS,
) -> Result<(Color_Config, nat), ParseError> {
    if mono_chrome != 0 {
        match read_bit_spec(b, pos) {
            Err(e) => Err(e),
            Ok((color_range, p)) => Ok(
                (
                    Color_Config {
                        bit_depth,
                        mono_chrome,
                        num_planes,
                        color_primaries: cp,
                        transfer_characteristics: tc,
                        matrix_coefficients: mc,
                        color_range,
                        subsampling_x: 1,
                        subsampling_y: 1,
                        chroma_sample_position: CHROMA_SAMPLE_POSITION::CSP_UNKNOWN,
                        separate_uv_delta_q: 0,
                    },
                    p,
                ),
            ),
        }
    } else if cp == COLOR_PRIMARIES::CP_BT_709 && tc == TRANSFER_CHARACTERISTICS::TC_SRGB && mc
        == MATRIX_COEFFICIENTS::MC_IDENTITY {
        match read_bit_spec(b, pos) {
            Err(e) => Err(e),
            Ok((separate_uv_delta_q, p)) => Ok(
                (
                    Color_Config {
                        bit_depth,
                        mono_chrome,
                        num_planes,
                        color_primaries: cp,
                        transfer_characteristics: tc,
                        matrix_coefficients: mc,
                        color_range: 1,
                        subsampling_x: 0,
                        subsampling_y: 0,
                        chroma_sample_position: CHROMA_SAMPLE_POSITION::CSP_UNKNOWN,
                        separate_uv_delta_q,
                    },
                    p,
                ),
            ),
        }
    } else {
        match read_bit_spec(b, pos) {
            Err(e) => Err(e),
            Ok((color_range, p7)) => {
                let sub_res: Result<((u8, u8), nat), ParseError> = if seq_profile == 0 {
                    Ok(((1u8, 1u8), p7))
                } else if seq_profile == 1 {
                    match read_bit_spec(b, p7) {
                        Err(e) => Err(e),
                        Ok((sx, p8)) => match read_bit_spec(b, p8) {
                            Err(e) => Err(e),
                            Ok((sy, p9)) => Ok(((sx, sy), p9)),
                        },
                    }
                } else if bit_depth == 12 {
                    match read_bit_spec(b, p7) {
                        Err(e) => Err(e),
                        Ok((sx, p8)) => if sx != 0 {
                            match read_bit_spec(b, p8) {
                                Err(e) => Err(e),
                                Ok((sy, p9)) => Ok(((sx, sy), p9)),
                            }
                        } else {
                            Ok(((sx, 0u8), p8))
                        },
                    }
                } else {
                    Ok(((1u8, 0u8), p7))
                };
                match sub_res {
                    Err(e) => Err(e),
                    Ok(((sx, sy), p8)) => {
                        let csp_res: Result<(CHROMA_SAMPLE_POSITION, nat), ParseError> = if sx != 0
                            && sy != 0 {
                            chroma_sample_position_spec(b, p8)
                        } else {
                            Ok((CHROMA_SAMPLE_POSITION::CSP_UNKNOWN, p8))
                        };
                        match csp_res {
                            Err(e) => Err(e),
                            Ok((csp, p9)) => match read_bit_spec(b, p9) {
                                Err(e) => Err(e),
                                Ok((separate_uv_delta_q, p10)) => Ok(
                                    (
                                        Color_Config {
                                            bit_depth,
                                            mono_chrome,
                                            num_planes,
                                            color_primaries: cp,
                                            transfer_characteristics: tc,
                                            matrix_coefficients: mc,
                                            color_range,
                                            subsampling_x: sx,
                                            subsampling_y: sy,
                                            chroma_sample_position: csp,
                                            separate_uv_delta_q,
                                        },
                                        p10,
                                    ),
                                ),
                            },
                        }
                    },
                }
            },
        }
    }
}

impl Color_Config {
    /// Decode the color config from the cursor, given the sequence profile.
    #[verifier::rlimit(60)]
    pub fn from_reader(r: &mut BitCursor, seq_profile: u8) -> (res: Result<Color_Config, ParseError>)
        requires
            old(r).wf(),
        ensures
            final(r).wf(),
            final(r).data() == old(r).data(),
            old(r).bit_pos() <= final(r).bit_pos(),
            match res {
                Ok(cc) => color_config_spec(old(r).data(), old(r).bit_pos(), seq_profile) == Ok::<
                    (Color_Config, nat),
                    ParseError,
                >((cc, final(r).bit_pos())),
                Err(e) => color_config_spec(old(r).data(), old(r).bit_pos(), seq_profile) == Err::<
                    (Color_Config, nat),
                    ParseError,
                >(e),
            },
    {
        proof {
            reveal(color_config_spec);
        }
        let high_bit_depth = match r.read_bit() {
            Ok(v) => v,
            Err(e) => {
                return Err(e);
            },
        };
        let bit_depth: u8 = if seq_profile == 2 && high_bit_depth == 1 {
            12
        } else if high_bit_depth == 1 {
            10
        } else {
            8
        };
        let mono_chrome: u8 = if seq_profile == 1 {
            0
        } else {
            match r.read_bit() {
                Ok(v) => v,
                Err(e) => {
                    return Err(e);
                },
            }
        };
        let num_planes: u8 = if mono_chrome == 0 {
            3
        } else {
            1
        };
        let desc_flag = match r.read_bit() {
            Ok(v) => v,
            Err(e) => {
                return Err(e);
            },
        };
        let mut color_primaries = COLOR_PRIMARIES::CP_UNSPECIFIED;
        let mut transfer_characteristics = TRANSFER_CHARACTERISTICS::TC_UNSPECIFIED;
        let mut matrix_coefficients = MATRIX_COEFFICIENTS::MC_UNSPECIFIED;
        if desc_flag == 1 {
            color_primaries = match COLOR_PRIMARIES::from_reader(r) {
                Ok(v) => v,
                Err(e) => {
                    return Err(e);
                },
            };
            transfer_characteristics = match TRANSFER_CHARACTERISTICS::from_reader(r) {
                Ok(v) => v,
                Err(e) => {
                    return Err(e);
                },
            };
            matrix_coefficients = match MATRIX_COEFFICIENTS::from_reader(r) {
                Ok(v) => v,
                Err(e) => {
                    return Err(e);
                },
            };
        }
        Color_Config::parse_tail(
            r,
            seq_profile,
            bit_depth,
            mono_chrome,
            num_planes,
            color_primaries,
            transfer_characteristics,
            matrix_coefficients,
        )
    }

    /// Decode the remainder of the color config once the description triple
    /// is known.
    #[verifier::rlimit(60)]
    fn parse_tail(
        r: &mut BitCursor,
        seq_profile: u8,
        bit_depth: u8,
        mono_chrome: u8,
        num_planes: u8,
        color_primaries: COLOR_PRIMARIES,
        transfer_characteristics: TRANSFER_CHARACTERISTICS,
        matrix_coefficients: MATRIX_COEFFICIENTS,
    ) -> (res: Result<Color_Config, ParseError>)
        requires
            old(r).wf(),
        ensures
            final(r).wf(),
            final(r).data() == old(r).data(),
            old(r).bit_pos() <= final(r).bit_pos(),
            match res {
                Ok(cc) => color_config_tail_spec(
                    old(r).data(),
                    old(r).bit_pos(),
                    seq_profile,
                    bit_depth,
                    mono_chrome,
                    num_planes,
                    color_primaries,
                    transfer_characteristics,
                    matrix_coefficients,
                ) == Ok::<(Color_Config, nat), ParseError>((cc, final(r).bit_pos())),
                Err(e) => color_config_tail_spec(
                    old(r).data(),
                    old(r).bit_pos(),
                    seq_profile,
                    bit_depth,
                    mono_chrome,
                    num_planes,
                    color_primaries,
                    transfer_characteristics,
                    matrix_coefficients,
                ) == Err::<(Color_Config, nat), ParseError>(e),
            },
    {
        proof {
            reveal(color_config_tail_spec);
        }
        if mono_chrome != 0 {
            let color_range = match r.read_bit() {
                Ok(v) => v,
                Err(e) => {
                    return Err(e);
                },
            };
            return Ok(Color_Config {
                bit_depth,
                mono_chrome,
                num_planes,
                color_primaries,
                transfer_characteristics,
                matrix_coefficients,
                color_range,
                subsampling_x: 1,
                subsampling_y: 1,
                chroma_sample_position: CHROMA_SAMPLE_POSITION::CSP_UNKNOWN,
                separate_uv_delta_q: 0,
            });
        }
        if color_primaries == COLOR_PRIMARIES::CP_BT_709 && transfer_characteristics
            == TRANSFER_CHARACTERISTICS::TC_SRGB && matrix_coefficients
            == MATRIX_COEFFICIENTS::MC_IDENTITY {
            let separate_uv_delta_q = match r.read_bit() {
                Ok(v) => v,
                Err(e) => {
                    return Err(e);
                },
            };
            return Ok(Color_Config {
                bit_depth,
                mono_chrome,
                num_planes,
                color_primaries,
                transfer_characteristics,
                matrix_coefficients,
                color_range: 1,
                subsampling_x: 0,
                subsampling_y: 0,
                chroma_sample_position: CHROMA_SAMPLE_POSITION::CSP_UNKNOWN,
                separate_uv_delta_q,
            });
        }
        let color_range = match r.read_bit() {
            Ok(v) => v,
            Err(e) => {
                return Err(e);
            },
        };
        let subsampling_x: u8;
        let subsampling_y: u8;
        if seq_profile == 0 {
            subsampling_x = 1;
            subsampling_y = 1;
        } else if seq_profile == 1 {
            subsampling_x = match r.read_bit() {
                Ok(v) => v,
                Err(e) => {
                    return Err(e);
                },
            };
            subsampling_y = match r.read_bit() {
                Ok(v) => v,
                Err(e) => {
                    return Err(e);
                },
            };
        } else if bit_depth == 12 {
            subsampling_x = match r.read_bit() {
                Ok(v) => v,
                Err(e) => {
                    return Err(e);
                },
            };
            if subsampling_x != 0 {
                subsampling_y = match r.read_bit() {
                    Ok(v) => v,
                    Err(e) => {
                        return Err(e);
                    },
                };
            } else {
                subsampling_y = 0;
            }
        } else {
            subsampling_x = 1;
            subsampling_y = 0;
        }
        let chroma_sample_position: CHROMA_SAMPLE_POSITION;
        if subsampling_x != 0 && subsampling_y != 0 {
            chroma_sample_position = match CHROMA_SAMPLE_POSITION::from_reader(r) {
                Ok(v) => v,
                Err(e) => {
                    return Err(e);
                },
            };
        } else {
            chroma_sample_position = CHROMA_SAMPLE_POSITION::CSP_UNKNOWN;
        }
        let separate_uv_delta_q = match r.read_bit() {
            Ok(v) => v,
            Err(e) => {
                return Err(e);
            },
        };
        Ok(Color_Config {
            bit_depth,
            mono_chrome,
            num_planes,
            color_primaries,
            transfer_characteristics,
            matrix_coefficients,
            color_range,
            subsampling_x,
            subsampling_y,
            chroma_sample_position,
            separate_uv_delta_q,
        })
    }
}

/// Monochrome shortcut: a monochrome color config always carries 4:2:0
/// subsampling in both directions, an unknown chroma sample position for
/// which no bits were consumed, and no separate UV delta Q, and the whole
/// structure spans exactly 4 bits plus the optional 24-bit description
/// triple.
pub proof fn lemma_color_config_monochrome(
    b: Seq<u8>,
    pos: nat,
    seq_profile: u8,
    cc: Color_Config,
    end: nat,
)
    requires
        color_config_spec(b, pos, seq_profile) == Ok::<(Color_Config, nat), ParseError>((cc, end)),
        cc.mono_chrome == 1,
    ensures
        cc.subsampling_x == 1,
        cc.subsampling_y == 1,
        cc.chroma_sample_position == CHROMA_SAMPLE_POSITION::CSP_UNKNOWN,
        cc.separate_uv_delta_q == 0,
        cc.num_planes == 1,
        end == pos + 4 || end == pos + 28,
{
    reveal(color_config_spec);
    reveal(color_config_tail_spec);
}

/// Implied-sRGB shortcut: a non-monochrome color config whose description
/// triple is (BT.709, sRGB, identity) is always full-range with no
/// subsampling in either direction, and only the bits up to the triple plus
/// one trailing flag are consumed: no range, subsampling or chroma-position
/// bits.
pub proof fn lemma_color_config_srgb(
    b: Seq<u8>,
    pos: nat,
    seq_profile: u8,
    cc: Color_Config,
    end: nat,
)
    requires
        color_config_spec(b, pos, seq_profile) == Ok::<(Color_Config, nat), ParseError>((cc, end)),
        cc.mono_chrome == 0,
        cc.color_primaries == COLOR_PRIMARIES::CP_BT_709,
        cc.transfer_characteristics == TRANSFER_CHARACTERISTICS::TC_SRGB,
        cc.matrix_coefficients == MATRIX_COEFFICIENTS::MC_IDENTITY,
    ensures
        cc.color_range == 1,
        cc.subsampling_x == 0,
        cc.subsampling_y == 0,
        cc.chroma_sample_position == CHROMA_SAMPLE_POSITION::CSP_UNKNOWN,
        end == pos + 27 + (if seq_profile == 1 { 0int } else { 1int }),
{
    reveal(color_config_spec);
    reveal(color_config_tail_spec);
}

} // verus!
