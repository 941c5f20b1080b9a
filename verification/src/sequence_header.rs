//! The Sequence Header OBU payload: nested timing and decoder-model
//! metadata, the per-operating-point records, frame-size signaling,
//! feature-enable flags, and the embedded color configuration.

use vstd::prelude::*;
use vstd::arithmetic::power2::lemma2_to64;
use crate::ParseError;
use crate::bits::{BitCursor, bits_value, lemma_bits_value_bound, read_bit_spec, read_bits_spec};
use crate::consts::{SELECT_SCREEN_CONTENT_TOOLS, SELECT_INTEGER_MV};
use crate::varint::{uvlc, uvlc_spec};
use crate::color::{Color_Config, color_config_spec};

verus! {

/// Timing information: tick rate of the display clock and, when every
/// picture lasts equally long, the tick count per picture.
#[derive(Clone, Copy, Debug, PartialEq, Eq)]
pub struct Timing_Info {
    pub num_units_in_display_tick: u32,
    pub time_scale: u32,
    pub equal_picture_interval: u8,
    pub num_ticks_per_picture_minus_1: Option<uvlc>,
}

/// Decoder model information.  `buffer_delay_length_minus_1` governs the
/// bit width of every operating-parameters record decoded later.
#[derive(Clone, Copy, Debug, PartialEq, Eq, Structural)]
pub struct Decoder_Model_Info {
    pub buffer_delay_length_minus_1: u8,
    pub num_units_in_decoding_tick: u32,
    pub buffer_removal_delay_length_minus_1: u8,
    pub frame_presentation_delay_length_minus_1: u8,
}

/// The decoder-model parameters of one operating point that declares them.
/// The width of the two delay fields is `buffer_delay_length_minus_1 + 1`
/// bits of the governing `Decoder_Model_Info`.
#[derive(Clone, Copy, Debug, PartialEq, Eq, Structural)]
pub struct Operating_Parameters_Info {
    pub decoder_buffer_delay: u32,
    pub encoder_buffer_delay: u32,
    pub low_delay_mode_flag: u8,
}

/// One declared operating point: a combination of temporal and spatial
/// layers a decoder may choose to decode instead of the full stream.
#[derive(Clone, Copy, Debug, PartialEq, Eq)]
pub struct OperatingPoint {
    pub operating_point_idc: u16,
    pub seq_level_idx: u8,
    pub seq_tier: u8,
    pub decoder_model_present_for_this_op: u8,
    pub operating_parameters_info: Option<Operating_Parameters_Info>,
    pub initial_display_delay_present_for_this_op: u8,
    pub initial_display_delay_minus_1: Option<u8>,
}

/// What decoding the timing info at `pos` yields: two 32-bit tick fields,
/// the equal-picture-interval flag, and a UVLC tick count present exactly
/// when that flag is set.
#[verifier::opaque]
pub open spec fn timing_info_spec(b: Seq<u8>, pos: nat) -> Result<(Timing_Info, nat), ParseError> {
    match read_bits_spec(b, pos, 32) {
        Err(e) => Err(e),
        Ok((nudt, p1)) => match read_bits_spec(b, p1, 32) {
            Err(e) => Err(e),
            Ok((ts, p2)) => match read_bit_spec(b, p2) {
                Err(e) => Err(e),
                Ok((eq, p3)) => if eq == 1 {
                    match uvlc_spec(b, p3) {
                        Err(e) => Err(e),
                        Ok((ticks, p4)) => Ok(
                            (
                                Timing_Info {
                                    num_units_in_display_tick: nudt as u32,
                                    time_scale: ts as u32,
                                    equal_picture_interval: eq,
                                    num_ticks_per_picture_minus_1: Some(uvlc { value: ticks }),
                                },
                                p4,
                            ),
                        ),
                    }
                } else {
                    Ok(
                        (
                            Timing_Info {
                                num_units_in_display_tick: nudt as u32,
                                time_scale: ts as u32,
                                equal_picture_interval: eq,
                                num_ticks_per_picture_minus_1: None,
                            },
                            p3,
                        ),
                    )
                },
            },
        },
    }
}

/// What decoding the decoder model info at `pos` yields.
#[verifier::opaque]
pub open spec fn decoder_model_info_spec(b: Seq<u8>, pos: nat) -> Result<
    (Decoder_Model_Info, nat),
    ParseError,
> {
    match read_bits_spec(b, pos, 5) {
        Err(e) => Err(e),
        Ok((bdl, p1)) => match read_bits_spec(b, p1, 32) {
            Err(e) => Err(e),
            Ok((nudt, p2)) => match read_bits_spec(b, p2, 5) {
                Err(e) => Err(e),
                Ok((brd, p3)) => match read_bits_spec(b, p3, 5) {
                    Err(e) => Err(e),
                    Ok((fpd, p4)) => Ok(
                        (
                            Decoder_Model_Info {
                                buffer_delay_length_minus_1: bdl as u8,
                                num_units_in_decoding_tick: nudt as u32,
                                buffer_removal_delay_length_minus_1: brd as u8,
                                frame_presentation_delay_length_minus_1: fpd as u8,
                            },
                            p4,
                        ),
                    ),
                },
            },
        },
    }
}

/// What decoding one operating-parameters record at `pos` yields; `n` is
/// the delay field width in bits, `buffer_delay_length_minus_1 + 1` of the
/// governing decoder model info.
#[verifier::opaque]
pub open spec fn operating_parameters_info_spec(b: Seq<u8>, pos: nat, n: nat) -> Result<
    (Operating_Parameters_Info, nat),
    ParseError,
> {
    match read_bits_spec(b, pos, n) {
        Err(e) => Err(e),
        Ok((dbd, p1)) => match read_bits_spec(b, p1, n) {
            Err(e) => Err(e),
            Ok((ebd, p2)) => match read_bit_spec(b, p2) {
                Err(e) => Err(e),
                Ok((ldm, p3)) => Ok(
                    (
                        Operating_Parameters_Info {
                            decoder_buffer_delay: dbd as u32,
                            encoder_buffer_delay: ebd as u32,
                            low_delay_mode_flag: ldm,
                        },
                        p3,
                    ),
                ),
            },
        },
    }
}

/// What decoding one operating-point record at `pos` yields: a 12-bit layer
/// bitmask, a 5-bit level, a tier bit only above level 7, an
/// operating-parameters record only when the global decoder model is
/// present and this point declares one, and an initial display delay only
/// when globally signalled and declared here.
#[verifier::opaque]
pub open spec fn op_point_spec(
    b: Seq<u8>,
    pos: nat,
    dmi: Option<Decoder_Model_Info>,
    idd_present: bool,
) -> Result<(OperatingPoint, nat), ParseError> {
    match read_bits_spec(b, pos, 12) {
        Err(e) => Err(e),
        Ok((idc, p1)) => match read_bits_spec(b, p1, 5) {
            Err(e) => Err(e),
            Ok((lvl, p2)) => {
                let tier_res: Result<(u8, nat), ParseError> = if lvl > 7 {
                    read_bit_spec(b, p2)
                } else {
                    Ok((0u8, p2))
                };
                match tier_res {
                    Err(e) => Err(e),
                    Ok((tier, p3)) => {
                        let dm_res: Result<((u8, Option<Operating_Parameters_Info>), nat), ParseError>
                            = match dmi {
                            Some(d) => match read_bit_spec(b, p3) {
                                Err(e) => Err(e),
                                Ok((flag, p4)) => if flag != 0 {
                                    match operating_parameters_info_spec(
                                        b,
                                        p4,
                                        (d.buffer_delay_length_minus_1 + 1) as nat,
                                    ) {
                                        Err(e) => Err(e),
                                        Ok((opi, p5)) => Ok(((flag, Some(opi)), p5)),
                                    }
                                } else {
                                    Ok(((flag, None), p4))
                                },
                            },
                            None => Ok(((0u8, None), p3)),
                        };
                        match dm_res {
                            Err(e) => Err(e),
                            Ok(((dm_flag, opi), p5)) => {
                                let idd_res: Result<((u8, Option<u8>), nat), ParseError> = if idd_present {
                                    match read_bit_spec(b, p5) {
                                        Err(e) => Err(e),
                                        Ok((f, p6)) => if f != 0 {
                                            match read_bits_spec(b, p6, 4) {
                                                Err(e) => Err(e),
                                                Ok((v, p7)) => Ok(((f, Some(v as u8)), p7)),
                                            }
                                        } else {
                                            Ok(((f, None), p6))
                                        },
                                    }
                                } else {
                                    Ok(((0u8, None), p5))
                                };
                                match idd_res {
                                    Err(e) => Err(e),
                                    Ok(((idd_flag, idd_val), p7)) => Ok(
                                        (
                                            OperatingPoint {
                                                operating_point_idc: idc as u16,
                                                seq_level_idx: lvl as u8,
                                                seq_tier: tier,
                                                decoder_model_present_for_this_op: dm_flag,
                                                operating_parameters_info: opi,
                                                initial_display_delay_present_for_this_op: idd_flag,
                                                initial_display_delay_minus_1: idd_val,
                                            },
                                            p7,
                                        ),
                                    ),
                                }
                            },
                        }
                    },
                }
            },
        },
    }
}

/// What decoding `count` operating-point records in order yields.
#[verifier::opaque]
pub open spec fn op_points_spec(
    b: Seq<u8>,
    pos: nat,
    count: nat,
    dmi: Option<Decoder_Model_Info>,
    idd_present: bool,
) -> Result<(Seq<OperatingPoint>, nat), ParseError>
    decreases count,
{
    if count == 0 {
        Ok((Seq::empty(), pos))
    } else {
        match op_point_spec(b, pos, dmi, idd_present) {
            Err(e) => Err(e),
            Ok((p, p1)) => match op_points_spec(b, p1, (count - 1) as nat, dmi, idd_present) {
                Err(e) => Err(e),
                Ok((rest, p2)) => Ok((seq![p] + rest, p2)),
            },
        }
    }
}

impl Timing_Info {
    /// Decode the timing info from the cursor.
    pub fn from_reader(r: &mut BitCursor) -> (res: Result<Timing_Info, ParseError>)
        requires
            old(r).wf(),
        ensures
            final(r).wf(),
            final(r).data() == old(r).data(),
            old(r).bit_pos() <= final(r).bit_pos(),
            match res {
                Ok(v) => timing_info_spec(old(r).data(), old(r).bit_pos()) == Ok::<
                    (Timing_Info, nat),
                    ParseError,
                >((v, final(r).bit_pos())),
                Err(e) => timing_info_spec(old(r).data(), old(r).bit_pos()) == Err::<
                    (Timing_Info, nat),
                    ParseError,
                >(e),
            },
    {
        proof {
            reveal(timing_info_spec);
        }
        let num_units_in_display_tick = match r.read_bits(32) {
            Ok(v) => v,
            Err(e) => {
                return Err(e);
            },
        };
        let time_scale = match r.read_bits(32) {
            Ok(v) => v,
            Err(e) => {
                return Err(e);
            },
        };
        let equal_picture_interval = match r.read_bit() {
            Ok(v) => v,
            Err(e) => {
                return Err(e);
            },
        };
        let num_ticks_per_picture_minus_1 = if equal_picture_interval == 1 {
            match uvlc::from_reader(r) {
                Ok(v) => Some(v),
                Err(e) => {
                    return Err(e);
                },
            }
        } else {
            None
        };
        Ok(Timing_Info {
            num_units_in_display_tick,
            time_scale,
            equal_picture_interval,
            num_ticks_per_picture_minus_1,
        })
    }
}

impl Decoder_Model_Info {
    /// Decode the decoder model info from the cursor.
    pub fn from_reader(r: &mut BitCursor) -> (res: Result<Decoder_Model_Info, ParseError>)
        requires
            old(r).wf(),
        ensures
            final(r).wf(),
            final(r).data() == old(r).data(),
            old(r).bit_pos() <= final(r).bit_pos(),
            match res {
                Ok(v) => decoder_model_info_spec(old(r).data(), old(r).bit_pos()) == Ok::<
                    (Decoder_Model_Info, nat),
                    ParseError,
                >((v, final(r).bit_pos()))
                    && v.buffer_delay_length_minus_1 < 32,
                Err(e) => decoder_model_info_spec(old(r).data(), old(r).bit_pos()) == Err::<
                    (Decoder_Model_Info, nat),
                    ParseError,
                >(e),
            },
    {
        proof {
            reveal(decoder_model_info_spec);
        }
        let ghost b = r.data();
        let ghost pos0 = r.bit_pos();
        let buffer_delay_length_minus_1 = match r.read_bits(5) {
            Ok(v) => v,
            Err(e) => {
                return Err(e);
            },
        };
        proof {
            lemma_bits_value_bound(b, pos0, 5);
            lemma2_to64();
        }
        let num_units_in_decoding_tick = match r.read_bits(32) {
            Ok(v) => v,
            Err(e) => {
                return Err(e);
            },
        };
        let buffer_removal_delay_length_minus_1 = match r.read_bits(5) {
            Ok(v) => v,
            Err(e) => {
                return Err(e);
            },
        };
        let frame_presentation_delay_length_minus_1 = match r.read_bits(5) {
            Ok(v) => v,
            Err(e) => {
                return Err(e);
            },
        };
        Ok(Decoder_Model_Info {
            buffer_delay_length_minus_1: buffer_delay_length_minus_1 as u8,
            num_units_in_decoding_tick,
            buffer_removal_delay_length_minus_1: buffer_removal_delay_length_minus_1 as u8,
            frame_presentation_delay_length_minus_1: frame_presentation_delay_length_minus_1 as u8,
        })
    }
}

impl Operating_Parameters_Info {
    /// Build a record from already-decoded delay fields.
    pub fn new(decoder_buffer_delay: u32, encoder_buffer_delay: u32, low_delay_mode_flag: u8) -> (r:
        Self)
        ensures
            r.decoder_buffer_delay == decoder_buffer_delay,
            r.encoder_buffer_delay == encoder_buffer_delay,
            r.low_delay_mode_flag == low_delay_mode_flag,
    {
        Operating_Parameters_Info { decoder_buffer_delay, encoder_buffer_delay, low_delay_mode_flag }
    }

    /// Decode one record from the cursor, with the delay field width taken
    /// from the governing decoder model info.
    pub fn from_reader(r: &mut BitCursor, decoder_model_info: &Decoder_Model_Info) -> (res: Result<
        Operating_Parameters_Info,
        ParseError,
    >)
        requires
            old(r).wf(),
            decoder_model_info.buffer_delay_length_minus_1 < 32,
        ensures
            final(r).wf(),
            final(r).data() == old(r).data(),
            old(r).bit_pos() <= final(r).bit_pos(),
            match res {
                Ok(v) => operating_parameters_info_spec(
                    old(r).data(),
                    old(r).bit_pos(),
                    (decoder_model_info.buffer_delay_length_minus_1 + 1) as nat,
                ) == Ok::<(Operating_Parameters_Info, nat), ParseError>((v, final(r).bit_pos())),
                Err(e) => operating_parameters_info_spec(
                    old(r).data(),
                    old(r).bit_pos(),
                    (decoder_model_info.buffer_delay_length_minus_1 + 1) as nat,
                ) == Err::<(Operating_Parameters_Info, nat), ParseError>(e),
            },
    {
        proof {
            reveal(operating_parameters_info_spec);
        }
        let n: usize = decoder_model_info.buffer_delay_length_minus_1 as usize + 1;
        let decoder_buffer_delay = match r.read_bits(n) {
            Ok(v) => v,
            Err(e) => {
                return Err(e);
            },
        };
        let encoder_buffer_delay = match r.read_bits(n) {
            Ok(v) => v,
            Err(e) => {
                return Err(e);
            },
        };
        let low_delay_mode_flag = match r.read_bit() {
            Ok(v) => v,
            Err(e) => {
                return Err(e);
            },
        };
        Ok(Operating_Parameters_Info {
            decoder_buffer_delay,
            encoder_buffer_delay,
            low_delay_mode_flag,
        })
    }
}

impl OperatingPoint {
    /// Decode one operating-point record from the cursor.
    pub fn from_reader(
        r: &mut BitCursor,
        dmi: Option<Decoder_Model_Info>,
        idd_present: bool,
    ) -> (res: Result<OperatingPoint, ParseError>)
        requires
            old(r).wf(),
            dmi matches Some(d) ==> d.buffer_delay_length_minus_1 < 32,
        ensures
            final(r).wf(),
            final(r).data() == old(r).data(),
            old(r).bit_pos() <= final(r).bit_pos(),
            match res {
                Ok(v) => op_point_spec(old(r).data(), old(r).bit_pos(), dmi, idd_present) == Ok::<
                    (OperatingPoint, nat),
                    ParseError,
                >((v, final(r).bit_pos())),
                Err(e) => op_point_spec(old(r).data(), old(r).bit_pos(), dmi, idd_present) == Err::<
                    (OperatingPoint, nat),
                    ParseError,
                >(e),
            },
    {
        proof {
            reveal(op_point_spec);
        }
        let operating_point_idc = match r.read_bits(12) {
            Ok(v) => v,
            Err(e) => {
                return Err(e);
            },
        };
        let seq_level_idx = match r.read_bits(5) {
            Ok(v) => v,
            Err(e) => {
                return Err(e);
            },
        };
        let seq_tier: u8 = if seq_level_idx > 7 {
            match r.read_bit() {
                Ok(v) => v,
                Err(e) => {
                    return Err(e);
                },
            }
        } else {
            0
        };
        let mut decoder_model_present_for_this_op: u8 = 0;
        let mut operating_parameters_info: Option<Operating_Parameters_Info> = None;
        match dmi {
            Some(d) => {
                decoder_model_present_for_this_op = match r.read_bit() {
                    Ok(v) => v,
                    Err(e) => {
                        return Err(e);
                    },
                };
                if decoder_model_present_for_this_op != 0 {
                    operating_parameters_info = match Operating_Parameters_Info::from_reader(r, &d) {
                        Ok(v) => Some(v),
                        Err(e) => {
                            return Err(e);
                        },
                    };
                }
            },
            None => {},
        }
        let mut initial_display_delay_present_for_this_op: u8 = 0;
        let mut initial_display_delay_minus_1: Option<u8> = None;
        if idd_present {
            initial_display_delay_present_for_this_op = match r.read_bit() {
                Ok(v) => v,
                Err(e) => {
                    return Err(e);
                },
            };
            if initial_display_delay_present_for_this_op != 0 {
                initial_display_delay_minus_1 = match r.read_bits(4) {
                    Ok(v) => Some(v as u8),
                    Err(e) => {
                        return Err(e);
                    },
                };
            }
        }
        Ok(OperatingPoint {
            operating_point_idc: operating_point_idc as u16,
            seq_level_idx: seq_level_idx as u8,
            seq_tier,
            decoder_model_present_for_this_op,
            operating_parameters_info,
            initial_display_delay_present_for_this_op,
            initial_display_delay_minus_1,
        })
    }
}

/// Decode `count` operating-point records in order.
#[verifier::rlimit(100)]
fn parse_operating_points(
    r: &mut BitCursor,
    count: usize,
    dmi: Option<Decoder_Model_Info>,
    idd_present: bool,
) -> (res: Result<Vec<OperatingPoint>, ParseError>)
    requires
        old(r).wf(),
        dmi matches Some(d) ==> d.buffer_delay_length_minus_1 < 32,
    ensures
        final(r).wf(),
        final(r).data() == old(r).data(),
        old(r).bit_pos() <= final(r).bit_pos(),
        match res {
            Ok(v) => op_points_spec(old(r).data(), old(r).bit_pos(), count as nat, dmi, idd_present)
                == Ok::<(Seq<OperatingPoint>, nat), ParseError>((v@, final(r).bit_pos())),
            Err(e) => op_points_spec(
                old(r).data(),
                old(r).bit_pos(),
                count as nat,
                dmi,
                idd_present,
            ) == Err::<(Seq<OperatingPoint>, nat), ParseError>(e),
        },
{
    proof {
        reveal(op_points_spec);
    }
    let ghost b = r.data();
    let ghost pos0 = r.bit_pos();
    let mut ops: Vec<OperatingPoint> = Vec::new();
    let mut i: usize = 0;
    while i < count
        invariant
            r.wf(),
            r.data() == b,
            b == old(r).data(),
            pos0 == old(r).bit_pos(),
            i <= count,
            pos0 <= r.bit_pos(),
            ops@.len() == i,
            (dmi matches Some(d) ==> d.buffer_delay_length_minus_1 < 32),
            op_points_spec(b, pos0, count as nat, dmi, idd_present) == (match op_points_spec(
                b,
                r.bit_pos(),
                (count - i) as nat,
                dmi,
                idd_present,
            ) {
                Ok((rest, end)) => Ok::<(Seq<OperatingPoint>, nat), ParseError>((ops@ + rest, end)),
                Err(e) => Err::<(Seq<OperatingPoint>, nat), ParseError>(e),
            }),
        decreases count - i,
    {
        proof {
            reveal(op_points_spec);
        }
        let ghost ops_before = ops@;
        let p = match OperatingPoint::from_reader(r, dmi, idd_present) {
            Ok(v) => v,
            Err(e) => {
                return Err(e);
            },
        };
        ops.push(p);
        i = i + 1;
        proof {
            assert(ops@ =~= ops_before + seq![p]);
            match op_points_spec(b, r.bit_pos(), (count - i) as nat, dmi, idd_present) {
                Ok(pr) => {
                    let rest = pr.0;
                    assert(ops_before + (seq![p] + rest) =~= (ops_before + seq![p]) + rest);
                },
                Err(_) => {},
            }
        }
    }
    proof {
        reveal(op_points_spec);
        assert(ops@ + Seq::<OperatingPoint>::empty() =~= ops@);
    }
    Ok(ops)
}

/// Which value of `reduced_still_picture_header` gates the extended
/// feature-flag block of the sequence header.  The grammar is parsed under
/// either polarity; a caller should lock in one only after checking a
/// known-conformant stream.
#[derive(Clone, Copy, Debug, PartialEq, Eq, Structural)]
pub enum FeatureFlagPolarity {
    /// The block is present when `reduced_still_picture_header` is 0.
    GeneralHeader,
    /// The block is present when `reduced_still_picture_header` is 1.
    ReducedHeader,
}

/// The extended feature-enable flags of the sequence header, together with
/// the order-hint bit width they control.
#[derive(Clone, Copy, Debug, PartialEq, Eq, Structural)]
pub struct FeatureFlags {
    pub enable_interintra_compound: u8,
    pub enable_masked_compound: u8,
    pub enable_warped_motion: u8,
    pub enable_dual_filter: u8,
    pub enable_order_hint: u8,
    pub enable_jnt_comp: u8,
    pub enable_ref_frame_mvs: u8,
    pub seq_force_screen_content_tools: u8,
    pub seq_force_integer_mv: u8,
    pub order_hint_bits: u8,
}

/// The flag values in force when the extended block is absent from the
/// stream: everything disabled, selection sentinels for the two force
/// fields, and no order-hint bits.
pub open spec fn default_feature_flags() -> FeatureFlags {
    FeatureFlags {
        enable_interintra_compound: 0,
        enable_masked_compound: 0,
        enable_warped_motion: 0,
        enable_dual_filter: 0,
        enable_order_hint: 0,
        enable_jnt_comp: 0,
        enable_ref_frame_mvs: 0,
        seq_force_screen_content_tools: SELECT_SCREEN_CONTENT_TOOLS,
        seq_force_integer_mv: SELECT_INTEGER_MV,
        order_hint_bits: 0,
    }
}

/// What decoding the extended feature-flag block at `pos` yields: five
/// enable bits; joint-compound and reference-frame-motion-vector bits only
/// when order hints are enabled; the two choose/force ladders; and the
/// order-hint bit width, again only when order hints are enabled.
#[verifier::opaque]
pub open spec fn feature_flags_spec(b: Seq<u8>, pos: nat) -> Result<(FeatureFlags, nat), ParseError> {
    match read_bit_spec(b, pos) {
        Err(e) => Err(e),
        Ok((interintra, p1)) => match read_bit_spec(b, p1) {
            Err(e) => Err(e),
            Ok((masked, p2)) => match read_bit_spec(b, p2) {
                Err(e) => Err(e),
                Ok((warped, p3)) => match read_bit_spec(b, p3) {
                    Err(e) => Err(e),
                    Ok((dual, p4)) => match read_bit_spec(b, p4) {
                        Err(e) => Err(e),
                        Ok((order_hint, p5)) => {
                            let jr_res: Result<((u8, u8), nat), ParseError> = if order_hint != 0 {
                                match read_bit_spec(b, p5) {
                                    Err(e) => Err(e),
                                    Ok((jnt, p6)) => match read_bit_spec(b, p6) {
                                        Err(e) => Err(e),
                                        Ok((rfm, p7)) => Ok(((jnt, rfm), p7)),
                                    },
                                }
                            } else {
                                Ok(((0u8, 0u8), p5))
                            };
                            match jr_res {
                                Err(e) => Err(e),
                                Ok(((jnt, rfm), p7)) => feature_flags_ladders_spec(
                                    b,
                                    p7,
                                    interintra,
                                    masked,
                                    warped,
                                    dual,
                                    order_hint,
                                    jnt,
                                    rfm,
                                ),
                            }
                        },
                    },
                },
            },
        },
    }
}

/// The second half of the feature-flag block: the two choose/force
/// ladders for screen-content tools and integer motion vectors, then the
/// order-hint bit width.
#[verifier::opaque]
pub open spec fn feature_flags_ladders_spec(
    b: Seq<u8>,
    pos: nat,
    interintra: u8,
    masked: u8,
    warped: u8,
    dual: u8,
    order_hint: u8,
    jnt: u8,
    rfm: u8,
) -> Result<(FeatureFlags, nat), ParseError> {
    match read_bit_spec(b, pos) {
        Err(e) => Err(e),
        Ok((choose_sct, p8)) => {
            let sct_res: Result<(u8, nat), ParseError> = if choose_sct == 0 {
                read_bit_spec(b, p8)
            } else {
                Ok((SELECT_SCREEN_CONTENT_TOOLS, p8))
            };
            match sct_res {
                Err(e) => Err(e),
                Ok((sct, p9)) => {
                    let imv_res: Result<(u8, nat), ParseError> = if sct > 0 {
                        match read_bit_spec(b, p9) {
                            Err(e) => Err(e),
                            Ok((choose_imv, p10)) => if choose_imv == 0 {
                                read_bit_spec(b, p10)
                            } else {
                                Ok((SELECT_INTEGER_MV, p10))
                            },
                        }
                    } else {
                        Ok((SELECT_INTEGER_MV, p9))
                    };
                    match imv_res {
                        Err(e) => Err(e),
                        Ok((imv, p11)) => {
                            let ohb_res: Result<(u8, nat), ParseError> = if order_hint != 0 {
                                match read_bits_spec(b, p11, 3) {
                                    Err(e) => Err(e),
                                    Ok((v, p12)) => Ok(((v + 1) as u8, p12)),
                                }
                            } else {
                                Ok((0u8, p11))
                            };
                            match ohb_res {
                                Err(e) => Err(e),
                                Ok((ohb, p12)) => Ok(
                                    (
                                        FeatureFlags {
                                            enable_interintra_compound: interintra,
                                            enable_masked_compound: masked,
                                            enable_warped_motion: warped,
                                            enable_dual_filter: dual,
                                            enable_order_hint: order_hint,
                                            enable_jnt_comp: jnt,
                                            enable_ref_frame_mvs: rfm,
                                            seq_force_screen_content_tools: sct,
                                            seq_force_integer_mv: imv,
                                            order_hint_bits: ohb,
                                        },
                                        p12,
                                    ),
                                ),
                            }
                        },
                    }
                },
            }
        },
    }
}

impl FeatureFlags {
    /// Decode the extended feature-flag block from the cursor.
    #[verifier::rlimit(100)]
    pub fn from_reader(r: &mut BitCursor) -> (res: Result<FeatureFlags, ParseError>)
        requires
            old(r).wf(),
        ensures
            final(r).wf(),
            final(r).data() == old(r).data(),
            old(r).bit_pos() <= final(r).bit_pos(),
            match res {
                Ok(v) => feature_flags_spec(old(r).data(), old(r).bit_pos()) == Ok::<
                    (FeatureFlags, nat),
                    ParseError,
                >((v, final(r).bit_pos())),
                Err(e) => feature_flags_spec(old(r).data(), old(r).bit_pos()) == Err::<
                    (FeatureFlags, nat),
                    ParseError,
                >(e),
            },
    {
        proof {
            reveal(feature_flags_spec);
        }
        let enable_interintra_compound = match r.read_bit() {
            Ok(v) => v,
            Err(e) => {
                return Err(e);
            },
        };
        let enable_masked_compound = match r.read_bit() {
            Ok(v) => v,
            Err(e) => {
                return Err(e);
            },
        };
        let enable_warped_motion = match r.read_bit() {
            Ok(v) => v,
            Err(e) => {
                return Err(e);
            },
        };
        let enable_dual_filter = match r.read_bit() {
            Ok(v) => v,
            Err(e) => {
                return Err(e);
            },
        };
        let enable_order_hint = match r.read_bit() {
            Ok(v) => v,
            Err(e) => {
                return Err(e);
            },
        };
        let mut enable_jnt_comp: u8 = 0;
        let mut enable_ref_frame_mvs: u8 = 0;
        if enable_order_hint != 0 {
            enable_jnt_comp = match r.read_bit() {
                Ok(v) => v,
                Err(e) => {
                    return Err(e);
                },
            };
            enable_ref_frame_mvs = match r.read_bit() {
                Ok(v) => v,
                Err(e) => {
                    return Err(e);
                },
            };
        }
        FeatureFlags::parse_ladders(
            r,
            enable_interintra_compound,
            enable_masked_compound,
            enable_warped_motion,
            enable_dual_filter,
            enable_order_hint,
            enable_jnt_comp,
            enable_ref_frame_mvs,
        )
    }

    /// Decode the choose/force ladders and the order-hint bit width.
    #[verifier::rlimit(60)]
    fn parse_ladders(
        r: &mut BitCursor,
        enable_interintra_compound: u8,
        enable_masked_compound: u8,
        enable_warped_motion: u8,
        enable_dual_filter: u8,
        enable_order_hint: u8,
        enable_jnt_comp: u8,
        enable_ref_frame_mvs: u8,
    ) -> (res: Result<FeatureFlags, ParseError>)
        requires
            old(r).wf(),
        ensures
            final(r).wf(),
            final(r).data() == old(r).data(),
            old(r).bit_pos() <= final(r).bit_pos(),
            match res {
                Ok(v) => feature_flags_ladders_spec(
                    old(r).data(),
                    old(r).bit_pos(),
                    enable_interintra_compound,
                    enable_masked_compound,
                    enable_warped_motion,
                    enable_dual_filter,
                    enable_order_hint,
                    enable_jnt_comp,
                    enable_ref_frame_mvs,
                ) == Ok::<(FeatureFlags, nat), ParseError>((v, final(r).bit_pos())),
                Err(e) => feature_flags_ladders_spec(
                    old(r).data(),
                    old(r).bit_pos(),
                    enable_interintra_compound,
                    enable_masked_compound,
                    enable_warped_motion,
                    enable_dual_filter,
                    enable_order_hint,
                    enable_jnt_comp,
                    enable_ref_frame_mvs,
                ) == Err::<(FeatureFlags, nat), ParseError>(e),
            },
    {
        proof {
            reveal(feature_flags_ladders_spec);
        }
        let choose_sct = match r.read_bit() {
            Ok(v) => v,
            Err(e) => {
                return Err(e);
            },
        };
        let seq_force_screen_content_tools: u8 = if choose_sct == 0 {
            match r.read_bit() {
                Ok(v) => v,
                Err(e) => {
                    return Err(e);
                },
            }
        } else {
            SELECT_SCREEN_CONTENT_TOOLS
        };
        let seq_force_integer_mv: u8 = if seq_force_screen_content_tools > 0 {
            let choose_imv = match r.read_bit() {
                Ok(v) => v,
                Err(e) => {
                    return Err(e);
                },
            };
            if choose_imv == 0 {
                match r.read_bit() {
                    Ok(v) => v,
                    Err(e) => {
                        return Err(e);
                    },
                }
            } else {
                SELECT_INTEGER_MV
            }
        } else {
            SELECT_INTEGER_MV
        };
        let order_hint_bits: u8 = if enable_order_hint != 0 {
            let ghost pmark = r.bit_pos();
            match r.read_bits(3) {
                Ok(v) => {
                    proof {
                        lemma_bits_value_bound(r.data(), pmark, 3);
                        lemma2_to64();
                    }
                    (v + 1) as u8
                },
                Err(e) => {
                    return Err(e);
                },
            }
        } else {
            0
        };
        Ok(FeatureFlags {
            enable_interintra_compound,
            enable_masked_compound,
            enable_warped_motion,
            enable_dual_filter,
            enable_order_hint,
            enable_jnt_comp,
            enable_ref_frame_mvs,
            seq_force_screen_content_tools,
            seq_force_integer_mv,
            order_hint_bits,
        })
    }
}

/// The aggregate result of parsing one Sequence Header OBU payload.  The
/// per-operating-point data lives in one sequence of records, so index 0
/// always exists and no parallel arrays can disagree on length.
#[derive(Clone, Debug, PartialEq, Eq)]
pub struct OBU_Sequence_Header {
    pub seq_profile: u8,
    pub still_picture: u8,
    pub reduced_still_picture_header: u8,
    pub timing_info: Option<Timing_Info>,
    pub decoder_model_info: Option<Decoder_Model_Info>,
    pub operating_points: Vec<OperatingPoint>,
    pub c_operating_point_idc: u16,
    pub frame_width_bits_minus_1: u8,
    pub frame_height_bits_minus_1: u8,
    pub max_frame_width_minus_one: u16,
    pub max_frame_height_minus_one: u16,
    pub delta_frame_id_length_minus_2: Option<u8>,
    pub additional_frame_id_length_minus_1: Option<u8>,
    pub use_128x128_superblock: u8,
    pub enable_filter_intra: u8,
    pub enable_intra_edge_filter: u8,
    pub enable_interintra_compound: u8,
    pub enable_masked_compound: u8,
    pub enable_warped_motion: u8,
    pub enable_dual_filter: u8,
    pub enable_order_hint: u8,
    pub enable_jnt_comp: u8,
    pub enable_ref_frame_mvs: u8,
    pub seq_force_screen_content_tools: u8,
    pub seq_force_integer_mv: u8,
    pub order_hint_bits: u8,
    pub enable_superres: u8,
    pub enable_cdef: u8,
    pub enable_restoration: u8,
    pub color_config: Color_Config,
    pub film_grain_params_present: u8,
}

/// The mathematical view of a parsed sequence header: the same fields with
/// the operating points as a sequence.
pub struct SequenceHeaderView {
    pub seq_profile: u8,
    pub still_picture: u8,
    pub reduced_still_picture_header: u8,
    pub timing_info: Option<Timing_Info>,
    pub decoder_model_info: Option<Decoder_Model_Info>,
    pub operating_points: Seq<OperatingPoint>,
    pub c_operating_point_idc: u16,
    pub frame_width_bits_minus_1: u8,
    pub frame_height_bits_minus_1: u8,
    pub max_frame_width_minus_one: u16,
    pub max_frame_height_minus_one: u16,
    pub delta_frame_id_length_minus_2: Option<u8>,
    pub additional_frame_id_length_minus_1: Option<u8>,
    pub use_128x128_superblock: u8,
    pub enable_filter_intra: u8,
    pub enable_intra_edge_filter: u8,
    pub enable_interintra_compound: u8,
    pub enable_masked_compound: u8,
    pub enable_warped_motion: u8,
    pub enable_dual_filter: u8,
    pub enable_order_hint: u8,
    pub enable_jnt_comp: u8,
    pub enable_ref_frame_mvs: u8,
    pub seq_force_screen_content_tools: u8,
    pub seq_force_integer_mv: u8,
    pub order_hint_bits: u8,
    pub enable_superres: u8,
    pub enable_cdef: u8,
    pub enable_restoration: u8,
    pub color_config: Color_Config,
    pub film_grain_params_present: u8,
}

impl View for OBU_Sequence_Header {
    type V = SequenceHeaderView;

    open spec fn view(&self) -> SequenceHeaderView {
        SequenceHeaderView {
            seq_profile: self.seq_profile,
            still_picture: self.still_picture,
            reduced_still_picture_header: self.reduced_still_picture_header,
            timing_info: self.timing_info,
            decoder_model_info: self.decoder_model_info,
            operating_points: self.operating_points@,
            c_operating_point_idc: self.c_operating_point_idc,
            frame_width_bits_minus_1: self.frame_width_bits_minus_1,
            frame_height_bits_minus_1: self.frame_height_bits_minus_1,
            max_frame_width_minus_one: self.max_frame_width_minus_one,
            max_frame_height_minus_one: self.max_frame_height_minus_one,
            delta_frame_id_length_minus_2: self.delta_frame_id_length_minus_2,
            additional_frame_id_length_minus_1: self.additional_frame_id_length_minus_1,
            use_128x128_superblock: self.use_128x128_superblock,
            enable_filter_intra: self.enable_filter_intra,
            enable_intra_edge_filter: self.enable_intra_edge_filter,
            enable_interintra_compound: self.enable_interintra_compound,
            enable_masked_compound: self.enable_masked_compound,
            enable_warped_motion: self.enable_warped_motion,
            enable_dual_filter: self.enable_dual_filter,
            enable_order_hint: self.enable_order_hint,
            enable_jnt_comp: self.enable_jnt_comp,
            enable_ref_frame_mvs: self.enable_ref_frame_mvs,
            seq_force_screen_content_tools: self.seq_force_screen_content_tools,
            seq_force_integer_mv: self.seq_force_integer_mv,
            order_hint_bits: self.order_hint_bits,
            enable_superres: self.enable_superres,
            enable_cdef: self.enable_cdef,
            enable_restoration: self.enable_restoration,
            color_config: self.color_config,
            film_grain_params_present: self.film_grain_params_present,
        }
    }
}

/// The single implicit operating point of a reduced still-picture header:
/// full stream, the level read from the stream, tier 0, and no
/// decoder-model or display-delay data.
pub open spec fn reduced_op_point(seq_level_idx: u8) -> OperatingPoint {
    OperatingPoint {
        operating_point_idc: 0,
        seq_level_idx,
        seq_tier: 0,
        decoder_model_present_for_this_op: 0,
        operating_parameters_info: None,
        initial_display_delay_present_for_this_op: 0,
        initial_display_delay_minus_1: None,
    }
}

/// The sequence header from the feature-flag section onward: three base
/// flag bits, the polarity-gated extended block, three more enable bits,
/// the color config, and the film-grain flag.  The chosen operating point
/// defaults to index 0, which always exists.
#[verifier::opaque]
pub open spec fn seq_header_flags_tail_spec(
    b: Seq<u8>,
    pos: nat,
    seq_profile: u8,
    still_picture: u8,
    reduced: u8,
    timing_info: Option<Timing_Info>,
    decoder_model_info: Option<Decoder_Model_Info>,
    ops: Seq<OperatingPoint>,
    frame_width_bits_minus_1: u8,
    frame_height_bits_minus_1: u8,
    max_frame_width_minus_one: u16,
    max_frame_height_minus_one: u16,
    delta_frame_id_length_minus_2: Option<u8>,
    additional_frame_id_length_minus_1: Option<u8>,
    gate: FeatureFlagPolarity,
) -> Result<(SequenceHeaderView, nat), ParseError> {
    match read_bit_spec(b, pos) {
        Err(e) => Err(e),
        Ok((use_128, p1)) => match read_bit_spec(b, p1) {
            Err(e) => Err(e),
            Ok((filter_intra, p2)) => match read_bit_spec(b, p2) {
                Err(e) => Err(e),
                Ok((intra_edge, p3)) => {
                    let read_block: bool = match gate {
                        FeatureFlagPolarity::GeneralHeader => reduced == 0,
                        FeatureFlagPolarity::ReducedHeader => reduced != 0,
                    };
                    let ff_res: Result<(FeatureFlags, nat), ParseError> = if read_block {
                        feature_flags_spec(b, p3)
                    } else {
                        Ok((default_feature_flags(), p3))
                    };
                    match ff_res {
                        Err(e) => Err(e),
                        Ok((ff, p4)) => match read_bit_spec(b, p4) {
                            Err(e) => Err(e),
                            Ok((superres, p5)) => match read_bit_spec(b, p5) {
                                Err(e) => Err(e),
                                Ok((cdef, p6)) => match read_bit_spec(b, p6) {
                                    Err(e) => Err(e),
                                    Ok((restoration, p7)) => match color_config_spec(
                                        b,
                                        p7,
                                        seq_profile,
                                    ) {
                                        Err(e) => Err(e),
                                        Ok((cc, p8)) => match read_bit_spec(b, p8) {
                                            Err(e) => Err(e),
                                            Ok((film_grain, p9)) => Ok(
                                                (
                                                    SequenceHeaderView {
                                                        seq_profile,
                                                        still_picture,
                                                        reduced_still_picture_header: reduced,
                                                        timing_info,
                                                        decoder_model_info,
                                                        operating_points: ops,
                                                        c_operating_point_idc:
                                                            ops[0].operating_point_idc,
                                                        frame_width_bits_minus_1,
                                                        frame_height_bits_minus_1,
                                                        max_frame_width_minus_one,
                                                        max_frame_height_minus_one,
                                                        delta_frame_id_length_minus_2,
                                                        additional_frame_id_length_minus_1,
                                                        use_128x128_superblock: use_128,
                                                        enable_filter_intra: filter_intra,
                                                        enable_intra_edge_filter: intra_edge,
                                                        enable_interintra_compound:
                                                            ff.enable_interintra_compound,
                                                        enable_masked_compound:
                                                            ff.enable_masked_compound,
                                                        enable_warped_motion:
                                                            ff.enable_warped_motion,
                                                        enable_dual_filter: ff.enable_dual_filter,
                                                        enable_order_hint: ff.enable_order_hint,
                                                        enable_jnt_comp: ff.enable_jnt_comp,
                                                        enable_ref_frame_mvs:
                                                            ff.enable_ref_frame_mvs,
                                                        seq_force_screen_content_tools:
                                                            ff.seq_force_screen_content_tools,
                                                        seq_force_integer_mv:
                                                            ff.seq_force_integer_mv,
                                                        order_hint_bits: ff.order_hint_bits,
                                                        enable_superres: superres,
                                                        enable_cdef: cdef,
                                                        enable_restoration: restoration,
                                                        color_config: cc,
                                                        film_grain_params_present: film_grain,
                                                    },
                                                    p9,
                                                ),
                                            ),
                                        },
                                    },
                                },
                            },
                        },
                    }
                },
            },
        },
    }
}

/// The sequence header from the frame-size section onward: two 4-bit width
/// specifiers, the self-describing max frame dimensions, the optional
/// frame-ID length fields (never present in a reduced header), then the
/// flag section.
#[verifier::opaque]
pub open spec fn seq_header_size_tail_spec(
    b: Seq<u8>,
    pos: nat,
    seq_profile: u8,
    still_picture: u8,
    reduced: u8,
    timing_info: Option<Timing_Info>,
    decoder_model_info: Option<Decoder_Model_Info>,
    ops: Seq<OperatingPoint>,
    gate: FeatureFlagPolarity,
) -> Result<(SequenceHeaderView, nat), ParseError> {
    match read_bits_spec(b, pos, 4) {
        Err(e) => Err(e),
        Ok((fwb, p1)) => match read_bits_spec(b, p1, 4) {
            Err(e) => Err(e),
            Ok((fhb, p2)) => match read_bits_spec(b, p2, (fwb + 1) as nat) {
                Err(e) => Err(e),
                Ok((w, p3)) => match read_bits_spec(b, p3, (fhb + 1) as nat) {
                    Err(e) => Err(e),
                    Ok((h, p4)) => {
                        let fid_res: Result<((Option<u8>, Option<u8>), nat), ParseError> = if reduced
                            == 0 {
                            match read_bit_spec(b, p4) {
                                Err(e) => Err(e),
                                Ok((fid, p5)) => if fid != 0 {
                                    match read_bits_spec(b, p5, 4) {
                                        Err(e) => Err(e),
                                        Ok((d, p6)) => match read_bits_spec(b, p6, 3) {
                                            Err(e) => Err(e),
                                            Ok((a, p7)) => Ok(
                                                ((Some(d as u8), Some(a as u8)), p7),
                                            ),
                                        },
                                    }
                                } else {
                                    Ok(((None, None), p5))
                                },
                            }
                        } else {
                            Ok(((None, None), p4))
                        };
                        match fid_res {
                            Err(e) => Err(e),
                            Ok(((delta, additional), p7)) => seq_header_flags_tail_spec(
                                b,
                                p7,
                                seq_profile,
                                still_picture,
                                reduced,
                                timing_info,
                                decoder_model_info,
                                ops,
                                fwb as u8,
                                fhb as u8,
                                w as u16,
                                h as u16,
                                delta,
                                additional,
                                gate,
                            ),
                        }
                    },
                },
            },
        },
    }
}

/// What decoding a whole Sequence Header OBU payload at `pos` yields,
/// parsed strictly in grammar order: profile and picture flags, then either
/// the reduced path with its one implicit operating point or the general
/// path with timing, decoder-model and display-delay metadata and an
/// explicit operating-point list, then frame sizes, feature flags and the
/// color config.
#[verifier::opaque]
pub open spec fn seq_header_spec(b: Seq<u8>, pos: nat, gate: FeatureFlagPolarity) -> Result<
    (SequenceHeaderView, nat),
    ParseError,
> {
    match read_bits_spec(b, pos, 3) {
        Err(e) => Err(e),
        Ok((profile, p1)) => match read_bit_spec(b, p1) {
            Err(e) => Err(e),
            Ok((still, p2)) => match read_bit_spec(b, p2) {
                Err(e) => Err(e),
                Ok((reduced, p3)) => if reduced == 1 {
                    match read_bits_spec(b, p3, 5) {
                        Err(e) => Err(e),
                        Ok((lvl, p4)) => seq_header_size_tail_spec(
                            b,
                            p4,
                            profile as u8,
                            still,
                            reduced,
                            None,
                            None,
                            seq![reduced_op_point(lvl as u8)],
                            gate,
                        ),
                    }
                } else {
                    seq_header_general_spec(b, p3, profile as u8, still, reduced, gate)
                },
            },
        },
    }
}

/// The general (non-reduced) sequence header path: timing info and
/// decoder-model info behind their presence flags, the display-delay
/// presence flag, the operating-point count, the operating-point records,
/// then the frame-size section.
#[verifier::opaque]
pub open spec fn seq_header_general_spec(
    b: Seq<u8>,
    pos: nat,
    seq_profile: u8,
    still_picture: u8,
    reduced: u8,
    gate: FeatureFlagPolarity,
) -> Result<(SequenceHeaderView, nat), ParseError> {
    match read_bit_spec(b, pos) {
        Err(e) => Err(e),
        Ok((timing_flag, p4)) => {
            let timing_res: Result<(Option<Timing_Info>, nat), ParseError> = if timing_flag == 1 {
                match timing_info_spec(b, p4) {
                    Err(e) => Err(e),
                    Ok((ti, p5)) => Ok((Some(ti), p5)),
                }
            } else {
                Ok((None, p4))
            };
            match timing_res {
                Err(e) => Err(e),
                Ok((timing, p5)) => {
                    let dmf_res: Result<(u8, nat), ParseError> = if timing_flag == 1 {
                        read_bit_spec(b, p5)
                    } else {
                        Ok((0u8, p5))
                    };
                    match dmf_res {
                        Err(e) => Err(e),
                        Ok((dmf, p6)) => {
                            let dmi_res: Result<(Option<Decoder_Model_Info>, nat), ParseError> = if dmf
                                != 0 {
                                match decoder_model_info_spec(b, p6) {
                                    Err(e) => Err(e),
                                    Ok((d, p7)) => Ok((Some(d), p7)),
                                }
                            } else {
                                Ok((None, p6))
                            };
                            match dmi_res {
                                Err(e) => Err(e),
                                Ok((dmi, p7)) => match read_bit_spec(b, p7) {
                                    Err(e) => Err(e),
                                    Ok((idd_flag, p8)) => match read_bits_spec(b, p8, 5) {
                                        Err(e) => Err(e),
                                        Ok((cnt, p9)) => match op_points_spec(
                                            b,
                                            p9,
                                            (cnt + 1) as nat,
                                            dmi,
                                            idd_flag != 0,
                                        ) {
                                            Err(e) => Err(e),
                                            Ok((ops, p10)) => seq_header_size_tail_spec(
                                                b,
                                                p10,
                                                seq_profile,
                                                still_picture,
                                                reduced,
                                                timing,
                                                dmi,
                                                ops,
                                                gate,
                                            ),
                                        },
                                    },
                                },
                            }
                        },
                    }
                },
            }
        },
    }
}

/// Decode the sequence header from the feature-flag section onward.
#[verifier::rlimit(100)]
fn parse_flags_tail(
    r: &mut BitCursor,
    seq_profile: u8,
    still_picture: u8,
    reduced: u8,
    timing_info: Option<Timing_Info>,
    decoder_model_info: Option<Decoder_Model_Info>,
    ops: Vec<OperatingPoint>,
    frame_width_bits_minus_1: u8,
    frame_height_bits_minus_1: u8,
    max_frame_width_minus_one: u16,
    max_frame_height_minus_one: u16,
    delta_frame_id_length_minus_2: Option<u8>,
    additional_frame_id_length_minus_1: Option<u8>,
    gate: FeatureFlagPolarity,
) -> (res: Result<OBU_Sequence_Header, ParseError>)
    requires
        old(r).wf(),
        ops@.len() >= 1,
    ensures
        final(r).wf(),
        final(r).data() == old(r).data(),
        old(r).bit_pos() <= final(r).bit_pos(),
        match res {
            Ok(h) => seq_header_flags_tail_spec(
                old(r).data(),
                old(r).bit_pos(),
                seq_profile,
                still_picture,
                reduced,
                timing_info,
                decoder_model_info,
                ops@,
                frame_width_bits_minus_1,
                frame_height_bits_minus_1,
                max_frame_width_minus_one,
                max_frame_height_minus_one,
                delta_frame_id_length_minus_2,
                additional_frame_id_length_minus_1,
                gate,
            ) == Ok::<(SequenceHeaderView, nat), ParseError>((h@, final(r).bit_pos()))
                && h.operating_points@ == ops@,
            Err(e) => seq_header_flags_tail_spec(
                old(r).data(),
                old(r).bit_pos(),
                seq_profile,
                still_picture,
                reduced,
                timing_info,
                decoder_model_info,
                ops@,
                frame_width_bits_minus_1,
                frame_height_bits_minus_1,
                max_frame_width_minus_one,
                max_frame_height_minus_one,
                delta_frame_id_length_minus_2,
                additional_frame_id_length_minus_1,
                gate,
            ) == Err::<(SequenceHeaderView, nat), ParseError>(e),
        },
{
    proof {
        reveal(seq_header_flags_tail_spec);
    }
    let use_128x128_superblock = match r.read_bit() {
        Ok(v) => v,
        Err(e) => {
            return Err(e);
        },
    };
    let enable_filter_intra = match r.read_bit() {
        Ok(v) => v,
        Err(e) => {
            return Err(e);
        },
    };
    let enable_intra_edge_filter = match r.read_bit() {
        Ok(v) => v,
        Err(e) => {
            return Err(e);
        },
    };
    let read_block: bool = match gate {
        FeatureFlagPolarity::GeneralHeader => reduced == 0,
        FeatureFlagPolarity::ReducedHeader => reduced != 0,
    };
    let ff: FeatureFlags = if read_block {
        match FeatureFlags::from_reader(r) {
            Ok(v) => v,
            Err(e) => {
                return Err(e);
            },
        }
    } else {
        FeatureFlags {
            enable_interintra_compound: 0,
            enable_masked_compound: 0,
            enable_warped_motion: 0,
            enable_dual_filter: 0,
            enable_order_hint: 0,
            enable_jnt_comp: 0,
            enable_ref_frame_mvs: 0,
            seq_force_screen_content_tools: SELECT_SCREEN_CONTENT_TOOLS,
            seq_force_integer_mv: SELECT_INTEGER_MV,
            order_hint_bits: 0,
        }
    };
    let enable_superres = match r.read_bit() {
        Ok(v) => v,
        Err(e) => {
            return Err(e);
        },
    };
    let enable_cdef = match r.read_bit() {
        Ok(v) => v,
        Err(e) => {
            return Err(e);
        },
    };
    let enable_restoration = match r.read_bit() {
        Ok(v) => v,
        Err(e) => {
            return Err(e);
        },
    };
    let color_config = match Color_Config::from_reader(r, seq_profile) {
        Ok(v) => v,
        Err(e) => {
            return Err(e);
        },
    };
    let film_grain_params_present = match r.read_bit() {
        Ok(v) => v,
        Err(e) => {
            return Err(e);
        },
    };
    let c_operating_point_idc = ops[0].operating_point_idc;
    Ok(OBU_Sequence_Header {
        seq_profile,
        still_picture,
        reduced_still_picture_header: reduced,
        timing_info,
        decoder_model_info,
        operating_points: ops,
        c_operating_point_idc,
        frame_width_bits_minus_1,
        frame_height_bits_minus_1,
        max_frame_width_minus_one,
        max_frame_height_minus_one,
        delta_frame_id_length_minus_2,
        additional_frame_id_length_minus_1,
        use_128x128_superblock,
        enable_filter_intra,
        enable_intra_edge_filter,
        enable_interintra_compound: ff.enable_interintra_compound,
        enable_masked_compound: ff.enable_masked_compound,
        enable_warped_motion: ff.enable_warped_motion,
        enable_dual_filter: ff.enable_dual_filter,
        enable_order_hint: ff.enable_order_hint,
        enable_jnt_comp: ff.enable_jnt_comp,
        enable_ref_frame_mvs: ff.enable_ref_frame_mvs,
        seq_force_screen_content_tools: ff.seq_force_screen_content_tools,
        seq_force_integer_mv: ff.seq_force_integer_mv,
        order_hint_bits: ff.order_hint_bits,
        enable_superres,
        enable_cdef,
        enable_restoration,
        color_config,
        film_grain_params_present,
    })
}

/// Decode the sequence header from the frame-size section onward.
#[verifier::rlimit(100)]
fn parse_size_tail(
    r: &mut BitCursor,
    seq_profile: u8,
    still_picture: u8,
    reduced: u8,
    timing_info: Option<Timing_Info>,
    decoder_model_info: Option<Decoder_Model_Info>,
    ops: Vec<OperatingPoint>,
    gate: FeatureFlagPolarity,
) -> (res: Result<OBU_Sequence_Header, ParseError>)
    requires
        old(r).wf(),
        ops@.len() >= 1,
    ensures
        final(r).wf(),
        final(r).data() == old(r).data(),
        old(r).bit_pos() <= final(r).bit_pos(),
        match res {
            Ok(h) => seq_header_size_tail_spec(
                old(r).data(),
                old(r).bit_pos(),
                seq_profile,
                still_picture,
                reduced,
                timing_info,
                decoder_model_info,
                ops@,
                gate,
            ) == Ok::<(SequenceHeaderView, nat), ParseError>((h@, final(r).bit_pos()))
                && h.operating_points@ == ops@,
            Err(e) => seq_header_size_tail_spec(
                old(r).data(),
                old(r).bit_pos(),
                seq_profile,
                still_picture,
                reduced,
                timing_info,
                decoder_model_info,
                ops@,
                gate,
            ) == Err::<(SequenceHeaderView, nat), ParseError>(e),
        },
{
    proof {
        reveal(seq_header_size_tail_spec);
    }
    let ghost b = r.data();
    let ghost pos0 = r.bit_pos();
    let fwb = match r.read_bits(4) {
        Ok(v) => v,
        Err(e) => {
            return Err(e);
        },
    };
    proof {
        lemma_bits_value_bound(b, pos0, 4);
        lemma2_to64();
    }
    let ghost pmark = r.bit_pos();
    let fhb = match r.read_bits(4) {
        Ok(v) => v,
        Err(e) => {
            return Err(e);
        },
    };
    proof {
        lemma_bits_value_bound(b, pmark, 4);
        lemma2_to64();
    }
    let max_frame_width_minus_one = match r.read_bits(fwb as usize + 1) {
        Ok(v) => v,
        Err(e) => {
            return Err(e);
        },
    };
    let max_frame_height_minus_one = match r.read_bits(fhb as usize + 1) {
        Ok(v) => v,
        Err(e) => {
            return Err(e);
        },
    };
    let mut delta_frame_id_length_minus_2: Option<u8> = None;
    let mut additional_frame_id_length_minus_1: Option<u8> = None;
    if reduced == 0 {
        let fid = match r.read_bit() {
            Ok(v) => v,
            Err(e) => {
                return Err(e);
            },
        };
        if fid != 0 {
            delta_frame_id_length_minus_2 = match r.read_bits(4) {
                Ok(v) => Some(v as u8),
                Err(e) => {
                    return Err(e);
                },
            };
            additional_frame_id_length_minus_1 = match r.read_bits(3) {
                Ok(v) => Some(v as u8),
                Err(e) => {
                    return Err(e);
                },
            };
        }
    }
    parse_flags_tail(
        r,
        seq_profile,
        still_picture,
        reduced,
        timing_info,
        decoder_model_info,
        ops,
        fwb as u8,
        fhb as u8,
        max_frame_width_minus_one as u16,
        max_frame_height_minus_one as u16,
        delta_frame_id_length_minus_2,
        additional_frame_id_length_minus_1,
        gate,
    )
}

/// A decoded operating-point sequence has exactly the requested length.
proof fn lemma_op_points_len(
    b: Seq<u8>,
    pos: nat,
    count: nat,
    dmi: Option<Decoder_Model_Info>,
    idd_present: bool,
    ops: Seq<OperatingPoint>,
    end: nat,
)
    requires
        op_points_spec(b, pos, count, dmi, idd_present) == Ok::<
            (Seq<OperatingPoint>, nat),
            ParseError,
        >((ops, end)),
    ensures
        ops.len() == count,
    decreases count,
{
    reveal(op_points_spec);
    if count > 0 {
        match op_point_spec(b, pos, dmi, idd_present) {
            Ok(pr) => {
                match op_points_spec(b, pr.1, (count - 1) as nat, dmi, idd_present) {
                    Ok(rr) => {
                        lemma_op_points_len(
                            b,
                            pr.1,
                            (count - 1) as nat,
                            dmi,
                            idd_present,
                            rr.0,
                            rr.1,
                        );
                    },
                    Err(_) => {},
                }
            },
            Err(_) => {},
        }
    }
}

impl OBU_Sequence_Header {
    /// Decode one whole Sequence Header OBU payload from the cursor, in
    /// strict grammar order.  The chosen operating point starts at index 0;
    /// `select_operating_point` applies the caller's policy afterwards,
    /// which changes no bit position.
    #[verifier::rlimit(100)]
    pub fn sequence_header_obu(r: &mut BitCursor, gate: FeatureFlagPolarity) -> (res: Result<
        OBU_Sequence_Header,
        ParseError,
    >)
        requires
            old(r).wf(),
        ensures
            final(r).wf(),
            final(r).data() == old(r).data(),
            old(r).bit_pos() <= final(r).bit_pos(),
            match res {
                Ok(h) => seq_header_spec(old(r).data(), old(r).bit_pos(), gate) == Ok::<
                    (SequenceHeaderView, nat),
                    ParseError,
                >((h@, final(r).bit_pos())) && h.operating_points@.len() >= 1,
                Err(e) => seq_header_spec(old(r).data(), old(r).bit_pos(), gate) == Err::<
                    (SequenceHeaderView, nat),
                    ParseError,
                >(e),
            },
    {
        proof {
            reveal(seq_header_spec);
        }
        let ghost b = r.data();
        let profile = match r.read_bits(3) {
            Ok(v) => v,
            Err(e) => {
                return Err(e);
            },
        };
        let seq_profile = profile as u8;
        let still_picture = match r.read_bit() {
            Ok(v) => v,
            Err(e) => {
                return Err(e);
            },
        };
        let reduced = match r.read_bit() {
            Ok(v) => v,
            Err(e) => {
                return Err(e);
            },
        };
        if reduced == 1 {
            let ghost pmark = r.bit_pos();
            let lvl = match r.read_bits(5) {
                Ok(v) => v,
                Err(e) => {
                    return Err(e);
                },
            };
            let mut ops: Vec<OperatingPoint> = Vec::new();
            ops.push(OperatingPoint {
                operating_point_idc: 0,
                seq_level_idx: lvl as u8,
                seq_tier: 0,
                decoder_model_present_for_this_op: 0,
                operating_parameters_info: None,
                initial_display_delay_present_for_this_op: 0,
                initial_display_delay_minus_1: None,
            });
            proof {
                assert(ops@ =~= seq![reduced_op_point((bits_value(b, pmark, 5) as u8))]);
            }
            parse_size_tail(
                r,
                seq_profile,
                still_picture,
                reduced,
                None,
                None,
                ops,
                gate,
            )
        } else {
            OBU_Sequence_Header::parse_general(r, seq_profile, still_picture, reduced, gate)
        }
    }

    /// Decode the general (non-reduced) sequence header path.
    #[verifier::rlimit(100)]
    fn parse_general(
        r: &mut BitCursor,
        seq_profile: u8,
        still_picture: u8,
        reduced: u8,
        gate: FeatureFlagPolarity,
    ) -> (res: Result<OBU_Sequence_Header, ParseError>)
        requires
            old(r).wf(),
        ensures
            final(r).wf(),
            final(r).data() == old(r).data(),
            old(r).bit_pos() <= final(r).bit_pos(),
            match res {
                Ok(h) => seq_header_general_spec(
                    old(r).data(),
                    old(r).bit_pos(),
                    seq_profile,
                    still_picture,
                    reduced,
                    gate,
                ) == Ok::<(SequenceHeaderView, nat), ParseError>((h@, final(r).bit_pos()))
                    && h.operating_points@.len() >= 1,
                Err(e) => seq_header_general_spec(
                    old(r).data(),
                    old(r).bit_pos(),
                    seq_profile,
                    still_picture,
                    reduced,
                    gate,
                ) == Err::<(SequenceHeaderView, nat), ParseError>(e),
            },
    {
        proof {
            reveal(seq_header_general_spec);
        }
        let ghost b = r.data();
        let timing_flag = match r.read_bit() {
            Ok(v) => v,
            Err(e) => {
                return Err(e);
            },
        };
        let timing_info: Option<Timing_Info> = if timing_flag == 1 {
            match Timing_Info::from_reader(r) {
                Ok(v) => Some(v),
                Err(e) => {
                    return Err(e);
                },
            }
        } else {
            None
        };
        let dmf: u8 = if timing_flag == 1 {
            match r.read_bit() {
                Ok(v) => v,
                Err(e) => {
                    return Err(e);
                },
            }
        } else {
            0
        };
        let decoder_model_info: Option<Decoder_Model_Info> = if dmf != 0 {
            match Decoder_Model_Info::from_reader(r) {
                Ok(v) => Some(v),
                Err(e) => {
                    return Err(e);
                },
            }
        } else {
            None
        };
        let idd_flag = match r.read_bit() {
            Ok(v) => v,
            Err(e) => {
                return Err(e);
            },
        };
        let ghost pmark = r.bit_pos();
        let cnt = match r.read_bits(5) {
            Ok(v) => v,
            Err(e) => {
                return Err(e);
            },
        };
        proof {
            lemma_bits_value_bound(b, pmark, 5);
            lemma2_to64();
        }
        let count: usize = cnt as usize + 1;
        let ghost opos = r.bit_pos();
        let ops = match parse_operating_points(r, count, decoder_model_info, idd_flag != 0) {
            Ok(v) => v,
            Err(e) => {
                return Err(e);
            },
        };
        proof {
            lemma_op_points_len(
                b,
                opos,
                count as nat,
                decoder_model_info,
                idd_flag != 0,
                ops@,
                r.bit_pos(),
            );
            assert(seq_header_general_spec(
                b,
                old(r).bit_pos(),
                seq_profile,
                still_picture,
                reduced,
                gate,
            ) == seq_header_size_tail_spec(
                b,
                r.bit_pos(),
                seq_profile,
                still_picture,
                reduced,
                timing_info,
                decoder_model_info,
                ops@,
                gate,
            ));
        }
        parse_size_tail(
            r,
            seq_profile,
            still_picture,
            reduced,
            timing_info,
            decoder_model_info,
            ops,
            gate,
        )
    }

    /// Apply the operating-point choice of the caller's policy: record the
    /// chosen point's layer bitmask, after validating that the index names
    /// a declared point.  No bit positions change; the bitstream beyond the
    /// operating-point list is layer-agnostic.
    pub fn select_operating_point(&mut self, index: usize) -> (res: Result<(), ParseError>)
        ensures
            match res {
                Ok(_) => index < old(self).operating_points@.len() && final(self)@ == (
                SequenceHeaderView {
                    c_operating_point_idc:
                        old(self).operating_points@[index as int].operating_point_idc,
                    ..old(self)@
                }),
                Err(e) => e == ParseError::InvariantViolation && index
                    >= old(self).operating_points@.len() && final(self)@ == old(self)@,
            },
    {
        if index < self.operating_points.len() {
            let idc = self.operating_points[index].operating_point_idc;
            self.c_operating_point_idc = idc;
            Ok(())
        } else {
            Err(ParseError::InvariantViolation)
        }
    }
}

/// Reduced still-picture path: a successfully parsed header whose reduced
/// flag is set has exactly one operating point, with tier 0, the full
/// stream's layer bitmask, and no decoder-model or display-delay data; the
/// timing and decoder-model structures are absent as well.
pub proof fn lemma_reduced_header_single_operating_point(
    b: Seq<u8>,
    pos: nat,
    gate: FeatureFlagPolarity,
    h: SequenceHeaderView,
    end: nat,
)
    requires
        seq_header_spec(b, pos, gate) == Ok::<(SequenceHeaderView, nat), ParseError>((h, end)),
        h.reduced_still_picture_header == 1,
    ensures
        h.operating_points.len() == 1,
        h.operating_points[0].operating_point_idc == 0,
        h.operating_points[0].seq_tier == 0,
        h.operating_points[0].decoder_model_present_for_this_op == 0,
        h.operating_points[0].operating_parameters_info is None,
        h.operating_points[0].initial_display_delay_present_for_this_op == 0,
        h.operating_points[0].initial_display_delay_minus_1 is None,
        h.timing_info is None,
        h.decoder_model_info is None,
        h.c_operating_point_idc == 0,
{
    reveal(seq_header_spec);
    reveal(seq_header_general_spec);
    reveal(seq_header_size_tail_spec);
    reveal(seq_header_flags_tail_spec);
}

} // verus!
