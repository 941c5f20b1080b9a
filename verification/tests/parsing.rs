use av1_obu::ParseError;
use av1_obu::bits::BitCursor;
use av1_obu::varint::{leb_128, uvlc};
use av1_obu::consts::{
    CHROMA_SAMPLE_POSITION, COLOR_PRIMARIES, MATRIX_COEFFICIENTS, OBU_TYPE,
    SELECT_INTEGER_MV, SELECT_SCREEN_CONTENT_TOOLS, TRANSFER_CHARACTERISTICS,
};
use av1_obu::color::Color_Config;
use av1_obu::sequence_header::{
    Decoder_Model_Info, FeatureFlagPolarity, OBU_Sequence_Header, Operating_Parameters_Info,
    Timing_Info,
};
use av1_obu::obu::{
    FixedOperatingPointSelector, OBU, OBU_Extension_Header, OBU_Header, obu_is_included,
};

/// Builds a byte buffer from MSB-first bit runs.
struct Bits {
    bytes: Vec<u8>,
    nbits: usize,
}

impl Bits {
    fn new() -> Self {
        Bits { bytes: Vec::new(), nbits: 0 }
    }

    fn push(&mut self, value: u64, n: usize) -> &mut Self {
        for i in (0..n).rev() {
            let bit = ((value >> i) & 1) as u8;
            if self.nbits % 8 == 0 {
                self.bytes.push(0);
            }
            let idx = self.nbits / 8;
            self.bytes[idx] |= bit << (7 - (self.nbits % 8));
            self.nbits += 1;
        }
        self
    }

    fn into_vec(self) -> Vec<u8> {
        self.bytes
    }
}

fn cursor(bytes: &[u8]) -> BitCursor {
    BitCursor::new(bytes.to_vec())
}

// ---------------------------------------------------------------- BitCursor

#[test]
fn bit_cursor_reads_msb_first() {
    let mut r = cursor(&[0b1010_1100, 0xFF]);
    assert_eq!(r.read_bits(4), Ok(0b1010));
    assert_eq!(r.read_bits(4), Ok(0b1100));
    assert_eq!(r.read_bits(8), Ok(0xFF));
    assert_eq!(r.bits_consumed(), 16);
}

#[test]
fn bit_cursor_eof_consumes_nothing() {
    let mut r = cursor(&[0xAB]);
    assert_eq!(r.read_bits(4), Ok(0xA));
    assert_eq!(r.read_bits(8), Err(ParseError::UnexpectedEof));
    assert_eq!(r.bits_consumed(), 4);
    assert_eq!(r.read_bits(4), Ok(0xB));
}

#[test]
fn bit_cursor_skip_bits() {
    let mut r = cursor(&[0x00, 0b0100_0000]);
    assert_eq!(r.skip_bits(9), Ok(()));
    assert_eq!(r.read_bit(), Ok(1));
    assert_eq!(r.skip_bits(7), Err(ParseError::UnexpectedEof));
    assert_eq!(r.bits_consumed(), 10);
}

// ------------------------------------------------------------------ LEB128

#[test]
fn leb128_decodes_single_byte() {
    let mut r = cursor(&[0x2A]);
    let v = leb_128::from_reader(&mut r).unwrap();
    assert_eq!(v.value, 42);
    assert_eq!(v.bytes_consumed, 1);
}

#[test]
fn leb128_decodes_multibyte() {
    let mut r = cursor(&[0xE5, 0x8E, 0x26]);
    let v = leb_128::from_reader(&mut r).unwrap();
    assert_eq!(v.value, 624485);
    assert_eq!(v.bytes_consumed, 3);
}

#[test]
fn leb128_encode_canonical() {
    assert_eq!(leb_128::encode(0), vec![0x00]);
    assert_eq!(leb_128::encode(127), vec![0x7F]);
    assert_eq!(leb_128::encode(128), vec![0x80, 0x01]);
    assert_eq!(leb_128::encode(624485), vec![0xE5, 0x8E, 0x26]);
}

#[test]
fn leb128_round_trip() {
    for &v in &[
        0u64,
        1,
        127,
        128,
        300,
        16384,
        u32::MAX as u64,
        (1u64 << 56) - 1,
    ] {
        let enc = leb_128::encode(v);
        let mut r = cursor(&enc);
        let dec = leb_128::from_reader(&mut r).unwrap();
        assert_eq!(dec.value, v);
        assert_eq!(dec.bytes_consumed as usize, enc.len());
    }
}

#[test]
fn leb128_rejects_overlong() {
    let mut r = cursor(&[0x80, 0x80, 0x80, 0x80, 0x80, 0x80, 0x80, 0x80, 0x01]);
    assert_eq!(leb_128::from_reader(&mut r), Err(ParseError::TruncatedVarint));
}

#[test]
fn leb128_rejects_nine_group_encoding() {
    // 2^56 needs 9 groups; the decoder gives up after 8 unterminated ones.
    let enc = leb_128::encode(1u64 << 56);
    assert_eq!(enc.len(), 9);
    let mut r = cursor(&enc);
    assert_eq!(leb_128::from_reader(&mut r), Err(ParseError::TruncatedVarint));
}

#[test]
fn leb128_eof() {
    let mut r = cursor(&[0x80]);
    assert_eq!(leb_128::from_reader(&mut r), Err(ParseError::UnexpectedEof));
}

#[test]
fn leb128_new_consumes_nothing() {
    let v = leb_128::new(7777);
    assert_eq!(v.value, 7777);
    assert_eq!(v.bytes_consumed, 0);
}

// -------------------------------------------------------------------- UVLC

#[test]
fn uvlc_single_one_decodes_zero() {
    let mut r = cursor(&[0b1000_0000]);
    assert_eq!(uvlc::from_reader(&mut r).unwrap().value, 0);
    assert_eq!(r.bits_consumed(), 1);
}

#[test]
fn uvlc_one_leading_zero() {
    // 0 1 1: one leading zero, terminator, suffix bit 1 -> value 1.
    let mut r = cursor(&[0b0110_0000]);
    assert_eq!(uvlc::from_reader(&mut r).unwrap().value, 1);
    assert_eq!(r.bits_consumed(), 3);
}

#[test]
fn uvlc_suffix_is_the_value() {
    // 00 1 10: two leading zeros, terminator, suffix 0b10 -> value 2.
    let mut r = cursor(&[0b0011_0000]);
    assert_eq!(uvlc::from_reader(&mut r).unwrap().value, 2);
    assert_eq!(r.bits_consumed(), 5);
}

#[test]
fn uvlc_saturates_after_32_zeros() {
    // Exactly 32 zero bits and nothing else: no terminator is needed.
    let mut r = cursor(&[0x00, 0x00, 0x00, 0x00]);
    assert_eq!(uvlc::from_reader(&mut r).unwrap().value, u32::MAX);
    assert_eq!(r.bits_consumed(), 32);
}

#[test]
fn uvlc_eof_in_prefix() {
    let mut r = cursor(&[]);
    assert_eq!(uvlc::from_reader(&mut r), Err(ParseError::UnexpectedEof));
}

#[test]
fn uvlc_new_wraps_value() {
    assert_eq!(uvlc::new(9).value, 9);
}

// --------------------------------------------------------------- OBU_TYPE

#[test]
fn obu_type_codes() {
    assert_eq!(OBU_TYPE::OBU_SEQUENCE_HEADER.code(), 1);
    assert_eq!(OBU_TYPE::OBU_TEMPORAL_DELIMITER.code(), 2);
    assert_eq!(OBU_TYPE::OBU_PADDING.code(), 15);
}

#[test]
fn obu_type_from_reader_round_trip() {
    for t in [
        OBU_TYPE::OBU_SEQUENCE_HEADER,
        OBU_TYPE::OBU_TEMPORAL_DELIMITER,
        OBU_TYPE::OBU_FRAME_HEADER,
        OBU_TYPE::OBU_TILE_GROUP,
        OBU_TYPE::OBU_METADATA,
        OBU_TYPE::OBU_FRAME,
        OBU_TYPE::OBU_REDUNDANT_FRAME_HEADER,
        OBU_TYPE::OBU_TILE_LIST,
        OBU_TYPE::OBU_PADDING,
    ] {
        let mut b = Bits::new();
        b.push(t.code() as u64, 4);
        let mut r = cursor(&b.into_vec());
        assert_eq!(OBU_TYPE::from_reader(&mut r), Ok(t));
    }
}

#[test]
fn obu_type_reserved_codes_fail() {
    for code in [0u64, 9, 10, 14] {
        let mut b = Bits::new();
        b.push(code, 4);
        let mut r = cursor(&b.into_vec());
        assert_eq!(OBU_TYPE::from_reader(&mut r), Err(ParseError::MalformedFraming));
    }
}

// ------------------------------------------------------------- code tables

#[test]
fn color_primaries_known_and_reserved() {
    let mut r = cursor(&[22]);
    assert_eq!(
        COLOR_PRIMARIES::from_reader(&mut r),
        Ok(COLOR_PRIMARIES::CP_EBU_3213)
    );
    let mut r = cursor(&[3]);
    assert_eq!(
        COLOR_PRIMARIES::from_reader(&mut r),
        Err(ParseError::UnknownEnumCode)
    );
}

#[test]
fn transfer_characteristics_known_and_reserved() {
    let mut r = cursor(&[13]);
    assert_eq!(
        TRANSFER_CHARACTERISTICS::from_reader(&mut r),
        Ok(TRANSFER_CHARACTERISTICS::TC_SRGB)
    );
    let mut r = cursor(&[19]);
    assert_eq!(
        TRANSFER_CHARACTERISTICS::from_reader(&mut r),
        Err(ParseError::UnknownEnumCode)
    );
}

#[test]
fn matrix_coefficients_known_and_reserved() {
    let mut r = cursor(&[0]);
    assert_eq!(
        MATRIX_COEFFICIENTS::from_reader(&mut r),
        Ok(MATRIX_COEFFICIENTS::MC_IDENTITY)
    );
    let mut r = cursor(&[15]);
    assert_eq!(
        MATRIX_COEFFICIENTS::from_reader(&mut r),
        Err(ParseError::UnknownEnumCode)
    );
}

#[test]
fn chroma_sample_position_all_codes_defined() {
    let expected = [
        CHROMA_SAMPLE_POSITION::CSP_UNKNOWN,
        CHROMA_SAMPLE_POSITION::CSP_VERTICAL,
        CHROMA_SAMPLE_POSITION::CSP_COLOCATED,
        CHROMA_SAMPLE_POSITION::CSP_RESERVED,
    ];
    for (code, want) in expected.iter().enumerate() {
        let mut b = Bits::new();
        b.push(code as u64, 2);
        let mut r = cursor(&b.into_vec());
        assert_eq!(CHROMA_SAMPLE_POSITION::from_reader(&mut r), Ok(*want));
    }
}

// -------------------------------------------------------------- OBU header

#[test]
fn obu_header_forbidden_bit_fails() {
    let mut r = cursor(&[0b1000_1010]);
    assert_eq!(OBU_Header::from_reader(&mut r), Err(ParseError::MalformedFraming));
}

#[test]
fn obu_header_without_extension() {
    // forbidden=0, type=1, ext=0, has_size=1, reserved=0
    let mut r = cursor(&[0b0_0001_010]);
    let h = OBU_Header::from_reader(&mut r).unwrap();
    assert_eq!(h.obu_forbidden_bit, 0);
    assert_eq!(h.obu_type, OBU_TYPE::OBU_SEQUENCE_HEADER);
    assert_eq!(h.obu_extension_flag, 0);
    assert_eq!(h.obu_has_size_field, 1);
    assert_eq!(h.obu_extension_header, None);
    assert_eq!(r.bits_consumed(), 8);
}

#[test]
fn obu_header_with_extension() {
    // forbidden=0, type=3, ext=1, has_size=0, reserved=0, then
    // temporal=5, spatial=2, reserved3=0
    let mut b = Bits::new();
    b.push(0, 1).push(3, 4).push(1, 1).push(0, 1).push(0, 1);
    b.push(5, 3).push(2, 2).push(0, 3);
    let mut r = cursor(&b.into_vec());
    let h = OBU_Header::from_reader(&mut r).unwrap();
    assert_eq!(h.obu_type, OBU_TYPE::OBU_FRAME_HEADER);
    assert_eq!(h.obu_extension_flag, 1);
    assert_eq!(
        h.obu_extension_header,
        Some(OBU_Extension_Header {
            temporal_id: 5,
            spatial_id: 2,
            extension_header_reserved_3bits: 0,
        })
    );
    assert_eq!(r.bits_consumed(), 16);
}

#[test]
fn resolve_size_explicit_field() {
    let mut r = cursor(&[0b0_0001_010, 0x05]);
    let h = OBU_Header::from_reader(&mut r).unwrap();
    let s = h.resolve_size(&mut r, 0).unwrap();
    assert_eq!(s.value, 5);
    assert_eq!(s.bytes_consumed, 1);
}

#[test]
fn resolve_size_implicit_from_container() {
    // has_size=0, ext=1: size = enclosing - 1 - 1.
    let mut b = Bits::new();
    b.push(0, 1).push(3, 4).push(1, 1).push(0, 1).push(0, 1);
    b.push(0, 3).push(0, 2).push(0, 3);
    let mut r = cursor(&b.into_vec());
    let h = OBU_Header::from_reader(&mut r).unwrap();
    let s = h.resolve_size(&mut r, 10).unwrap();
    assert_eq!(s.value, 8);
    assert_eq!(s.bytes_consumed, 0);
}

#[test]
fn resolve_size_underflow_is_framing_error() {
    let mut b = Bits::new();
    b.push(0, 1).push(3, 4).push(1, 1).push(0, 1).push(0, 1);
    b.push(0, 3).push(0, 2).push(0, 3);
    let mut r = cursor(&b.into_vec());
    let h = OBU_Header::from_reader(&mut r).unwrap();
    assert_eq!(h.resolve_size(&mut r, 1), Err(ParseError::MalformedFraming));
}

// ------------------------------------------------------------ layer filter

fn frame_header_with_layers(temporal_id: u8, spatial_id: u8) -> OBU_Header {
    OBU_Header {
        obu_forbidden_bit: 0,
        obu_type: OBU_TYPE::OBU_FRAME_HEADER,
        obu_extension_flag: 1,
        obu_has_size_field: 1,
        obu_reserved_1bit: 0,
        obu_extension_header: Some(OBU_Extension_Header {
            temporal_id,
            spatial_id,
            extension_header_reserved_3bits: 0,
        }),
    }
}

#[test]
fn filter_zero_idc_includes_everything() {
    for t in 0..8 {
        for s in 0..4 {
            assert!(obu_is_included(0, &frame_header_with_layers(t, s)));
        }
    }
}

#[test]
fn filter_always_includes_sequence_header() {
    let mut h = frame_header_with_layers(7, 3);
    h.obu_type = OBU_TYPE::OBU_SEQUENCE_HEADER;
    // idc 0x0101 enables only temporal 0 and spatial 0.
    assert!(obu_is_included(0x0101, &h));
    h.obu_type = OBU_TYPE::OBU_TEMPORAL_DELIMITER;
    assert!(obu_is_included(0x0101, &h));
}

#[test]
fn filter_excludes_disabled_layers() {
    // idc 0x0101: temporal layer 0 and spatial layer 0 only.
    assert!(obu_is_included(0x0101, &frame_header_with_layers(0, 0)));
    assert!(!obu_is_included(0x0101, &frame_header_with_layers(1, 0)));
    assert!(!obu_is_included(0x0101, &frame_header_with_layers(0, 1)));
    // idc 0x0302: temporal layers 0-1 and spatial layers 0-1, but only
    // temporal 1 of them.
    assert!(!obu_is_included(0x0302, &frame_header_with_layers(0, 0)));
    assert!(obu_is_included(0x0302, &frame_header_with_layers(1, 1)));
}

#[test]
fn filter_includes_obu_without_extension() {
    let mut h = frame_header_with_layers(0, 0);
    h.obu_extension_flag = 0;
    h.obu_extension_header = None;
    assert!(obu_is_included(0x0101, &h));
}

// ------------------------------------------------------------ color config

#[test]
fn color_config_monochrome_shortcut() {
    // profile 0: high=0, mono=1, desc=0, range=1 -> stops after 4 bits.
    let mut b = Bits::new();
    b.push(0, 1).push(1, 1).push(0, 1).push(1, 1);
    let mut r = cursor(&b.into_vec());
    let cc = Color_Config::from_reader(&mut r, 0).unwrap();
    assert_eq!(cc.bit_depth, 8);
    assert_eq!(cc.mono_chrome, 1);
    assert_eq!(cc.num_planes, 1);
    assert_eq!(cc.color_range, 1);
    assert_eq!(cc.subsampling_x, 1);
    assert_eq!(cc.subsampling_y, 1);
    assert_eq!(cc.chroma_sample_position, CHROMA_SAMPLE_POSITION::CSP_UNKNOWN);
    assert_eq!(cc.separate_uv_delta_q, 0);
    assert_eq!(r.bits_consumed(), 4);
}

#[test]
fn color_config_srgb_shortcut() {
    // profile 0: high=0, mono=0, desc=1, cp=1, tc=13, mc=0, separate=1.
    let mut b = Bits::new();
    b.push(0, 1).push(0, 1).push(1, 1);
    b.push(1, 8).push(13, 8).push(0, 8);
    b.push(1, 1);
    let mut r = cursor(&b.into_vec());
    let cc = Color_Config::from_reader(&mut r, 0).unwrap();
    assert_eq!(cc.color_primaries, COLOR_PRIMARIES::CP_BT_709);
    assert_eq!(cc.transfer_characteristics, TRANSFER_CHARACTERISTICS::TC_SRGB);
    assert_eq!(cc.matrix_coefficients, MATRIX_COEFFICIENTS::MC_IDENTITY);
    assert_eq!(cc.color_range, 1);
    assert_eq!(cc.subsampling_x, 0);
    assert_eq!(cc.subsampling_y, 0);
    assert_eq!(cc.chroma_sample_position, CHROMA_SAMPLE_POSITION::CSP_UNKNOWN);
    assert_eq!(cc.separate_uv_delta_q, 1);
    // No range or subsampling bits were consumed.
    assert_eq!(r.bits_consumed(), 28);
}

#[test]
fn color_config_profile0_forces_420() {
    // high=0, mono=0, desc=0, range=1, csp=2, separate=1.
    let mut b = Bits::new();
    b.push(0, 1).push(0, 1).push(0, 1).push(1, 1).push(2, 2).push(1, 1);
    let mut r = cursor(&b.into_vec());
    let cc = Color_Config::from_reader(&mut r, 0).unwrap();
    assert_eq!(cc.bit_depth, 8);
    assert_eq!(cc.color_primaries, COLOR_PRIMARIES::CP_UNSPECIFIED);
    assert_eq!(cc.subsampling_x, 1);
    assert_eq!(cc.subsampling_y, 1);
    assert_eq!(cc.chroma_sample_position, CHROMA_SAMPLE_POSITION::CSP_COLOCATED);
    assert_eq!(cc.separate_uv_delta_q, 1);
    assert_eq!(r.bits_consumed(), 7);
}

#[test]
fn color_config_profile1_reads_subsampling_bits() {
    // profile 1: no mono bit; high=1 -> depth 10; desc=0, range=0,
    // sx=0, sy=0 -> no chroma position; separate=0.
    let mut b = Bits::new();
    b.push(1, 1).push(0, 1).push(0, 1).push(0, 1).push(0, 1).push(0, 1);
    let mut r = cursor(&b.into_vec());
    let cc = Color_Config::from_reader(&mut r, 1).unwrap();
    assert_eq!(cc.bit_depth, 10);
    assert_eq!(cc.mono_chrome, 0);
    assert_eq!(cc.subsampling_x, 0);
    assert_eq!(cc.subsampling_y, 0);
    assert_eq!(cc.chroma_sample_position, CHROMA_SAMPLE_POSITION::CSP_UNKNOWN);
    assert_eq!(r.bits_consumed(), 6);
}

#[test]
fn color_config_profile2_twelve_bit_subsampling() {
    // profile 2: high=1 -> depth 12; mono=0, desc=0, range=0,
    // sx=1 -> sy read =0, csp skipped (sy=0), separate=1.
    let mut b = Bits::new();
    b.push(1, 1).push(0, 1).push(0, 1).push(0, 1).push(1, 1).push(0, 1).push(1, 1);
    let mut r = cursor(&b.into_vec());
    let cc = Color_Config::from_reader(&mut r, 2).unwrap();
    assert_eq!(cc.bit_depth, 12);
    assert_eq!(cc.subsampling_x, 1);
    assert_eq!(cc.subsampling_y, 0);
    assert_eq!(cc.separate_uv_delta_q, 1);
    assert_eq!(r.bits_consumed(), 7);
}

#[test]
fn color_config_unknown_primaries_code_fails() {
    let mut b = Bits::new();
    b.push(0, 1).push(0, 1).push(1, 1).push(3, 8);
    let mut r = cursor(&b.into_vec());
    assert_eq!(
        Color_Config::from_reader(&mut r, 0),
        Err(ParseError::UnknownEnumCode)
    );
}

// -------------------------------------------------------- sequence header

/// The reduced still-picture payload used by several tests: profile 0,
/// still_picture 0, reduced 1, level 0, minimal frame size and flags, a
/// minimal color config, no film grain.  34 bits, 5 bytes padded.
fn reduced_payload() -> Vec<u8> {
    let mut b = Bits::new();
    b.push(0, 3).push(0, 1).push(1, 1); // profile, still, reduced
    b.push(0, 5); // seq_level_idx[0]
    b.push(0, 4).push(0, 4); // frame_width_bits-1, frame_height_bits-1
    b.push(0, 1).push(0, 1); // max width/height minus one (1 bit each)
    b.push(0, 1).push(0, 1).push(0, 1); // use_128x128, filter_intra, intra_edge
    b.push(0, 1).push(0, 1).push(0, 1); // superres, cdef, restoration
    b.push(0, 1).push(0, 1).push(0, 1); // high_bit_depth, mono, desc
    b.push(0, 1).push(0, 2).push(0, 1); // range, chroma position, separate_uv
    b.push(0, 1); // film grain
    b.into_vec()
}

#[test]
fn sequence_header_reduced_single_operating_point() {
    let mut r = cursor(&reduced_payload());
    let h =
        OBU_Sequence_Header::sequence_header_obu(&mut r, FeatureFlagPolarity::GeneralHeader)
            .unwrap();
    assert_eq!(h.seq_profile, 0);
    assert_eq!(h.still_picture, 0);
    assert_eq!(h.reduced_still_picture_header, 1);
    assert_eq!(h.timing_info, None);
    assert_eq!(h.decoder_model_info, None);
    assert_eq!(h.operating_points.len(), 1);
    assert_eq!(h.operating_points[0].operating_point_idc, 0);
    assert_eq!(h.operating_points[0].seq_level_idx, 0);
    assert_eq!(h.operating_points[0].seq_tier, 0);
    assert_eq!(h.operating_points[0].operating_parameters_info, None);
    assert_eq!(h.operating_points[0].initial_display_delay_minus_1, None);
    assert_eq!(h.c_operating_point_idc, 0);
    assert_eq!(h.max_frame_width_minus_one, 0);
    assert_eq!(h.max_frame_height_minus_one, 0);
    assert_eq!(h.delta_frame_id_length_minus_2, None);
    assert_eq!(h.additional_frame_id_length_minus_1, None);
    // The gated flag block was absent: defaults apply.
    assert_eq!(h.seq_force_screen_content_tools, SELECT_SCREEN_CONTENT_TOOLS);
    assert_eq!(h.seq_force_integer_mv, SELECT_INTEGER_MV);
    assert_eq!(h.enable_order_hint, 0);
    assert_eq!(h.order_hint_bits, 0);
    assert_eq!(h.color_config.bit_depth, 8);
    assert_eq!(h.film_grain_params_present, 0);
    assert_eq!(r.bits_consumed(), 34);
}

#[test]
fn sequence_header_reduced_with_flag_block_polarity() {
    // Under the other polarity the reduced header carries the extended
    // block: interintra..order_hint all 0, choose_sct=1, choose_imv=1.
    let mut b = Bits::new();
    b.push(0, 3).push(0, 1).push(1, 1);
    b.push(0, 5);
    b.push(0, 4).push(0, 4).push(0, 1).push(0, 1);
    b.push(0, 1).push(0, 1).push(0, 1); // base flags
    b.push(0, 5); // interintra, masked, warped, dual, order_hint
    b.push(1, 1).push(1, 1); // choose_sct, choose_imv
    b.push(0, 1).push(0, 1).push(0, 1); // superres, cdef, restoration
    b.push(0, 1).push(0, 1).push(0, 1); // color: high, mono, desc
    b.push(0, 1).push(0, 2).push(0, 1); // range, csp, separate
    b.push(0, 1); // film grain
    let payload = b.into_vec();
    let mut r = cursor(&payload);
    let h =
        OBU_Sequence_Header::sequence_header_obu(&mut r, FeatureFlagPolarity::ReducedHeader)
            .unwrap();
    assert_eq!(h.operating_points.len(), 1);
    assert_eq!(h.enable_order_hint, 0);
    assert_eq!(h.seq_force_screen_content_tools, SELECT_SCREEN_CONTENT_TOOLS);
    assert_eq!(h.seq_force_integer_mv, SELECT_INTEGER_MV);
    assert_eq!(r.bits_consumed(), 41);
}

#[test]
fn sequence_header_general_path() {
    let mut b = Bits::new();
    b.push(0, 3).push(0, 1).push(0, 1); // profile, still, reduced=0
    b.push(0, 1); // timing_info_present = 0
    b.push(0, 1); // initial_display_delay_present = 0
    b.push(1, 5); // operating_points_cnt_minus_1 = 1 -> 2 points
    // point 0: idc=1, level=0 (no tier bit)
    b.push(1, 12).push(0, 5);
    // point 1: idc=0, level=8 -> tier bit = 1
    b.push(0, 12).push(8, 5).push(1, 1);
    // frame size: width bits 16 (fwb=15), height bits 1
    b.push(15, 4).push(0, 4);
    b.push(0x1FF, 16).push(0, 1);
    // frame_id_numbers_present = 1: delta=5 (4 bits), additional=3 (3 bits)
    b.push(1, 1).push(5, 4).push(3, 3);
    // base flags
    b.push(1, 1).push(0, 1).push(1, 1);
    // extended block (read: general header polarity, reduced=0):
    // interintra=1, masked=0, warped=1, dual=0, order_hint=1
    b.push(1, 1).push(0, 1).push(1, 1).push(0, 1).push(1, 1);
    b.push(1, 1).push(0, 1); // jnt_comp, ref_frame_mvs
    b.push(0, 1).push(1, 1); // choose_sct=0 -> force_sct=1
    b.push(0, 1).push(1, 1); // choose_imv=0 -> force_imv=1
    b.push(2, 3); // order_hint_bits_minus_1=2 -> 3
    b.push(0, 1).push(1, 1).push(0, 1); // superres, cdef, restoration
    b.push(0, 1).push(0, 1).push(0, 1); // color: high, mono, desc
    b.push(1, 1).push(1, 2).push(0, 1); // range=1, csp=1, separate=0
    b.push(1, 1); // film grain
    let mut r = cursor(&b.into_vec());
    let h =
        OBU_Sequence_Header::sequence_header_obu(&mut r, FeatureFlagPolarity::GeneralHeader)
            .unwrap();
    assert_eq!(h.reduced_still_picture_header, 0);
    assert_eq!(h.operating_points.len(), 2);
    assert_eq!(h.operating_points[0].operating_point_idc, 1);
    assert_eq!(h.operating_points[0].seq_level_idx, 0);
    assert_eq!(h.operating_points[0].seq_tier, 0);
    assert_eq!(h.operating_points[1].operating_point_idc, 0);
    assert_eq!(h.operating_points[1].seq_level_idx, 8);
    assert_eq!(h.operating_points[1].seq_tier, 1);
    assert_eq!(h.c_operating_point_idc, 1);
    assert_eq!(h.frame_width_bits_minus_1, 15);
    assert_eq!(h.max_frame_width_minus_one, 0x1FF);
    assert_eq!(h.max_frame_height_minus_one, 0);
    assert_eq!(h.delta_frame_id_length_minus_2, Some(5));
    assert_eq!(h.additional_frame_id_length_minus_1, Some(3));
    assert_eq!(h.use_128x128_superblock, 1);
    assert_eq!(h.enable_filter_intra, 0);
    assert_eq!(h.enable_intra_edge_filter, 1);
    assert_eq!(h.enable_interintra_compound, 1);
    assert_eq!(h.enable_warped_motion, 1);
    assert_eq!(h.enable_order_hint, 1);
    assert_eq!(h.enable_jnt_comp, 1);
    assert_eq!(h.enable_ref_frame_mvs, 0);
    assert_eq!(h.seq_force_screen_content_tools, 1);
    assert_eq!(h.seq_force_integer_mv, 1);
    assert_eq!(h.order_hint_bits, 3);
    assert_eq!(h.enable_cdef, 1);
    assert_eq!(h.color_config.color_range, 1);
    assert_eq!(
        h.color_config.chroma_sample_position,
        CHROMA_SAMPLE_POSITION::CSP_VERTICAL
    );
    assert_eq!(h.film_grain_params_present, 1);
}

#[test]
fn sequence_header_timing_and_decoder_model() {
    let mut b = Bits::new();
    b.push(0, 3).push(1, 1).push(0, 1); // profile 0, still 1, reduced 0
    b.push(1, 1); // timing_info_present
    b.push(1001, 32).push(25, 32); // num_units_in_display_tick, time_scale
    b.push(1, 1); // equal_picture_interval
    b.push(1, 1); // UVLC: value 0
    b.push(1, 1); // decoder_model_info_present
    b.push(4, 5); // buffer_delay_length_minus_1 = 4 -> width 5
    b.push(7, 32).push(2, 5).push(3, 5); // decoding tick, removal, presentation
    b.push(1, 1); // initial_display_delay_present
    b.push(0, 5); // one operating point
    b.push(0, 12).push(0, 5); // idc, level (no tier)
    b.push(1, 1); // decoder_model_present_for_this_op
    b.push(9, 5).push(17, 5).push(1, 1); // decoder/encoder delay, low_delay
    b.push(1, 1).push(6, 4); // idd present, initial_display_delay_minus_1
    b.push(0, 4).push(0, 4).push(0, 1).push(0, 1); // frame sizes
    b.push(0, 1); // frame_id_numbers_present = 0
    b.push(0, 1).push(0, 1).push(0, 1); // base flags
    // extended block (reduced=0, general polarity): all minimal
    b.push(0, 5).push(1, 1).push(1, 1);
    b.push(0, 1).push(0, 1).push(0, 1); // superres, cdef, restoration
    b.push(0, 1).push(0, 1).push(0, 1); // color
    b.push(0, 1).push(0, 2).push(0, 1);
    b.push(0, 1); // film grain
    let mut r = cursor(&b.into_vec());
    let h =
        OBU_Sequence_Header::sequence_header_obu(&mut r, FeatureFlagPolarity::GeneralHeader)
            .unwrap();
    assert_eq!(h.still_picture, 1);
    assert_eq!(
        h.timing_info,
        Some(Timing_Info {
            num_units_in_display_tick: 1001,
            time_scale: 25,
            equal_picture_interval: 1,
            num_ticks_per_picture_minus_1: Some(uvlc::new(0)),
        })
    );
    assert_eq!(
        h.decoder_model_info,
        Some(Decoder_Model_Info {
            buffer_delay_length_minus_1: 4,
            num_units_in_decoding_tick: 7,
            buffer_removal_delay_length_minus_1: 2,
            frame_presentation_delay_length_minus_1: 3,
        })
    );
    assert_eq!(h.operating_points.len(), 1);
    assert_eq!(h.operating_points[0].decoder_model_present_for_this_op, 1);
    assert_eq!(
        h.operating_points[0].operating_parameters_info,
        Some(Operating_Parameters_Info::new(9, 17, 1))
    );
    assert_eq!(h.operating_points[0].initial_display_delay_present_for_this_op, 1);
    assert_eq!(h.operating_points[0].initial_display_delay_minus_1, Some(6));
}

#[test]
fn sequence_header_eof() {
    let mut r = cursor(&[]);
    assert_eq!(
        OBU_Sequence_Header::sequence_header_obu(&mut r, FeatureFlagPolarity::GeneralHeader),
        Err(ParseError::UnexpectedEof)
    );
}

#[test]
fn select_operating_point_in_and_out_of_range() {
    let mut r = cursor(&reduced_payload());
    let mut h =
        OBU_Sequence_Header::sequence_header_obu(&mut r, FeatureFlagPolarity::GeneralHeader)
            .unwrap();
    assert_eq!(h.select_operating_point(0), Ok(()));
    assert_eq!(h.c_operating_point_idc, 0);
    assert_eq!(
        h.select_operating_point(1),
        Err(ParseError::InvariantViolation)
    );
}

// -------------------------------------------------------------- dispatcher

#[test]
fn obu_from_reader_reads_header_and_size() {
    let mut r = cursor(&[0b0_0010_010, 0x03]);
    let o = OBU::from_reader(&mut r).unwrap();
    assert_eq!(o.obu_header.obu_type, OBU_TYPE::OBU_TEMPORAL_DELIMITER);
    assert_eq!(o.obu_size.value, 3);
    assert_eq!(o.obu_size.bytes_consumed, 1);
    assert_eq!(o.sequence_header, None);
}

#[test]
fn open_bitstream_unit_temporal_delimiter() {
    let bytes = vec![0b0_0010_010, 0x00];
    let mut r = cursor(&bytes);
    let sel = FixedOperatingPointSelector { index: 0 };
    let o = OBU::open_bitstream_unit(
        &mut r,
        0,
        0,
        &sel,
        FeatureFlagPolarity::GeneralHeader,
    )
    .unwrap();
    assert_eq!(o.obu_header.obu_type, OBU_TYPE::OBU_TEMPORAL_DELIMITER);
    assert_eq!(o.obu_size.value, 0);
    assert!(o.included);
    assert_eq!(o.sequence_header, None);
    assert_eq!(r.bits_consumed(), 16);
}

#[test]
fn open_bitstream_unit_parses_sequence_header() {
    let mut bytes = vec![0b0_0001_010, 0x05];
    bytes.extend(reduced_payload());
    let mut r = cursor(&bytes);
    let sel = FixedOperatingPointSelector { index: 0 };
    let o = OBU::open_bitstream_unit(
        &mut r,
        0,
        0,
        &sel,
        FeatureFlagPolarity::GeneralHeader,
    )
    .unwrap();
    assert_eq!(o.obu_header.obu_type, OBU_TYPE::OBU_SEQUENCE_HEADER);
    assert_eq!(o.obu_size.value, 5);
    assert!(o.included);
    let h = o.sequence_header.unwrap();
    assert_eq!(h.operating_points.len(), 1);
    assert_eq!(h.c_operating_point_idc, 0);
    // The cursor lands on the next OBU boundary: header + size + payload.
    assert_eq!(r.bits_consumed(), (2 + 5) * 8);
}

#[test]
fn open_bitstream_unit_implicit_size() {
    // has_size=0: the payload size comes from the enclosing container.
    let mut bytes = vec![0b0_0001_000];
    bytes.extend(reduced_payload());
    let mut r = cursor(&bytes);
    let sel = FixedOperatingPointSelector { index: 0 };
    let o = OBU::open_bitstream_unit(
        &mut r,
        6,
        0,
        &sel,
        FeatureFlagPolarity::GeneralHeader,
    )
    .unwrap();
    assert_eq!(o.obu_size.value, 5);
    assert_eq!(o.obu_size.bytes_consumed, 0);
    assert!(o.sequence_header.is_some());
    assert_eq!(r.bits_consumed(), 6 * 8);
}

#[test]
fn open_bitstream_unit_size_underflow() {
    let bytes = vec![0b0_0001_000];
    let mut r = cursor(&bytes);
    let sel = FixedOperatingPointSelector { index: 0 };
    assert_eq!(
        OBU::open_bitstream_unit(&mut r, 0, 0, &sel, FeatureFlagPolarity::GeneralHeader),
        Err(ParseError::MalformedFraming)
    );
}

#[test]
fn open_bitstream_unit_skips_excluded_obu() {
    // Frame header OBU in temporal layer 1 under an idc that only enables
    // temporal layer 0: skipped, not parsed, not an error.
    let mut b = Bits::new();
    b.push(0, 1).push(3, 4).push(1, 1).push(1, 1).push(0, 1);
    b.push(1, 3).push(0, 2).push(0, 3);
    let mut bytes = b.into_vec();
    bytes.push(0x02); // size = 2
    bytes.push(0xAA);
    bytes.push(0xBB);
    let mut r = cursor(&bytes);
    let sel = FixedOperatingPointSelector { index: 0 };
    let o = OBU::open_bitstream_unit(
        &mut r,
        0,
        0x0101,
        &sel,
        FeatureFlagPolarity::GeneralHeader,
    )
    .unwrap();
    assert!(!o.included);
    assert_eq!(o.sequence_header, None);
    assert_eq!(r.bits_consumed(), 5 * 8);
}

#[test]
fn open_bitstream_unit_selector_out_of_range() {
    let mut bytes = vec![0b0_0001_010, 0x05];
    bytes.extend(reduced_payload());
    let mut r = cursor(&bytes);
    let sel = FixedOperatingPointSelector { index: 3 };
    assert_eq!(
        OBU::open_bitstream_unit(&mut r, 0, 0, &sel, FeatureFlagPolarity::GeneralHeader),
        Err(ParseError::InvariantViolation)
    );
}

#[test]
fn open_bitstream_unit_payload_overrun_is_framing_error() {
    // The sequence header needs 5 bytes but the OBU declares 1.
    let mut bytes = vec![0b0_0001_010, 0x01];
    bytes.extend(reduced_payload());
    let mut r = cursor(&bytes);
    let sel = FixedOperatingPointSelector { index: 0 };
    assert_eq!(
        OBU::open_bitstream_unit(&mut r, 0, 0, &sel, FeatureFlagPolarity::GeneralHeader),
        Err(ParseError::MalformedFraming)
    );
}

#[test]
fn open_bitstream_unit_truncated_payload() {
    let bytes = vec![0b0_0010_010, 0x10];
    let mut r = cursor(&bytes);
    let sel = FixedOperatingPointSelector { index: 0 };
    assert_eq!(
        OBU::open_bitstream_unit(&mut r, 0, 0, &sel, FeatureFlagPolarity::GeneralHeader),
        Err(ParseError::UnexpectedEof)
    );
}

#[test]
fn operating_parameters_info_new() {
    let o = Operating_Parameters_Info::new(1, 2, 1);
    assert_eq!(o.decoder_buffer_delay, 1);
    assert_eq!(o.encoder_buffer_delay, 2);
    assert_eq!(o.low_delay_mode_flag, 1);
}
