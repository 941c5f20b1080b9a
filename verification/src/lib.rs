//! Parser for the Open Bitstream Unit (OBU) layer of an AV1 elementary
//! stream: bit-level cursor, variable-length integer codecs, OBU framing,
//! layer filtering, and full Sequence Header / Color Config decoding.
#![allow(non_camel_case_types)]

pub mod bits;
pub mod varint;
pub mod consts;
pub mod color;
pub mod sequence_header;
pub mod obu;

use vstd::prelude::*;

verus! {

/// The ways a parse can fail.  Failures abort the enclosing structure's
/// parse: bit-stream misalignment cannot be recovered from within a single
/// structure.
#[derive(Clone, Copy, Debug, PartialEq, Eq, Structural)]
pub enum ParseError {
    /// A read ran past the end of the input buffer.
    UnexpectedEof,
    /// The forbidden bit was set, the OBU type code was reserved, or an
    /// implicit payload size underflowed.
    MalformedFraming,
    /// An LEB128 encoding did not terminate within its 8-byte bound.
    TruncatedVarint,
    /// A color primaries / transfer characteristics / matrix coefficients /
    /// chroma sample position code fell outside its closed table.
    UnknownEnumCode,
    /// An internal consistency requirement failed, such as an
    /// operating-point index chosen out of bounds.
    InvariantViolation,
}

} // verus!
