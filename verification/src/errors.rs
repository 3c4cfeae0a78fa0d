//! Error taxonomy of the parser.

use vstd::prelude::*;

verus! {

/// Failure of the bit-level parser or of the frame sequencer.
///
/// Parsing failures surface unchanged to the caller; the sequencer performs
/// no local recovery.
#[derive(Debug, Copy, Clone, PartialEq, Eq, Structural)]
pub enum HevcError {
    /// The reader was asked for more bits than the buffer holds.
    BitstreamUnderrun,
    /// The top bit of a NAL header was set.
    ForbiddenZeroBit,
    /// A reserved pattern with a fixed required value held something else.
    ReservedBitsViolation,
    /// A decoded field is outside the range the rest of the syntax can
    /// tolerate (an oversized exp-Golomb code, a shift amount past the word
    /// size, an id past its table, or a picture-order count that cannot be
    /// represented).
    FieldOutOfRange,
    /// A slice header referenced a PPS id with no active PPS.
    InvalidPpsId,
    /// The active PPS referenced an SPS id with no active SPS.
    InvalidSpsId,
    /// An SEI payload size runs past the end of the NAL unit.
    PayloadExceedsNalu,
    /// A NAL of an unexpected type was handed to a decoder; holds the
    /// nal_unit_type found.
    UnexpectedNalType(u8),
}

} // verus!
