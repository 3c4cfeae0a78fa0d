//! NAL unit and frame descriptors, and the HEVC nal_unit_type constants.

use vstd::prelude::*;

use crate::NALUStartCode;
use crate::slice::SliceNAL;

verus! {

pub const NAL_TRAIL_N: u8 = 0;

pub const NAL_TRAIL_R: u8 = 1;

pub const NAL_TSA_N: u8 = 2;

pub const NAL_TSA_R: u8 = 3;

pub const NAL_STSA_N: u8 = 4;

pub const NAL_STSA_R: u8 = 5;

pub const NAL_RADL_N: u8 = 6;

pub const NAL_RADL_R: u8 = 7;

pub const NAL_RASL_N: u8 = 8;

pub const NAL_RASL_R: u8 = 9;

pub const NAL_BLA_W_LP: u8 = 16;

pub const NAL_BLA_W_RADL: u8 = 17;

pub const NAL_BLA_N_LP: u8 = 18;

pub const NAL_IDR_W_RADL: u8 = 19;

pub const NAL_IDR_N_LP: u8 = 20;

pub const NAL_CRA_NUT: u8 = 21;

pub const NAL_IRAP_VCL23: u8 = 23;

pub const NAL_VPS: u8 = 32;

pub const NAL_SPS: u8 = 33;

pub const NAL_PPS: u8 = 34;

pub const NAL_AUD: u8 = 35;

pub const NAL_EOS_NUT: u8 = 36;

pub const NAL_EOB_NUT: u8 = 37;

pub const NAL_FD_NUT: u8 = 38;

pub const NAL_SEI_PREFIX: u8 = 39;

pub const NAL_SEI_SUFFIX: u8 = 40;

pub const NAL_UNSPEC62: u8 = 62;

pub const NAL_UNSPEC63: u8 = 63;

pub const USER_DATA_REGISTERED_ITU_T_35: u8 = 4;

/// Whether `nal_type` is one of the coded-slice kinds: the trailing,
/// temporal and step-wise sub-layer and leading pictures (0 through 9) and
/// the intra random-access pictures (16 through 23, the two reserved IRAP
/// kinds included).
pub open spec fn is_slice_type(nal_type: u8) -> bool {
    nal_type <= 9 || (16 <= nal_type <= 23)
}

/// One NAL unit, identified by its byte range inside the chunk it was found
/// in, the kind of start code that introduced it, and its header fields.
#[derive(Debug, Clone, Copy)]
pub struct NALUnit {
    /// Index of the first payload byte (past the start code).
    pub start: usize,
    /// Index one past the last payload byte.
    pub end: usize,
    /// The 6-bit nal_unit_type.
    pub nal_type: u8,
    /// The 6-bit nuh_layer_id.
    pub nuh_layer_id: u8,
    /// The 3-bit nuh_temporal_id_plus1, minus one.
    pub temporal_id: u8,
    /// Kind of start code found before the payload.
    pub start_code: NALUStartCode,
    /// Index of the access unit this NAL belongs to, in decode order.
    pub decoded_frame_index: u64,
}

impl NALUnit {
    /// Whether `nal_type` is one of the coded-slice kinds.
    pub fn is_type_slice(nal_type: u8) -> (r: bool)
        ensures
            r == is_slice_type(nal_type),
    {
        nal_type <= NAL_RASL_R || (NAL_BLA_W_LP <= nal_type && nal_type <= NAL_IRAP_VCL23)
    }

    /// Whether this NAL unit carries a coded slice.
    pub fn is_slice(&self) -> (r: bool)
        ensures
            r == is_slice_type(self.nal_type),
    {
        Self::is_type_slice(self.nal_type)
    }

    /// A NAL unit with empty range and zeroed header fields.
    pub fn empty() -> (r: NALUnit)
        ensures
            r == NALUnit::empty_spec(),
    {
        NALUnit {
            start: 0,
            end: 0,
            nal_type: 0,
            nuh_layer_id: 0,
            temporal_id: 0,
            start_code: NALUStartCode::Length3,
            decoded_frame_index: 0,
        }
    }

    /// The zeroed NAL unit value.
    pub open spec fn empty_spec() -> NALUnit {
        NALUnit {
            start: 0,
            end: 0,
            nal_type: 0,
            nuh_layer_id: 0,
            temporal_id: 0,
            start_code: NALUStartCode::Length3,
            decoded_frame_index: 0,
        }
    }
}

/// One access unit: its decode and presentation order numbers, the
/// slice_type of its first slice, the NAL units composing it, and a copy of
/// its first slice header.
#[derive(Debug, Clone)]
pub struct Frame {
    pub decoded_number: u64,
    pub presentation_number: u64,
    /// slice_type of the first slice: 0 is B, 1 is P, 2 is I.
    pub frame_type: u64,
    pub nals: Vec<NALUnit>,
    pub first_slice: SliceNAL,
}

impl Frame {
    /// A fresh frame with no slice recorded and no NAL units attached.
    pub fn empty() -> (r: Frame)
        ensures
            r.decoded_number == 0,
            r.presentation_number == 0,
            r.frame_type == 0,
            r.nals@.len() == 0,
            r.first_slice == SliceNAL::empty_spec(),
    {
        Frame {
            decoded_number: 0,
            presentation_number: 0,
            frame_type: 0,
            nals: Vec::new(),
            first_slice: SliceNAL::empty(),
        }
    }
}

} // verus!
