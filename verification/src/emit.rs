//! Writer-side helpers: input-format and start-code descriptors, buffered
//! frame data, and the access-unit-delimiter synthesiser.

use vstd::prelude::*;

use crate::nal::{NAL_AUD, NAL_PPS, NAL_SPS, NAL_UNSPEC62, NAL_VPS};
use crate::NALUStartCode;

verus! {

/// The kind of input a stream comes from: a raw Annex B file, a raw
/// Annex B pipe, or a Matroska container.
#[derive(Debug, Clone, Copy, PartialEq, Eq, Structural)]
pub enum IoFormat {
    Raw,
    RawStdin,
    Matroska,
}

/// The start-code policy of an Annex B writer: always four bytes, or the
/// Annex B mix (four bytes for access-unit openers and parameter sets,
/// three otherwise).
#[derive(Debug, Clone, Copy, PartialEq, Eq, Structural)]
pub enum StartCodePreset {
    Four,
    AnnexB,
}

/// Data for one frame, with its decode-order number.
#[derive(Debug, Clone)]
pub struct FrameBuffer {
    pub frame_number: u64,
    pub nals: Vec<NalBuffer>,
}

/// Data for one NAL unit, without its start code.
#[derive(Debug, Clone)]
pub struct NalBuffer {
    pub nal_type: u8,
    pub start_code: NALUStartCode,
    pub data: Vec<u8>,
}

/// Options for the stream processor: whether to stop after one buffered
/// frame, whether to decode the NAL payloads, and an optional frame limit.
#[derive(Debug, Clone, Copy)]
pub struct HevcProcessorOpts {
    pub buffer_frame: bool,
    pub parse_nals: bool,
    pub limit: Option<u64>,
}

impl Default for HevcProcessorOpts {
    fn default() -> (r: Self)
        ensures
            r.buffer_frame == false,
            r.parse_nals == true,
            r.limit is None,
    {
        HevcProcessorOpts { buffer_frame: false, parse_nals: true, limit: None }
    }
}

/// Whether `nal_type` is conventionally written with a four-byte start
/// code: a parameter set, an access-unit delimiter, or unspecified 62.
pub open spec fn is_four_sized_type(nal_type: u8) -> bool {
    ||| nal_type == NAL_VPS
    ||| nal_type == NAL_SPS
    ||| nal_type == NAL_PPS
    ||| nal_type == NAL_AUD
    ||| nal_type == NAL_UNSPEC62
}

/// The start code a writer puts before a NAL: always four bytes under the
/// `Four` preset; under `AnnexB`, four bytes for the first NAL of an
/// access unit and for the conventionally four-sized types, three bytes
/// otherwise.
pub fn start_code_for_nal(preset: StartCodePreset, nal_type: u8, first_nal: bool) -> (r:
    NALUStartCode)
    ensures
        r == (match preset {
            StartCodePreset::Four => NALUStartCode::Length4,
            StartCodePreset::AnnexB => if is_four_sized_type(nal_type) || first_nal {
                NALUStartCode::Length4
            } else {
                NALUStartCode::Length3
            },
        }),
{
    match preset {
        StartCodePreset::Four => NALUStartCode::Length4,
        StartCodePreset::AnnexB => {
            if nal_type == NAL_VPS || nal_type == NAL_SPS || nal_type == NAL_PPS || nal_type
                == NAL_AUD || nal_type == NAL_UNSPEC62 || first_nal {
                NALUStartCode::Length4
            } else {
                NALUStartCode::Length3
            }
        },
    }
}

/// The three-bit pic_type an access-unit delimiter advertises for a frame
/// type: zero for intra, one for predictive, two for bidirectional, seven
/// otherwise.
pub open spec fn aud_pic_type(frame_type: u64) -> u8 {
    if frame_type == 2 {
        0
    } else if frame_type == 1 {
        1
    } else if frame_type == 0 {
        2
    } else {
        7
    }
}

/// The encoded access-unit delimiter for a frame, after the start code:
/// a zero forbidden bit, nal_unit_type 35 over six bits, a zero layer id,
/// a temporal id of one, then pic_type over three bits, a stop bit and
/// zero padding to byte alignment.  That is the two fixed header bytes
/// `46 01` followed by `pic_type` in the top three bits of a byte whose
/// fourth bit is the stop bit.
pub fn aud_for_frame(frame: &crate::nal::Frame, start_code: Option<NALUStartCode>) -> (r: Vec<u8>)
    ensures
        r@ == (match start_code {
            Some(sc) => sc.bytes(),
            None => Seq::<u8>::empty(),
        }) + seq![0x46u8, 0x01u8, ((aud_pic_type(frame.frame_type) << 5u8) | 0x10u8)],
{
    let pic_type: u8 = if frame.frame_type == 2 {
        0
    } else if frame.frame_type == 1 {
        1
    } else if frame.frame_type == 0 {
        2
    } else {
        7
    };
    let mut out: Vec<u8> = Vec::new();
    match start_code {
        Some(sc) => {
            match sc {
                NALUStartCode::Length3 => {
                    out.push(0);
                    out.push(0);
                    out.push(1);
                },
                NALUStartCode::Length4 => {
                    out.push(0);
                    out.push(0);
                    out.push(0);
                    out.push(1);
                },
            }
        },
        None => {},
    }
    out.push(0x46);
    out.push(0x01);
    out.push((pic_type << 5u8) | 0x10u8);
    proof {
        assert(out@ =~= (match start_code {
            Some(sc) => sc.bytes(),
            None => Seq::<u8>::empty(),
        }) + seq![0x46u8, 0x01u8, ((aud_pic_type(frame.frame_type) << 5u8) | 0x10u8)]);
    }
    out
}

} // verus!
